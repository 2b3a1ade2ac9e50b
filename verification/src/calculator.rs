//! The snapshot that a sequence of migration steps leads to: each step is
//! applied to the snapshot that the steps before it have led to.

use crate::index::{IndexDefinition, IndexDefinitionView};
use crate::model::{named, Model, ModelView};
use crate::schema::{model_named, Datamodel, DatamodelView};
use crate::seqs::{first_position, is_first, lemma_first_none, lemma_first_position, views};
use crate::steps::{InferenceError, InferenceErrorView, MigrationStep, StepView};
use crate::text::{opt_str_clone, str_eq};
use vstd::prelude::*;

verus! {

/// Indexes that are like `index` in everything.
pub open spec fn same_index(index: IndexDefinitionView) -> spec_fn(IndexDefinitionView) -> bool {
    |x: IndexDefinitionView| x == index
}

/// The model that a step creates: it has a name, and nothing else yet.
pub open spec fn created(name: Seq<char>, database_name: Option<Seq<char>>) -> ModelView {
    ModelView {
        name,
        fields: Seq::empty(),
        documentation: None,
        database_name,
        indices: Seq::empty(),
        primary_key: None,
        is_generated: false,
        is_commented_out: false,
        is_ignored: false,
    }
}

/// What a step turns a model into, or why it cannot be applied to it.
pub open spec fn apply_to_model(m: ModelView, s: StepView) -> Result<
    ModelView,
    InferenceErrorView,
> {
    match s {
        StepView::CreateField { model, field } => if m.has_field(field.name) {
            Err(InferenceErrorView::FieldExists { model, field: field.name })
        } else {
            Ok(ModelView { fields: m.fields.push(field), ..m })
        },
        StepView::DeleteField { model, field } => match first_position(m.fields, named(field)) {
            Some(j) => Ok(ModelView { fields: m.fields.remove(j), ..m }),
            None => Err(InferenceErrorView::UnknownField { model, field }),
        },
        StepView::UpdateField { model, before, after } => match first_position(
            m.fields,
            named(before.name),
        ) {
            Some(j) => Ok(ModelView { fields: m.fields.update(j, after), ..m }),
            None => Err(InferenceErrorView::UnknownField { model, field: before.name }),
        },
        StepView::CreateIndex { index, .. } => Ok(
            ModelView { indices: m.indices.push(index), ..m },
        ),
        StepView::DeleteIndex { model, index } => match first_position(
            m.indices,
            same_index(index),
        ) {
            Some(k) => Ok(ModelView { indices: m.indices.remove(k), ..m }),
            None => Err(InferenceErrorView::UnknownIndex { model }),
        },
        StepView::CreatePrimaryKey { model, primary_key } => if m.primary_key is Some {
            Err(InferenceErrorView::PrimaryKeyExists { model })
        } else {
            Ok(ModelView { primary_key: Some(primary_key), ..m })
        },
        StepView::DeletePrimaryKey { model, .. } => if m.primary_key is Some {
            Ok(ModelView { primary_key: None, ..m })
        } else {
            Err(InferenceErrorView::UnknownPrimaryKey { model })
        },
        StepView::CreateModel { .. } => Ok(m),
        StepView::DeleteModel { .. } => Ok(m),
    }
}

/// What a step turns a snapshot into, or why it cannot be applied to it.
///
/// A model is created after the models there are, without fields; it must
/// not exist yet. Every other step is about the first model of its name,
/// which must exist. A field or an index is created after those there are;
/// a field must not exist yet. What is deleted or updated must exist, and
/// the first of its name, or the first index like it, is meant. A primary
/// key is created only where there is none.
pub open spec fn apply_step(d: DatamodelView, s: StepView) -> Result<
    DatamodelView,
    InferenceErrorView,
> {
    match s {
        StepView::CreateModel { model, database_name } => if d.has_model(model) {
            Err(InferenceErrorView::ModelExists { model })
        } else {
            Ok(DatamodelView { models: d.models.push(created(model, database_name)), ..d })
        },
        StepView::DeleteModel { model } => match first_position(d.models, model_named(model)) {
            Some(i) => Ok(DatamodelView { models: d.models.remove(i), ..d }),
            None => Err(InferenceErrorView::UnknownModel { model }),
        },
        _ => match first_position(d.models, model_named(s.model())) {
            Some(i) => match apply_to_model(d.models[i], s) {
                Ok(m) => Ok(DatamodelView { models: d.models.update(i, m), ..d }),
                Err(e) => Err(e),
            },
            None => Err(InferenceErrorView::UnknownModel { model: s.model() }),
        },
    }
}

/// What the first `n` of the steps turn a snapshot into, or the error of
/// the first of them that cannot be applied.
pub open spec fn apply_first(d: DatamodelView, steps: Seq<StepView>, n: nat) -> Result<
    DatamodelView,
    InferenceErrorView,
>
    decreases n,
{
    if n == 0 {
        Ok(d)
    } else {
        match apply_first(d, steps, (n - 1) as nat) {
            Ok(x) => apply_step(x, steps[n - 1]),
            Err(e) => Err(e),
        }
    }
}

/// What the steps turn a snapshot into.
pub open spec fn apply_steps(d: DatamodelView, steps: Seq<StepView>) -> Result<
    DatamodelView,
    InferenceErrorView,
> {
    apply_first(d, steps, steps.len())
}

/// The mathematical content of a snapshot or of the error in its place.
pub open spec fn snapshot_view(r: Result<Datamodel, InferenceError>) -> Result<
    DatamodelView,
    InferenceErrorView,
> {
    match r {
        Ok(d) => Ok(d@),
        Err(e) => Err(e@),
    }
}

impl Model {
    /// The position of the first field called `name`.
    pub fn field_position(&self, name: &str) -> (r: Option<usize>)
        ensures
            r is Some <==> self@.has_field(name@),
            match r {
                Some(j) => first_position(self@.fields, named(name@)) == Some(j as int)
                    && is_first(self@.fields, named(name@), j as int),
                None => first_position(self@.fields, named(name@)) is None,
            },
    {
        let mut i: usize = 0;
        while i < self.fields.len()
            invariant
                i <= self.fields.len(),
                forall|k: int| 0 <= k < i ==> !named(name@)(#[trigger] self@.fields[k]),
            decreases self.fields.len() - i,
        {
            if str_eq(self.fields[i].name(), name) {
                proof {
                    lemma_first_position(self@.fields, named(name@), i as int);
                }
                return Some(i);
            }
            i = i + 1;
        }
        proof {
            lemma_first_none(self@.fields, named(name@));
        }
        None
    }

    /// The position of the first index that is like `index` in everything.
    pub fn index_position(&self, index: &IndexDefinition) -> (r: Option<usize>)
        ensures
            match r {
                Some(k) => first_position(self@.indices, same_index(index@)) == Some(k as int)
                    && is_first(self@.indices, same_index(index@), k as int),
                None => first_position(self@.indices, same_index(index@)) is None,
            },
    {
        let mut i: usize = 0;
        while i < self.indices.len()
            invariant
                i <= self.indices.len(),
                forall|k: int| 0 <= k < i ==> !same_index(index@)(#[trigger] self@.indices[k]),
            decreases self.indices.len() - i,
        {
            if self.indices[i] == *index {
                proof {
                    lemma_first_position(self@.indices, same_index(index@), i as int);
                }
                return Some(i);
            }
            i = i + 1;
        }
        proof {
            lemma_first_none(self@.indices, same_index(index@));
        }
        None
    }

    /// Applies to this model a step that is about it: one that creates,
    /// deletes or updates a field, an index or the primary key. Where the
    /// step cannot be applied, the model stays as it is.
    pub fn apply(&mut self, s: &MigrationStep) -> (r: Result<(), InferenceError>)
        ensures
            match r {
                Ok(_) => apply_to_model(old(self)@, s@) == Ok::<ModelView, InferenceErrorView>(
                    final(self)@,
                ),
                Err(e) => apply_to_model(old(self)@, s@) == Err::<ModelView, InferenceErrorView>(
                    e@,
                ) && final(self)@ == old(self)@,
            },
    {
        match s {
            MigrationStep::CreateField { model, field } => {
                if self.has_field(field.name()) {
                    return Err(
                        InferenceError::FieldExists {
                            model: model.clone(),
                            field: field.name().to_owned(),
                        },
                    );
                }
                self.add_field(field.clone());
                Ok(())
            },
            MigrationStep::DeleteField { model, field } => match self.field_position(
                field.as_str(),
            ) {
                Some(j) => {
                    self.fields.remove(j);
                    assert(self@.fields =~= old(self)@.fields.remove(j as int));
                    Ok(())
                },
                None => Err(
                    InferenceError::UnknownField { model: model.clone(), field: field.clone() },
                ),
            },
            MigrationStep::UpdateField { model, before, after } => match self.field_position(
                before.name(),
            ) {
                Some(j) => {
                    self.fields[j] = after.clone();
                    assert(self@.fields =~= old(self)@.fields.update(j as int, after@));
                    Ok(())
                },
                None => Err(
                    InferenceError::UnknownField {
                        model: model.clone(),
                        field: before.name().to_owned(),
                    },
                ),
            },
            MigrationStep::CreateIndex { index, .. } => {
                self.add_index(index.clone());
                Ok(())
            },
            MigrationStep::DeleteIndex { model, index } => match self.index_position(index) {
                Some(k) => {
                    self.indices.remove(k);
                    assert(self@.indices =~= old(self)@.indices.remove(k as int));
                    Ok(())
                },
                None => Err(InferenceError::UnknownIndex { model: model.clone() }),
            },
            MigrationStep::CreatePrimaryKey { model, primary_key } => {
                if self.primary_key.is_some() {
                    return Err(InferenceError::PrimaryKeyExists { model: model.clone() });
                }
                self.primary_key = Some(primary_key.clone());
                Ok(())
            },
            MigrationStep::DeletePrimaryKey { model, .. } => {
                if self.primary_key.is_none() {
                    return Err(InferenceError::UnknownPrimaryKey { model: model.clone() });
                }
                self.primary_key = None;
                Ok(())
            },
            MigrationStep::CreateModel { .. } => Ok(()),
            MigrationStep::DeleteModel { .. } => Ok(()),
        }
    }
}

impl Datamodel {
    /// The position of the first model called `name`.
    pub fn model_position(&self, name: &str) -> (r: Option<usize>)
        ensures
            r is Some <==> self@.has_model(name@),
            match r {
                Some(i) => first_position(self@.models, model_named(name@)) == Some(i as int)
                    && is_first(self@.models, model_named(name@), i as int),
                None => first_position(self@.models, model_named(name@)) is None,
            },
    {
        let mut i: usize = 0;
        while i < self.models.len()
            invariant
                i <= self.models.len(),
                forall|k: int| 0 <= k < i ==> !model_named(name@)(#[trigger] self@.models[k]),
            decreases self.models.len() - i,
        {
            if str_eq(self.models[i].name.as_str(), name) {
                proof {
                    lemma_first_position(self@.models, model_named(name@), i as int);
                }
                return Some(i);
            }
            i = i + 1;
        }
        proof {
            lemma_first_none(self@.models, model_named(name@));
        }
        None
    }

    /// Applies a step to this snapshot. Where the step cannot be applied,
    /// the snapshot stays as it is.
    pub fn apply(&mut self, s: &MigrationStep) -> (r: Result<(), InferenceError>)
        ensures
            match r {
                Ok(_) => apply_step(old(self)@, s@) == Ok::<DatamodelView, InferenceErrorView>(
                    final(self)@,
                ),
                Err(e) => apply_step(old(self)@, s@) == Err::<DatamodelView, InferenceErrorView>(
                    e@,
                ) && final(self)@ == old(self)@,
            },
    {
        match s {
            MigrationStep::CreateModel { model, database_name } => {
                if self.model_position(model.as_str()).is_some() {
                    return Err(InferenceError::ModelExists { model: model.clone() });
                }
                self.add_model(Model::new(model.clone(), opt_str_clone(database_name)));
                Ok(())
            },
            MigrationStep::DeleteModel { model } => match self.model_position(model.as_str()) {
                Some(i) => {
                    self.models.remove(i);
                    assert(self@.models =~= old(self)@.models.remove(i as int));
                    Ok(())
                },
                None => Err(InferenceError::UnknownModel { model: model.clone() }),
            },
            _ => match self.model_position(s.model()) {
                Some(i) => {
                    let r = self.models[i].apply(s);
                    assert(self@.models =~= old(self)@.models.update(
                        i as int,
                        self.models@[i as int]@,
                    ));
                    assert(self@.composite_types =~= old(self)@.composite_types);
                    if r.is_err() {
                        assert(self@.models =~= old(self)@.models);
                    }
                    r
                },
                None => Err(InferenceError::UnknownModel { model: s.model().to_owned() }),
            },
        }
    }
}

proof fn lemma_apply_fails_on(d: DatamodelView, steps: Seq<StepView>, k: nat, n: nat)
    requires
        k <= n,
        apply_first(d, steps, k) is Err,
    ensures
        apply_first(d, steps, n) == apply_first(d, steps, k),
    decreases n,
{
    if k < n {
        lemma_apply_fails_on(d, steps, k, (n - 1) as nat);
    }
}

/// The snapshot that the steps lead to from the snapshot `current`, which
/// itself stays as it is: the state that is assumed where the steps are
/// taken as applied.
///
/// Fails with the error of the first step that cannot be applied.
pub fn assume_applied(current: &Datamodel, steps: &Vec<MigrationStep>) -> (r: Result<
    Datamodel,
    InferenceError,
>)
    ensures
        snapshot_view(r) == apply_steps(current@, views(steps@)),
{
    let mut d = current.clone();
    let mut i: usize = 0;
    while i < steps.len()
        invariant
            i <= steps.len(),
            apply_first(current@, views(steps@), i as nat) == Ok::<
                DatamodelView,
                InferenceErrorView,
            >(d@),
        decreases steps.len() - i,
    {
        match d.apply(&steps[i]) {
            Ok(_) => {},
            Err(e) => {
                proof {
                    lemma_apply_fails_on(current@, views(steps@), (i + 1) as nat, steps@.len());
                }
                return Err(e);
            },
        }
        i = i + 1;
    }
    Ok(d)
}

} // verus!
