//! The inference of migration steps: what has to change to turn one schema
//! snapshot into another.
//!
//! Models are matched by name, and so are the fields of matched models. An
//! index or a primary key is matched as a whole: where anything of it
//! differs, the old one is deleted and the new one created. A field or a
//! model under a new name is a deletion and a creation.
//!
//! The steps come in six groups, in this order: models created; fields
//! created and updated; indexes and primary keys deleted; indexes and primary
//! keys created; fields deleted; models deleted. So a step about an index or
//! a primary key stands after the creation or update of every field and
//! before the deletion of any, and no step refers to a model that does not
//! exist yet, or no longer.

use crate::field::{Field, FieldView};
use crate::index::{
    IndexDefinition, IndexDefinitionView, IndexFieldLocation, IndexFieldLocationView,
    IndexFieldView, PrimaryKeyDefinition, PrimaryKeyDefinitionView,
};
use crate::model::{Model, ModelView};
use crate::schema::{Datamodel, DatamodelView};
use crate::seqs::{
    first, lemma_first_none, lemma_first_position, lemma_flat_map_nothing, lemma_flat_map_step,
    opt_view, views,
};
use crate::steps::{
    CompositeReference, CompositeReferenceView, InferenceError, InferenceErrorView, MigrationStep,
    StepView,
};
use crate::text::opt_str_clone;
use vstd::prelude::*;

verus! {

/// The first field called `name` of the model, if there is a model.
pub open spec fn find_field_in(m: Option<ModelView>, name: Seq<char>) -> Option<FieldView> {
    match m {
        Some(m) => m.find_field(name),
        None => None,
    }
}

/// Whether there is a model, and it has an index like `index` in everything.
pub open spec fn has_index(m: Option<ModelView>, index: IndexDefinitionView) -> bool {
    m matches Some(x) && x.indices.contains(index)
}

/// The primary key of the model, if there is a model and it has one.
pub open spec fn key_of(m: Option<ModelView>) -> Option<PrimaryKeyDefinitionView> {
    match m {
        Some(m) => m.primary_key,
        None => None,
    }
}

/// The creation of a model that `before` does not hold.
pub open spec fn created_model(before: DatamodelView) -> spec_fn(ModelView) -> Seq<StepView> {
    |a: ModelView|
        if before.has_model(a.name) {
            Seq::empty()
        } else {
            seq![StepView::CreateModel { model: a.name, database_name: a.database_name }]
        }
}

/// The deletion of an index of `model` that `other` does not hold.
pub open spec fn dropped_index(model: Seq<char>, other: Option<ModelView>) -> spec_fn(
    IndexDefinitionView,
) -> Seq<StepView> {
    |i: IndexDefinitionView|
        if has_index(other, i) {
            Seq::empty()
        } else {
            seq![StepView::DeleteIndex { model, index: i }]
        }
}

/// The deletion of the primary key of `m`, unless `other` has the same.
pub open spec fn dropped_key(m: ModelView, other: Option<ModelView>) -> Seq<StepView> {
    match m.primary_key {
        Some(pk) => if key_of(other) == Some(pk) {
            Seq::empty()
        } else {
            seq![StepView::DeletePrimaryKey { model: m.name, primary_key: pk }]
        },
        None => Seq::empty(),
    }
}

/// The deletions of the indexes and of the primary key of a model of the
/// earlier snapshot.
pub open spec fn dropped_constraints(after: DatamodelView) -> spec_fn(ModelView) -> Seq<StepView> {
    |b: ModelView|
        b.indices.flat_map(dropped_index(b.name, after.find_model(b.name))) + dropped_key(
            b,
            after.find_model(b.name),
        )
}

/// The creation of a field of `model` that `other` does not hold, or its
/// update where `other` holds it otherwise.
pub open spec fn changed_field(model: Seq<char>, other: Option<ModelView>) -> spec_fn(
    FieldView,
) -> Seq<StepView> {
    |f: FieldView|
        match find_field_in(other, f.name) {
            None => seq![StepView::CreateField { model, field: f }],
            Some(g) => if g == f {
                Seq::empty()
            } else {
                seq![StepView::UpdateField { model, before: g, after: f }]
            },
        }
}

/// The creations and updates of the fields of a model of the later snapshot.
pub open spec fn changed_fields(before: DatamodelView) -> spec_fn(ModelView) -> Seq<StepView> {
    |a: ModelView| a.fields.flat_map(changed_field(a.name, before.find_model(a.name)))
}

/// The creation of an index of `model` that `other` does not hold.
pub open spec fn created_index(model: Seq<char>, other: Option<ModelView>) -> spec_fn(
    IndexDefinitionView,
) -> Seq<StepView> {
    |i: IndexDefinitionView|
        if has_index(other, i) {
            Seq::empty()
        } else {
            seq![StepView::CreateIndex { model, index: i }]
        }
}

/// The creation of the primary key of `m`, unless `other` has the same.
pub open spec fn created_key(m: ModelView, other: Option<ModelView>) -> Seq<StepView> {
    match m.primary_key {
        Some(pk) => if key_of(other) == Some(pk) {
            Seq::empty()
        } else {
            seq![StepView::CreatePrimaryKey { model: m.name, primary_key: pk }]
        },
        None => Seq::empty(),
    }
}

/// The creations of the indexes and of the primary key of a model of the
/// later snapshot.
pub open spec fn created_constraints(before: DatamodelView) -> spec_fn(ModelView) -> Seq<StepView> {
    |a: ModelView|
        a.indices.flat_map(created_index(a.name, before.find_model(a.name))) + created_key(
            a,
            before.find_model(a.name),
        )
}

/// The deletion of a field of `model` whose name `other` does not hold.
pub open spec fn dropped_field(model: Seq<char>, other: Option<ModelView>) -> spec_fn(
    FieldView,
) -> Seq<StepView> {
    |f: FieldView|
        if find_field_in(other, f.name) is Some {
            Seq::empty()
        } else {
            seq![StepView::DeleteField { model, field: f.name }]
        }
}

/// The deletions of the fields of a model of the earlier snapshot.
pub open spec fn dropped_fields(after: DatamodelView) -> spec_fn(ModelView) -> Seq<StepView> {
    |b: ModelView| b.fields.flat_map(dropped_field(b.name, after.find_model(b.name)))
}

/// The deletion of a model that `after` does not hold.
pub open spec fn dropped_model(after: DatamodelView) -> spec_fn(ModelView) -> Seq<StepView> {
    |b: ModelView|
        if after.has_model(b.name) {
            Seq::empty()
        } else {
            seq![StepView::DeleteModel { model: b.name }]
        }
}

/// The steps that lead from `before` to `after`.
pub open spec fn diff_steps(before: DatamodelView, after: DatamodelView) -> Seq<StepView> {
    after.models.flat_map(created_model(before)) + after.models.flat_map(
        changed_fields(before),
    ) + before.models.flat_map(dropped_constraints(after)) + after.models.flat_map(
        created_constraints(before),
    ) + before.models.flat_map(dropped_fields(after)) + before.models.flat_map(
        dropped_model(after),
    )
}

/// The reference that a field of an index of `model` makes into a composite
/// type, if it makes one.
pub open spec fn reference_of(model: Seq<char>) -> spec_fn(IndexFieldView) -> Seq<
    CompositeReferenceView,
> {
    |f: IndexFieldView|
        match f.location {
            IndexFieldLocationView::InCurrentModel { .. } => Seq::empty(),
            IndexFieldLocationView::InCompositeType {
                composite_type_name,
                field_name,
                full_path,
            } => seq![
                CompositeReferenceView {
                    model,
                    composite_type: composite_type_name,
                    field: field_name,
                    full_path,
                },
            ],
        }
}

/// The references that an index of `model` makes into composite types.
pub open spec fn references_of_index(model: Seq<char>) -> spec_fn(IndexDefinitionView) -> Seq<
    CompositeReferenceView,
> {
    |i: IndexDefinitionView| i.fields.flat_map(reference_of(model))
}

/// The references that the indexes of a model make into composite types.
pub open spec fn references_of_model() -> spec_fn(ModelView) -> Seq<CompositeReferenceView> {
    |m: ModelView| m.indices.flat_map(references_of_index(m.name))
}

/// All references that indexes of the snapshot make into composite types: in
/// the order of the models, of their indexes, and of the fields of each.
pub open spec fn composite_references(d: DatamodelView) -> Seq<CompositeReferenceView> {
    d.models.flat_map(references_of_model())
}

/// References to what the snapshot does not hold.
pub open spec fn dangling(d: DatamodelView) -> spec_fn(CompositeReferenceView) -> bool {
    |r: CompositeReferenceView|
        !(d.find_composite_type(r.composite_type) matches Some(t) && t.has_field(r.field))
}

/// The first reference of an index of the snapshot into a composite type that
/// leads nowhere.
pub open spec fn first_dangling_reference(d: DatamodelView) -> Option<CompositeReferenceView> {
    first(composite_references(d), dangling(d))
}

/// What the inference from `before` to `after` comes to: the steps of
/// [`diff_steps`], unless an index of `after` refers to a field of a
/// composite type that `after` does not hold; then the first such reference
/// is the error.
pub open spec fn diff_outcome(before: DatamodelView, after: DatamodelView) -> Result<
    Seq<StepView>,
    InferenceErrorView,
> {
    match first_dangling_reference(after) {
        Some(x) => Err(InferenceErrorView::UnresolvedCompositePath(x)),
        None => Ok(diff_steps(before, after)),
    }
}

/// The mathematical content of the result of an inference.
pub open spec fn outcome_view(r: Result<Vec<MigrationStep>, InferenceError>) -> Result<
    Seq<StepView>,
    InferenceErrorView,
> {
    match r {
        Ok(steps) => Ok(views(steps@)),
        Err(e) => Err(e@),
    }
}

fn extend(out: &mut Vec<MigrationStep>, step: MigrationStep)
    ensures
        views(final(out)@) == views(old(out)@) + seq![step@],
{
    out.push(step);
    assert(views(out@) =~= views(old(out)@) + seq![step@]);
}

proof fn lemma_unchanged(s: Seq<StepView>)
    ensures
        s + Seq::<StepView>::empty() == s,
{
    assert(s + Seq::<StepView>::empty() =~= s);
}

fn index_among(indices: &Vec<IndexDefinition>, index: &IndexDefinition) -> (r: bool)
    ensures
        r == views(indices@).contains(index@),
{
    let mut i: usize = 0;
    while i < indices.len()
        invariant
            i <= indices.len(),
            forall|k: int| 0 <= k < i ==> views(indices@)[k] != index@,
        decreases indices.len() - i,
    {
        if indices[i] == *index {
            assert(views(indices@)[i as int] == index@);
            return true;
        }
        i = i + 1;
    }
    false
}

fn model_has_index(other: Option<&Model>, index: &IndexDefinition) -> (r: bool)
    ensures
        r == has_index(opt_view(other), index@),
{
    match other {
        Some(m) => index_among(&m.indices, index),
        None => false,
    }
}

fn same_key(other: Option<&Model>, key: &PrimaryKeyDefinition) -> (r: bool)
    ensures
        r == (key_of(opt_view(other)) == Some(key@)),
{
    match other {
        Some(m) => match &m.primary_key {
            Some(k) => k == key,
            None => false,
        },
        None => false,
    }
}

fn field_in<'a>(other: Option<&'a Model>, name: &str) -> (r: Option<&'a Field>)
    ensures
        opt_view(r) == find_field_in(opt_view(other), name@),
{
    match other {
        Some(m) => m.find_field(name),
        None => None,
    }
}

fn push_created_models(out: &mut Vec<MigrationStep>, before: &Datamodel, after: &Datamodel)
    ensures
        views(final(out)@) == views(old(out)@) + after@.models.flat_map(created_model(before@)),
{
    let mut i: usize = 0;
    proof {
        lemma_flat_map_nothing(after@.models.take(0), created_model(before@));
        lemma_unchanged(views(out@));
        assert(after@.models.take(after@.models.len() as int) =~= after@.models);
    }
    while i < after.models.len()
        invariant
            i <= after.models.len(),
            views(out@) == views(old(out)@) + after@.models.take(i as int).flat_map(
                created_model(before@),
            ),
        decreases after.models.len() - i,
    {
        let a = &after.models[i];
        proof {
            lemma_flat_map_step(after@.models, created_model(before@), i as int);
        }
        let ghost so_far = views(out@);
        if before.find_model(a.name.as_str()).is_none() {
            extend(
                out,
                MigrationStep::CreateModel {
                    model: a.name.clone(),
                    database_name: opt_str_clone(&a.database_name),
                },
            );
        } else {
            proof {
                lemma_unchanged(so_far);
            }
        }
        assert(views(out@) == so_far + created_model(before@)(after@.models[i as int]));
        assert(views(out@) =~= views(old(out)@) + after@.models.take(i + 1).flat_map(
            created_model(before@),
        ));
        i = i + 1;
    }
    assert(after@.models.take(i as int) =~= after@.models);
}

fn push_dropped_indexes(out: &mut Vec<MigrationStep>, m: &Model, other: Option<&Model>)
    ensures
        views(final(out)@) == views(old(out)@) + m@.indices.flat_map(
            dropped_index(m@.name, opt_view(other)),
        ),
{
    let mut i: usize = 0;
    proof {
        lemma_flat_map_nothing(m@.indices.take(0), dropped_index(m@.name, opt_view(other)));
        lemma_unchanged(views(out@));
        assert(m@.indices.take(m@.indices.len() as int) =~= m@.indices);
    }
    while i < m.indices.len()
        invariant
            i <= m.indices.len(),
            views(out@) == views(old(out)@) + m@.indices.take(i as int).flat_map(
                dropped_index(m@.name, opt_view(other)),
            ),
        decreases m.indices.len() - i,
    {
        let x = &m.indices[i];
        proof {
            lemma_flat_map_step(m@.indices, dropped_index(m@.name, opt_view(other)), i as int);
        }
        let ghost so_far = views(out@);
        if model_has_index(other, x) {
            proof {
                lemma_unchanged(so_far);
            }
        } else {
            extend(out, MigrationStep::DeleteIndex { model: m.name.clone(), index: x.clone() });
        }
        assert(views(out@) == so_far + dropped_index(m@.name, opt_view(other))(
            m@.indices[i as int],
        ));
        assert(views(out@) =~= views(old(out)@) + m@.indices.take(i + 1).flat_map(
            dropped_index(m@.name, opt_view(other)),
        ));
        i = i + 1;
    }
    assert(m@.indices.take(i as int) =~= m@.indices);
}

fn push_dropped_key(out: &mut Vec<MigrationStep>, m: &Model, other: Option<&Model>)
    ensures
        views(final(out)@) == views(old(out)@) + dropped_key(m@, opt_view(other)),
{
    proof {
        lemma_unchanged(views(out@));
    }
    if let Some(pk) = &m.primary_key {
        if !same_key(other, pk) {
            extend(
                out,
                MigrationStep::DeletePrimaryKey { model: m.name.clone(), primary_key: pk.clone() },
            );
        }
    }
}

fn push_dropped_constraints(out: &mut Vec<MigrationStep>, before: &Datamodel, after: &Datamodel)
    ensures
        views(final(out)@) == views(old(out)@) + before@.models.flat_map(
            dropped_constraints(after@),
        ),
{
    let mut i: usize = 0;
    proof {
        lemma_flat_map_nothing(before@.models.take(0), dropped_constraints(after@));
        lemma_unchanged(views(out@));
        assert(before@.models.take(before@.models.len() as int) =~= before@.models);
    }
    while i < before.models.len()
        invariant
            i <= before.models.len(),
            views(out@) == views(old(out)@) + before@.models.take(i as int).flat_map(
                dropped_constraints(after@),
            ),
        decreases before.models.len() - i,
    {
        let m = &before.models[i];
        proof {
            lemma_flat_map_step(before@.models, dropped_constraints(after@), i as int);
        }
        let ghost so_far = views(out@);
        let other = after.find_model(m.name.as_str());
        push_dropped_indexes(out, m, other);
        push_dropped_key(out, m, other);
        assert(views(out@) =~= so_far + dropped_constraints(after@)(before@.models[i as int]));
        assert(views(out@) =~= views(old(out)@) + before@.models.take(i + 1).flat_map(
            dropped_constraints(after@),
        ));
        i = i + 1;
    }
    assert(before@.models.take(i as int) =~= before@.models);
}

fn push_changed_fields_of(out: &mut Vec<MigrationStep>, m: &Model, other: Option<&Model>)
    ensures
        views(final(out)@) == views(old(out)@) + m@.fields.flat_map(
            changed_field(m@.name, opt_view(other)),
        ),
{
    let mut i: usize = 0;
    proof {
        lemma_flat_map_nothing(m@.fields.take(0), changed_field(m@.name, opt_view(other)));
        lemma_unchanged(views(out@));
        assert(m@.fields.take(m@.fields.len() as int) =~= m@.fields);
    }
    while i < m.fields.len()
        invariant
            i <= m.fields.len(),
            views(out@) == views(old(out)@) + m@.fields.take(i as int).flat_map(
                changed_field(m@.name, opt_view(other)),
            ),
        decreases m.fields.len() - i,
    {
        let x = &m.fields[i];
        proof {
            lemma_flat_map_step(m@.fields, changed_field(m@.name, opt_view(other)), i as int);
        }
        let ghost so_far = views(out@);
        match field_in(other, x.name()) {
            None => {
                extend(out, MigrationStep::CreateField { model: m.name.clone(), field: x.clone() });
            },
            Some(g) => {
                if *g == *x {
                    proof {
                        lemma_unchanged(so_far);
                    }
                } else {
                    extend(
                        out,
                        MigrationStep::UpdateField {
                            model: m.name.clone(),
                            before: g.clone(),
                            after: x.clone(),
                        },
                    );
                }
            },
        }
        assert(views(out@) == so_far + changed_field(m@.name, opt_view(other))(
            m@.fields[i as int],
        ));
        assert(views(out@) =~= views(old(out)@) + m@.fields.take(i + 1).flat_map(
            changed_field(m@.name, opt_view(other)),
        ));
        i = i + 1;
    }
    assert(m@.fields.take(i as int) =~= m@.fields);
}

fn push_changed_fields(out: &mut Vec<MigrationStep>, before: &Datamodel, after: &Datamodel)
    ensures
        views(final(out)@) == views(old(out)@) + after@.models.flat_map(changed_fields(before@)),
{
    let mut i: usize = 0;
    proof {
        lemma_flat_map_nothing(after@.models.take(0), changed_fields(before@));
        lemma_unchanged(views(out@));
        assert(after@.models.take(after@.models.len() as int) =~= after@.models);
    }
    while i < after.models.len()
        invariant
            i <= after.models.len(),
            views(out@) == views(old(out)@) + after@.models.take(i as int).flat_map(
                changed_fields(before@),
            ),
        decreases after.models.len() - i,
    {
        let m = &after.models[i];
        proof {
            lemma_flat_map_step(after@.models, changed_fields(before@), i as int);
        }
        let ghost so_far = views(out@);
        let other = before.find_model(m.name.as_str());
        push_changed_fields_of(out, m, other);
        assert(views(out@) =~= so_far + changed_fields(before@)(after@.models[i as int]));
        assert(views(out@) =~= views(old(out)@) + after@.models.take(i + 1).flat_map(
            changed_fields(before@),
        ));
        i = i + 1;
    }
    assert(after@.models.take(i as int) =~= after@.models);
}

fn push_created_indexes(out: &mut Vec<MigrationStep>, m: &Model, other: Option<&Model>)
    ensures
        views(final(out)@) == views(old(out)@) + m@.indices.flat_map(
            created_index(m@.name, opt_view(other)),
        ),
{
    let mut i: usize = 0;
    proof {
        lemma_flat_map_nothing(m@.indices.take(0), created_index(m@.name, opt_view(other)));
        lemma_unchanged(views(out@));
        assert(m@.indices.take(m@.indices.len() as int) =~= m@.indices);
    }
    while i < m.indices.len()
        invariant
            i <= m.indices.len(),
            views(out@) == views(old(out)@) + m@.indices.take(i as int).flat_map(
                created_index(m@.name, opt_view(other)),
            ),
        decreases m.indices.len() - i,
    {
        let x = &m.indices[i];
        proof {
            lemma_flat_map_step(m@.indices, created_index(m@.name, opt_view(other)), i as int);
        }
        let ghost so_far = views(out@);
        if model_has_index(other, x) {
            proof {
                lemma_unchanged(so_far);
            }
        } else {
            extend(out, MigrationStep::CreateIndex { model: m.name.clone(), index: x.clone() });
        }
        assert(views(out@) == so_far + created_index(m@.name, opt_view(other))(
            m@.indices[i as int],
        ));
        assert(views(out@) =~= views(old(out)@) + m@.indices.take(i + 1).flat_map(
            created_index(m@.name, opt_view(other)),
        ));
        i = i + 1;
    }
    assert(m@.indices.take(i as int) =~= m@.indices);
}

fn push_created_key(out: &mut Vec<MigrationStep>, m: &Model, other: Option<&Model>)
    ensures
        views(final(out)@) == views(old(out)@) + created_key(m@, opt_view(other)),
{
    proof {
        lemma_unchanged(views(out@));
    }
    if let Some(pk) = &m.primary_key {
        if !same_key(other, pk) {
            extend(
                out,
                MigrationStep::CreatePrimaryKey { model: m.name.clone(), primary_key: pk.clone() },
            );
        }
    }
}

fn push_created_constraints(out: &mut Vec<MigrationStep>, before: &Datamodel, after: &Datamodel)
    ensures
        views(final(out)@) == views(old(out)@) + after@.models.flat_map(
            created_constraints(before@),
        ),
{
    let mut i: usize = 0;
    proof {
        lemma_flat_map_nothing(after@.models.take(0), created_constraints(before@));
        lemma_unchanged(views(out@));
        assert(after@.models.take(after@.models.len() as int) =~= after@.models);
    }
    while i < after.models.len()
        invariant
            i <= after.models.len(),
            views(out@) == views(old(out)@) + after@.models.take(i as int).flat_map(
                created_constraints(before@),
            ),
        decreases after.models.len() - i,
    {
        let m = &after.models[i];
        proof {
            lemma_flat_map_step(after@.models, created_constraints(before@), i as int);
        }
        let ghost so_far = views(out@);
        let other = before.find_model(m.name.as_str());
        push_created_indexes(out, m, other);
        push_created_key(out, m, other);
        assert(views(out@) =~= so_far + created_constraints(before@)(after@.models[i as int]));
        assert(views(out@) =~= views(old(out)@) + after@.models.take(i + 1).flat_map(
            created_constraints(before@),
        ));
        i = i + 1;
    }
    assert(after@.models.take(i as int) =~= after@.models);
}

fn push_dropped_fields_of(out: &mut Vec<MigrationStep>, m: &Model, other: Option<&Model>)
    ensures
        views(final(out)@) == views(old(out)@) + m@.fields.flat_map(
            dropped_field(m@.name, opt_view(other)),
        ),
{
    let mut i: usize = 0;
    proof {
        lemma_flat_map_nothing(m@.fields.take(0), dropped_field(m@.name, opt_view(other)));
        lemma_unchanged(views(out@));
        assert(m@.fields.take(m@.fields.len() as int) =~= m@.fields);
    }
    while i < m.fields.len()
        invariant
            i <= m.fields.len(),
            views(out@) == views(old(out)@) + m@.fields.take(i as int).flat_map(
                dropped_field(m@.name, opt_view(other)),
            ),
        decreases m.fields.len() - i,
    {
        let x = &m.fields[i];
        proof {
            lemma_flat_map_step(m@.fields, dropped_field(m@.name, opt_view(other)), i as int);
        }
        let ghost so_far = views(out@);
        if field_in(other, x.name()).is_some() {
            proof {
                lemma_unchanged(so_far);
            }
        } else {
            extend(
                out,
                MigrationStep::DeleteField { model: m.name.clone(), field: x.name().to_owned() },
            );
        }
        assert(views(out@) == so_far + dropped_field(m@.name, opt_view(other))(
            m@.fields[i as int],
        ));
        assert(views(out@) =~= views(old(out)@) + m@.fields.take(i + 1).flat_map(
            dropped_field(m@.name, opt_view(other)),
        ));
        i = i + 1;
    }
    assert(m@.fields.take(i as int) =~= m@.fields);
}

fn push_dropped_fields(out: &mut Vec<MigrationStep>, before: &Datamodel, after: &Datamodel)
    ensures
        views(final(out)@) == views(old(out)@) + before@.models.flat_map(dropped_fields(after@)),
{
    let mut i: usize = 0;
    proof {
        lemma_flat_map_nothing(before@.models.take(0), dropped_fields(after@));
        lemma_unchanged(views(out@));
        assert(before@.models.take(before@.models.len() as int) =~= before@.models);
    }
    while i < before.models.len()
        invariant
            i <= before.models.len(),
            views(out@) == views(old(out)@) + before@.models.take(i as int).flat_map(
                dropped_fields(after@),
            ),
        decreases before.models.len() - i,
    {
        let m = &before.models[i];
        proof {
            lemma_flat_map_step(before@.models, dropped_fields(after@), i as int);
        }
        let ghost so_far = views(out@);
        let other = after.find_model(m.name.as_str());
        push_dropped_fields_of(out, m, other);
        assert(views(out@) =~= so_far + dropped_fields(after@)(before@.models[i as int]));
        assert(views(out@) =~= views(old(out)@) + before@.models.take(i + 1).flat_map(
            dropped_fields(after@),
        ));
        i = i + 1;
    }
    assert(before@.models.take(i as int) =~= before@.models);
}

fn push_dropped_models(out: &mut Vec<MigrationStep>, before: &Datamodel, after: &Datamodel)
    ensures
        views(final(out)@) == views(old(out)@) + before@.models.flat_map(dropped_model(after@)),
{
    let mut i: usize = 0;
    proof {
        lemma_flat_map_nothing(before@.models.take(0), dropped_model(after@));
        lemma_unchanged(views(out@));
        assert(before@.models.take(before@.models.len() as int) =~= before@.models);
    }
    while i < before.models.len()
        invariant
            i <= before.models.len(),
            views(out@) == views(old(out)@) + before@.models.take(i as int).flat_map(
                dropped_model(after@),
            ),
        decreases before.models.len() - i,
    {
        let m = &before.models[i];
        proof {
            lemma_flat_map_step(before@.models, dropped_model(after@), i as int);
        }
        let ghost so_far = views(out@);
        let other = after.find_model(m.name.as_str());
        if other.is_none() {
            extend(out, MigrationStep::DeleteModel { model: m.name.clone() });
        } else {
            proof {
                lemma_unchanged(so_far);
            }
        }
        assert(views(out@) =~= so_far + dropped_model(after@)(before@.models[i as int]));
        assert(views(out@) =~= views(old(out)@) + before@.models.take(i + 1).flat_map(
            dropped_model(after@),
        ));
        i = i + 1;
    }
    assert(before@.models.take(i as int) =~= before@.models);
}

fn note(out: &mut Vec<CompositeReference>, reference: CompositeReference)
    ensures
        views(final(out)@) == views(old(out)@) + seq![reference@],
{
    out.push(reference);
    assert(views(out@) =~= views(old(out)@) + seq![reference@]);
}

proof fn lemma_none_added(s: Seq<CompositeReferenceView>)
    ensures
        s + Seq::<CompositeReferenceView>::empty() == s,
{
    assert(s + Seq::<CompositeReferenceView>::empty() =~= s);
}

fn push_references_of_index(out: &mut Vec<CompositeReference>, m: &Model, index: &IndexDefinition)
    ensures
        views(final(out)@) == views(old(out)@) + references_of_index(m@.name)(index@),
{
    let mut i: usize = 0;
    proof {
        lemma_flat_map_nothing(index@.fields.take(0), reference_of(m@.name));
        lemma_none_added(views(out@));
        assert(index@.fields.take(index@.fields.len() as int) =~= index@.fields);
    }
    while i < index.fields.len()
        invariant
            i <= index.fields.len(),
            views(out@) == views(old(out)@) + index@.fields.take(i as int).flat_map(
                reference_of(m@.name),
            ),
        decreases index.fields.len() - i,
    {
        proof {
            lemma_flat_map_step(index@.fields, reference_of(m@.name), i as int);
        }
        let ghost so_far = views(out@);
        match &index.fields[i].location {
            IndexFieldLocation::InCurrentModel { .. } => {
                proof {
                    lemma_none_added(so_far);
                }
            },
            IndexFieldLocation::InCompositeType { composite_type_name, field_name, full_path } => {
                note(
                    out,
                    CompositeReference {
                        model: m.name.clone(),
                        composite_type: composite_type_name.clone(),
                        field: field_name.clone(),
                        full_path: full_path.clone(),
                    },
                );
            },
        }
        assert(views(out@) == so_far + reference_of(m@.name)(index@.fields[i as int]));
        assert(views(out@) =~= views(old(out)@) + index@.fields.take(i + 1).flat_map(
            reference_of(m@.name),
        ));
        i = i + 1;
    }
    assert(index@.fields.take(i as int) =~= index@.fields);
}

fn push_references_of_model(out: &mut Vec<CompositeReference>, m: &Model)
    ensures
        views(final(out)@) == views(old(out)@) + references_of_model()(m@),
{
    let mut i: usize = 0;
    proof {
        lemma_flat_map_nothing(m@.indices.take(0), references_of_index(m@.name));
        lemma_none_added(views(out@));
        assert(m@.indices.take(m@.indices.len() as int) =~= m@.indices);
    }
    while i < m.indices.len()
        invariant
            i <= m.indices.len(),
            views(out@) == views(old(out)@) + m@.indices.take(i as int).flat_map(
                references_of_index(m@.name),
            ),
        decreases m.indices.len() - i,
    {
        proof {
            lemma_flat_map_step(m@.indices, references_of_index(m@.name), i as int);
        }
        let ghost so_far = views(out@);
        push_references_of_index(out, m, &m.indices[i]);
        assert(views(out@) == so_far + references_of_index(m@.name)(m@.indices[i as int]));
        assert(views(out@) =~= views(old(out)@) + m@.indices.take(i + 1).flat_map(
            references_of_index(m@.name),
        ));
        i = i + 1;
    }
    assert(m@.indices.take(i as int) =~= m@.indices);
}

/// All references that indexes of the snapshot make into composite types.
pub fn collect_composite_references(d: &Datamodel) -> (r: Vec<CompositeReference>)
    ensures
        views(r@) == composite_references(d@),
{
    let mut out: Vec<CompositeReference> = Vec::new();
    let mut i: usize = 0;
    proof {
        lemma_flat_map_nothing(d@.models.take(0), references_of_model());
        assert(views(out@) =~= Seq::<CompositeReferenceView>::empty());
        assert(d@.models.take(d@.models.len() as int) =~= d@.models);
    }
    while i < d.models.len()
        invariant
            i <= d.models.len(),
            views(out@) == d@.models.take(i as int).flat_map(references_of_model()),
        decreases d.models.len() - i,
    {
        proof {
            lemma_flat_map_step(d@.models, references_of_model(), i as int);
        }
        push_references_of_model(&mut out, &d.models[i]);
        i = i + 1;
    }
    assert(d@.models.take(i as int) =~= d@.models);
    out
}

fn is_dangling(d: &Datamodel, reference: &CompositeReference) -> (r: bool)
    ensures
        r == dangling(d@)(reference@),
{
    match d.find_composite_type(reference.composite_type.as_str()) {
        Some(t) => !t.has_field(reference.field.as_str()),
        None => true,
    }
}

/// The first reference of an index of the snapshot into a composite type that
/// leads nowhere, if there is one.
pub fn find_dangling_reference(d: &Datamodel) -> (r: Option<CompositeReference>)
    ensures
        opt_view(r) == first_dangling_reference(d@),
{
    let references = collect_composite_references(d);
    let mut i: usize = 0;
    while i < references.len()
        invariant
            i <= references.len(),
            views(references@) == composite_references(d@),
            forall|k: int| 0 <= k < i ==> !dangling(d@)(#[trigger] views(references@)[k]),
        decreases references.len() - i,
    {
        let x = &references[i];
        if is_dangling(d, x) {
            proof {
                lemma_first_position(composite_references(d@), dangling(d@), i as int);
            }
            return Some(
                CompositeReference {
                    model: x.model.clone(),
                    composite_type: x.composite_type.clone(),
                    field: x.field.clone(),
                    full_path: x.full_path.clone(),
                },
            );
        }
        i = i + 1;
    }
    proof {
        lemma_first_none(composite_references(d@), dangling(d@));
    }
    None
}

/// Infers the steps that lead from the snapshot `before` to the snapshot
/// `after`.
///
/// Fails where an index of `after` refers to a field of a composite type
/// that `after` does not hold, and names the first such reference. Otherwise
/// the steps are those of [`diff_steps`], in that order.
pub fn diff(before: &Datamodel, after: &Datamodel) -> (r: Result<
    Vec<MigrationStep>,
    InferenceError,
>)
    ensures
        outcome_view(r) == diff_outcome(before@, after@),
{
    if let Some(reference) = find_dangling_reference(after) {
        return Err(InferenceError::UnresolvedCompositePath(reference));
    }
    let mut out: Vec<MigrationStep> = Vec::new();
    assert(views(out@) =~= Seq::<StepView>::empty());
    push_created_models(&mut out, before, after);
    push_changed_fields(&mut out, before, after);
    push_dropped_constraints(&mut out, before, after);
    push_created_constraints(&mut out, before, after);
    push_dropped_fields(&mut out, before, after);
    push_dropped_models(&mut out, before, after);
    assert(views(out@) =~= diff_steps(before@, after@));
    Ok(out)
}

} // verus!
