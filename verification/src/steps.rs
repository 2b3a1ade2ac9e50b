//! Migration steps: the changes that lead from one schema snapshot to
//! another, each naming what it creates, deletes or updates.

use crate::field::{Field, FieldView};
use crate::index::{
    IndexDefinition, IndexDefinitionView, PrimaryKeyDefinition, PrimaryKeyDefinitionView,
};
use crate::seqs::opt_view;
use crate::text::{opt_str_clone, opt_str_eq, str_eq};
use vstd::prelude::*;
use vstd::std_specs::cmp::PartialEqSpecImpl;

verus! {

/// One change to a schema.
#[derive(Debug)]
#[allow(inconsistent_fields)]
pub enum MigrationStep {
    CreateModel { model: String, database_name: Option<String> },
    DeleteModel { model: String },
    CreateField { model: String, field: Field },
    DeleteField { model: String, field: String },
    /// The field before and after, each in full.
    UpdateField { model: String, before: Field, after: Field },
    CreateIndex { model: String, index: IndexDefinition },
    DeleteIndex { model: String, index: IndexDefinition },
    CreatePrimaryKey { model: String, primary_key: PrimaryKeyDefinition },
    DeletePrimaryKey { model: String, primary_key: PrimaryKeyDefinition },
}

/// The mathematical content of a [`MigrationStep`].
#[allow(inconsistent_fields)]
pub ghost enum StepView {
    CreateModel { model: Seq<char>, database_name: Option<Seq<char>> },
    DeleteModel { model: Seq<char> },
    CreateField { model: Seq<char>, field: FieldView },
    DeleteField { model: Seq<char>, field: Seq<char> },
    UpdateField { model: Seq<char>, before: FieldView, after: FieldView },
    CreateIndex { model: Seq<char>, index: IndexDefinitionView },
    DeleteIndex { model: Seq<char>, index: IndexDefinitionView },
    CreatePrimaryKey { model: Seq<char>, primary_key: PrimaryKeyDefinitionView },
    DeletePrimaryKey { model: Seq<char>, primary_key: PrimaryKeyDefinitionView },
}

impl StepView {
    /// The name of the model that the step is about.
    pub open spec fn model(self) -> Seq<char> {
        match self {
            StepView::CreateModel { model, .. } => model,
            StepView::DeleteModel { model } => model,
            StepView::CreateField { model, .. } => model,
            StepView::DeleteField { model, .. } => model,
            StepView::UpdateField { model, .. } => model,
            StepView::CreateIndex { model, .. } => model,
            StepView::DeleteIndex { model, .. } => model,
            StepView::CreatePrimaryKey { model, .. } => model,
            StepView::DeletePrimaryKey { model, .. } => model,
        }
    }
}

impl StepView {
    /// Whether the step creates or deletes an index or a primary key.
    pub open spec fn is_about_constraint(self) -> bool {
        self is CreateIndex || self is DeleteIndex || self is CreatePrimaryKey || self
            is DeletePrimaryKey
    }

    /// Whether the step is about an index or a primary key that is on the
    /// field `field` of its model.
    pub open spec fn names_field(self, field: Seq<char>) -> bool {
        match self {
            StepView::CreateIndex { index, .. } => index.is_on_model_field(field),
            StepView::DeleteIndex { index, .. } => index.is_on_model_field(field),
            StepView::CreatePrimaryKey { primary_key, .. } => primary_key.is_on_field(field),
            StepView::DeletePrimaryKey { primary_key, .. } => primary_key.is_on_field(field),
            _ => false,
        }
    }

    /// Whether the step creates the field `field` of its model, or updates
    /// it: the field has that name before or after the update.
    pub open spec fn writes_field(self, field: Seq<char>) -> bool {
        match self {
            StepView::CreateField { field: f, .. } => f.name == field,
            StepView::UpdateField { before, after, .. } => before.name == field || after.name
                == field,
            _ => false,
        }
    }

    /// Whether the step deletes the field `field` of its model.
    pub open spec fn deletes_field(self, field: Seq<char>) -> bool {
        self matches StepView::DeleteField { field: f, .. } && f == field
    }
}

impl View for MigrationStep {
    type V = StepView;

    open spec fn view(&self) -> StepView {
        match *self {
            MigrationStep::CreateModel { model, database_name } => StepView::CreateModel {
                model: model@,
                database_name: opt_view(database_name),
            },
            MigrationStep::DeleteModel { model } => StepView::DeleteModel { model: model@ },
            MigrationStep::CreateField { model, field } => StepView::CreateField {
                model: model@,
                field: field@,
            },
            MigrationStep::DeleteField { model, field } => StepView::DeleteField {
                model: model@,
                field: field@,
            },
            MigrationStep::UpdateField { model, before, after } => StepView::UpdateField {
                model: model@,
                before: before@,
                after: after@,
            },
            MigrationStep::CreateIndex { model, index } => StepView::CreateIndex {
                model: model@,
                index: index@,
            },
            MigrationStep::DeleteIndex { model, index } => StepView::DeleteIndex {
                model: model@,
                index: index@,
            },
            MigrationStep::CreatePrimaryKey { model, primary_key } => StepView::CreatePrimaryKey {
                model: model@,
                primary_key: primary_key@,
            },
            MigrationStep::DeletePrimaryKey { model, primary_key } => StepView::DeletePrimaryKey {
                model: model@,
                primary_key: primary_key@,
            },
        }
    }
}

impl MigrationStep {
    /// The name of the model that the step is about.
    pub fn model(&self) -> (r: &str)
        ensures
            r@ == self@.model(),
    {
        match self {
            MigrationStep::CreateModel { model, .. } => model.as_str(),
            MigrationStep::DeleteModel { model } => model.as_str(),
            MigrationStep::CreateField { model, .. } => model.as_str(),
            MigrationStep::DeleteField { model, .. } => model.as_str(),
            MigrationStep::UpdateField { model, .. } => model.as_str(),
            MigrationStep::CreateIndex { model, .. } => model.as_str(),
            MigrationStep::DeleteIndex { model, .. } => model.as_str(),
            MigrationStep::CreatePrimaryKey { model, .. } => model.as_str(),
            MigrationStep::DeletePrimaryKey { model, .. } => model.as_str(),
        }
    }
}

impl Clone for MigrationStep {
    fn clone(&self) -> (r: Self)
        ensures
            r@ == self@,
    {
        match self {
            MigrationStep::CreateModel { model, database_name } => MigrationStep::CreateModel {
                model: model.clone(),
                database_name: opt_str_clone(database_name),
            },
            MigrationStep::DeleteModel { model } => MigrationStep::DeleteModel {
                model: model.clone(),
            },
            MigrationStep::CreateField { model, field } => MigrationStep::CreateField {
                model: model.clone(),
                field: field.clone(),
            },
            MigrationStep::DeleteField { model, field } => MigrationStep::DeleteField {
                model: model.clone(),
                field: field.clone(),
            },
            MigrationStep::UpdateField { model, before, after } => MigrationStep::UpdateField {
                model: model.clone(),
                before: before.clone(),
                after: after.clone(),
            },
            MigrationStep::CreateIndex { model, index } => MigrationStep::CreateIndex {
                model: model.clone(),
                index: index.clone(),
            },
            MigrationStep::DeleteIndex { model, index } => MigrationStep::DeleteIndex {
                model: model.clone(),
                index: index.clone(),
            },
            MigrationStep::CreatePrimaryKey { model, primary_key } => {
                MigrationStep::CreatePrimaryKey {
                    model: model.clone(),
                    primary_key: primary_key.clone(),
                }
            },
            MigrationStep::DeletePrimaryKey { model, primary_key } => {
                MigrationStep::DeletePrimaryKey {
                    model: model.clone(),
                    primary_key: primary_key.clone(),
                }
            },
        }
    }
}

impl PartialEq for MigrationStep {
    fn eq(&self, other: &Self) -> (r: bool) {
        match (self, other) {
            (
                MigrationStep::CreateModel { model: m1, database_name: d1 },
                MigrationStep::CreateModel { model: m2, database_name: d2 },
            ) => str_eq(m1.as_str(), m2.as_str()) && opt_str_eq(d1, d2),
            (MigrationStep::DeleteModel { model: m1 }, MigrationStep::DeleteModel { model: m2 }) => {
                str_eq(m1.as_str(), m2.as_str())
            },
            (
                MigrationStep::CreateField { model: m1, field: f1 },
                MigrationStep::CreateField { model: m2, field: f2 },
            ) => str_eq(m1.as_str(), m2.as_str()) && f1 == f2,
            (
                MigrationStep::DeleteField { model: m1, field: f1 },
                MigrationStep::DeleteField { model: m2, field: f2 },
            ) => str_eq(m1.as_str(), m2.as_str()) && str_eq(f1.as_str(), f2.as_str()),
            (
                MigrationStep::UpdateField { model: m1, before: b1, after: a1 },
                MigrationStep::UpdateField { model: m2, before: b2, after: a2 },
            ) => str_eq(m1.as_str(), m2.as_str()) && b1 == b2 && a1 == a2,
            (
                MigrationStep::CreateIndex { model: m1, index: i1 },
                MigrationStep::CreateIndex { model: m2, index: i2 },
            ) => str_eq(m1.as_str(), m2.as_str()) && i1 == i2,
            (
                MigrationStep::DeleteIndex { model: m1, index: i1 },
                MigrationStep::DeleteIndex { model: m2, index: i2 },
            ) => str_eq(m1.as_str(), m2.as_str()) && i1 == i2,
            (
                MigrationStep::CreatePrimaryKey { model: m1, primary_key: k1 },
                MigrationStep::CreatePrimaryKey { model: m2, primary_key: k2 },
            ) => str_eq(m1.as_str(), m2.as_str()) && k1 == k2,
            (
                MigrationStep::DeletePrimaryKey { model: m1, primary_key: k1 },
                MigrationStep::DeletePrimaryKey { model: m2, primary_key: k2 },
            ) => str_eq(m1.as_str(), m2.as_str()) && k1 == k2,
            _ => false,
        }
    }
}

impl PartialEqSpecImpl for MigrationStep {
    open spec fn obeys_eq_spec() -> bool {
        true
    }

    open spec fn eq_spec(&self, other: &Self) -> bool {
        self@ == other@
    }
}

/// A reference from an index of a model into a composite type.
#[derive(Debug)]
pub struct CompositeReference {
    pub model: String,
    pub composite_type: String,
    pub field: String,
    pub full_path: String,
}

/// The mathematical content of a [`CompositeReference`].
pub ghost struct CompositeReferenceView {
    pub model: Seq<char>,
    pub composite_type: Seq<char>,
    pub field: Seq<char>,
    pub full_path: Seq<char>,
}

impl View for CompositeReference {
    type V = CompositeReferenceView;

    open spec fn view(&self) -> CompositeReferenceView {
        CompositeReferenceView {
            model: self.model@,
            composite_type: self.composite_type@,
            field: self.field@,
            full_path: self.full_path@,
        }
    }
}

/// Why no migration could be inferred.
#[derive(Debug)]
pub enum InferenceError {
    /// An index refers to a field of a composite type that the snapshot does
    /// not hold.
    UnresolvedCompositePath(CompositeReference),
    /// A step is about a model that the snapshot does not hold.
    UnknownModel { model: String },
    /// A step creates a model that the snapshot holds already.
    ModelExists { model: String },
    /// A step is about a field that its model does not hold.
    UnknownField { model: String, field: String },
    /// A step creates a field that its model holds already.
    FieldExists { model: String, field: String },
    /// A step deletes an index that its model does not hold.
    UnknownIndex { model: String },
    /// A step deletes a primary key that its model does not have.
    UnknownPrimaryKey { model: String },
    /// A step creates a primary key for a model that has one already.
    PrimaryKeyExists { model: String },
}

/// The mathematical content of an [`InferenceError`].
pub ghost enum InferenceErrorView {
    UnresolvedCompositePath(CompositeReferenceView),
    UnknownModel { model: Seq<char> },
    ModelExists { model: Seq<char> },
    UnknownField { model: Seq<char>, field: Seq<char> },
    FieldExists { model: Seq<char>, field: Seq<char> },
    UnknownIndex { model: Seq<char> },
    UnknownPrimaryKey { model: Seq<char> },
    PrimaryKeyExists { model: Seq<char> },
}

impl View for InferenceError {
    type V = InferenceErrorView;

    open spec fn view(&self) -> InferenceErrorView {
        match *self {
            InferenceError::UnresolvedCompositePath(r) => {
                InferenceErrorView::UnresolvedCompositePath(r@)
            },
            InferenceError::UnknownModel { model } => InferenceErrorView::UnknownModel {
                model: model@,
            },
            InferenceError::ModelExists { model } => InferenceErrorView::ModelExists {
                model: model@,
            },
            InferenceError::UnknownField { model, field } => InferenceErrorView::UnknownField {
                model: model@,
                field: field@,
            },
            InferenceError::FieldExists { model, field } => InferenceErrorView::FieldExists {
                model: model@,
                field: field@,
            },
            InferenceError::UnknownIndex { model } => InferenceErrorView::UnknownIndex {
                model: model@,
            },
            InferenceError::UnknownPrimaryKey { model } => InferenceErrorView::UnknownPrimaryKey {
                model: model@,
            },
            InferenceError::PrimaryKeyExists { model } => InferenceErrorView::PrimaryKeyExists {
                model: model@,
            },
        }
    }
}

impl PartialEq for InferenceError {
    fn eq(&self, other: &Self) -> (r: bool) {
        match (self, other) {
            (
                InferenceError::UnresolvedCompositePath(a),
                InferenceError::UnresolvedCompositePath(b),
            ) => str_eq(a.model.as_str(), b.model.as_str()) && str_eq(
                a.composite_type.as_str(),
                b.composite_type.as_str(),
            ) && str_eq(a.field.as_str(), b.field.as_str()) && str_eq(
                a.full_path.as_str(),
                b.full_path.as_str(),
            ),
            (InferenceError::UnknownModel { model: a }, InferenceError::UnknownModel { model: b }) => {
                str_eq(a.as_str(), b.as_str())
            },
            (InferenceError::ModelExists { model: a }, InferenceError::ModelExists { model: b }) => {
                str_eq(a.as_str(), b.as_str())
            },
            (
                InferenceError::UnknownField { model: a, field: f },
                InferenceError::UnknownField { model: b, field: g },
            ) => str_eq(a.as_str(), b.as_str()) && str_eq(f.as_str(), g.as_str()),
            (
                InferenceError::FieldExists { model: a, field: f },
                InferenceError::FieldExists { model: b, field: g },
            ) => str_eq(a.as_str(), b.as_str()) && str_eq(f.as_str(), g.as_str()),
            (InferenceError::UnknownIndex { model: a }, InferenceError::UnknownIndex { model: b }) => {
                str_eq(a.as_str(), b.as_str())
            },
            (
                InferenceError::UnknownPrimaryKey { model: a },
                InferenceError::UnknownPrimaryKey { model: b },
            ) => str_eq(a.as_str(), b.as_str()),
            (
                InferenceError::PrimaryKeyExists { model: a },
                InferenceError::PrimaryKeyExists { model: b },
            ) => str_eq(a.as_str(), b.as_str()),
            _ => false,
        }
    }
}

impl PartialEqSpecImpl for InferenceError {
    open spec fn obeys_eq_spec() -> bool {
        true
    }

    open spec fn eq_spec(&self, other: &Self) -> bool {
        self@ == other@
    }
}

} // verus!
