//! The database migration: the operations on tables, columns, indexes and
//! keys that carry out a sequence of migration steps.
//!
//! Each step is turned into the operations that realise it: none for a
//! relation field, which has no column; several for the update of a field
//! that changes in more than one respect. An operation remembers the step it
//! comes from, and the operations stand in the order of their steps.

use crate::calculator::{apply_steps, assume_applied};
use crate::field::{
    opt_u32_eq, Field, FieldArity, FieldKind, FieldType, FieldTypeView, FieldView, ScalarType,
};
use crate::index::{
    IndexDefinition, IndexDefinitionView, PrimaryKeyDefinition, PrimaryKeyDefinitionView,
};
use crate::model::Model;
use crate::schema::{Datamodel, DatamodelView};
use crate::seqs::views;
use crate::steps::{InferenceError, InferenceErrorView, MigrationStep, StepView};
use crate::text::str_eq;
use vstd::prelude::*;

verus! {

/// The kinds of column types.
#[derive(Clone, Copy, Debug, PartialEq, Eq, Structural)]
pub enum ColumnTypeFamily {
    Boolean,
    Int,
    BigInt,
    Float,
    Decimal,
    String,
    DateTime,
    Json,
    Bytes,
    Enum,
    Unsupported,
}

/// The type of a column: its kind, and the length that its values are
/// limited to, where they are.
#[derive(Clone, Copy, Debug, PartialEq, Eq)]
pub struct ColumnType {
    pub family: ColumnTypeFamily,
    pub length: Option<u32>,
}

/// The kind of column that holds a scalar type.
pub open spec fn family_of(t: ScalarType) -> ColumnTypeFamily {
    match t {
        ScalarType::Int => ColumnTypeFamily::Int,
        ScalarType::BigInt => ColumnTypeFamily::BigInt,
        ScalarType::Float => ColumnTypeFamily::Float,
        ScalarType::Boolean => ColumnTypeFamily::Boolean,
        ScalarType::String => ColumnTypeFamily::String,
        ScalarType::DateTime => ColumnTypeFamily::DateTime,
        ScalarType::Json => ColumnTypeFamily::Json,
        ScalarType::Bytes => ColumnTypeFamily::Bytes,
        ScalarType::Decimal => ColumnTypeFamily::Decimal,
    }
}

/// The type of the column that holds a field of the given type. A composite
/// type is held as a document; a relation has no column of its own.
pub open spec fn column_type(t: FieldTypeView) -> ColumnType {
    match t {
        FieldTypeView::Scalar(s, length) => ColumnType { family: family_of(s), length },
        FieldTypeView::Enum(_) => ColumnType { family: ColumnTypeFamily::Enum, length: None },
        FieldTypeView::CompositeType(_) => ColumnType {
            family: ColumnTypeFamily::Json,
            length: None,
        },
        FieldTypeView::Relation(_) => ColumnType {
            family: ColumnTypeFamily::Unsupported,
            length: None,
        },
        FieldTypeView::Unsupported(_) => ColumnType {
            family: ColumnTypeFamily::Unsupported,
            length: None,
        },
    }
}

fn family_for(t: ScalarType) -> (r: ColumnTypeFamily)
    ensures
        r == family_of(t),
{
    match t {
        ScalarType::Int => ColumnTypeFamily::Int,
        ScalarType::BigInt => ColumnTypeFamily::BigInt,
        ScalarType::Float => ColumnTypeFamily::Float,
        ScalarType::Boolean => ColumnTypeFamily::Boolean,
        ScalarType::String => ColumnTypeFamily::String,
        ScalarType::DateTime => ColumnTypeFamily::DateTime,
        ScalarType::Json => ColumnTypeFamily::Json,
        ScalarType::Bytes => ColumnTypeFamily::Bytes,
        ScalarType::Decimal => ColumnTypeFamily::Decimal,
    }
}

impl ColumnType {
    /// Whether two column types are the same.
    pub fn same_as(&self, other: &ColumnType) -> (r: bool)
        ensures
            r == (*self == *other),
    {
        self.family == other.family && opt_u32_eq(self.length, other.length)
    }
}

impl FieldType {
    /// The type of the column that holds a field of this type.
    pub fn column_type(&self) -> (r: ColumnType)
        ensures
            r == column_type(self@),
    {
        match self {
            FieldType::Scalar(s, length) => ColumnType { family: family_for(*s), length: *length },
            FieldType::Enum(_) => ColumnType { family: ColumnTypeFamily::Enum, length: None },
            FieldType::CompositeType(_) => ColumnType {
                family: ColumnTypeFamily::Json,
                length: None,
            },
            FieldType::Relation(_) => ColumnType {
                family: ColumnTypeFamily::Unsupported,
                length: None,
            },
            FieldType::Unsupported(_) => ColumnType {
                family: ColumnTypeFamily::Unsupported,
                length: None,
            },
        }
    }
}

impl Field {
    /// The type of the column that holds the field.
    pub fn column_type(&self) -> (r: ColumnType)
        ensures
            r == column_type(self@.field_type),
    {
        match self {
            Field::ScalarField(f) => f.field_type.column_type(),
            Field::RelationField(_) => ColumnType {
                family: ColumnTypeFamily::Unsupported,
                length: None,
            },
            Field::CompositeField(_) => ColumnType { family: ColumnTypeFamily::Json, length: None },
        }
    }
}

/// One operation on a database.
#[derive(Debug, PartialEq)]
#[allow(inconsistent_fields)]
pub enum DatabaseOperation {
    CreateTable { table: String },
    DropTable { table: String },
    AddColumn {
        table: String,
        column: String,
        column_type: ColumnType,
        required: bool,
        has_default: bool,
    },
    DropColumn { table: String, column: String },
    RenameColumn { table: String, from: String, to: String },
    AlterColumnType { table: String, column: String, from: ColumnType, to: ColumnType },
    AlterColumnArity { table: String, column: String, from: FieldArity, to: FieldArity },
    /// The default of the column changes; `has_default` says whether it has
    /// one afterwards.
    AlterColumnDefault { table: String, column: String, has_default: bool },
    CreateIndex { table: String, index: IndexDefinition },
    DropIndex { table: String, index: IndexDefinition },
    AddPrimaryKey { table: String, primary_key: PrimaryKeyDefinition },
    DropPrimaryKey { table: String },
}

/// The mathematical content of a [`DatabaseOperation`].
#[allow(inconsistent_fields)]
pub ghost enum OperationView {
    CreateTable { table: Seq<char> },
    DropTable { table: Seq<char> },
    AddColumn {
        table: Seq<char>,
        column: Seq<char>,
        column_type: ColumnType,
        required: bool,
        has_default: bool,
    },
    DropColumn { table: Seq<char>, column: Seq<char> },
    RenameColumn { table: Seq<char>, from: Seq<char>, to: Seq<char> },
    AlterColumnType { table: Seq<char>, column: Seq<char>, from: ColumnType, to: ColumnType },
    AlterColumnArity { table: Seq<char>, column: Seq<char>, from: FieldArity, to: FieldArity },
    AlterColumnDefault { table: Seq<char>, column: Seq<char>, has_default: bool },
    CreateIndex { table: Seq<char>, index: IndexDefinitionView },
    DropIndex { table: Seq<char>, index: IndexDefinitionView },
    AddPrimaryKey { table: Seq<char>, primary_key: PrimaryKeyDefinitionView },
    DropPrimaryKey { table: Seq<char> },
}

impl View for DatabaseOperation {
    type V = OperationView;

    open spec fn view(&self) -> OperationView {
        match *self {
            DatabaseOperation::CreateTable { table } => OperationView::CreateTable {
                table: table@,
            },
            DatabaseOperation::DropTable { table } => OperationView::DropTable { table: table@ },
            DatabaseOperation::AddColumn { table, column, column_type, required, has_default } => {
                OperationView::AddColumn {
                    table: table@,
                    column: column@,
                    column_type,
                    required,
                    has_default,
                }
            },
            DatabaseOperation::DropColumn { table, column } => OperationView::DropColumn {
                table: table@,
                column: column@,
            },
            DatabaseOperation::RenameColumn { table, from, to } => OperationView::RenameColumn {
                table: table@,
                from: from@,
                to: to@,
            },
            DatabaseOperation::AlterColumnType { table, column, from, to } => {
                OperationView::AlterColumnType { table: table@, column: column@, from, to }
            },
            DatabaseOperation::AlterColumnArity { table, column, from, to } => {
                OperationView::AlterColumnArity { table: table@, column: column@, from, to }
            },
            DatabaseOperation::AlterColumnDefault { table, column, has_default } => {
                OperationView::AlterColumnDefault { table: table@, column: column@, has_default }
            },
            DatabaseOperation::CreateIndex { table, index } => OperationView::CreateIndex {
                table: table@,
                index: index@,
            },
            DatabaseOperation::DropIndex { table, index } => OperationView::DropIndex {
                table: table@,
                index: index@,
            },
            DatabaseOperation::AddPrimaryKey { table, primary_key } => {
                OperationView::AddPrimaryKey { table: table@, primary_key: primary_key@ }
            },
            DatabaseOperation::DropPrimaryKey { table } => OperationView::DropPrimaryKey {
                table: table@,
            },
        }
    }
}

/// An operation of a database migration, with the position of the migration
/// step that it comes from.
#[derive(Debug, PartialEq)]
pub struct PlannedOperation {
    pub step: usize,
    pub operation: DatabaseOperation,
}

/// The mathematical content of a [`PlannedOperation`].
pub ghost struct PlannedView {
    pub step: int,
    pub operation: OperationView,
}

impl View for PlannedOperation {
    type V = PlannedView;

    open spec fn view(&self) -> PlannedView {
        PlannedView { step: self.step as int, operation: self.operation@ }
    }
}

/// A database migration: operations, in the order in which to carry them out.
#[derive(Debug, PartialEq)]
pub struct DatabaseMigration {
    pub operations: Vec<PlannedOperation>,
}

impl View for DatabaseMigration {
    type V = Seq<PlannedView>;

    open spec fn view(&self) -> Seq<PlannedView> {
        views(self.operations@)
    }
}

/// The column that a field is added as; nothing for a relation field.
pub open spec fn added_column(table: Seq<char>, f: FieldView) -> Seq<OperationView> {
    if f.kind == FieldKind::Relation {
        Seq::empty()
    } else {
        seq![
            OperationView::AddColumn {
                table,
                column: f.column_name(),
                column_type: column_type(f.field_type),
                required: f.arity == FieldArity::Required,
                has_default: f.default_value is Some,
            },
        ]
    }
}

/// The column that goes with a field; nothing for a relation field.
pub open spec fn dropped_column(table: Seq<char>, f: FieldView) -> Seq<OperationView> {
    if f.kind == FieldKind::Relation {
        Seq::empty()
    } else {
        seq![OperationView::DropColumn { table, column: f.column_name() }]
    }
}

/// The renaming of the column of `g` to that of `f`, where the names differ.
pub open spec fn renamed(table: Seq<char>, g: FieldView, f: FieldView) -> Seq<OperationView> {
    if g.column_name() != f.column_name() {
        seq![OperationView::RenameColumn { table, from: g.column_name(), to: f.column_name() }]
    } else {
        Seq::empty()
    }
}

/// The change of the column type from that of `g` to that of `f`, where the
/// types differ.
pub open spec fn retyped(table: Seq<char>, g: FieldView, f: FieldView) -> Seq<OperationView> {
    if column_type(g.field_type) != column_type(f.field_type) {
        seq![
            OperationView::AlterColumnType {
                table,
                column: f.column_name(),
                from: column_type(g.field_type),
                to: column_type(f.field_type),
            },
        ]
    } else {
        Seq::empty()
    }
}

/// The change of arity from that of `g` to that of `f`, where they differ.
pub open spec fn rearranged(table: Seq<char>, g: FieldView, f: FieldView) -> Seq<OperationView> {
    if g.arity != f.arity {
        seq![
            OperationView::AlterColumnArity {
                table,
                column: f.column_name(),
                from: g.arity,
                to: f.arity,
            },
        ]
    } else {
        Seq::empty()
    }
}

/// The change of the default from that of `g` to that of `f`, where they
/// differ.
pub open spec fn redefaulted(table: Seq<char>, g: FieldView, f: FieldView) -> Seq<OperationView> {
    if g.default_value != f.default_value {
        seq![
            OperationView::AlterColumnDefault {
                table,
                column: f.column_name(),
                has_default: f.default_value is Some,
            },
        ]
    } else {
        Seq::empty()
    }
}

/// The operations that turn the column of the field `g` into that of the
/// field `f`: between two relation fields none; from or to a relation field
/// the adding or dropping of the column; else the renaming, the change of
/// type, of arity and of default, each where it applies, in that order.
pub open spec fn column_changes(table: Seq<char>, g: FieldView, f: FieldView) -> Seq<
    OperationView,
> {
    if g.kind == FieldKind::Relation {
        added_column(table, f)
    } else if f.kind == FieldKind::Relation {
        dropped_column(table, g)
    } else {
        renamed(table, g, f) + retyped(table, g, f) + rearranged(table, g, f) + redefaulted(
            table,
            g,
            f,
        )
    }
}

/// The operations that realise one step, between the snapshots `before` and
/// `after`. A step that creates or updates is read against `after`, one that
/// deletes against `before`; where the snapshot does not hold the model or
/// the field that the step is about, there is no such operation.
pub open spec fn operations_of(before: DatamodelView, after: DatamodelView, s: StepView) -> Result<
    Seq<OperationView>,
    InferenceErrorView,
> {
    match s {
        StepView::CreateModel { model, .. } => match after.find_model(model) {
            Some(a) => Ok(seq![OperationView::CreateTable { table: a.table_name() }]),
            None => Err(InferenceErrorView::UnknownModel { model }),
        },
        StepView::DeleteModel { model } => match before.find_model(model) {
            Some(b) => Ok(seq![OperationView::DropTable { table: b.table_name() }]),
            None => Err(InferenceErrorView::UnknownModel { model }),
        },
        StepView::CreateField { model, field } => match after.find_model(model) {
            Some(a) => if a.has_field(field.name) {
                Ok(added_column(a.table_name(), field))
            } else {
                Err(InferenceErrorView::UnknownField { model, field: field.name })
            },
            None => Err(InferenceErrorView::UnknownModel { model }),
        },
        StepView::DeleteField { model, field } => match before.find_model(model) {
            Some(b) => match b.find_field(field) {
                Some(f) => Ok(dropped_column(b.table_name(), f)),
                None => Err(InferenceErrorView::UnknownField { model, field }),
            },
            None => Err(InferenceErrorView::UnknownModel { model }),
        },
        StepView::UpdateField { model, before: g, after: f } => match after.find_model(model) {
            Some(a) => if a.has_field(f.name) {
                Ok(column_changes(a.table_name(), g, f))
            } else {
                Err(InferenceErrorView::UnknownField { model, field: f.name })
            },
            None => Err(InferenceErrorView::UnknownModel { model }),
        },
        StepView::CreateIndex { model, index } => match after.find_model(model) {
            Some(a) => Ok(seq![OperationView::CreateIndex { table: a.table_name(), index }]),
            None => Err(InferenceErrorView::UnknownModel { model }),
        },
        StepView::DeleteIndex { model, index } => match before.find_model(model) {
            Some(b) => Ok(seq![OperationView::DropIndex { table: b.table_name(), index }]),
            None => Err(InferenceErrorView::UnknownModel { model }),
        },
        StepView::CreatePrimaryKey { model, primary_key } => match after.find_model(model) {
            Some(a) => Ok(
                seq![OperationView::AddPrimaryKey { table: a.table_name(), primary_key }],
            ),
            None => Err(InferenceErrorView::UnknownModel { model }),
        },
        StepView::DeletePrimaryKey { model, .. } => match before.find_model(model) {
            Some(b) => Ok(seq![OperationView::DropPrimaryKey { table: b.table_name() }]),
            None => Err(InferenceErrorView::UnknownModel { model }),
        },
    }
}

/// The operations `ops`, each marked as coming from the step at `step`.
pub open spec fn marked(ops: Seq<OperationView>, step: int) -> Seq<PlannedView> {
    Seq::new(ops.len(), |i: int| PlannedView { step, operation: ops[i] })
}

/// The database migration for the first `n` of the steps: the operations of
/// each, in the order of the steps; or the error of the first step that has
/// no operations.
pub open spec fn plan_of_first(
    before: DatamodelView,
    after: DatamodelView,
    steps: Seq<StepView>,
    n: nat,
) -> Result<Seq<PlannedView>, InferenceErrorView>
    decreases n,
{
    if n == 0 {
        Ok(Seq::empty())
    } else {
        match plan_of_first(before, after, steps, (n - 1) as nat) {
            Err(e) => Err(e),
            Ok(plan) => match operations_of(before, after, steps[n - 1]) {
                Err(e) => Err(e),
                Ok(ops) => Ok(plan + marked(ops, n - 1)),
            },
        }
    }
}

/// The database migration for the steps.
pub open spec fn plan_of(
    before: DatamodelView,
    after: DatamodelView,
    steps: Seq<StepView>,
) -> Result<Seq<PlannedView>, InferenceErrorView> {
    plan_of_first(before, after, steps, steps.len())
}

/// The mathematical content of the result of an inference of a database
/// migration.
pub open spec fn plan_view(r: Result<DatabaseMigration, InferenceError>) -> Result<
    Seq<PlannedView>,
    InferenceErrorView,
> {
    match r {
        Ok(m) => Ok(m@),
        Err(e) => Err(e@),
    }
}

impl Model {
    /// The name of the table that holds the model.
    pub fn table_name(&self) -> (r: &str)
        ensures
            r@ == self@.table_name(),
    {
        match &self.database_name {
            Some(n) => n.as_str(),
            None => self.name.as_str(),
        }
    }
}

fn plan_one(out: &mut Vec<PlannedOperation>, step: usize, operation: DatabaseOperation)
    ensures
        views(final(out)@) == views(old(out)@) + marked(seq![operation@], step as int),
{
    out.push(PlannedOperation { step, operation });
    assert(views(out@) =~= views(old(out)@) + marked(seq![operation@], step as int));
}

proof fn lemma_marked_nothing(plan: Seq<PlannedView>, step: int)
    ensures
        plan + marked(Seq::empty(), step) == plan,
{
    assert(plan + marked(Seq::empty(), step) =~= plan);
}

proof fn lemma_marked_both(
    plan: Seq<PlannedView>,
    a: Seq<OperationView>,
    b: Seq<OperationView>,
    step: int,
)
    ensures
        plan + marked(a, step) + marked(b, step) == plan + marked(a + b, step),
{
    assert(plan + marked(a, step) + marked(b, step) =~= plan + marked(a + b, step));
}

fn plan_added_column(out: &mut Vec<PlannedOperation>, step: usize, table: &str, f: &Field)
    ensures
        views(final(out)@) == views(old(out)@) + marked(added_column(table@, f@), step as int),
{
    match f {
        Field::RelationField(_) => {
            proof {
                lemma_marked_nothing(views(out@), step as int);
            }
        },
        _ => {
            plan_one(
                out,
                step,
                DatabaseOperation::AddColumn {
                    table: table.to_owned(),
                    column: f.column_name().to_owned(),
                    column_type: f.column_type(),
                    required: f.arity().is_required(),
                    has_default: f.default_value().is_some(),
                },
            );
        },
    }
}

fn plan_dropped_column(out: &mut Vec<PlannedOperation>, step: usize, table: &str, f: &Field)
    ensures
        views(final(out)@) == views(old(out)@) + marked(dropped_column(table@, f@), step as int),
{
    match f {
        Field::RelationField(_) => {
            proof {
                lemma_marked_nothing(views(out@), step as int);
            }
        },
        _ => {
            plan_one(
                out,
                step,
                DatabaseOperation::DropColumn {
                    table: table.to_owned(),
                    column: f.column_name().to_owned(),
                },
            );
        },
    }
}

fn same_default(g: &Field, f: &Field) -> (r: bool)
    ensures
        r == (g@.default_value == f@.default_value),
{
    match (g.default_value(), f.default_value()) {
        (Some(x), Some(y)) => *x == *y,
        (None, None) => true,
        _ => false,
    }
}

fn plan_column_changes(
    out: &mut Vec<PlannedOperation>,
    step: usize,
    table: &str,
    g: &Field,
    f: &Field,
)
    ensures
        views(final(out)@) == views(old(out)@) + marked(
            column_changes(table@, g@, f@),
            step as int,
        ),
{
    if g.kind() == FieldKind::Relation {
        plan_added_column(out, step, table, f);
    } else if f.kind() == FieldKind::Relation {
        plan_dropped_column(out, step, table, g);
    } else {
        let ghost start = views(out@);
        let ghost k = step as int;
        if !str_eq(g.column_name(), f.column_name()) {
            plan_one(
                out,
                step,
                DatabaseOperation::RenameColumn {
                    table: table.to_owned(),
                    from: g.column_name().to_owned(),
                    to: f.column_name().to_owned(),
                },
            );
        } else {
            proof {
                lemma_marked_nothing(start, k);
            }
        }
        assert(views(out@) == start + marked(renamed(table@, g@, f@), k));
        let ghost after_rename = views(out@);
        if !g.column_type().same_as(&f.column_type()) {
            plan_one(
                out,
                step,
                DatabaseOperation::AlterColumnType {
                    table: table.to_owned(),
                    column: f.column_name().to_owned(),
                    from: g.column_type(),
                    to: f.column_type(),
                },
            );
        } else {
            proof {
                lemma_marked_nothing(after_rename, k);
            }
        }
        assert(views(out@) == after_rename + marked(retyped(table@, g@, f@), k));
        let ghost after_retype = views(out@);
        if g.arity() != f.arity() {
            plan_one(
                out,
                step,
                DatabaseOperation::AlterColumnArity {
                    table: table.to_owned(),
                    column: f.column_name().to_owned(),
                    from: g.arity(),
                    to: f.arity(),
                },
            );
        } else {
            proof {
                lemma_marked_nothing(after_retype, k);
            }
        }
        assert(views(out@) == after_retype + marked(rearranged(table@, g@, f@), k));
        let ghost after_arity = views(out@);
        if !same_default(g, f) {
            plan_one(
                out,
                step,
                DatabaseOperation::AlterColumnDefault {
                    table: table.to_owned(),
                    column: f.column_name().to_owned(),
                    has_default: f.default_value().is_some(),
                },
            );
        } else {
            proof {
                lemma_marked_nothing(after_arity, k);
            }
        }
        assert(views(out@) == after_arity + marked(redefaulted(table@, g@, f@), k));
        proof {
            lemma_marked_both(start, renamed(table@, g@, f@), retyped(table@, g@, f@), k);
            lemma_marked_both(
                start,
                renamed(table@, g@, f@) + retyped(table@, g@, f@),
                rearranged(table@, g@, f@),
                k,
            );
            lemma_marked_both(
                start,
                renamed(table@, g@, f@) + retyped(table@, g@, f@) + rearranged(table@, g@, f@),
                redefaulted(table@, g@, f@),
                k,
            );
        }
    }
}

fn unknown_model(model: &str) -> (r: InferenceError)
    ensures
        r@ == (InferenceErrorView::UnknownModel { model: model@ }),
{
    InferenceError::UnknownModel { model: model.to_owned() }
}

fn unknown_field(model: &str, field: &str) -> (r: InferenceError)
    ensures
        r@ == (InferenceErrorView::UnknownField { model: model@, field: field@ }),
{
    InferenceError::UnknownField { model: model.to_owned(), field: field.to_owned() }
}

/// Appends to `out` the operations that realise the step `s`, which stands
/// at the position `step`.
fn plan_step(
    out: &mut Vec<PlannedOperation>,
    step: usize,
    before: &Datamodel,
    after: &Datamodel,
    s: &MigrationStep,
) -> (r: Result<(), InferenceError>)
    ensures
        match r {
            Ok(_) => operations_of(before@, after@, s@) matches Ok(ops) && views(final(out)@)
                == views(old(out)@) + marked(ops, step as int),
            Err(e) => operations_of(before@, after@, s@) == Err::<
                Seq<OperationView>,
                InferenceErrorView,
            >(e@),
        },
{
    match s {
        MigrationStep::CreateModel { model, .. } => match after.find_model(model.as_str()) {
            Some(a) => {
                plan_one(
                    out,
                    step,
                    DatabaseOperation::CreateTable { table: a.table_name().to_owned() },
                );
                Ok(())
            },
            None => Err(unknown_model(model.as_str())),
        },
        MigrationStep::DeleteModel { model } => match before.find_model(model.as_str()) {
            Some(b) => {
                plan_one(
                    out,
                    step,
                    DatabaseOperation::DropTable { table: b.table_name().to_owned() },
                );
                Ok(())
            },
            None => Err(unknown_model(model.as_str())),
        },
        MigrationStep::CreateField { model, field } => match after.find_model(model.as_str()) {
            Some(a) => {
                if a.has_field(field.name()) {
                    plan_added_column(out, step, a.table_name(), field);
                    Ok(())
                } else {
                    Err(unknown_field(model.as_str(), field.name()))
                }
            },
            None => Err(unknown_model(model.as_str())),
        },
        MigrationStep::DeleteField { model, field } => match before.find_model(model.as_str()) {
            Some(b) => match b.find_field(field.as_str()) {
                Some(f) => {
                    plan_dropped_column(out, step, b.table_name(), f);
                    Ok(())
                },
                None => Err(unknown_field(model.as_str(), field.as_str())),
            },
            None => Err(unknown_model(model.as_str())),
        },
        MigrationStep::UpdateField { model, before: g, after: f } => match after.find_model(
            model.as_str(),
        ) {
            Some(a) => {
                if a.has_field(f.name()) {
                    plan_column_changes(out, step, a.table_name(), g, f);
                    Ok(())
                } else {
                    Err(unknown_field(model.as_str(), f.name()))
                }
            },
            None => Err(unknown_model(model.as_str())),
        },
        MigrationStep::CreateIndex { model, index } => match after.find_model(model.as_str()) {
            Some(a) => {
                plan_one(
                    out,
                    step,
                    DatabaseOperation::CreateIndex {
                        table: a.table_name().to_owned(),
                        index: index.clone(),
                    },
                );
                Ok(())
            },
            None => Err(unknown_model(model.as_str())),
        },
        MigrationStep::DeleteIndex { model, index } => match before.find_model(model.as_str()) {
            Some(b) => {
                plan_one(
                    out,
                    step,
                    DatabaseOperation::DropIndex {
                        table: b.table_name().to_owned(),
                        index: index.clone(),
                    },
                );
                Ok(())
            },
            None => Err(unknown_model(model.as_str())),
        },
        MigrationStep::CreatePrimaryKey { model, primary_key } => match after.find_model(
            model.as_str(),
        ) {
            Some(a) => {
                plan_one(
                    out,
                    step,
                    DatabaseOperation::AddPrimaryKey {
                        table: a.table_name().to_owned(),
                        primary_key: primary_key.clone(),
                    },
                );
                Ok(())
            },
            None => Err(unknown_model(model.as_str())),
        },
        MigrationStep::DeletePrimaryKey { model, .. } => match before.find_model(model.as_str()) {
            Some(b) => {
                plan_one(
                    out,
                    step,
                    DatabaseOperation::DropPrimaryKey { table: b.table_name().to_owned() },
                );
                Ok(())
            },
            None => Err(unknown_model(model.as_str())),
        },
    }
}

proof fn lemma_plan_fails_on(
    before: DatamodelView,
    after: DatamodelView,
    steps: Seq<StepView>,
    k: nat,
    n: nat,
)
    requires
        k <= n,
        plan_of_first(before, after, steps, k) is Err,
    ensures
        plan_of_first(before, after, steps, n) == plan_of_first(before, after, steps, k),
    decreases n,
{
    if k < n {
        lemma_plan_fails_on(before, after, steps, k, (n - 1) as nat);
    }
}

/// Infers the database migration that carries out `steps` between the
/// snapshot `before`, the last that was applied, and the snapshot `after`.
///
/// Fails with the error of the first step that is about a model or a field
/// that the snapshot it is read against does not hold.
pub fn infer_from_datamodels(
    before: &Datamodel,
    after: &Datamodel,
    steps: &Vec<MigrationStep>,
) -> (r: Result<DatabaseMigration, InferenceError>)
    ensures
        plan_view(r) == plan_of(before@, after@, views(steps@)),
{
    let mut out: Vec<PlannedOperation> = Vec::new();
    let mut i: usize = 0;
    assert(views(out@) =~= Seq::<PlannedView>::empty());
    while i < steps.len()
        invariant
            i <= steps.len(),
            plan_of_first(before@, after@, views(steps@), i as nat) == Ok::<
                Seq<PlannedView>,
                InferenceErrorView,
            >(views(out@)),
        decreases steps.len() - i,
    {
        match plan_step(&mut out, i, before, after, &steps[i]) {
            Ok(_) => {},
            Err(e) => {
                proof {
                    lemma_plan_fails_on(
                        before@,
                        after@,
                        views(steps@),
                        (i + 1) as nat,
                        steps@.len(),
                    );
                }
                return Err(e);
            },
        }
        i = i + 1;
    }
    Ok(DatabaseMigration { operations: out })
}

/// The operations of a database migration stand in the order of the steps
/// they come from, and each is one of the operations of its step.
pub proof fn lemma_plan_keeps_the_order_of_steps(
    before: DatamodelView,
    after: DatamodelView,
    steps: Seq<StepView>,
    n: nat,
)
    requires
        n <= steps.len(),
        plan_of_first(before, after, steps, n) is Ok,
    ensures
        forall|i: int, j: int|
            0 <= i <= j < plan_of_first(before, after, steps, n)->Ok_0.len() ==> (
            #[trigger] plan_of_first(before, after, steps, n)->Ok_0[i]).step <= (
            #[trigger] plan_of_first(before, after, steps, n)->Ok_0[j]).step,
        forall|i: int|
            0 <= i < plan_of_first(before, after, steps, n)->Ok_0.len() ==> {
                let p = #[trigger] plan_of_first(before, after, steps, n)->Ok_0[i];
                &&& 0 <= p.step < n
                &&& operations_of(before, after, steps[p.step]) matches Ok(ops)
                &&& ops.contains(p.operation)
            },
    decreases n,
{
    if n > 0 {
        lemma_plan_keeps_the_order_of_steps(before, after, steps, (n - 1) as nat);
        let earlier = plan_of_first(before, after, steps, (n - 1) as nat)->Ok_0;
        let ops = operations_of(before, after, steps[n - 1])->Ok_0;
        let plan = plan_of_first(before, after, steps, n)->Ok_0;
        assert(plan == earlier + marked(ops, n - 1));
        assert forall|i: int| 0 <= i < plan.len() implies {
            let p = #[trigger] plan[i];
            &&& 0 <= p.step < n
            &&& operations_of(before, after, steps[p.step]) matches Ok(ops)
            &&& ops.contains(p.operation)
        } by {
            if i < earlier.len() {
                assert(plan[i] == earlier[i]);
            } else {
                assert(plan[i] == marked(ops, n - 1)[i - earlier.len()]);
                assert(ops[i - earlier.len()] == plan[i].operation);
            }
        }
        assert forall|i: int, j: int| 0 <= i <= j < plan.len() implies (#[trigger] plan[i]).step
            <= (#[trigger] plan[j]).step by {
            if j < earlier.len() {
                assert(plan[i] == earlier[i]);
                assert(plan[j] == earlier[j]);
            } else {
                assert(plan[j] == marked(ops, n - 1)[j - earlier.len()]);
                if i < earlier.len() {
                    assert(plan[i] == earlier[i]);
                } else {
                    assert(plan[i] == marked(ops, n - 1)[i - earlier.len()]);
                }
            }
        }
    }
}

/// The database migration for the steps, where `before` is not a snapshot
/// that was applied but the one that the steps `assumed` lead to from the
/// last that was: the error of the first assumed step that cannot be
/// applied, or the migration from the assumed snapshot.
pub open spec fn plan_from_assumed(
    checkpoint: DatamodelView,
    assumed: Seq<StepView>,
    after: DatamodelView,
    steps: Seq<StepView>,
) -> Result<Seq<PlannedView>, InferenceErrorView> {
    match apply_steps(checkpoint, assumed) {
        Ok(before) => plan_of(before, after, steps),
        Err(e) => Err(e),
    }
}

/// Infers the database migration that carries out `steps` between an
/// assumed snapshot and the snapshot `after`. The assumed snapshot is the
/// one that the steps `assumed` lead to from `checkpoint`, the last snapshot
/// that was applied; nothing that was recorded is touched.
pub fn infer(
    checkpoint: &Datamodel,
    assumed: &Vec<MigrationStep>,
    after: &Datamodel,
    steps: &Vec<MigrationStep>,
) -> (r: Result<DatabaseMigration, InferenceError>)
    ensures
        plan_view(r) == plan_from_assumed(checkpoint@, views(assumed@), after@, views(steps@)),
{
    match assume_applied(checkpoint, assumed) {
        Ok(before) => infer_from_datamodels(&before, after, steps),
        Err(e) => Err(e),
    }
}

} // verus!
