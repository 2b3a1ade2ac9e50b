//! The check of a database migration for operations that can destroy data.
//!
//! The check reports and never refuses: its findings are warnings, and what
//! to do about them is for the caller to decide.

use crate::database::{
    ColumnType, ColumnTypeFamily, DatabaseMigration, DatabaseOperation, OperationView,
    PlannedOperation, PlannedView,
};
use crate::seqs::{
    lemma_flat_map_has, lemma_flat_map_nothing, lemma_flat_map_step, opt_view, views,
};
use crate::text::str_eq;
use vstd::prelude::*;
use vstd::string::StringExecFns;

verus! {

/// Whether every value of a column of the kind `from` can be kept in a
/// column of the kind `to`: in one of the same kind; a whole number in a
/// larger kind of number; and anything that is written as text, in text.
pub open spec fn widens(from: ColumnTypeFamily, to: ColumnTypeFamily) -> bool {
    ||| from == to
    ||| from == ColumnTypeFamily::Int && (to == ColumnTypeFamily::BigInt || to
        == ColumnTypeFamily::Float || to == ColumnTypeFamily::Decimal)
    ||| from == ColumnTypeFamily::BigInt && to == ColumnTypeFamily::Decimal
    ||| to == ColumnTypeFamily::String && (from == ColumnTypeFamily::Boolean || from
        == ColumnTypeFamily::Int || from == ColumnTypeFamily::BigInt || from
        == ColumnTypeFamily::Float || from == ColumnTypeFamily::Decimal || from
        == ColumnTypeFamily::DateTime || from == ColumnTypeFamily::Enum)
}

/// Whether a limit on the length is new or lower than it was.
pub open spec fn length_reduced(from: Option<u32>, to: Option<u32>) -> bool {
    match (from, to) {
        (None, Some(_)) => true,
        (Some(a), Some(b)) => b < a,
        (_, None) => false,
    }
}

/// Whether the change of a column type can lose data: the new kind does not
/// hold all values of the old, or the length is reduced.
pub open spec fn narrows(from: ColumnType, to: ColumnType) -> bool {
    !widens(from.family, to.family) || length_reduced(from.length, to.length)
}

/// Whether the change of a column type can lose data.
pub fn type_change_narrows(from: &ColumnType, to: &ColumnType) -> (r: bool)
    ensures
        r == narrows(*from, *to),
{
    let same = from.family == to.family;
    let larger_number = from.family == ColumnTypeFamily::Int && (to.family
        == ColumnTypeFamily::BigInt || to.family == ColumnTypeFamily::Float || to.family
        == ColumnTypeFamily::Decimal) || from.family == ColumnTypeFamily::BigInt && to.family
        == ColumnTypeFamily::Decimal;
    let as_text = to.family == ColumnTypeFamily::String && (from.family
        == ColumnTypeFamily::Boolean || from.family == ColumnTypeFamily::Int || from.family
        == ColumnTypeFamily::BigInt || from.family == ColumnTypeFamily::Float || from.family
        == ColumnTypeFamily::Decimal || from.family == ColumnTypeFamily::DateTime || from.family
        == ColumnTypeFamily::Enum);
    let reduced = match (from.length, to.length) {
        (None, Some(_)) => true,
        (Some(a), Some(b)) => b < a,
        (_, None) => false,
    };
    !(same || larger_number || as_text) || reduced
}

/// What a warning is about.
#[derive(Clone, Copy, Debug, PartialEq, Eq, Structural)]
pub enum WarningKind {
    /// A column is dropped, with what it holds.
    ColumnDropped,
    /// A table is dropped, with what it holds.
    TableDropped,
    /// The type of a column is narrowed or its length reduced.
    TypeNarrowed,
    /// A required column without a default is added to a table that holds
    /// rows.
    RequiredColumnAdded,
}

/// A finding of the check: an operation that can destroy data.
#[derive(Debug, PartialEq)]
pub struct MigrationWarning {
    /// The position of the migration step that the operation comes from.
    pub step: usize,
    pub kind: WarningKind,
    pub table: String,
    /// The column, where the operation is about one.
    pub column: Option<String>,
}

/// The mathematical content of a [`MigrationWarning`].
pub ghost struct WarningView {
    pub step: int,
    pub kind: WarningKind,
    pub table: Seq<char>,
    pub column: Option<Seq<char>>,
}

impl WarningView {
    /// The warning in words.
    pub open spec fn description(self) -> Seq<char> {
        match self.kind {
            WarningKind::TableDropped => "You are about to drop the table "@ + self.table
                + ", and the data in it will be lost."@,
            WarningKind::ColumnDropped => "You are about to drop the column "@ + self.subject()
                + ", and the data in it will be lost."@,
            WarningKind::TypeNarrowed => "You are about to narrow the type of the column "@
                + self.subject() + ", and data that does not fit will be lost."@,
            WarningKind::RequiredColumnAdded => "You are about to add the required column "@
                + self.subject() + " without a default value, to a table that is not empty."@,
        }
    }

    /// The column with its table, as `table.column`.
    pub open spec fn subject(self) -> Seq<char> {
        match self.column {
            Some(c) => self.table + seq!['.'] + c,
            None => self.table,
        }
    }
}

impl View for MigrationWarning {
    type V = WarningView;

    open spec fn view(&self) -> WarningView {
        WarningView {
            step: self.step as int,
            kind: self.kind,
            table: self.table@,
            column: opt_view(self.column),
        }
    }
}

impl MigrationWarning {
    fn subject(&self) -> (r: String)
        ensures
            r@ == self@.subject(),
    {
        let mut out = self.table.clone();
        if let Some(c) = &self.column {
            proof {
                reveal_strlit(".");
            }
            out.append(".");
            out.append(c.as_str());
            assert(out@ =~= self.table@ + seq!['.'] + c@);
        }
        out
    }

    /// The warning in words.
    pub fn description(&self) -> (r: String)
        ensures
            r@ == self@.description(),
    {
        match self.kind {
            WarningKind::TableDropped => {
                let mut out = String::from_str("You are about to drop the table ");
                out.append(self.table.as_str());
                out.append(", and the data in it will be lost.");
                out
            },
            WarningKind::ColumnDropped => {
                let mut out = String::from_str("You are about to drop the column ");
                out.append(self.subject().as_str());
                out.append(", and the data in it will be lost.");
                out
            },
            WarningKind::TypeNarrowed => {
                let mut out = String::from_str("You are about to narrow the type of the column ");
                out.append(self.subject().as_str());
                out.append(", and data that does not fit will be lost.");
                out
            },
            WarningKind::RequiredColumnAdded => {
                let mut out = String::from_str("You are about to add the required column ");
                out.append(self.subject().as_str());
                out.append(" without a default value, to a table that is not empty.");
                out
            },
        }
    }
}

/// A finding that forbids the migration. The check has none to make: the
/// type is kept for what later checks may find.
#[derive(Debug, PartialEq)]
pub struct MigrationError {
    pub description: String,
}

impl View for MigrationError {
    type V = Seq<char>;

    open spec fn view(&self) -> Seq<char> {
        self.description@
    }
}

/// The report of the check.
#[derive(Debug, PartialEq)]
pub struct DestructiveChangeDiagnostics {
    pub warnings: Vec<MigrationWarning>,
    pub errors: Vec<MigrationError>,
}

impl DestructiveChangeDiagnostics {
    /// The report without findings.
    pub fn new() -> (r: Self)
        ensures
            r.warnings@.len() == 0,
            r.errors@.len() == 0,
    {
        DestructiveChangeDiagnostics { warnings: Vec::new(), errors: Vec::new() }
    }

    /// Whether the report holds a warning.
    pub fn has_warnings(&self) -> (r: bool)
        ensures
            r == (self.warnings@.len() > 0),
    {
        self.warnings.len() > 0
    }
}

/// The warning that an operation deserves, if it deserves one: the dropping
/// of a column or of a table; the change of a column type that narrows it;
/// the adding of a required column without a default to one of the tables
/// `populated`, which hold rows. All else is safe.
pub open spec fn warning_for(populated: Seq<Seq<char>>, p: PlannedView) -> Option<WarningView> {
    match p.operation {
        OperationView::DropColumn { table, column } => Some(
            WarningView { step: p.step, kind: WarningKind::ColumnDropped, table, column: Some(
                column,
            ) },
        ),
        OperationView::DropTable { table } => Some(
            WarningView { step: p.step, kind: WarningKind::TableDropped, table, column: None },
        ),
        OperationView::AlterColumnType { table, column, from, to } => if narrows(from, to) {
            Some(
                WarningView { step: p.step, kind: WarningKind::TypeNarrowed, table, column: Some(
                    column,
                ) },
            )
        } else {
            None
        },
        OperationView::AddColumn { table, column, required, has_default, .. } => if required
            && !has_default && populated.contains(table) {
            Some(
                WarningView {
                    step: p.step,
                    kind: WarningKind::RequiredColumnAdded,
                    table,
                    column: Some(column),
                },
            )
        } else {
            None
        },
        _ => None,
    }
}

/// The warning that an operation deserves, as a sequence of one or none.
pub open spec fn warning_of(populated: Seq<Seq<char>>) -> spec_fn(PlannedView) -> Seq<WarningView> {
    |p: PlannedView|
        match warning_for(populated, p) {
            Some(w) => seq![w],
            None => Seq::empty(),
        }
}

/// The warnings that a database migration deserves: those of its
/// operations, in their order.
pub open spec fn warnings_of(plan: Seq<PlannedView>, populated: Seq<Seq<char>>) -> Seq<
    WarningView,
> {
    plan.flat_map(warning_of(populated))
}

fn is_among(names: &Vec<String>, name: &str) -> (r: bool)
    ensures
        r == views(names@).contains(name@),
{
    let mut i: usize = 0;
    while i < names.len()
        invariant
            i <= names.len(),
            forall|k: int| 0 <= k < i ==> views(names@)[k] != name@,
        decreases names.len() - i,
    {
        if str_eq(names[i].as_str(), name) {
            assert(views(names@)[i as int] == name@);
            return true;
        }
        i = i + 1;
    }
    false
}

/// The warning that the operation `p` deserves, if it deserves one.
pub fn classify(p: &PlannedOperation, populated_tables: &Vec<String>) -> (r: Option<
    MigrationWarning,
>)
    ensures
        opt_view(r) == warning_for(views(populated_tables@), p@),
{
    match &p.operation {
        DatabaseOperation::DropColumn { table, column } => Some(
            MigrationWarning {
                step: p.step,
                kind: WarningKind::ColumnDropped,
                table: table.clone(),
                column: Some(column.clone()),
            },
        ),
        DatabaseOperation::DropTable { table } => Some(
            MigrationWarning {
                step: p.step,
                kind: WarningKind::TableDropped,
                table: table.clone(),
                column: None,
            },
        ),
        DatabaseOperation::AlterColumnType { table, column, from, to } => {
            if type_change_narrows(from, to) {
                Some(
                    MigrationWarning {
                        step: p.step,
                        kind: WarningKind::TypeNarrowed,
                        table: table.clone(),
                        column: Some(column.clone()),
                    },
                )
            } else {
                None
            }
        },
        DatabaseOperation::AddColumn { table, column, required, has_default, .. } => {
            if *required && !*has_default && is_among(populated_tables, table.as_str()) {
                Some(
                    MigrationWarning {
                        step: p.step,
                        kind: WarningKind::RequiredColumnAdded,
                        table: table.clone(),
                        column: Some(column.clone()),
                    },
                )
            } else {
                None
            }
        },
        _ => None,
    }
}

/// Checks a database migration for operations that can destroy data, given
/// the names of the tables that hold rows.
///
/// The report holds one warning for each such operation, in the order of the
/// operations, and no error.
pub fn check(migration: &DatabaseMigration, populated_tables: &Vec<String>) -> (r:
    DestructiveChangeDiagnostics)
    ensures
        views(r.warnings@) == warnings_of(migration@, views(populated_tables@)),
        r.errors@.len() == 0,
{
    let mut warnings: Vec<MigrationWarning> = Vec::new();
    let mut i: usize = 0;
    proof {
        lemma_flat_map_nothing(migration@.take(0), warning_of(views(populated_tables@)));
        assert(views(warnings@) =~= Seq::<WarningView>::empty());
        assert(migration@.take(migration@.len() as int) =~= migration@);
    }
    while i < migration.operations.len()
        invariant
            i <= migration.operations.len(),
            views(warnings@) == migration@.take(i as int).flat_map(
                warning_of(views(populated_tables@)),
            ),
        decreases migration.operations.len() - i,
    {
        proof {
            lemma_flat_map_step(migration@, warning_of(views(populated_tables@)), i as int);
        }
        let ghost so_far = views(warnings@);
        match classify(&migration.operations[i], populated_tables) {
            Some(w) => {
                warnings.push(w);
                assert(views(warnings@) =~= so_far + seq![w@]);
            },
            None => {
                assert(so_far + Seq::<WarningView>::empty() =~= so_far);
            },
        }
        i = i + 1;
    }
    assert(migration@.take(i as int) =~= migration@);
    DestructiveChangeDiagnostics { warnings, errors: Vec::new() }
}

/// A migration that drops a column is warned of.
pub proof fn lemma_dropped_column_is_warned_of(
    plan: Seq<PlannedView>,
    populated: Seq<Seq<char>>,
    i: int,
)
    requires
        0 <= i < plan.len(),
        plan[i].operation is DropColumn,
    ensures
        warnings_of(plan, populated).len() > 0,
        exists|k: int|
            0 <= k < warnings_of(plan, populated).len() && Some(
                #[trigger] warnings_of(plan, populated)[k],
            ) == warning_for(populated, plan[i]),
{
    lemma_flat_map_has(plan, warning_of(populated), i, 0);
    let all = warnings_of(plan, populated);
    let k = choose|k: int| 0 <= k < all.len() && all[k] == warning_of(populated)(plan[i])[0];
    assert(Some(all[k]) == warning_for(populated, plan[i]));
}

/// An operation that adds a column or creates an index, where the column is
/// not a required one without a default for a table that holds rows.
pub open spec fn adds_safely(populated: Seq<Seq<char>>, o: OperationView) -> bool {
    match o {
        OperationView::AddColumn { table, required, has_default, .. } => !(required
            && !has_default && populated.contains(table)),
        OperationView::CreateIndex { .. } => true,
        _ => false,
    }
}

/// A migration that only adds columns and creates indexes is not warned of,
/// unless it adds a required column without a default to a table that holds
/// rows.
pub proof fn lemma_additions_are_not_warned_of(plan: Seq<PlannedView>, populated: Seq<Seq<char>>)
    requires
        forall|i: int|
            0 <= i < plan.len() ==> adds_safely(populated, (#[trigger] plan[i]).operation),
    ensures
        warnings_of(plan, populated) == Seq::<WarningView>::empty(),
{
    assert forall|i: int| 0 <= i < plan.len() implies (#[trigger] warning_of(populated)(
        plan[i],
    )).len() == 0 by {
        assert(adds_safely(populated, plan[i].operation));
    }
    lemma_flat_map_nothing(plan, warning_of(populated));
}

} // verus!
