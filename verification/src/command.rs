//! The command that infers the migration steps for a target schema.
//!
//! The command decides and computes; it neither reads nor writes. Whoever
//! runs it carries out the action it asks for and hands back what came of
//! it, until the command finishes.

use crate::calculator::{apply_steps, assume_applied};
use crate::database::{infer_from_datamodels, plan_of, DatabaseMigration, PlannedView};
use crate::destructive::{
    check, warnings_of, MigrationError, MigrationWarning, WarningView,
};
use crate::differ::{diff, diff_outcome};
use crate::json::{array_of, json_array};
use crate::schema::{Datamodel, DatamodelView};
use crate::seqs::{opt_view, views};
use crate::steps::{InferenceError, InferenceErrorView, MigrationStep, StepView};
use crate::text::starts_with;
use vstd::prelude::*;

verus! {

/// What is asked of the command.
#[derive(Debug)]
pub struct InferMigrationStepsInput {
    /// The name of the migration. One that begins with `watch` is not kept.
    pub migration_id: String,
    /// The target schema, as it was written.
    pub datamodel: String,
    /// Steps that are taken as applied on top of the current schema.
    pub assume_to_be_applied: Vec<MigrationStep>,
}

/// The mathematical content of an [`InferMigrationStepsInput`].
pub ghost struct InputView {
    pub migration_id: Seq<char>,
    pub datamodel: Seq<char>,
    pub assume_to_be_applied: Seq<StepView>,
}

impl InputView {
    /// Whether the migration is one of those made while the schema is being
    /// worked on, which are not kept.
    pub open spec fn is_watch_migration(self) -> bool {
        "watch"@.is_prefix_of(self.migration_id)
    }
}

impl View for InferMigrationStepsInput {
    type V = InputView;

    open spec fn view(&self) -> InputView {
        InputView {
            migration_id: self.migration_id@,
            datamodel: self.datamodel@,
            assume_to_be_applied: views(self.assume_to_be_applied@),
        }
    }
}

impl InferMigrationStepsInput {
    /// Whether the name of the migration begins with `watch`.
    pub fn is_watch_migration(&self) -> (r: bool)
        ensures
            r == self@.is_watch_migration(),
    {
        starts_with(self.migration_id.as_str(), "watch")
    }
}

/// The database steps of the result.
#[derive(Debug)]
pub enum DatabaseSteps {
    /// The operations in words, for a reader: a JSON array with one value
    /// for each operation, as the renderer gave them.
    Rendered(serde_json::Value),
    /// The operations as data, to be kept.
    Structured(DatabaseMigration),
}

/// The mathematical content of [`DatabaseSteps`].
pub ghost enum DatabaseStepsView {
    Rendered(serde_json::Value),
    Structured(Seq<PlannedView>),
}

impl View for DatabaseSteps {
    type V = DatabaseStepsView;

    open spec fn view(&self) -> DatabaseStepsView {
        match *self {
            DatabaseSteps::Rendered(v) => DatabaseStepsView::Rendered(v),
            DatabaseSteps::Structured(m) => DatabaseStepsView::Structured(m@),
        }
    }
}

/// The result of the command.
#[derive(Debug)]
pub struct MigrationStepsResultOutput {
    /// The target snapshot.
    pub datamodel: Datamodel,
    pub datamodel_steps: Vec<MigrationStep>,
    pub database_steps: DatabaseSteps,
    pub warnings: Vec<MigrationWarning>,
    pub errors: Vec<MigrationError>,
    pub general_errors: Vec<String>,
}

/// The mathematical content of a [`MigrationStepsResultOutput`].
pub ghost struct OutputView {
    pub datamodel: DatamodelView,
    pub datamodel_steps: Seq<StepView>,
    pub database_steps: DatabaseStepsView,
    pub warnings: Seq<WarningView>,
    pub errors: Seq<Seq<char>>,
    pub general_errors: Seq<Seq<char>>,
}

impl View for MigrationStepsResultOutput {
    type V = OutputView;

    open spec fn view(&self) -> OutputView {
        OutputView {
            datamodel: self.datamodel@,
            datamodel_steps: views(self.datamodel_steps@),
            database_steps: self.database_steps@,
            warnings: views(self.warnings@),
            errors: views(self.errors@),
            general_errors: views(self.general_errors@),
        }
    }
}

impl MigrationStepsResultOutput {
    /// The result with the given content and no errors.
    pub fn new(
        datamodel: Datamodel,
        datamodel_steps: Vec<MigrationStep>,
        database_steps: DatabaseSteps,
        warnings: Vec<MigrationWarning>,
    ) -> (r: Self)
        ensures
            r@ == output(datamodel@, views(datamodel_steps@), database_steps@, views(warnings@)),
    {
        let r = MigrationStepsResultOutput {
            datamodel,
            datamodel_steps,
            database_steps,
            warnings,
            errors: Vec::new(),
            general_errors: Vec::new(),
        };
        assert(r@.errors =~= Seq::empty());
        assert(r@.general_errors =~= Seq::empty());
        r
    }
}

/// Why the command finished without a result.
#[derive(Debug)]
pub enum CommandError {
    /// No migration could be inferred.
    Inference(InferenceError),
    /// The command was handed something it had not asked for.
    OutOfTurn,
}

/// The mathematical content of a [`CommandError`].
pub ghost enum CommandErrorView {
    Inference(InferenceErrorView),
    OutOfTurn,
}

impl View for CommandError {
    type V = CommandErrorView;

    open spec fn view(&self) -> CommandErrorView {
        match *self {
            CommandError::Inference(e) => CommandErrorView::Inference(e@),
            CommandError::OutOfTurn => CommandErrorView::OutOfTurn,
        }
    }
}

/// Where the command stands.
#[derive(Debug)]
pub enum CommandState {
    /// It has asked for the snapshot that was applied last.
    AwaitingCurrent,
    /// It has asked for the target snapshot and the tables that hold rows,
    /// and holds the assumed snapshot meanwhile.
    AwaitingTarget { assumed: Datamodel },
    /// It has asked for the database steps in words, and holds the target
    /// snapshot, the steps and the warnings meanwhile.
    AwaitingRendering {
        next: Datamodel,
        steps: Vec<MigrationStep>,
        warnings: Vec<MigrationWarning>,
    },
    /// It has asked for the snapshot of the last migration that was kept,
    /// and holds the target snapshot and the warnings meanwhile.
    AwaitingLastNonWatch { next: Datamodel, warnings: Vec<MigrationWarning> },
    /// It has finished.
    Finished,
}

/// The mathematical content of a [`CommandState`].
pub ghost enum StateView {
    AwaitingCurrent,
    AwaitingTarget { assumed: DatamodelView },
    AwaitingRendering { next: DatamodelView, steps: Seq<StepView>, warnings: Seq<WarningView> },
    AwaitingLastNonWatch { next: DatamodelView, warnings: Seq<WarningView> },
    Finished,
}

impl View for CommandState {
    type V = StateView;

    open spec fn view(&self) -> StateView {
        match *self {
            CommandState::AwaitingCurrent => StateView::AwaitingCurrent,
            CommandState::AwaitingTarget { assumed } => StateView::AwaitingTarget {
                assumed: assumed@,
            },
            CommandState::AwaitingRendering { next, steps, warnings } => {
                StateView::AwaitingRendering {
                    next: next@,
                    steps: views(steps@),
                    warnings: views(warnings@),
                }
            },
            CommandState::AwaitingLastNonWatch { next, warnings } => {
                StateView::AwaitingLastNonWatch { next: next@, warnings: views(warnings@) }
            },
            CommandState::Finished => StateView::Finished,
        }
    }
}

/// What is handed to the command.
#[derive(Debug)]
pub enum CommandEvent {
    /// The snapshot that was applied last.
    LoadedCurrent { current: Datamodel },
    /// The target snapshot as it was read from the input, and the names of
    /// the tables that hold rows.
    LoadedTarget { next: Datamodel, populated_tables: Vec<String> },
    /// The operations of the database migration in words, one value for
    /// each.
    Rendered { steps: Vec<serde_json::Value> },
    /// The snapshot of the last migration that was kept, if there is one.
    LoadedLastNonWatch { datamodel: Option<Datamodel> },
}

/// The mathematical content of a [`CommandEvent`].
pub ghost enum EventView {
    LoadedCurrent { current: DatamodelView },
    LoadedTarget { next: DatamodelView, populated_tables: Seq<Seq<char>> },
    Rendered { steps: Seq<serde_json::Value> },
    LoadedLastNonWatch { datamodel: Option<DatamodelView> },
}

impl View for CommandEvent {
    type V = EventView;

    open spec fn view(&self) -> EventView {
        match *self {
            CommandEvent::LoadedCurrent { current } => EventView::LoadedCurrent {
                current: current@,
            },
            CommandEvent::LoadedTarget { next, populated_tables } => EventView::LoadedTarget {
                next: next@,
                populated_tables: views(populated_tables@),
            },
            CommandEvent::Rendered { steps } => EventView::Rendered { steps: steps@ },
            CommandEvent::LoadedLastNonWatch { datamodel } => EventView::LoadedLastNonWatch {
                datamodel: opt_view(datamodel),
            },
        }
    }
}

/// What the command asks for.
#[derive(Debug)]
pub enum CommandAction {
    /// Read the snapshot that was applied last.
    LoadCurrent,
    /// Read the target snapshot from the input, and find the tables that
    /// hold rows.
    LoadTarget,
    /// Put the operations of the database migration in words, one value for
    /// each.
    Render(DatabaseMigration),
    /// Read the snapshot of the last migration that was kept.
    LoadLastNonWatch,
    /// Nothing more: this is the result.
    Finish(Result<MigrationStepsResultOutput, CommandError>),
}

/// The mathematical content of a [`CommandAction`].
pub ghost enum ActionView {
    LoadCurrent,
    LoadTarget,
    Render(Seq<PlannedView>),
    LoadLastNonWatch,
    Finish(Result<OutputView, CommandErrorView>),
}

impl View for CommandAction {
    type V = ActionView;

    open spec fn view(&self) -> ActionView {
        match *self {
            CommandAction::LoadCurrent => ActionView::LoadCurrent,
            CommandAction::LoadTarget => ActionView::LoadTarget,
            CommandAction::Render(m) => ActionView::Render(m@),
            CommandAction::LoadLastNonWatch => ActionView::LoadLastNonWatch,
            CommandAction::Finish(r) => ActionView::Finish(
                match r {
                    Ok(o) => Ok(o@),
                    Err(e) => Err(e@),
                },
            ),
        }
    }
}

/// The steps from `before` to `after` and the database migration that
/// carries them out, or why there are none.
pub open spec fn migration_between(before: DatamodelView, after: DatamodelView) -> Result<
    (Seq<StepView>, Seq<PlannedView>),
    InferenceErrorView,
> {
    match diff_outcome(before, after) {
        Ok(steps) => match plan_of(before, after, steps) {
            Ok(plan) => Ok((steps, plan)),
            Err(e) => Err(e),
        },
        Err(e) => Err(e),
    }
}

/// The result without errors.
pub open spec fn output(
    next: DatamodelView,
    steps: Seq<StepView>,
    database_steps: DatabaseStepsView,
    warnings: Seq<WarningView>,
) -> OutputView {
    OutputView {
        datamodel: next,
        datamodel_steps: steps,
        database_steps,
        warnings,
        errors: Seq::empty(),
        general_errors: Seq::empty(),
    }
}

/// The action that ends the command with an error of the inference.
pub open spec fn failed(e: InferenceErrorView) -> (StateView, ActionView) {
    (StateView::Finished, ActionView::Finish(Err(CommandErrorView::Inference(e))))
}

/// The snapshot that counts where none was kept: the empty one.
pub open spec fn kept_or_empty(datamodel: Option<DatamodelView>) -> DatamodelView {
    match datamodel {
        Some(d) => d,
        None => DatamodelView { models: Seq::empty(), composite_types: Seq::empty() },
    }
}

/// What the command does when it is handed `event` in the state `state`.
///
/// Handed the snapshot that was applied last, it applies to it the steps
/// that the input takes as applied, which gives the assumed snapshot, and
/// asks for the target snapshot. Handed that, it infers the migration from
/// the assumed snapshot and checks it for the loss of data. For a watch
/// migration it then asks for the operations of that migration in words;
/// handed those, it finishes: the result has the steps from the assumed
/// snapshot and the array of what it was handed. For any other migration it
/// asks for the snapshot of the last migration that was kept; handed that,
/// or none, which counts as the empty snapshot, it infers the migration from
/// there and finishes: the result has those steps and those operations as
/// data, with the warnings found before. Assumed steps that cannot be
/// applied, and an inference that fails, end the command with their error,
/// and so before anything further is asked for. Handed anything else, the
/// command ends out of turn.
pub open spec fn transition(input: InputView, state: StateView, event: EventView) -> (
    StateView,
    ActionView,
) {
    match (state, event) {
        (StateView::AwaitingCurrent, EventView::LoadedCurrent { current }) => match apply_steps(
            current,
            input.assume_to_be_applied,
        ) {
            Err(e) => failed(e),
            Ok(assumed) => (StateView::AwaitingTarget { assumed }, ActionView::LoadTarget),
        },
        (
            StateView::AwaitingTarget { assumed },
            EventView::LoadedTarget { next, populated_tables },
        ) => match migration_between(assumed, next) {
            Err(e) => failed(e),
            Ok((steps, plan)) => if input.is_watch_migration() {
                (
                    StateView::AwaitingRendering {
                        next,
                        steps,
                        warnings: warnings_of(plan, populated_tables),
                    },
                    ActionView::Render(plan),
                )
            } else {
                (
                    StateView::AwaitingLastNonWatch {
                        next,
                        warnings: warnings_of(plan, populated_tables),
                    },
                    ActionView::LoadLastNonWatch,
                )
            },
        },
        (
            StateView::AwaitingRendering { next, steps, warnings },
            EventView::Rendered { steps: rendered },
        ) => (
            StateView::Finished,
            ActionView::Finish(
                Ok(output(next, steps, DatabaseStepsView::Rendered(array_of(rendered)), warnings)),
            ),
        ),
        (
            StateView::AwaitingLastNonWatch { next, warnings },
            EventView::LoadedLastNonWatch { datamodel },
        ) => match migration_between(kept_or_empty(datamodel), next) {
            Err(e) => failed(e),
            Ok((steps, plan)) => (
                StateView::Finished,
                ActionView::Finish(
                    Ok(output(next, steps, DatabaseStepsView::Structured(plan), warnings)),
                ),
            ),
        },
        _ => (StateView::Finished, ActionView::Finish(Err(CommandErrorView::OutOfTurn))),
    }
}

fn infer_between(before: &Datamodel, after: &Datamodel) -> (r: Result<
    (Vec<MigrationStep>, DatabaseMigration),
    InferenceError,
>)
    ensures
        match r {
            Ok((steps, plan)) => migration_between(before@, after@) == Ok::<
                (Seq<StepView>, Seq<PlannedView>),
                InferenceErrorView,
            >((views(steps@), plan@)),
            Err(e) => migration_between(before@, after@) == Err::<
                (Seq<StepView>, Seq<PlannedView>),
                InferenceErrorView,
            >(e@),
        },
{
    match diff(before, after) {
        Ok(steps) => match infer_from_datamodels(before, after, &steps) {
            Ok(plan) => Ok((steps, plan)),
            Err(e) => Err(e),
        },
        Err(e) => Err(e),
    }
}

fn finish(
    next: Datamodel,
    steps: Vec<MigrationStep>,
    database_steps: DatabaseSteps,
    warnings: Vec<MigrationWarning>,
) -> (r: (CommandState, CommandAction))
    ensures
        r.0@ == StateView::Finished,
        r.1@ == ActionView::Finish(
            Ok(output(next@, views(steps@), database_steps@, views(warnings@))),
        ),
{
    let o = MigrationStepsResultOutput::new(next, steps, database_steps, warnings);
    (CommandState::Finished, CommandAction::Finish(Ok(o)))
}

fn fail(e: InferenceError) -> (r: (CommandState, CommandAction))
    ensures
        (r.0@, r.1@) == failed(e@),
{
    (CommandState::Finished, CommandAction::Finish(Err(CommandError::Inference(e))))
}

/// The command that infers the migration steps for the schema of its input.
#[derive(Debug)]
pub struct InferMigrationStepsCommand<'a> {
    pub input: &'a InferMigrationStepsInput,
    pub state: CommandState,
}

impl<'a> InferMigrationStepsCommand<'a> {
    /// The command for `input`, and the first thing it asks for.
    pub fn new(input: &'a InferMigrationStepsInput) -> (r: (Self, CommandAction))
        ensures
            r.0.input == input,
            r.0.state@ == StateView::AwaitingCurrent,
            r.1@ == ActionView::LoadCurrent,
    {
        (
            InferMigrationStepsCommand { input, state: CommandState::AwaitingCurrent },
            CommandAction::LoadCurrent,
        )
    }

    /// Hands the command what came of the action it asked for. The command
    /// moves on, and asks for the next action or finishes.
    pub fn advance(self, event: CommandEvent) -> (r: (Self, CommandAction))
        ensures
            r.0.input == self.input,
            (r.0.state@, r.1@) == transition(self.input@, self.state@, event@),
    {
        let input = self.input;
        let (state, action) = match (self.state, event) {
            (CommandState::AwaitingCurrent, CommandEvent::LoadedCurrent { current }) => {
                match assume_applied(&current, &input.assume_to_be_applied) {
                    Err(e) => fail(e),
                    Ok(assumed) => (
                        CommandState::AwaitingTarget { assumed },
                        CommandAction::LoadTarget,
                    ),
                }
            },
            (
                CommandState::AwaitingTarget { assumed },
                CommandEvent::LoadedTarget { next, populated_tables },
            ) => {
                match infer_between(&assumed, &next) {
                    Err(e) => fail(e),
                    Ok((steps, plan)) => {
                        let diagnostics = check(&plan, &populated_tables);
                        if input.is_watch_migration() {
                            (
                                CommandState::AwaitingRendering {
                                    next,
                                    steps,
                                    warnings: diagnostics.warnings,
                                },
                                CommandAction::Render(plan),
                            )
                        } else {
                            (
                                CommandState::AwaitingLastNonWatch {
                                    next,
                                    warnings: diagnostics.warnings,
                                },
                                CommandAction::LoadLastNonWatch,
                            )
                        }
                    },
                }
            },
            (
                CommandState::AwaitingRendering { next, steps, warnings },
                CommandEvent::Rendered { steps: rendered },
            ) => finish(next, steps, DatabaseSteps::Rendered(json_array(rendered)), warnings),
            (
                CommandState::AwaitingLastNonWatch { next, warnings },
                CommandEvent::LoadedLastNonWatch { datamodel },
            ) => {
                let base = match datamodel {
                    Some(d) => d,
                    None => Datamodel::empty(),
                };
                match infer_between(&base, &next) {
                    Err(e) => fail(e),
                    Ok((steps, plan)) => finish(
                        next,
                        steps,
                        DatabaseSteps::Structured(plan),
                        warnings,
                    ),
                }
            },
            _ => (CommandState::Finished, CommandAction::Finish(Err(CommandError::OutOfTurn))),
        };
        (InferMigrationStepsCommand { input, state }, action)
    }
}

} // verus!
