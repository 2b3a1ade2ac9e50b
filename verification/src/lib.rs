//! Schema-migration core: the in-memory schema model, the resolver of unique
//! criteria, the inference of migration steps between two schema snapshots,
//! the database migration that carries the steps out, and the check of that
//! migration for operations that can destroy data.
//!
//! Every function is verified against its contract. Contracts speak of the
//! views of the data: a `String` is seen as its sequence of characters, and
//! each schema type as a mathematical record of such sequences.
//!
//! - [`field`], [`index`], [`model`], [`schema`]: the schema model.
//! - [`validate`]: index declarations, resolved against the schema.
//! - [`unique_criteria`]: primary keys and unique indexes as criteria of
//!   identity.
//! - [`steps`], [`differ`], [`differ_laws`]: migration steps, their
//!   inference, and what holds of every inference.
//! - [`calculator`]: the snapshot that steps lead to.
//! - [`database`], [`destructive`]: the database migration and its check.
//! - [`command`]: the command that ties them together, as a state machine
//!   for whoever does the reading and writing.
//! - [`json`], [`seqs`], [`text`]: JSON values, sequences and text.

pub mod calculator;
pub mod command;
pub mod database;
pub mod destructive;
pub mod differ;
pub mod differ_laws;
pub mod field;
pub mod index;
pub mod json;
pub mod model;
pub mod schema;
pub mod seqs;
pub mod steps;
pub mod text;
pub mod unique_criteria;
pub mod validate;
