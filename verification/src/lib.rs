//! Keeps a version-controlled workspace clean and up to date.
//!
//! The workspace belongs to a source-control client that runs as a separate
//! program. This library holds every decision of the job and none of the I/O:
//! it says which command to run next, takes a report of how the command went,
//! and says what follows. The caller runs the commands.
//!
//! - [`reconcile`] holds the run itself: [`reconcile::ensure_clean`] and
//!   [`reconcile::update`] begin one, [`reconcile::Reconciler::step`] moves
//!   it on.
//! - [`invocation`] holds the command lines, [`document`] the reading of the
//!   client's status output, [`change`] and [`failure`] the values that pass
//!   between them.
//! - [`run`] describes whole runs and replays recorded ones; [`rounds`] and
//!   [`laws`] prove what holds of every run.

pub mod change;
pub mod document;
pub mod failure;
pub mod invocation;
pub mod reconcile;
pub mod run;
pub mod rounds;
pub mod laws;
