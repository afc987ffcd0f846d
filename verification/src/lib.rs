//! A relocation pipeline without I/O of its own.
//!
//! The pipeline watches one directory for newly created files whose path
//! matches a pattern, waits until no partial download is left in that
//! directory, and then has the file moved to a destination directory. All
//! decisions are taken here; reading notifications, listing the directory,
//! sleeping and renaming are left to a driver, which performs the action the
//! pipeline asks for and reports what came of it.
//!
//! - `startup` sets a pipeline up from the command line.
//! - `pipeline` holds the executable pipeline and the values it exchanges
//!   with its driver.
//! - `model` defines every step of the pipeline over plain text, and `laws`
//!   proves what holds of all its runs.
//! - `filter`, `listing` and `paths` hold what the steps are made of: the
//!   pattern filter, the test for partial downloads, and paths as text.
//! - `report` words what the operator gets to read.

pub mod filter;
pub mod laws;
pub mod listing;
pub mod model;
pub mod paths;
pub mod pipeline;
pub mod report;
pub mod startup;
