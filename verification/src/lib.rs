//! The decisions behind running a test command over a series of commits.
//!
//! Everything here computes: which directory a result is kept in, what a finished or cached test
//! means, what is shown of it, and which step comes next.
pub mod commands;
pub mod describe;
pub mod messages;
pub mod options;
pub mod rerun;
pub mod run;
pub mod status;
pub mod style;
pub mod suite;
pub mod test_run;
pub mod text;
pub mod trap;
