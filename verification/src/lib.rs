//! An interactive helper for pruning local branches of a version-control
//! repository: it parses the underlying tool's branch listing into records,
//! filters out the default branch, and drives a per-branch prompt loop that
//! dispatches delete and force-delete requests while tallying the outcome.
//!
//! The library holds the decision logic only. Running the external tool and
//! reading the terminal are left to the program around it, which feeds the
//! results back in as plain values.

pub mod branches;
pub mod laws;
pub mod messages;
pub mod numerals;
pub mod session;
pub mod text;
