//! Environment-drift detection and repair planning for Node.js projects.
//!
//! The crate models a project's toolchain state as plain data, compares the
//! live state against a versioned snapshot and a suite of checks, and turns
//! the findings into a safety-classified repair plan.  A line-oriented
//! accumulator extracts structured dependency conflicts from package-manager
//! diagnostics and searches registry version lists for a compatible fix.

pub mod text;
pub mod version;
pub mod lockfile;
pub mod utils;
pub mod config;
pub mod checks;
pub mod repair;
pub mod resolve;
pub mod output;
pub mod registry;
pub mod mcp;
