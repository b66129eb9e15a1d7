//! Command-line front end for the IPL project toolchain.
//!
//! The crate models the orchestration core of the tool: argument parsing,
//! toolchain discovery, and the build / run / clean pipelines.  All decision
//! logic lives here as verified functions; the filesystem, environment and
//! subprocess effects those decisions call for are carried out by a thin
//! unverified shell that feeds the observed outcomes back in as events.

pub mod commands;
pub mod compiler;
pub mod locate;
pub mod pipeline;
pub mod run;
pub mod laws;

use vstd::prelude::*;

verus! {

/// The character sequences behind a sequence of strings.
pub open spec fn views(ss: Seq<String>) -> Seq<Seq<char>> {
    ss.map_values(|s: String| s@)
}

} // verus!
