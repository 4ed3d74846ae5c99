//! Command core for a small desktop-application backend.
//!
//! The library models the request/response command layer that sits between a
//! UI surface and the native process: a fixed registry of command names, one
//! handler per name, and a recording log sink standing for the injected
//! logging capability. Every handler answers every request with exactly one
//! response, and its contract states the response and the log events it emits.

use vstd::prelude::*;

pub mod command;
pub mod logging;
pub mod registry;
pub mod value;

verus! {

/// The version identifier this build reports.
pub open spec fn app_version_spec() -> Seq<char> {
    "0.1.0"@
}

} // verus!
