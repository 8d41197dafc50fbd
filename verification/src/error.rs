//! The startup error of the framework.
//!
//! Errors arise only at the framework-initialization boundary: the toolkit
//! may fail to initialize, or constructing the scheduler's event loop may
//! fail with an I/O error. Both are fatal to the whole run and are surfaced
//! to the caller of [`crate::Relm::run`]; there is no recovery path.

use vstd::prelude::*;

verus! {

/// Why a run of the framework could not start.
#[derive(Debug, Clone, Copy, PartialEq, Eq, Structural)]
pub enum Error {
    /// The windowing toolkit could not initialize.
    ToolkitInitFailed,
    /// Constructing the scheduler's event loop failed; the payload is the
    /// raw operating-system error code, or 0 where none was reported.
    Io(i32),
}

impl Error {
    /// A short, stable description of the failure.
    pub fn description(&self) -> (r: &'static str)
        ensures
            self is ToolkitInitFailed ==> r@ == "cannot initialize the toolkit"@,
            self is Io ==> r@ == "input/output error while building the event loop"@,
    {
        match self {
            Error::ToolkitInitFailed => "cannot initialize the toolkit",
            Error::Io(_) => "input/output error while building the event loop",
        }
    }
}

/// A failed toolkit initialization reports no payload; it converts to the
/// corresponding startup error.
impl From<()> for Error {
    fn from(u: ()) -> (r: Error)
        ensures
            r == Error::ToolkitInitFailed,
    {
        Error::ToolkitInitFailed
    }
}

impl vstd::std_specs::convert::FromSpecImpl<()> for Error {
    open spec fn obeys_from_spec() -> bool {
        true
    }

    open spec fn from_spec(u: ()) -> Error {
        Error::ToolkitInitFailed
    }
}

} // verus!
