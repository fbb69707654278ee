//! The errors a backend can report: creation failures and runtime context
//! failures. Symbol-resolution misses are not errors (see
//! [`crate::context::ProcAddress`]).

use vstd::prelude::*;

verus! {

/// An error reported while negotiating and creating a context.
///
/// A creation failure is terminal for the attempt: no partially initialized
/// context is ever returned alongside it.
#[derive(Clone, Debug, PartialEq, Eq)]
pub enum CreationError {
    /// A native call failed; the payload is a human-readable diagnostic, not a
    /// machine-parseable code.
    OsError(String),
}

impl CreationError {
    /// The diagnostic text of this error, as a sequence of characters.
    pub open spec fn spec_message(&self) -> Seq<char> {
        match self {
            CreationError::OsError(m) => m@,
        }
    }

    /// The human-readable diagnostic carried by this error.
    pub fn message(&self) -> (r: &str)
        ensures
            r@ == self.spec_message(),
    {
        match self {
            CreationError::OsError(m) => m.as_str(),
        }
    }
}

/// An error reported by `make_current` or `swap_buffers` after creation.
///
/// It carries no detail beyond signaling failure; the caller decides whether
/// to retry, recreate the context, or abort.
#[derive(Clone, Copy, Debug, PartialEq, Eq, Structural)]
pub struct ContextError;

} // verus!
