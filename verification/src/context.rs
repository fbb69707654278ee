//! The uniform context contract every platform backend must satisfy, and the
//! two small values its operations speak of: a thread's current-context state
//! and a resolved entry-point address.

use vstd::prelude::*;

use crate::api::Api;
use crate::error::ContextError;
use crate::pixel_format::PixelFormat;

verus! {

/// Which context, identified by its native handle token, is current on one
/// thread.
///
/// Currency is a per-thread native property, not a property of a context
/// object, so it is tracked in a value of its own: each rendering thread
/// holds one `ThreadCurrent` and passes it to the operations it calls. A
/// context object itself may be handed across threads; the contract
/// operations on it must be serialized per thread state.
#[derive(Clone, Copy, Debug, PartialEq, Eq)]
pub struct ThreadCurrent {
    /// The handle token of the context current on this thread, if any.
    pub current: Option<u64>,
}

impl ThreadCurrent {
    /// The state of a thread that has never made a context current.
    pub fn new() -> (r: ThreadCurrent)
        ensures
            r.current is None,
    {
        ThreadCurrent { current: None }
    }
}

/// The address of a resolved OpenGL entry point.
///
/// The null address stands for an unresolved name. Resolution failure is not
/// an error condition — many names are legitimately unsupported — so callers
/// must check [`ProcAddress::is_null`] before using the address.
#[derive(Clone, Copy, Debug, PartialEq, Eq)]
pub struct ProcAddress {
    /// The raw address; `0` is the null address.
    pub raw: u64,
}

impl ProcAddress {
    /// Whether this address is the null address, i.e. the name did not
    /// resolve and the address must not be used.
    pub fn is_null(&self) -> (r: bool)
        ensures
            r == (self.raw == 0),
    {
        self.raw == 0
    }
}

/// The capability set every backend exposes.
///
/// The spec functions name what a concrete backend must pin down: its handle
/// token, its API family, the format it negotiated, when a call of
/// `make_current` or `swap_buffers` succeeds, and what `make_current` leaves
/// behind. The contracts of the operations are stated over them, so a caller
/// generic over `GlContext` gets the full behaviour of whichever backend it
/// is handed.
pub trait GlContext: Sized {
    /// The token standing for this context's native handle.
    spec fn handle_id(&self) -> u64;

    /// The API family this context implements.
    spec fn spec_api(&self) -> Api;

    /// The pixel format this context negotiated at creation.
    spec fn spec_pixel_format(&self) -> PixelFormat;

    /// Whether this context is the one current on thread state `t`.
    spec fn current_on(&self, t: ThreadCurrent) -> bool;

    /// Whether a call of `make_current` succeeds on thread state `t`.
    spec fn make_current_ok(&self, t: ThreadCurrent) -> bool;

    /// Whether a call of `swap_buffers` succeeds on thread state `t`.
    spec fn swap_ok(&self, t: ThreadCurrent) -> bool;

    /// Binds this context as the calling thread's current rendering context.
    ///
    /// On success the thread's state records exactly this context; on failure
    /// the thread's state is untouched.
    fn make_current(&self, thread: &mut ThreadCurrent) -> (r: Result<(), ContextError>)
        ensures
            (r matches Ok(_)) == self.make_current_ok(*old(thread)),
            r matches Ok(_) ==> final(thread).current == Some(self.handle_id()),
            r matches Err(_) ==> *final(thread) == *old(thread),
    ;

    /// Pure query: is this context the thread's current context right now?
    /// Never fails and changes nothing.
    fn is_current(&self, thread: &ThreadCurrent) -> (r: bool)
        ensures
            r == self.current_on(*thread),
    ;

    /// Hands out the address the platform's symbol resolver reported for the
    /// entry-point name `addr`, as the uniform null-or-usable surface.
    ///
    /// `resolved` is the raw address the resolver found for `addr`, with `0`
    /// for a miss; the platform lookup itself is the host's (on the backend
    /// shown here, a fixed framework's symbol table, see
    /// [`crate::headless::framework_identifier`]). Resolution misses are not
    /// errors, and context state is never touched.
    fn get_proc_address(&self, addr: &str, resolved: u64) -> (r: ProcAddress)
        ensures
            r.raw == resolved,
    ;

    /// Presents the back buffer — for a headless context, flushes pending
    /// commands, since there is no displayable surface.
    ///
    /// Succeeds exactly when the backend says it does on this thread state;
    /// the thread state itself is never changed, so an immediately repeated
    /// call sees the same state.
    fn swap_buffers(&self, thread: &ThreadCurrent) -> (r: Result<(), ContextError>)
        ensures
            (r matches Ok(_)) == self.swap_ok(*thread),
    ;

    /// Pure query: the API family this context implements.
    fn get_api(&self) -> (r: Api)
        ensures
            r == self.spec_api(),
    ;

    /// The pixel format actually negotiated at creation — the real chosen
    /// configuration, not the request.
    fn get_pixel_format(&self) -> (r: PixelFormat)
        ensures
            r == self.spec_pixel_format(),
    ;
}

} // verus!
