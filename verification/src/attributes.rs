//! The API-level attributes a caller asks of a new context: version, profile,
//! flags, and an optional sharing relationship to an existing context.

use vstd::prelude::*;

verus! {

/// The profile a desktop OpenGL context can implement.
#[derive(Clone, Copy, Debug, PartialEq, Eq, Structural)]
pub enum GlProfile {
    /// The core profile: deprecated functions removed.
    Core,
    /// The compatibility profile: deprecated functions kept.
    Compatibility,
}

/// The context attributes a caller would like, consumed at creation time only.
///
/// `S` is the backend's own context type: `sharing` is a relationship, not
/// ownership. The new context never mutates nor owns the shared one, and the
/// shared one must outlive the new one.
///
/// The headless backend shown in this crate negotiates from a fixed baseline
/// and does not consult this value (see
/// [`crate::headless::baseline_attributes`]); it is part of the creation
/// surface so that every backend takes the same inputs.
#[derive(Clone, Copy, Debug)]
pub struct GlAttributes<S> {
    /// An existing context whose GPU-object namespace the new context should
    /// share, or `None` for an isolated context.
    pub sharing: Option<S>,
    /// The desired API version as `(major, minor)`, or `None` to let the
    /// backend pick.
    pub version: Option<(u8, u8)>,
    /// The desired profile, or `None` to let the backend pick.
    pub profile: Option<GlProfile>,
    /// Whether a debug context is wanted.
    pub debug: bool,
    /// Whether a robust context (out-of-bounds access defined) is wanted.
    pub robust: bool,
}

impl<S> GlAttributes<S> {
    /// The attributes that constrain nothing: no sharing, no version or
    /// profile preference, and no debug or robustness flags.
    pub open spec fn spec_default() -> GlAttributes<S> {
        GlAttributes {
            sharing: None,
            version: None,
            profile: None,
            debug: false,
            robust: false,
        }
    }
}

impl<S> Default for GlAttributes<S> {
    /// Attributes that constrain nothing.
    fn default() -> (r: Self)
        ensures
            r == Self::spec_default(),
    {
        GlAttributes {
            sharing: None,
            version: None,
            profile: None,
            debug: false,
            robust: false,
        }
    }
}

} // verus!
