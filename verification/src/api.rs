//! The API families a rendering context can implement.

use vstd::prelude::*;

verus! {

/// The family of client API a context implements.
///
/// A backend reports one of these from its `get_api` operation; callers use it
/// to decide which entry points and shading-language dialect are available.
#[derive(Clone, Copy, Debug, PartialEq, Eq, Structural)]
pub enum Api {
    /// Desktop OpenGL.
    OpenGl,
    /// OpenGL ES, the embedded profile.
    OpenGlEs,
    /// WebGL, the browser-hosted variant.
    WebGl,
}

} // verus!
