//! A platform-independent abstraction for creating and managing OpenGL
//! rendering contexts, demonstrated with a headless (offscreen) backend.
//!
//! The crate covers three things: the uniform context contract that every
//! platform backend must satisfy ([`context::GlContext`]), the pixel-format
//! and attribute negotiation protocol of the headless backend
//! ([`headless::HeadlessContext`]), and the null-address semantics of dynamic
//! entry-point resolution ([`context::ProcAddress`]).
//!
//! The native windowing and symbol-table subsystems are collaborators, not
//! part of this crate: the backend's logic takes their outcomes as plain
//! values (a handle token, a chosen format, a resolved address) and decides
//! from them, so every decision the backend makes is stated in a contract.

pub mod api;
pub mod attributes;
pub mod context;
pub mod error;
pub mod headless;
pub mod pixel_format;

pub use api::Api;
pub use attributes::GlAttributes;
pub use attributes::GlProfile;
pub use context::GlContext;
pub use context::ProcAddress;
pub use context::ThreadCurrent;
pub use error::ContextError;
pub use error::CreationError;
pub use headless::HeadlessContext;
pub use headless::NativeOutcome;
pub use pixel_format::PixelFormat;
pub use pixel_format::PixelFormatRequirements;
