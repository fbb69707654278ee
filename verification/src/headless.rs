//! The headless (offscreen) backend: negotiates a pixel format from a fixed
//! baseline attribute list, wraps the native handle the host created, and
//! implements the uniform [`GlContext`] contract.
//!
//! The native windowing subsystem itself is a collaborator, not part of this
//! crate. One creation attempt runs in two native steps — select a pixel
//! format for [`baseline_attributes`], then create a rendering context bound
//! to it — and the host reports what each step produced as a plain
//! [`NativeOutcome`] value (a step that produced nothing reports the null
//! handle `0`). [`HeadlessContext::new`] takes that value and decides:
//! each failing step is terminal for the attempt and yields exactly one
//! diagnostic, and only an outcome with both handles yields a context.

use vstd::prelude::*;
use vstd::string::StringExecFns;

use crate::api::Api;
use crate::attributes::GlAttributes;
use crate::context::GlContext;
use crate::context::ProcAddress;
use crate::context::ThreadCurrent;
use crate::error::ContextError;
use crate::error::CreationError;
use crate::pixel_format::PixelFormat;
use crate::pixel_format::PixelFormatRequirements;

verus! {

/// Attribute selector: the format must be double buffered.
pub const ATTR_DOUBLE_BUFFER: u32 = 5;
/// Attribute selector: bits of the color buffer; the next list entry is the
/// count.
pub const ATTR_COLOR_SIZE: u32 = 8;
/// Attribute selector: bits of the alpha channel; the next list entry is the
/// count.
pub const ATTR_ALPHA_SIZE: u32 = 11;
/// Attribute selector: bits of the depth buffer; the next list entry is the
/// count.
pub const ATTR_DEPTH_SIZE: u32 = 12;
/// Attribute selector: bits of the stencil buffer; the next list entry is the
/// count.
pub const ATTR_STENCIL_SIZE: u32 = 13;
/// Attribute selector: the host may pick the closest match rather than demand
/// an exact one.
pub const ATTR_CLOSEST_POLICY: u32 = 74;
/// Attribute selector: the profile the context implements; the next list
/// entry is the profile value.
pub const ATTR_OPENGL_PROFILE: u32 = 99;
/// Profile value: a core-profile context of version 3.2.
pub const PROFILE_3_2_CORE: u32 = 0x3200;

/// The fixed baseline attribute list of the headless backend: double
/// buffered, closest-match policy, 24-bit color, 8-bit alpha, 24-bit depth,
/// 8-bit stencil, a 3.2 core profile, closed by the terminating zero.
pub open spec fn spec_baseline_attributes() -> Seq<u32> {
    seq![
        ATTR_DOUBLE_BUFFER,
        ATTR_CLOSEST_POLICY,
        ATTR_COLOR_SIZE,
        24u32,
        ATTR_ALPHA_SIZE,
        8u32,
        ATTR_DEPTH_SIZE,
        24u32,
        ATTR_STENCIL_SIZE,
        8u32,
        ATTR_OPENGL_PROFILE,
        PROFILE_3_2_CORE,
        0u32,
    ]
}

/// Builds the attribute list the host's pixel-format selection is asked to
/// match. The headless backend always hands over this fixed baseline.
pub fn baseline_attributes() -> (r: Vec<u32>)
    ensures
        r@ == spec_baseline_attributes(),
{
    let mut v: Vec<u32> = Vec::new();
    v.push(ATTR_DOUBLE_BUFFER);
    v.push(ATTR_CLOSEST_POLICY);
    v.push(ATTR_COLOR_SIZE);
    v.push(24u32);
    v.push(ATTR_ALPHA_SIZE);
    v.push(8u32);
    v.push(ATTR_DEPTH_SIZE);
    v.push(24u32);
    v.push(ATTR_STENCIL_SIZE);
    v.push(8u32);
    v.push(ATTR_OPENGL_PROFILE);
    v.push(PROFILE_3_2_CORE);
    v.push(0u32);
    proof {
        assert(v@ =~= spec_baseline_attributes());
    }
    v
}

/// The identifier of the framework bundle whose symbol table resolves OpenGL
/// entry-point names on this backend's platform. The library's identity is
/// stable over the life of a process, so a resolver may cache lookups.
pub fn framework_identifier() -> (r: &'static str)
    ensures
        r@ == "com.apple.opengl"@,
{
    "com.apple.opengl"
}

/// What the host's two native creation steps produced during one creation
/// attempt, as plain values.
///
/// A handle token of `0` is the null handle: the step produced nothing. The
/// host only attempts the second step when the first produced a format, so an
/// outcome with `pixel_format == 0` carries `context == 0`; `new` decides on
/// `pixel_format` first, so such an outcome is read as the first failure
/// either way. `format` reports the properties of the chosen format, as
/// queried back from the host, and is meaningful only when `context != 0`.
#[derive(Clone, Copy, Debug, PartialEq, Eq)]
pub struct NativeOutcome {
    /// Handle token of the pixel format the host selected, or `0` when no
    /// format matched the attribute list.
    pub pixel_format: u64,
    /// Handle token of the rendering context the host created, or `0` when
    /// creation failed or was not attempted.
    pub context: u64,
    /// The properties of the format the host chose.
    pub format: PixelFormat,
}

/// A headless rendering context: a native OpenGL context without a
/// displayable surface, plus the dimensions it was asked for and the format
/// it negotiated.
///
/// Once constructed, a value of this type holds a valid (non-null) native
/// handle token until destroyed; construction either fully succeeds or
/// returns no value at all, so no partially initialized context is ever
/// observable. The handle is exclusively owned: the type is neither cloned
/// nor copied.
#[derive(Debug)]
pub struct HeadlessContext {
    width: u32,
    height: u32,
    handle: u64,
    format: PixelFormat,
}

impl HeadlessContext {
    /// A context's native handle token is never the null handle.
    #[verifier::type_invariant]
    pub closed spec fn valid(self) -> bool {
        self.handle != 0
    }

    /// The width requested at creation.
    pub closed spec fn spec_width(&self) -> u32 {
        self.width
    }

    /// The height requested at creation.
    pub closed spec fn spec_height(&self) -> u32 {
        self.height
    }

    /// The sole construction surface of the backend: decides one creation
    /// attempt from what the host's native steps produced.
    ///
    /// The requirements and attributes a caller supplies are accepted but not
    /// consulted: this backend negotiates from the fixed baseline of
    /// [`baseline_attributes`]. A failed pixel-format selection and a failed
    /// context creation are each terminal, with their own diagnostic; there
    /// are no retries. On success the context reports exactly the requested
    /// dimensions, the created handle and the chosen format.
    pub fn new(
        dimensions: (u32, u32),
        _pf_reqs: &PixelFormatRequirements,
        _opengl: &GlAttributes<&HeadlessContext>,
        native: NativeOutcome,
    ) -> (r: Result<HeadlessContext, CreationError>)
        ensures
            native.pixel_format == 0 ==> (r matches Err(e)
                && e.spec_message() == "Could not create the pixel format"@),
            native.pixel_format != 0 && native.context == 0 ==> (r matches Err(e)
                && e.spec_message() == "Could not create the rendering context"@),
            native.pixel_format != 0 && native.context != 0 ==> (r matches Ok(c)
                && c.spec_width() == dimensions.0
                && c.spec_height() == dimensions.1
                && c.handle_id() == native.context
                && c.spec_pixel_format() == native.format),
            r matches Err(e) ==> e is OsError,
    {
        if native.pixel_format == 0 {
            return Err(CreationError::OsError(String::from_str("Could not create the pixel format")));
        }
        if native.context == 0 {
            return Err(CreationError::OsError(String::from_str("Could not create the rendering context")));
        }
        Ok(HeadlessContext {
            width: dimensions.0,
            height: dimensions.1,
            handle: native.context,
            format: native.format,
        })
    }

    /// The width this context was asked for at creation.
    pub fn width(&self) -> (r: u32)
        ensures
            r == self.spec_width(),
    {
        self.width
    }

    /// The height this context was asked for at creation.
    pub fn height(&self) -> (r: u32)
        ensures
            r == self.spec_height(),
    {
        self.height
    }
}

impl GlContext for HeadlessContext {
    /// The token of the native context handle this value owns.
    closed spec fn handle_id(&self) -> u64 {
        self.handle
    }

    /// This backend always implements desktop OpenGL.
    open spec fn spec_api(&self) -> Api {
        Api::OpenGl
    }

    /// The format recorded at creation from the host's chosen one.
    closed spec fn spec_pixel_format(&self) -> PixelFormat {
        self.format
    }

    /// Current exactly when the thread state records this context's handle.
    open spec fn current_on(&self, t: ThreadCurrent) -> bool {
        t.current == Some(self.handle_id())
    }

    /// Binding a headless context to the calling thread always succeeds.
    open spec fn make_current_ok(&self, t: ThreadCurrent) -> bool {
        true
    }

    /// Flushing succeeds exactly on the thread this context is current on:
    /// the backend enforces the ordering that `make_current` precede
    /// `swap_buffers` instead of leaving it to the host.
    open spec fn swap_ok(&self, t: ThreadCurrent) -> bool {
        self.current_on(t)
    }

    fn make_current(&self, thread: &mut ThreadCurrent) -> (r: Result<(), ContextError>) {
        thread.current = Some(self.handle);
        Ok(())
    }

    fn is_current(&self, thread: &ThreadCurrent) -> (r: bool) {
        match thread.current {
            Some(h) => h == self.handle,
            None => false,
        }
    }

    fn get_proc_address(&self, _addr: &str, resolved: u64) -> (r: ProcAddress) {
        ProcAddress { raw: resolved }
    }

    fn swap_buffers(&self, thread: &ThreadCurrent) -> (r: Result<(), ContextError>) {
        match thread.current {
            Some(h) if h == self.handle => Ok(()),
            _ => Err(ContextError),
        }
    }

    fn get_api(&self) -> (r: Api) {
        Api::OpenGl
    }

    fn get_pixel_format(&self) -> (r: PixelFormat) {
        self.format
    }
}

/// This backend implements the desktop OpenGL family, never another kind:
/// what `get_api` returns is `Api::OpenGl` for every context it ever built.
pub proof fn lemma_api_is_open_gl(ctx: &HeadlessContext)
    ensures
        ctx.spec_api() == Api::OpenGl,
{
}

/// A context just made current is the one current on that thread: a thread
/// state recording this context's handle — as `make_current` ensures of the
/// state it leaves behind — passes exactly this context's currency test, and
/// no context with another handle is current there.
pub proof fn lemma_make_current_establishes_currency(ctx: &HeadlessContext, after: ThreadCurrent)
    requires
        after.current == Some(ctx.handle_id()),
    ensures
        ctx.current_on(after),
        forall|other: HeadlessContext|
            other.handle_id() != ctx.handle_id() ==> !other.current_on(after),
{
}

/// No spurious currency: a thread state that does not record this context's
/// handle — among them every state this context was never made current on —
/// never reports it current.
pub proof fn lemma_no_spurious_currency(ctx: &HeadlessContext, t: ThreadCurrent)
    requires
        t.current != Some(ctx.handle_id()),
    ensures
        !ctx.current_on(t),
{
}

/// Presenting is repeatable: `swap_buffers` succeeds whenever the context is
/// current on the thread, and since it takes the thread state immutably and
/// changes nothing, an immediately repeated call sees the very same state and
/// succeeds for the same reason.
pub proof fn lemma_swap_buffers_repeatable(ctx: &HeadlessContext, t: ThreadCurrent)
    requires
        ctx.current_on(t),
    ensures
        ctx.swap_ok(t),
{
}

/// Construction is atomic: the sole construction surface returns either a
/// context or an error, so every observable context came out of a fully
/// successful attempt and holds a valid — non-null — native handle token.
/// (An executable function, not a proof function: the handle's validity is
/// the type invariant of `HeadlessContext`, which speaks of values that
/// actually exist.)
pub fn context_handle_valid(ctx: &HeadlessContext)
    ensures
        ctx.handle_id() != 0,
{
    proof {
        use_type_invariant(ctx);
    }
}

} // verus!
