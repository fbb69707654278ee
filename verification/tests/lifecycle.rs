//! Post-creation behaviour: per-thread currency, buffer swapping, and
//! entry-point resolution.

use glutin::GlAttributes;
use glutin::GlContext;
use glutin::HeadlessContext;
use glutin::NativeOutcome;
use glutin::PixelFormat;
use glutin::PixelFormatRequirements;
use glutin::ThreadCurrent;
use glutin::headless::context_handle_valid;

fn make_context(handle: u64) -> HeadlessContext {
    let format = PixelFormat {
        hardware_accelerated: true,
        color_bits: 24,
        alpha_bits: 8,
        depth_bits: 24,
        stencil_bits: 8,
        stereoscopy: false,
        double_buffer: true,
        multisampling: None,
        srgb: false,
    };
    let native = NativeOutcome { pixel_format: 1, context: handle, format };
    let reqs = PixelFormatRequirements::default();
    let attrs: GlAttributes<&HeadlessContext> = GlAttributes::default();
    HeadlessContext::new((64, 64), &reqs, &attrs, native)
        .expect("creation with both native handles succeeds")
}

#[test]
fn fresh_thread_has_no_current_context() {
    let ctx = make_context(11);
    let thread = ThreadCurrent::new();
    assert!(!ctx.is_current(&thread));
}

#[test]
fn make_current_then_is_current() {
    let ctx = make_context(11);
    let mut thread = ThreadCurrent::new();
    ctx.make_current(&mut thread).expect("binding a headless context succeeds");
    assert!(ctx.is_current(&thread));
}

#[test]
fn no_spurious_currency_across_contexts() {
    let ctx = make_context(11);
    let other = make_context(22);
    let mut thread = ThreadCurrent::new();
    ctx.make_current(&mut thread).expect("binding a headless context succeeds");
    assert!(ctx.is_current(&thread));
    assert!(!other.is_current(&thread));
    other.make_current(&mut thread).expect("binding a headless context succeeds");
    assert!(other.is_current(&thread));
    assert!(!ctx.is_current(&thread));
}

#[test]
fn no_spurious_currency_on_unrelated_thread() {
    let ctx = make_context(11);
    let mut rendering_thread = ThreadCurrent::new();
    let unrelated_thread = ThreadCurrent::new();
    ctx.make_current(&mut rendering_thread).expect("binding a headless context succeeds");
    assert!(ctx.is_current(&rendering_thread));
    assert!(!ctx.is_current(&unrelated_thread));
}

#[test]
fn swap_buffers_requires_currency() {
    let ctx = make_context(11);
    let thread = ThreadCurrent::new();
    assert!(ctx.swap_buffers(&thread).is_err());
}

#[test]
fn swap_buffers_twice_succeeds() {
    let ctx = make_context(11);
    let mut thread = ThreadCurrent::new();
    ctx.make_current(&mut thread).expect("binding a headless context succeeds");
    assert!(ctx.swap_buffers(&thread).is_ok());
    assert!(ctx.swap_buffers(&thread).is_ok());
}

#[test]
fn swap_buffers_fails_for_non_current_context() {
    let ctx = make_context(11);
    let other = make_context(22);
    let mut thread = ThreadCurrent::new();
    ctx.make_current(&mut thread).expect("binding a headless context succeeds");
    assert!(other.swap_buffers(&thread).is_err());
    assert!(ctx.swap_buffers(&thread).is_ok());
}

#[test]
fn unresolved_name_yields_null_address() {
    let ctx = make_context(11);
    // The host's resolver found nothing for this name and reported the null
    // address; the surface hands it out unchanged and without failing.
    let addr = ctx.get_proc_address("does_not_exist_xyz", 0);
    assert!(addr.is_null());
    assert_eq!(addr.raw, 0);
}

#[test]
fn resolved_name_yields_non_null_address() {
    let ctx = make_context(11);
    // The host's resolver found an address for a core entry point.
    let addr = ctx.get_proc_address("glGetString", 0x7f00_1234);
    assert!(!addr.is_null());
    assert_eq!(addr.raw, 0x7f00_1234);
}

#[test]
fn constructed_context_has_valid_handle() {
    let ctx = make_context(11);
    context_handle_valid(&ctx);
}
