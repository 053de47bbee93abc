use quad_renderer::AcquireOutcome;
use quad_renderer::AlphaMode;
use quad_renderer::CanvasProxy;
use quad_renderer::DecodedImage;
use quad_renderer::LoadOp;
use quad_renderer::RenderError;
use quad_renderer::SurfaceCaps;
use quad_renderer::StoreOp;
use quad_renderer::TextureFormat;
use quad_renderer::WgpuContext;

fn small_context() -> WgpuContext {
    let img = DecodedImage { width: 1, height: 1, pixels: vec![10, 20, 30, 255] };
    let caps = SurfaceCaps {
        formats: vec![TextureFormat::Bgra8UnormSrgb],
        alpha_modes: vec![AlphaMode::Opaque],
    };
    let (ctx, _upload) = WgpuContext::assemble(CanvasProxy::new(2), &caps, img);
    ctx
}

#[test]
fn successful_render_issues_exactly_one_of_everything() {
    let ctx = small_context();
    let fc = ctx.render(AcquireOutcome::Acquired).unwrap();
    assert_eq!(fc.passes.len(), 1);
    let pass = &fc.passes[0];
    assert_eq!(pass.color_attachment_count, 1);
    match pass.load {
        LoadOp::Clear { color } => {
            assert_eq!((color.red, color.green, color.blue, color.alpha), (0, 0, 0, 255));
        }
        LoadOp::Load => panic!("the pass must clear, not load"),
    }
    assert_eq!(pass.store, StoreOp::Store);
    assert!(pass.pipeline_bound);
    assert_eq!(pass.bind_group_slot, 0);
    assert_eq!(pass.draws.len(), 1);
    assert_eq!(pass.draws[0].first_vertex, 0);
    assert_eq!(pass.draws[0].vertex_count, 4);
    assert_eq!(pass.draws[0].first_instance, 0);
    assert_eq!(pass.draws[0].instance_count, 1);
    assert_eq!(fc.submits, 1);
    assert_eq!(fc.presents, 1);
}

#[test]
fn transient_acquisition_failure_recovers() {
    // Scenario: acquisition fails transiently on one call; that call fails,
    // and a later call against the very same context succeeds without the
    // context being recreated.
    let ctx = small_context();
    let first = ctx.render(AcquireOutcome::Outdated);
    assert_eq!(first.unwrap_err(), RenderError::SurfaceAcquisition);
    let second = ctx.render(AcquireOutcome::Acquired);
    assert!(second.is_ok());
    assert_eq!(second.unwrap().passes.len(), 1);
}

#[test]
fn every_acquisition_failure_fails_only_that_call() {
    let ctx = small_context();
    for outcome in [
        AcquireOutcome::Timeout,
        AcquireOutcome::Outdated,
        AcquireOutcome::Lost,
        AcquireOutcome::OutOfMemory,
    ] {
        assert_eq!(ctx.render(outcome).unwrap_err(), RenderError::SurfaceAcquisition);
    }
    assert!(ctx.render(AcquireOutcome::Acquired).is_ok());
}
