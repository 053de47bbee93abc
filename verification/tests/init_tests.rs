use quad_renderer::AlphaMode;
use quad_renderer::CanvasProxy;
use quad_renderer::DecodedImage;
use quad_renderer::FetchOutcome;
use quad_renderer::HostAction;
use quad_renderer::InitError;
use quad_renderer::InitStage;
use quad_renderer::InitStep;
use quad_renderer::SurfaceCaps;
use quad_renderer::TextureFormat;
use quad_renderer::WgpuContext;
use quad_renderer::accept_asset;

fn caps_with_srgb() -> SurfaceCaps {
    SurfaceCaps {
        formats: vec![TextureFormat::Bgra8Unorm, TextureFormat::Bgra8UnormSrgb],
        alpha_modes: vec![AlphaMode::Opaque, AlphaMode::PreMultiplied],
    }
}

fn red_png_2x2() -> Vec<u8> {
    let img = image::ImageBuffer::<image::Rgba<u8>, Vec<u8>>::from_pixel(
        2,
        2,
        image::Rgba([255, 0, 0, 255]),
    );
    let mut bytes: Vec<u8> = Vec::new();
    let mut cursor = std::io::Cursor::new(&mut bytes);
    img.write_to(&mut cursor, image::ImageFormat::Png).unwrap();
    bytes
}

fn drive_to_device_ready() -> InitStage {
    let stage = InitStage::start(CanvasProxy::new(1));
    assert_eq!(stage.next_action(), HostAction::BindSurface);
    let stage = stage.step(InitStep::SurfaceBound { ok: true });
    assert_eq!(stage.next_action(), HostAction::RequestAdapter);
    let stage = stage.step(InitStep::AdapterGranted { caps: Some(caps_with_srgb()) });
    assert_eq!(stage.next_action(), HostAction::RequestDevice);
    let stage = stage.step(InitStep::DeviceGranted { ok: true });
    assert_eq!(stage.next_action(), HostAction::FetchAsset);
    stage
}

#[test]
fn full_construction_succeeds_on_good_asset() {
    let stage = drive_to_device_ready();
    let bytes = red_png_2x2();
    let stage = stage.step(InitStep::AssetDelivered {
        outcome: FetchOutcome::Body { status: 200, bytes },
    });
    assert_eq!(stage.next_action(), HostAction::Realize);
    match stage {
        InitStage::Ready { ctx, upload } => {
            // The decoder really ran: the upload holds the decoded texels,
            // not the compressed bytes that went in.
            assert_eq!(upload.pixels, vec![255, 0, 0, 255, 255, 0, 0, 255, 255, 0, 0, 255, 255, 0, 0, 255]);
            assert_eq!(upload.extent.width, 2);
            assert_eq!(upload.extent.height, 2);
            assert_eq!(upload.extent.depth_or_array_layers, 1);
            assert_eq!(upload.layout.offset, 0);
            assert_eq!(upload.layout.bytes_per_row, 8);
            assert_eq!(upload.layout.rows_per_image, 2);
            assert_eq!(ctx.canvas.id, 1);
            assert_eq!(ctx.texture.size.width, 2);
            assert_eq!(ctx.texture.size.height, 2);
            assert_eq!(ctx.config.width, 2);
            assert_eq!(ctx.config.height, 2);
            assert_eq!(ctx.config.format, TextureFormat::Bgra8UnormSrgb);
            assert_eq!(ctx.config.alpha_mode, AlphaMode::Opaque);
            assert_eq!(ctx.pipeline.target.format, TextureFormat::Bgra8UnormSrgb);
        }
        other => panic!("expected Ready, got {:?}", other),
    }
}

#[test]
fn http_error_status_fails_with_asset_error() {
    // Scenario: the fetch returns an HTTP error status; construction fails
    // with the asset error and no context exists to render with.
    let stage = drive_to_device_ready();
    let bytes = red_png_2x2();
    let stage = stage.step(InitStep::AssetDelivered {
        outcome: FetchOutcome::Body { status: 404, bytes },
    });
    assert!(matches!(stage, InitStage::Failed { error: InitError::Asset }));
    assert_eq!(stage.next_action(), HostAction::Abort);
}

#[test]
fn transport_failure_fails_with_asset_error() {
    let stage = drive_to_device_ready();
    let stage = stage.step(InitStep::AssetDelivered { outcome: FetchOutcome::Transport });
    assert!(matches!(stage, InitStage::Failed { error: InitError::Asset }));
}

#[test]
fn undecodable_body_fails_with_asset_error() {
    let stage = drive_to_device_ready();
    let stage = stage.step(InitStep::AssetDelivered {
        outcome: FetchOutcome::Body { status: 200, bytes: vec![0, 1, 2, 3, 4, 5, 6, 7] },
    });
    assert!(matches!(stage, InitStage::Failed { error: InitError::Asset }));
}

#[test]
fn handle_binding_failure_is_fatal() {
    let stage = InitStage::start(CanvasProxy::new(9));
    let stage = stage.step(InitStep::SurfaceBound { ok: false });
    assert!(matches!(stage, InitStage::Failed { error: InitError::HandleBinding }));
    assert_eq!(stage.next_action(), HostAction::Abort);
}

#[test]
fn missing_adapter_fails_negotiation() {
    let stage = InitStage::start(CanvasProxy::new(1));
    let stage = stage.step(InitStep::SurfaceBound { ok: true });
    let stage = stage.step(InitStep::AdapterGranted { caps: None });
    assert!(matches!(stage, InitStage::Failed { error: InitError::BackendNegotiation }));
}

#[test]
fn empty_capability_list_fails_negotiation() {
    let stage = InitStage::start(CanvasProxy::new(1));
    let stage = stage.step(InitStep::SurfaceBound { ok: true });
    let empty = SurfaceCaps { formats: Vec::new(), alpha_modes: Vec::new() };
    let stage = stage.step(InitStep::AdapterGranted { caps: Some(empty) });
    assert!(matches!(stage, InitStage::Failed { error: InitError::BackendNegotiation }));
}

#[test]
fn refused_device_fails_negotiation() {
    let stage = InitStage::start(CanvasProxy::new(1));
    let stage = stage.step(InitStep::SurfaceBound { ok: true });
    let stage = stage.step(InitStep::AdapterGranted { caps: Some(caps_with_srgb()) });
    let stage = stage.step(InitStep::DeviceGranted { ok: false });
    assert!(matches!(stage, InitStage::Failed { error: InitError::BackendNegotiation }));
}

#[test]
fn failure_is_final_across_later_events() {
    let stage = InitStage::start(CanvasProxy::new(1));
    let stage = stage.step(InitStep::SurfaceBound { ok: false });
    let stage = stage.step(InitStep::DeviceGranted { ok: true });
    assert!(matches!(stage, InitStage::Failed { error: InitError::HandleBinding }));
}

#[test]
fn accept_asset_applies_the_status_policy() {
    let ok = accept_asset(FetchOutcome::Body { status: 200, bytes: red_png_2x2() });
    let img = ok.unwrap();
    assert_eq!((img.width, img.height), (2, 2));
    assert_eq!(img.pixels.len(), 16);

    let redirect = accept_asset(FetchOutcome::Body { status: 301, bytes: red_png_2x2() });
    assert_eq!(redirect.unwrap_err(), InitError::Asset);

    let server_error = accept_asset(FetchOutcome::Body { status: 500, bytes: red_png_2x2() });
    assert_eq!(server_error.unwrap_err(), InitError::Asset);

    let transport = accept_asset(FetchOutcome::Transport);
    assert_eq!(transport.unwrap_err(), InitError::Asset);
}

#[test]
fn constructor_fails_closed_on_fetch_failure() {
    // A transport failure yields the asset error straight from the
    // constructor; no context or upload job exists outside `Ok`.
    let caps = caps_with_srgb();
    let r = WgpuContext::new(CanvasProxy::new(1), &caps, FetchOutcome::Transport);
    assert_eq!(r.unwrap_err(), InitError::Asset);
}

#[test]
fn constructor_rejects_http_error_status() {
    let caps = caps_with_srgb();
    let r = WgpuContext::new(
        CanvasProxy::new(1),
        &caps,
        FetchOutcome::Body { status: 404, bytes: red_png_2x2() },
    );
    assert_eq!(r.unwrap_err(), InitError::Asset);
}

#[test]
fn constructor_rejects_undecodable_body() {
    let caps = caps_with_srgb();
    let r = WgpuContext::new(
        CanvasProxy::new(1),
        &caps,
        FetchOutcome::Body { status: 200, bytes: vec![9, 9, 9, 9] },
    );
    assert_eq!(r.unwrap_err(), InitError::Asset);
}

#[test]
fn constructor_builds_context_on_good_asset() {
    let caps = caps_with_srgb();
    let r = WgpuContext::new(
        CanvasProxy::new(4),
        &caps,
        FetchOutcome::Body { status: 200, bytes: red_png_2x2() },
    );
    let (ctx, upload) = r.unwrap();
    assert_eq!(ctx.canvas.id, 4);
    assert_eq!(ctx.texture.size.width, 2);
    assert_eq!(ctx.texture.size.height, 2);
    assert_eq!(ctx.config.format, TextureFormat::Bgra8UnormSrgb);
    assert_eq!(upload.layout.bytes_per_row, 8);
    assert_eq!(upload.pixels.len(), 16);
}

#[test]
fn assembled_context_matches_decoded_image() {
    // Direct assembly from an already decoded image: the descriptors are a
    // function of the image size and the capability list alone.
    let img = DecodedImage { width: 3, height: 1, pixels: vec![0u8; 12] };
    let caps = SurfaceCaps {
        formats: vec![TextureFormat::Rgba8Unorm],
        alpha_modes: vec![AlphaMode::Inherit],
    };
    let (ctx, upload) = WgpuContext::assemble(CanvasProxy::new(5), &caps, img);
    assert_eq!(ctx.texture.size.width, 3);
    assert_eq!(ctx.texture.size.height, 1);
    assert_eq!(ctx.config.format, TextureFormat::Rgba8Unorm);
    assert_eq!(ctx.config.alpha_mode, AlphaMode::Inherit);
    assert_eq!(upload.layout.bytes_per_row, 12);
    assert_eq!(upload.layout.rows_per_image, 1);
    assert_eq!(upload.pixels.len(), 12);
}
