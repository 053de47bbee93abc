//! Verified core of a single-quad GPU image renderer.
//!
//! The library models the decisions a renderer makes while bringing up a GPU
//! context for an on-screen surface: binding a logical drawable handle,
//! sequencing the asynchronous negotiation steps, decoding the fetched image,
//! choosing descriptors for texture, sampler, bind group, surface and
//! pipeline, and planning the per-frame command stream. The host side (the
//! actual GPU and network calls) drives these decisions from outside.

pub mod asset;
pub mod descriptor;
pub mod error;
pub mod frame;
pub mod handle;
pub mod init;

pub use asset::DecodedImage;
pub use asset::FetchOutcome;
pub use asset::accept_asset;
pub use asset::status_success;
pub use descriptor::AddressMode;
pub use descriptor::AlphaMode;
pub use descriptor::BindGroupEntrySpec;
pub use descriptor::BindGroupLayoutEntrySpec;
pub use descriptor::BindGroupLayoutSpec;
pub use descriptor::BindGroupSpec;
pub use descriptor::BindingResourceSpec;
pub use descriptor::BindingTypeSpec;
pub use descriptor::BlendStateSpec;
pub use descriptor::ColorTargetSpec;
pub use descriptor::Extent3d;
pub use descriptor::FilterMode;
pub use descriptor::PipelineSpec;
pub use descriptor::PresentMode;
pub use descriptor::PrimitiveTopology;
pub use descriptor::SamplerSpec;
pub use descriptor::ShaderEntry;
pub use descriptor::SurfaceCaps;
pub use descriptor::SurfaceConfigSpec;
pub use descriptor::TextureDimension;
pub use descriptor::TextureFormat;
pub use descriptor::TextureSpec;
pub use descriptor::TextureUsage;
pub use descriptor::TextureViewDimension;
pub use descriptor::WriteLayout;
pub use descriptor::bind_group_layout_spec;
pub use descriptor::bind_group_spec;
pub use descriptor::choose_format;
pub use descriptor::is_srgb;
pub use descriptor::pipeline_spec_for;
pub use descriptor::sampler_spec;
pub use descriptor::surface_config_for;
pub use descriptor::texture_spec_for;
pub use descriptor::write_layout_for;
pub use error::InitError;
pub use error::RenderError;
pub use frame::AcquireOutcome;
pub use frame::ColorRgba8;
pub use frame::DrawCall;
pub use frame::FrameCommands;
pub use frame::LoadOp;
pub use frame::PassSpec;
pub use frame::StoreOp;
pub use handle::CanvasProxy;
pub use handle::DisplayKind;
pub use init::HostAction;
pub use init::InitStage;
pub use init::InitStep;
pub use init::UploadJob;
pub use init::WgpuContext;
