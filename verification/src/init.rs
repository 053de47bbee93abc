use vstd::prelude::*;
use crate::asset::DecodedImage;
use crate::asset::FetchOutcome;
use crate::asset::accept_asset;
use crate::asset::spec_asset_accepted;
use crate::descriptor::BindGroupLayoutSpec;
use crate::descriptor::BindGroupSpec;
use crate::descriptor::Extent3d;
use crate::descriptor::PipelineSpec;
use crate::descriptor::SamplerSpec;
use crate::descriptor::SurfaceCaps;
use crate::descriptor::SurfaceConfigSpec;
use crate::descriptor::TextureSpec;
use crate::descriptor::TextureUsage;
use crate::descriptor::WriteLayout;
use crate::descriptor::bind_group_layout_spec;
use crate::descriptor::bind_group_spec;
use crate::descriptor::lemma_bind_group_complete;
use crate::descriptor::pipeline_spec_for;
use crate::descriptor::sampler_spec;
use crate::descriptor::spec_group_complete;
use crate::descriptor::spec_group_matches_layout;
use crate::descriptor::spec_layout_complete;
use crate::descriptor::spec_pipeline_for;
use crate::descriptor::spec_sampler_policy;
use crate::descriptor::spec_surface_config;
use crate::descriptor::surface_config_for;
use crate::descriptor::texture_spec_for;
use crate::descriptor::write_layout_for;
use crate::error::InitError;
use crate::handle::CanvasProxy;

verus! {

/// The one write that fills the image texture: its extent, the layout of
/// the source bytes, and the bytes themselves. Consumed by the host when it
/// realizes the context; nothing retains the pixels afterwards.
#[derive(Debug)]
pub struct UploadJob {
    pub extent: Extent3d,
    pub layout: WriteLayout,
    pub pixels: Vec<u8>,
}

/// The immutable render context: every descriptor the host needs to realize
/// the GPU state, assembled exactly once. The aggregate exclusively owns
/// its resources; no partially built value of this type is ever observable.
#[derive(Debug)]
pub struct WgpuContext {
    pub canvas: CanvasProxy,
    pub texture: TextureSpec,
    pub sampler: SamplerSpec,
    pub bind_layout: BindGroupLayoutSpec,
    pub bind_group: BindGroupSpec,
    pub config: SurfaceConfigSpec,
    pub pipeline: PipelineSpec,
}

impl WgpuContext {
    /// The context invariant: the surface configuration's format and size
    /// match the pipeline's output target and the texture's extent, the
    /// bind group fills exactly what its layout declares, the sampler obeys
    /// the fixed policy, and presentation is FIFO over a triangle strip.
    pub open spec fn wf(self) -> bool {
        &&& self.config.format == self.pipeline.target.format
        &&& self.config.width == self.texture.size.width
        &&& self.config.height == self.texture.size.height
        &&& self.texture.size.depth_or_array_layers == 1
        &&& self.texture.mip_level_count == 1
        &&& self.texture.sample_count == 1
        &&& spec_sampler_policy(self.sampler)
        &&& spec_layout_complete(self.bind_layout)
        &&& spec_group_complete(self.bind_group)
        &&& spec_group_matches_layout(self.bind_group, self.bind_layout)
        &&& self.pipeline.topology is TriangleStrip
        &&& self.config.present_mode is Fifo
    }
}

/// What a lawfully assembled context and upload job look like for a given
/// drawable, capability list and decoded image of size `width` x `height`
/// with pixel bytes `pixels`.
pub open spec fn spec_assembled(
    ctx: WgpuContext,
    up: UploadJob,
    canvas: CanvasProxy,
    caps: SurfaceCaps,
    width: u32,
    height: u32,
    pixels: Seq<u8>,
) -> bool {
    &&& ctx.canvas == canvas
    &&& ctx.texture.size == (Extent3d { width, height, depth_or_array_layers: 1 })
    &&& ctx.texture.mip_level_count == 1
    &&& ctx.texture.sample_count == 1
    &&& ctx.texture.dimension is D2
    &&& ctx.texture.format is Rgba8UnormSrgb
    &&& ctx.texture.usage == (TextureUsage { texture_binding: true, copy_dst: true, render_attachment: false })
    &&& spec_sampler_policy(ctx.sampler)
    &&& spec_layout_complete(ctx.bind_layout)
    &&& spec_group_complete(ctx.bind_group)
    &&& spec_surface_config(ctx.config, width, height, caps)
    &&& ctx.pipeline == spec_pipeline_for(ctx.config.format)
    &&& up.extent == ctx.texture.size
    &&& up.layout.offset == 0
    &&& up.layout.bytes_per_row == 4 * width
    &&& up.layout.rows_per_image == height
    &&& up.pixels@ == pixels
}

/// A lawfully assembled context satisfies the context invariant.
pub proof fn lemma_assembled_wf(
    ctx: WgpuContext,
    up: UploadJob,
    canvas: CanvasProxy,
    caps: SurfaceCaps,
    width: u32,
    height: u32,
    pixels: Seq<u8>,
)
    requires
        spec_assembled(ctx, up, canvas, caps, width, height, pixels),
    ensures
        ctx.wf(),
{
    lemma_bind_group_complete(ctx.bind_group, ctx.bind_layout);
}

/// The one upload covers the texture exactly: row stride times row count
/// equals the byte length of the pixel buffer, and the write extent is the
/// texture's extent.
pub proof fn lemma_upload_covers_texture(
    ctx: WgpuContext,
    up: UploadJob,
    canvas: CanvasProxy,
    caps: SurfaceCaps,
    width: u32,
    height: u32,
    pixels: Seq<u8>,
)
    requires
        spec_assembled(ctx, up, canvas, caps, width, height, pixels),
        pixels.len() == 4 * width * height,
    ensures
        up.extent == ctx.texture.size,
        up.layout.bytes_per_row * up.layout.rows_per_image == up.pixels@.len(),
{
    assert((4 * width) * height == 4 * width * height) by (nonlinear_arith);
}

impl WgpuContext {
    /// Construct the context from the outcome of the asset fetch: apply the
    /// acceptance policy, decode, and assemble. Construction fails closed:
    /// when the transport failed, the status was not a success, or the body
    /// does not decode, the result is the asset error and no context value -
    /// no texture, bind group, surface or pipeline descriptor and no upload
    /// job - comes into being; a context exists only inside `Ok`.
    pub fn new(canvas: CanvasProxy, caps: &SurfaceCaps, outcome: FetchOutcome) -> (r: Result<
        (WgpuContext, UploadJob),
        InitError,
    >)
        requires
            caps.wf(),
        ensures
            (match spec_asset_accepted(outcome) {
                Option::Some((w, h, px)) => {
                    &&& r matches Result::Ok(pair)
                    &&& spec_assembled(pair.0, pair.1, canvas, *caps, w, h, px)
                    &&& pair.0.wf()
                },
                Option::None => (r matches Result::Err(e) && e is Asset),
            }),
    {
        match accept_asset(outcome) {
            Result::Ok(img) => Ok(WgpuContext::assemble(canvas, caps, img)),
            Result::Err(e) => Err(e),
        }
    }

    /// Assemble the immutable context and its upload job from the decoded
    /// image and the negotiated surface capabilities. This is the only way
    /// a context value comes into being, and it is total on well-formed
    /// inputs: every descriptor is pinned by `spec_assembled`.
    pub fn assemble(canvas: CanvasProxy, caps: &SurfaceCaps, img: DecodedImage) -> (r: (
        WgpuContext,
        UploadJob,
    ))
        requires
            caps.wf(),
            img.wf(),
        ensures
            spec_assembled(r.0, r.1, canvas, *caps, img.width, img.height, img.pixels@),
            r.0.wf(),
    {
        let texture = texture_spec_for(&img);
        let layout = write_layout_for(&img);
        let sampler = sampler_spec();
        let bind_layout = bind_group_layout_spec();
        let bind_group = bind_group_spec();
        let config = surface_config_for(img.width, img.height, caps);
        let pipeline = pipeline_spec_for(config.format);
        let extent = texture.size;
        let ctx = WgpuContext { canvas, texture, sampler, bind_layout, bind_group, config, pipeline };
        let up = UploadJob { extent, layout, pixels: img.pixels };
        proof {
            lemma_bind_group_complete(ctx.bind_group, ctx.bind_layout);
        }
        (ctx, up)
    }
}

/// The event the host hands back after performing the action the current
/// stage asked for.
#[derive(Debug)]
pub enum InitStep {
    /// Whether the drawable was tagged and a surface bound to it.
    SurfaceBound { ok: bool },
    /// The surface capabilities of the granted adapter, or nothing when no
    /// compatible adapter was available.
    AdapterGranted { caps: Option<SurfaceCaps> },
    /// Whether the adapter granted a device and queue.
    DeviceGranted { ok: bool },
    /// The outcome of the asset fetch.
    AssetDelivered { outcome: FetchOutcome },
}

/// The stage initialization has reached. The stages advance strictly
/// front-to-back and never retry; the first failure is final.
#[derive(Debug)]
pub enum InitStage {
    Start { canvas: CanvasProxy },
    Bound { canvas: CanvasProxy },
    AdapterReady { canvas: CanvasProxy, caps: SurfaceCaps },
    DeviceReady { canvas: CanvasProxy, caps: SurfaceCaps },
    Ready { ctx: WgpuContext, upload: UploadJob },
    Failed { error: InitError },
}

/// What the host must do next for a given stage.
#[derive(Clone, Copy, Debug, PartialEq, Eq, Structural)]
pub enum HostAction {
    /// Tag the drawable and bind a backend surface to it.
    BindSurface,
    /// Request a graphics adapter compatible with the surface.
    RequestAdapter,
    /// Request a logical device and queue from the adapter.
    RequestDevice,
    /// Fetch the image bytes from the asset URL.
    FetchAsset,
    /// Create the GPU resources the `Ready` payload describes, once.
    Realize,
    /// Report the error; nothing was left allocated.
    Abort,
}

/// The transition relation of the initialization protocol: what the next
/// stage is for a stage and the event answering its action. An event that
/// does not answer the current stage leaves the stage unchanged.
pub open spec fn spec_step_rel(pre: InitStage, ev: InitStep, post: InitStage) -> bool {
    match (pre, ev) {
        (InitStage::Start { canvas }, InitStep::SurfaceBound { ok }) => {
            post == if ok {
                InitStage::Bound { canvas }
            } else {
                InitStage::Failed { error: InitError::HandleBinding }
            }
        },
        (InitStage::Bound { canvas }, InitStep::AdapterGranted { caps }) => {
            match caps {
                Option::Some(c) => {
                    post == if c.wf() {
                        InitStage::AdapterReady { canvas, caps: c }
                    } else {
                        InitStage::Failed { error: InitError::BackendNegotiation }
                    }
                },
                Option::None => post == (InitStage::Failed { error: InitError::BackendNegotiation }),
            }
        },
        (InitStage::AdapterReady { canvas, caps }, InitStep::DeviceGranted { ok }) => {
            post == if ok {
                InitStage::DeviceReady { canvas, caps }
            } else {
                InitStage::Failed { error: InitError::BackendNegotiation }
            }
        },
        (InitStage::DeviceReady { canvas, caps }, InitStep::AssetDelivered { outcome }) => {
            match spec_asset_accepted(outcome) {
                Option::Some((w, h, px)) => {
                    post matches InitStage::Ready { ctx, upload }
                        && spec_assembled(ctx, upload, canvas, caps, w, h, px)
                },
                Option::None => post == (InitStage::Failed { error: InitError::Asset }),
            }
        },
        (pre2, _) => post == pre2,
    }
}

impl InitStage {
    /// The stage invariant: any capability list a stage carries was checked
    /// to be usable when the adapter was granted.
    pub open spec fn wf(self) -> bool {
        match self {
            InitStage::AdapterReady { caps, .. } => caps.wf(),
            InitStage::DeviceReady { caps, .. } => caps.wf(),
            _ => true,
        }
    }

    /// Begin the protocol for a drawable.
    pub fn start(canvas: CanvasProxy) -> (s: InitStage)
        ensures
            s == (InitStage::Start { canvas }),
    {
        InitStage::Start { canvas }
    }

    /// The action the host must perform for this stage.
    pub fn next_action(&self) -> (a: HostAction)
        ensures
            self is Start ==> a is BindSurface,
            self is Bound ==> a is RequestAdapter,
            self is AdapterReady ==> a is RequestDevice,
            self is DeviceReady ==> a is FetchAsset,
            self is Ready ==> a is Realize,
            self is Failed ==> a is Abort,
    {
        match self {
            InitStage::Start { .. } => HostAction::BindSurface,
            InitStage::Bound { .. } => HostAction::RequestAdapter,
            InitStage::AdapterReady { .. } => HostAction::RequestDevice,
            InitStage::DeviceReady { .. } => HostAction::FetchAsset,
            InitStage::Ready { .. } => HostAction::Realize,
            InitStage::Failed { .. } => HostAction::Abort,
        }
    }

    /// Advance the protocol by one event. The next stage is exactly what
    /// `spec_step_rel` allows.
    pub fn step(self, ev: InitStep) -> (next: InitStage)
        requires
            self.wf(),
        ensures
            spec_step_rel(self, ev, next),
            next.wf(),
    {
        match (self, ev) {
            (InitStage::Start { canvas }, InitStep::SurfaceBound { ok }) => {
                if ok {
                    InitStage::Bound { canvas }
                } else {
                    InitStage::Failed { error: InitError::HandleBinding }
                }
            },
            (InitStage::Bound { canvas }, InitStep::AdapterGranted { caps }) => {
                match caps {
                    Option::Some(c) => {
                        if c.formats.len() >= 1 && c.alpha_modes.len() >= 1 {
                            InitStage::AdapterReady { canvas, caps: c }
                        } else {
                            InitStage::Failed { error: InitError::BackendNegotiation }
                        }
                    },
                    Option::None => InitStage::Failed { error: InitError::BackendNegotiation },
                }
            },
            (InitStage::AdapterReady { canvas, caps }, InitStep::DeviceGranted { ok }) => {
                if ok {
                    InitStage::DeviceReady { canvas, caps }
                } else {
                    InitStage::Failed { error: InitError::BackendNegotiation }
                }
            },
            (InitStage::DeviceReady { canvas, caps }, InitStep::AssetDelivered { outcome }) => {
                match WgpuContext::new(canvas, &caps, outcome) {
                    Result::Ok((ctx, upload)) => InitStage::Ready { ctx, upload },
                    Result::Err(_) => InitStage::Failed { error: InitError::Asset },
                }
            },
            (pre, _) => pre,
        }
    }
}

/// Fail-closed construction: when the asset fetch fails, returns a
/// non-success status, or its body does not decode, the protocol moves to
/// `Failed(Asset)`. In particular no `Ready` payload - no texture, bind
/// group or pipeline descriptor and no upload job - comes into being, and
/// the host's next action from the failed stage is `Abort`, not `Realize`.
pub proof fn lemma_fail_closed(pre: InitStage, outcome: FetchOutcome, post: InitStage)
    requires
        pre is DeviceReady,
        spec_asset_accepted(outcome) is None,
        spec_step_rel(pre, InitStep::AssetDelivered { outcome }, post),
    ensures
        post == (InitStage::Failed { error: InitError::Asset }),
{
}

/// A complete context can appear only as the answer to an asset delivery
/// that the acceptance policy approved, from the device-ready stage; the
/// payload is then lawfully assembled for exactly that stage's drawable and
/// capabilities and the delivered image.
pub proof fn lemma_ready_only_on_success(pre: InitStage, ev: InitStep, post: InitStage)
    requires
        spec_step_rel(pre, ev, post),
        !(pre is Ready),
    ensures
        post is Ready ==> {
            &&& pre is DeviceReady
            &&& ev matches InitStep::AssetDelivered { outcome }
            &&& spec_asset_accepted(outcome) is Some
        },
{
}

/// Failure is final: no event moves the protocol out of a failed stage.
pub proof fn lemma_failure_is_final(pre: InitStage, ev: InitStep, post: InitStage)
    requires
        spec_step_rel(pre, ev, post),
        pre is Failed,
    ensures
        post == pre,
{
}

/// The context is built exactly once: no event moves the protocol out of
/// the ready stage, so the realized resources are never rebuilt.
pub proof fn lemma_ready_is_final(pre: InitStage, ev: InitStep, post: InitStage)
    requires
        spec_step_rel(pre, ev, post),
        pre is Ready,
    ensures
        post == pre,
{
}

/// The protocol run over a whole event sequence: each event answers the
/// stage before it, as `spec_step_rel` allows.
pub open spec fn spec_run_rel(s0: InitStage, evs: Seq<InitStep>, sn: InitStage) -> bool
    decreases evs.len(),
{
    if evs.len() == 0 {
        sn == s0
    } else {
        exists|mid: InitStage|
            #[trigger] spec_step_rel(s0, evs[0], mid)
                && spec_run_rel(mid, evs.subrange(1, evs.len() as int), sn)
    }
}

/// Over any event sequence whatsoever, the protocol reaches `Ready` from a
/// non-ready stage only if some delivered asset passed the acceptance
/// policy: without a successful fetch and decode, no context exists.
pub proof fn lemma_ready_needs_accepted_asset(s0: InitStage, evs: Seq<InitStep>, sn: InitStage)
    requires
        spec_run_rel(s0, evs, sn),
        !(s0 is Ready),
        sn is Ready,
    ensures
        exists|i: int|
            0 <= i < evs.len()
                && ((#[trigger] evs[i]) matches InitStep::AssetDelivered { outcome }
                    && spec_asset_accepted(outcome) is Some),
    decreases evs.len(),
{
    let tail = evs.subrange(1, evs.len() as int);
    let mid = choose|mid: InitStage|
        #[trigger] spec_step_rel(s0, evs[0], mid) && spec_run_rel(mid, tail, sn);
    if mid is Ready {
        lemma_ready_only_on_success(s0, evs[0], mid);
        assert(0 <= 0 < evs.len()
            && (evs[0] matches InitStep::AssetDelivered { outcome }
                && spec_asset_accepted(outcome) is Some));
    } else {
        lemma_ready_needs_accepted_asset(mid, tail, sn);
        let j = choose|j: int|
            0 <= j < tail.len()
                && ((#[trigger] tail[j]) matches InitStep::AssetDelivered { outcome }
                    && spec_asset_accepted(outcome) is Some);
        assert(tail[j] == evs[j + 1]);
        assert(0 <= j + 1 < evs.len()
            && (evs[j + 1] matches InitStep::AssetDelivered { outcome }
                && spec_asset_accepted(outcome) is Some));
    }
}

} // verus!
