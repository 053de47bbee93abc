use vstd::prelude::*;
use crate::error::RenderError;
use crate::init::WgpuContext;

verus! {

/// Outcome of the host's attempt to acquire the next presentable surface
/// texture for one frame.
#[derive(Clone, Copy, Debug, PartialEq, Eq, Structural)]
pub enum AcquireOutcome {
    /// A presentable texture is available.
    Acquired,
    /// The acquisition timed out.
    Timeout,
    /// The surface no longer matches its configuration.
    Outdated,
    /// The surface was lost.
    Lost,
    /// The host is out of memory.
    OutOfMemory,
}

impl AcquireOutcome {
    /// Only an acquired texture lets the frame proceed.
    pub open spec fn is_success(self) -> bool {
        self is Acquired
    }
}

/// A clear color with 8-bit channels; the host scales them to the backend's
/// unit range.
#[derive(Clone, Copy, Debug, PartialEq, Eq, Structural)]
pub struct ColorRgba8 {
    pub red: u8,
    pub green: u8,
    pub blue: u8,
    pub alpha: u8,
}

/// Opaque black.
pub open spec fn spec_black() -> ColorRgba8 {
    ColorRgba8 { red: 0, green: 0, blue: 0, alpha: 255 }
}

/// What the color attachment does with the previous contents.
#[derive(Clone, Copy, Debug, PartialEq, Eq, Structural)]
pub enum LoadOp {
    Clear { color: ColorRgba8 },
    Load,
}

/// What the color attachment does with the pass's result.
#[derive(Clone, Copy, Debug, PartialEq, Eq, Structural)]
pub enum StoreOp {
    Store,
    Discard,
}

/// One draw call.
#[derive(Clone, Copy, Debug, PartialEq, Eq, Structural)]
pub struct DrawCall {
    pub first_vertex: u32,
    pub vertex_count: u32,
    pub first_instance: u32,
    pub instance_count: u32,
}

/// One render pass: its single color attachment's operations, the pipeline
/// and bind group it binds, and the draws it issues.
#[derive(Debug)]
pub struct PassSpec {
    pub color_attachment_count: u32,
    pub load: LoadOp,
    pub store: StoreOp,
    pub pipeline_bound: bool,
    pub bind_group_slot: u32,
    pub draws: Vec<DrawCall>,
}

/// Everything one frame submits: its render passes and how many submit and
/// present calls follow them.
#[derive(Debug)]
pub struct FrameCommands {
    pub passes: Vec<PassSpec>,
    pub submits: u32,
    pub presents: u32,
}

/// The one lawful pass of a frame: a single color attachment cleared to
/// opaque black and stored, the pipeline bound, the bind group at slot 0,
/// and exactly one draw of 4 vertices and 1 instance.
pub open spec fn spec_single_quad_pass(p: PassSpec) -> bool {
    &&& p.color_attachment_count == 1
    &&& p.load == (LoadOp::Clear { color: spec_black() })
    &&& p.store is Store
    &&& p.pipeline_bound
    &&& p.bind_group_slot == 0
    &&& p.draws@.len() == 1
    &&& p.draws@[0] == (DrawCall { first_vertex: 0, vertex_count: 4, first_instance: 0, instance_count: 1 })
}

/// The draw invariant for a whole frame: exactly one render pass, which is
/// the single-quad pass, and exactly one submit and one present.
pub open spec fn spec_frame_commands_ok(fc: FrameCommands) -> bool {
    &&& fc.passes@.len() == 1
    &&& spec_single_quad_pass(fc.passes@[0])
    &&& fc.submits == 1
    &&& fc.presents == 1
}

/// What a render call answers for a given acquisition outcome: the frame's
/// command stream when a texture was acquired, and an acquisition error -
/// fatal to this call alone - otherwise.
pub open spec fn spec_render_rel(acquired: AcquireOutcome, r: Result<FrameCommands, RenderError>) -> bool {
    if acquired.is_success() {
        r matches Result::Ok(fc) && spec_frame_commands_ok(fc)
    } else {
        r matches Result::Err(e) && e is SurfaceAcquisition
    }
}

impl WgpuContext {
    /// Plan one frame against this context. The context is only borrowed:
    /// a failed acquisition fails this call and nothing else, and the next
    /// call starts from the same context. Every successful call issues
    /// exactly one render pass with one draw of 4 vertices and 1 instance,
    /// one submit and one present - never zero, never more.
    pub fn render(&self, acquired: AcquireOutcome) -> (r: Result<FrameCommands, RenderError>)
        ensures
            spec_render_rel(acquired, r),
    {
        match acquired {
            AcquireOutcome::Acquired => {
                let mut draws: Vec<DrawCall> = Vec::new();
                draws.push(DrawCall { first_vertex: 0, vertex_count: 4, first_instance: 0, instance_count: 1 });
                let pass = PassSpec {
                    color_attachment_count: 1,
                    load: LoadOp::Clear { color: ColorRgba8 { red: 0, green: 0, blue: 0, alpha: 255 } },
                    store: StoreOp::Store,
                    pipeline_bound: true,
                    bind_group_slot: 0,
                    draws,
                };
                let mut passes: Vec<PassSpec> = Vec::new();
                passes.push(pass);
                Ok(FrameCommands { passes, submits: 1, presents: 1 })
            },
            _ => Err(RenderError::SurfaceAcquisition),
        }
    }
}

/// A transient acquisition failure is recoverable: the call it fails
/// returns an error, and a later call against the very same context with a
/// healthy surface yields the full frame, without the context being
/// recreated in between.
pub proof fn lemma_transient_failure_recovers(
    first: AcquireOutcome,
    second: AcquireOutcome,
    r1: Result<FrameCommands, RenderError>,
    r2: Result<FrameCommands, RenderError>,
)
    requires
        !first.is_success(),
        second.is_success(),
        spec_render_rel(first, r1),
        spec_render_rel(second, r2),
    ensures
        r1 matches Result::Err(e) && e is SurfaceAcquisition,
        r2 matches Result::Ok(fc) && spec_frame_commands_ok(fc),
{
}

} // verus!
