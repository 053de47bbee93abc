use vstd::prelude::*;
use crate::asset::DecodedImage;

verus! {

/// Pixel formats a presentation surface may offer. The sRGB-flagged variants
/// are the gamma-corrected ones the negotiation prefers.
#[derive(Clone, Copy, Debug, PartialEq, Eq, Structural)]
pub enum TextureFormat {
    Rgba8Unorm,
    Rgba8UnormSrgb,
    Bgra8Unorm,
    Bgra8UnormSrgb,
    Rgb10a2Unorm,
}

/// Whether a format is gamma-corrected (sRGB).
pub open spec fn spec_is_srgb(f: TextureFormat) -> bool {
    f is Rgba8UnormSrgb || f is Bgra8UnormSrgb
}

/// Exec mirror of `spec_is_srgb`.
pub fn is_srgb(f: TextureFormat) -> (r: bool)
    ensures
        r == spec_is_srgb(f),
{
    match f {
        TextureFormat::Rgba8UnormSrgb => true,
        TextureFormat::Bgra8UnormSrgb => true,
        _ => false,
    }
}

/// Alpha compositing modes a surface may offer.
#[derive(Clone, Copy, Debug, PartialEq, Eq, Structural)]
pub enum AlphaMode {
    Auto,
    Opaque,
    PreMultiplied,
    PostMultiplied,
    Inherit,
}

/// Presentation scheduling modes.
#[derive(Clone, Copy, Debug, PartialEq, Eq, Structural)]
pub enum PresentMode {
    AutoVsync,
    AutoNoVsync,
    Fifo,
    FifoRelaxed,
    Immediate,
    Mailbox,
}

/// Sampler addressing outside the [0, 1] texture coordinate range.
#[derive(Clone, Copy, Debug, PartialEq, Eq, Structural)]
pub enum AddressMode {
    ClampToEdge,
    Repeat,
    MirrorRepeat,
}

/// Sampler filtering.
#[derive(Clone, Copy, Debug, PartialEq, Eq, Structural)]
pub enum FilterMode {
    Nearest,
    Linear,
}

/// Texture dimensionality.
#[derive(Clone, Copy, Debug, PartialEq, Eq, Structural)]
pub enum TextureDimension {
    D1,
    D2,
    D3,
}

/// Texture view dimensionality, as a bind group layout declares it.
#[derive(Clone, Copy, Debug, PartialEq, Eq, Structural)]
pub enum TextureViewDimension {
    D1,
    D2,
    D2Array,
    Cube,
    CubeArray,
    D3,
}

/// The ways a texture may be used, as independent capability flags.
#[derive(Clone, Copy, Debug, PartialEq, Eq, Structural)]
pub struct TextureUsage {
    pub texture_binding: bool,
    pub copy_dst: bool,
    pub render_attachment: bool,
}

/// A texture's size in texels.
#[derive(Clone, Copy, Debug, PartialEq, Eq, Structural)]
pub struct Extent3d {
    pub width: u32,
    pub height: u32,
    pub depth_or_array_layers: u32,
}

/// Everything the backend needs to allocate the image texture.
#[derive(Clone, Copy, Debug, PartialEq, Eq, Structural)]
pub struct TextureSpec {
    pub size: Extent3d,
    pub mip_level_count: u32,
    pub sample_count: u32,
    pub dimension: TextureDimension,
    pub format: TextureFormat,
    pub usage: TextureUsage,
}

/// How the pixel buffer is laid out for the one upload that fills the
/// texture.
#[derive(Clone, Copy, Debug, PartialEq, Eq, Structural)]
pub struct WriteLayout {
    pub offset: u64,
    pub bytes_per_row: u32,
    pub rows_per_image: u32,
}

/// The sampling policy for the image texture.
#[derive(Clone, Copy, Debug, PartialEq, Eq, Structural)]
pub struct SamplerSpec {
    pub address_mode_u: AddressMode,
    pub address_mode_v: AddressMode,
    pub address_mode_w: AddressMode,
    pub mag_filter: FilterMode,
    pub min_filter: FilterMode,
    pub mipmap_filter: FilterMode,
}

/// The fixed sampling policy: clamp-to-edge on all three axes, linear
/// magnification, nearest minification and mip filtering.
pub open spec fn spec_sampler_policy(s: SamplerSpec) -> bool {
    &&& s.address_mode_u is ClampToEdge
    &&& s.address_mode_v is ClampToEdge
    &&& s.address_mode_w is ClampToEdge
    &&& s.mag_filter is Linear
    &&& s.min_filter is Nearest
    &&& s.mipmap_filter is Nearest
}

/// Build the sampler descriptor. Its policy is fixed by `spec_sampler_policy`.
pub fn sampler_spec() -> (s: SamplerSpec)
    ensures
        spec_sampler_policy(s),
{
    SamplerSpec {
        address_mode_u: AddressMode::ClampToEdge,
        address_mode_v: AddressMode::ClampToEdge,
        address_mode_w: AddressMode::ClampToEdge,
        mag_filter: FilterMode::Linear,
        min_filter: FilterMode::Nearest,
        mipmap_filter: FilterMode::Nearest,
    }
}

/// What one bind group layout slot declares.
#[derive(Clone, Copy, Debug, PartialEq, Eq, Structural)]
pub enum BindingTypeSpec {
    Texture { multisampled: bool, view_dimension: TextureViewDimension, filterable: bool },
    Sampler { filtering: bool },
}

/// One declared slot of the bind group layout.
#[derive(Clone, Copy, Debug, PartialEq, Eq, Structural)]
pub struct BindGroupLayoutEntrySpec {
    pub binding: u32,
    pub fragment_visible: bool,
    pub ty: BindingTypeSpec,
}

/// The schema of the resource bundle handed to the fragment stage.
#[derive(Debug)]
pub struct BindGroupLayoutSpec {
    pub entries: Vec<BindGroupLayoutEntrySpec>,
}

/// Which created resource a bind group slot carries.
#[derive(Clone, Copy, Debug, PartialEq, Eq, Structural)]
pub enum BindingResourceSpec {
    TextureView,
    SamplerBinding,
}

/// One filled slot of the bind group.
#[derive(Clone, Copy, Debug, PartialEq, Eq, Structural)]
pub struct BindGroupEntrySpec {
    pub binding: u32,
    pub resource: BindingResourceSpec,
}

/// The resource bundle handed to the fragment stage.
#[derive(Debug)]
pub struct BindGroupSpec {
    pub entries: Vec<BindGroupEntrySpec>,
}

/// The layout declares exactly two slots: binding 0, a non-multisampled
/// filterable 2D float texture visible to the fragment stage, and binding 1,
/// a filtering sampler visible to the fragment stage.
pub open spec fn spec_layout_complete(l: BindGroupLayoutSpec) -> bool {
    &&& l.entries@.len() == 2
    &&& l.entries@[0].binding == 0
    &&& l.entries@[0].fragment_visible
    &&& (l.entries@[0].ty matches BindingTypeSpec::Texture { multisampled, view_dimension, filterable }
        && !multisampled && view_dimension is D2 && filterable)
    &&& l.entries@[1].binding == 1
    &&& l.entries@[1].fragment_visible
    &&& (l.entries@[1].ty matches BindingTypeSpec::Sampler { filtering } && filtering)
}

/// The bind group fills exactly two slots: binding 0 with the texture view,
/// binding 1 with the sampler.
pub open spec fn spec_group_complete(g: BindGroupSpec) -> bool {
    &&& g.entries@.len() == 2
    &&& g.entries@[0] == (BindGroupEntrySpec { binding: 0, resource: BindingResourceSpec::TextureView })
    &&& g.entries@[1] == (BindGroupEntrySpec { binding: 1, resource: BindingResourceSpec::SamplerBinding })
}

/// A bind group fits a layout when it fills each declared slot, in order,
/// with a resource of the declared kind.
pub open spec fn spec_group_matches_layout(g: BindGroupSpec, l: BindGroupLayoutSpec) -> bool {
    &&& g.entries@.len() == l.entries@.len()
    &&& forall|i: int| 0 <= i < g.entries@.len() ==> g.entries@[i].binding == l.entries@[i].binding
    &&& forall|i: int| 0 <= i < g.entries@.len() ==> ((l.entries@[i].ty is Texture)
        <==> (g.entries@[i].resource is TextureView))
}

/// Build the two-slot bind group layout.
pub fn bind_group_layout_spec() -> (l: BindGroupLayoutSpec)
    ensures
        spec_layout_complete(l),
{
    let mut entries: Vec<BindGroupLayoutEntrySpec> = Vec::new();
    entries.push(BindGroupLayoutEntrySpec {
        binding: 0,
        fragment_visible: true,
        ty: BindingTypeSpec::Texture {
            multisampled: false,
            view_dimension: TextureViewDimension::D2,
            filterable: true,
        },
    });
    entries.push(BindGroupLayoutEntrySpec {
        binding: 1,
        fragment_visible: true,
        ty: BindingTypeSpec::Sampler { filtering: true },
    });
    BindGroupLayoutSpec { entries }
}

/// Build the two-slot bind group that matches `bind_group_layout_spec`.
pub fn bind_group_spec() -> (g: BindGroupSpec)
    ensures
        spec_group_complete(g),
{
    let mut entries: Vec<BindGroupEntrySpec> = Vec::new();
    entries.push(BindGroupEntrySpec { binding: 0, resource: BindingResourceSpec::TextureView });
    entries.push(BindGroupEntrySpec { binding: 1, resource: BindingResourceSpec::SamplerBinding });
    BindGroupSpec { entries }
}

/// Bind group completeness: the produced group fills exactly the two slots
/// the produced layout declares, each with a resource of the declared kind.
pub proof fn lemma_bind_group_complete(g: BindGroupSpec, l: BindGroupLayoutSpec)
    requires
        spec_group_complete(g),
        spec_layout_complete(l),
    ensures
        spec_group_matches_layout(g, l),
{
}

/// Build the texture descriptor for a decoded image: a 2D, single-mip,
/// single-sample RGBA8-sRGB texture of the image's extent, usable as a
/// binding target and as a copy destination.
pub fn texture_spec_for(img: &DecodedImage) -> (t: TextureSpec)
    requires
        img.wf(),
    ensures
        t.size == (Extent3d { width: img.width, height: img.height, depth_or_array_layers: 1 }),
        t.mip_level_count == 1,
        t.sample_count == 1,
        t.dimension is D2,
        t.format is Rgba8UnormSrgb,
        t.usage == (TextureUsage { texture_binding: true, copy_dst: true, render_attachment: false }),
{
    TextureSpec {
        size: Extent3d { width: img.width, height: img.height, depth_or_array_layers: 1 },
        mip_level_count: 1,
        sample_count: 1,
        dimension: TextureDimension::D2,
        format: TextureFormat::Rgba8UnormSrgb,
        usage: TextureUsage { texture_binding: true, copy_dst: true, render_attachment: false },
    }
}

/// Build the upload layout for a decoded image: one write starting at
/// offset 0 whose row stride is the tightly packed 4-byte texel row.
pub fn write_layout_for(img: &DecodedImage) -> (l: WriteLayout)
    requires
        img.wf(),
    ensures
        l.offset == 0,
        l.bytes_per_row == 4 * img.width,
        l.rows_per_image == img.height,
{
    WriteLayout { offset: 0, bytes_per_row: 4 * img.width, rows_per_image: img.height }
}

/// The formats and alpha modes the surface supports on the chosen adapter.
#[derive(Debug)]
pub struct SurfaceCaps {
    pub formats: Vec<TextureFormat>,
    pub alpha_modes: Vec<AlphaMode>,
}

impl SurfaceCaps {
    /// A usable capability list offers at least one format and one alpha
    /// mode.
    pub open spec fn wf(self) -> bool {
        &&& self.formats@.len() >= 1
        &&& self.alpha_modes@.len() >= 1
    }
}

/// Some offered format is sRGB.
pub open spec fn spec_has_srgb(formats: Seq<TextureFormat>) -> bool {
    exists|i: int| 0 <= i < formats.len() && spec_is_srgb(formats[i])
}

/// Position `i` holds the first sRGB format of the list.
pub open spec fn spec_first_srgb_at(formats: Seq<TextureFormat>, i: int) -> bool {
    &&& 0 <= i < formats.len()
    &&& spec_is_srgb(formats[i])
    &&& forall|j: int| 0 <= j < i ==> !spec_is_srgb(formats[j])
}

/// The negotiated format: the first sRGB-flagged entry of the offered list
/// if one exists, else the first entry, with the offered order untouched.
pub open spec fn spec_chosen_format(formats: Seq<TextureFormat>, f: TextureFormat) -> bool {
    if spec_has_srgb(formats) {
        exists|i: int| spec_first_srgb_at(formats, i) && f == formats[i]
    } else {
        f == formats[0]
    }
}

/// Pick the surface format: the first sRGB entry if any, else the first
/// entry.
pub fn choose_format(formats: &Vec<TextureFormat>) -> (r: TextureFormat)
    requires
        formats@.len() >= 1,
    ensures
        spec_chosen_format(formats@, r),
{
    let n = formats.len();
    let mut k: usize = 0;
    while k < n
        invariant
            n == formats@.len(),
            k <= n,
            forall|j: int| 0 <= j < k ==> !spec_is_srgb(formats@[j]),
        decreases n - k,
    {
        if is_srgb(formats[k]) {
            assert(spec_first_srgb_at(formats@, k as int));
            return formats[k];
        }
        k = k + 1;
    }
    assert(!spec_has_srgb(formats@));
    formats[0]
}

/// The format choice is lawful: whenever any sRGB format is offered the
/// chosen format is sRGB, and otherwise it is the first offered format.
pub proof fn lemma_format_choice(formats: Seq<TextureFormat>, f: TextureFormat)
    requires
        formats.len() >= 1,
        spec_chosen_format(formats, f),
    ensures
        spec_has_srgb(formats) ==> spec_is_srgb(f),
        !spec_has_srgb(formats) ==> f == formats[0],
{
}

/// The format choice is deterministic: two lawful choices from the same
/// offered list are the same format.
pub proof fn lemma_format_choice_deterministic(
    formats: Seq<TextureFormat>,
    f1: TextureFormat,
    f2: TextureFormat,
)
    requires
        formats.len() >= 1,
        spec_chosen_format(formats, f1),
        spec_chosen_format(formats, f2),
    ensures
        f1 == f2,
{
    if spec_has_srgb(formats) {
        let i1 = choose|i: int| spec_first_srgb_at(formats, i) && f1 == formats[i];
        let i2 = choose|i: int| spec_first_srgb_at(formats, i) && f2 == formats[i];
        assert(spec_first_srgb_at(formats, i1));
        assert(spec_first_srgb_at(formats, i2));
        if i1 < i2 {
            assert(!spec_is_srgb(formats[i1]));
        } else if i2 < i1 {
            assert(!spec_is_srgb(formats[i2]));
        }
    }
}

/// The surface configuration: render-attachment usage, the negotiated
/// format, the image's pixel size, FIFO presentation, the first offered
/// alpha mode, no extra view formats, and a queued-frame latency of 2.
#[derive(Debug)]
pub struct SurfaceConfigSpec {
    pub usage: TextureUsage,
    pub format: TextureFormat,
    pub width: u32,
    pub height: u32,
    pub present_mode: PresentMode,
    pub alpha_mode: AlphaMode,
    pub view_formats: Vec<TextureFormat>,
    pub desired_maximum_frame_latency: u32,
}

/// What a lawful surface configuration looks like for an image of the given
/// size against the given capability list.
pub open spec fn spec_surface_config(c: SurfaceConfigSpec, width: u32, height: u32, caps: SurfaceCaps) -> bool {
    &&& c.usage == (TextureUsage { texture_binding: false, copy_dst: false, render_attachment: true })
    &&& spec_chosen_format(caps.formats@, c.format)
    &&& c.width == width
    &&& c.height == height
    &&& c.present_mode is Fifo
    &&& c.alpha_mode == caps.alpha_modes@[0]
    &&& c.view_formats@.len() == 0
    &&& c.desired_maximum_frame_latency == 2
}

/// The two well-known entry points of the embedded shader program.
#[derive(Clone, Copy, Debug, PartialEq, Eq, Structural)]
pub enum ShaderEntry {
    VsMain,
    FsMain,
}

/// Primitive assembly topologies.
#[derive(Clone, Copy, Debug, PartialEq, Eq, Structural)]
pub enum PrimitiveTopology {
    PointList,
    LineList,
    LineStrip,
    TriangleList,
    TriangleStrip,
}

/// Output blending.
#[derive(Clone, Copy, Debug, PartialEq, Eq, Structural)]
pub enum BlendStateSpec {
    Replace,
    AlphaBlending,
    PremultipliedAlphaBlending,
}

/// The single color target the fragment stage writes.
#[derive(Clone, Copy, Debug, PartialEq, Eq, Structural)]
pub struct ColorTargetSpec {
    pub format: TextureFormat,
    pub blend: BlendStateSpec,
    pub write_mask_all: bool,
}

/// The fixed render pipeline: a vertex stage with no vertex buffers (the
/// quad is synthesized in-shader from the vertex index), a fragment stage
/// writing the negotiated surface format with replace blending and a full
/// color mask, triangle-strip topology, no depth/stencil, one sample, no
/// multiview.
#[derive(Clone, Copy, Debug, PartialEq, Eq, Structural)]
pub struct PipelineSpec {
    pub vertex_entry: ShaderEntry,
    pub fragment_entry: ShaderEntry,
    pub vertex_buffer_count: u32,
    pub target: ColorTargetSpec,
    pub topology: PrimitiveTopology,
    pub has_depth_stencil: bool,
    pub sample_count: u32,
    pub multiview: bool,
}

/// The one lawful pipeline for a negotiated surface format.
pub open spec fn spec_pipeline_for(format: TextureFormat) -> PipelineSpec {
    PipelineSpec {
        vertex_entry: ShaderEntry::VsMain,
        fragment_entry: ShaderEntry::FsMain,
        vertex_buffer_count: 0,
        target: ColorTargetSpec { format, blend: BlendStateSpec::Replace, write_mask_all: true },
        topology: PrimitiveTopology::TriangleStrip,
        has_depth_stencil: false,
        sample_count: 1,
        multiview: false,
    }
}

/// Build the pipeline descriptor whose color target writes the given
/// negotiated surface format.
pub fn pipeline_spec_for(format: TextureFormat) -> (p: PipelineSpec)
    ensures
        p == spec_pipeline_for(format),
{
    PipelineSpec {
        vertex_entry: ShaderEntry::VsMain,
        fragment_entry: ShaderEntry::FsMain,
        vertex_buffer_count: 0,
        target: ColorTargetSpec { format, blend: BlendStateSpec::Replace, write_mask_all: true },
        topology: PrimitiveTopology::TriangleStrip,
        has_depth_stencil: false,
        sample_count: 1,
        multiview: false,
    }
}

/// Idempotent configuration: for a fixed decoded size and a fixed
/// capability list, any two lawful surface configurations agree on every
/// negotiated field - the outcome is deterministic in the inputs.
pub proof fn lemma_surface_config_deterministic(
    c1: SurfaceConfigSpec,
    c2: SurfaceConfigSpec,
    width: u32,
    height: u32,
    caps: SurfaceCaps,
)
    requires
        caps.wf(),
        spec_surface_config(c1, width, height, caps),
        spec_surface_config(c2, width, height, caps),
    ensures
        c1.format == c2.format,
        c1.width == c2.width,
        c1.height == c2.height,
        c1.present_mode == c2.present_mode,
        c1.alpha_mode == c2.alpha_mode,
        c1.usage == c2.usage,
        c1.desired_maximum_frame_latency == c2.desired_maximum_frame_latency,
        c1.view_formats@ == c2.view_formats@,
{
    lemma_format_choice_deterministic(caps.formats@, c1.format, c2.format);
    assert(c1.view_formats@ =~= c2.view_formats@);
}

/// Build the surface configuration for a decoded image of the given size.
pub fn surface_config_for(width: u32, height: u32, caps: &SurfaceCaps) -> (c: SurfaceConfigSpec)
    requires
        caps.wf(),
    ensures
        spec_surface_config(c, width, height, *caps),
{
    let format = choose_format(&caps.formats);
    SurfaceConfigSpec {
        usage: TextureUsage { texture_binding: false, copy_dst: false, render_attachment: true },
        format,
        width,
        height,
        present_mode: PresentMode::Fifo,
        alpha_mode: caps.alpha_modes[0],
        view_formats: Vec::new(),
        desired_maximum_frame_latency: 2,
    }
}

} // verus!
