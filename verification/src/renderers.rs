//! The fixed state of the fullscreen-quad render pass, as plain values.
//!
//! The pass never varies: it samples one 2D texture through a nearest-neighbor
//! sampler and draws six vertices into one color target. Every choice that
//! configuration makes — filter modes, address modes, binding indices,
//! pipeline state, and the order of per-frame commands — is decided here, with
//! a contract fixing each field, so that the layer talking to the graphics
//! driver only translates these values one for one into driver descriptors.

use vstd::prelude::*;
use vstd::string::StringExecFns;

use crate::spirv::le_words;
use crate::spirv::read_le_words;

verus! {

/// How a sampler filters between texels.
#[derive(Clone, Copy, Debug, PartialEq, Eq)]
pub enum Filter {
    Nearest,
    Linear,
}

/// How a sampler treats coordinates outside the texture.
#[derive(Clone, Copy, Debug, PartialEq, Eq)]
pub enum AddressMode {
    ClampToEdge,
    Repeat,
    MirrorRepeat,
}

/// The sampler state of the pass, less the level-of-detail clamps, which are
/// floating-point and stay with the driver-facing layer.
#[derive(Clone, Copy, Debug, PartialEq, Eq)]
pub struct SamplerConfig {
    pub address_u: AddressMode,
    pub address_v: AddressMode,
    pub address_w: AddressMode,
    pub mag: Filter,
    pub min: Filter,
    pub mipmap: Filter,
}

/// The pass samples with nearest neighbor and clamps to the texture's edge in
/// every direction.
pub open spec fn spec_sampler_config() -> SamplerConfig {
    SamplerConfig {
        address_u: AddressMode::ClampToEdge,
        address_v: AddressMode::ClampToEdge,
        address_w: AddressMode::ClampToEdge,
        mag: Filter::Nearest,
        min: Filter::Nearest,
        mipmap: Filter::Nearest,
    }
}

/// Builds the sampler state of the pass.
pub fn sampler_config() -> (c: SamplerConfig)
    ensures
        c == spec_sampler_config(),
{
    SamplerConfig {
        address_u: AddressMode::ClampToEdge,
        address_v: AddressMode::ClampToEdge,
        address_w: AddressMode::ClampToEdge,
        mag: Filter::Nearest,
        min: Filter::Nearest,
        mipmap: Filter::Nearest,
    }
}

/// Which shader stage a binding is visible to.
#[derive(Clone, Copy, Debug, PartialEq, Eq)]
pub enum Stage {
    Vertex,
    Fragment,
}

/// What kind of resource a binding holds.
#[derive(Clone, Copy, Debug, PartialEq, Eq)]
pub enum BindingKind {
    Texture2d { multisampled: bool },
    Sampler,
}

/// One slot of the pass's single bind group.
#[derive(Clone, Copy, Debug, PartialEq, Eq)]
pub struct BindingConfig {
    pub binding: u32,
    pub visibility: Stage,
    pub kind: BindingKind,
}

/// The bind group layout of the pass: the sampled texture at binding 0 and the
/// sampler at binding 1, both visible to the fragment stage only.
pub open spec fn spec_binding_layout() -> Seq<BindingConfig> {
    seq![
        BindingConfig {
            binding: 0,
            visibility: Stage::Fragment,
            kind: BindingKind::Texture2d { multisampled: false },
        },
        BindingConfig { binding: 1, visibility: Stage::Fragment, kind: BindingKind::Sampler },
    ]
}

/// Builds the bind group layout of the pass.
pub fn binding_layout() -> (entries: Vec<BindingConfig>)
    ensures
        entries@ == spec_binding_layout(),
{
    let mut entries: Vec<BindingConfig> = Vec::new();
    entries.push(
        BindingConfig {
            binding: 0,
            visibility: Stage::Fragment,
            kind: BindingKind::Texture2d { multisampled: false },
        },
    );
    entries.push(
        BindingConfig { binding: 1, visibility: Stage::Fragment, kind: BindingKind::Sampler },
    );
    proof {
        assert(entries@ =~= spec_binding_layout());
    }
    entries
}

/// How vertices are assembled into primitives.
#[derive(Clone, Copy, Debug, PartialEq, Eq)]
pub enum Topology {
    PointList,
    LineList,
    TriangleList,
}

/// Which winding order counts as the front of a triangle.
#[derive(Clone, Copy, Debug, PartialEq, Eq)]
pub enum FrontFace {
    Ccw,
    Cw,
}

/// A side of a triangle, for culling.
#[derive(Clone, Copy, Debug, PartialEq, Eq)]
pub enum Face {
    Front,
    Back,
}

/// How a fragment's color is combined with the target's.
#[derive(Clone, Copy, Debug, PartialEq, Eq)]
pub enum BlendMode {
    Replace,
    AlphaBlending,
}

/// The pixel format of the color target.
#[derive(Clone, Copy, Debug, PartialEq, Eq)]
pub enum TargetFormat {
    Bgra8UnormSrgb,
    Rgba8UnormSrgb,
}

/// Which color channels a draw may write.
#[derive(Clone, Copy, Debug, PartialEq, Eq)]
pub struct WriteMask {
    pub r: bool,
    pub g: bool,
    pub b: bool,
    pub a: bool,
}

/// The single color target of the pass.
#[derive(Clone, Copy, Debug, PartialEq, Eq)]
pub struct ColorTargetConfig {
    pub format: TargetFormat,
    pub blend: BlendMode,
    pub write_mask: WriteMask,
}

/// The fixed pipeline state of the pass.
#[derive(Clone, Copy, Debug, PartialEq, Eq)]
pub struct PipelineConfig {
    pub topology: Topology,
    pub front_face: FrontFace,
    pub cull: Option<Face>,
    pub target: ColorTargetConfig,
    pub depth_stencil: bool,
    pub sample_count: u32,
    pub sample_mask: u64,
    pub alpha_to_coverage: bool,
}

/// The pipeline draws unculled triangle lists, counter-clockwise front faces,
/// into one BGRA sRGB target with blending replaced and every channel written,
/// without depth, stencil or multisampling.
pub open spec fn spec_pipeline_config() -> PipelineConfig {
    PipelineConfig {
        topology: Topology::TriangleList,
        front_face: FrontFace::Ccw,
        cull: None,
        target: ColorTargetConfig {
            format: TargetFormat::Bgra8UnormSrgb,
            blend: BlendMode::Replace,
            write_mask: WriteMask { r: true, g: true, b: true, a: true },
        },
        depth_stencil: false,
        sample_count: 1,
        sample_mask: u64::MAX,
        alpha_to_coverage: false,
    }
}

/// Builds the fixed pipeline state of the pass.
pub fn pipeline_config() -> (c: PipelineConfig)
    ensures
        c == spec_pipeline_config(),
{
    PipelineConfig {
        topology: Topology::TriangleList,
        front_face: FrontFace::Ccw,
        cull: None,
        target: ColorTargetConfig {
            format: TargetFormat::Bgra8UnormSrgb,
            blend: BlendMode::Replace,
            write_mask: WriteMask { r: true, g: true, b: true, a: true },
        },
        depth_stencil: false,
        sample_count: 1,
        sample_mask: u64::MAX,
        alpha_to_coverage: false,
    }
}

/// The entry point both shader modules are entered at.
pub fn shader_entry_point() -> (s: String)
    ensures
        s@ == "main"@,
{
    String::from_str("main")
}

/// One command of the per-frame sequence.
#[derive(Clone, Copy, Debug, PartialEq, Eq)]
pub enum Cmd {
    /// Begins the pass on the render target, clearing it to black when
    /// `clear_to_black` holds and keeping the result when `store` holds.
    BeginPass { clear_to_black: bool, store: bool },
    /// Selects the pass's one pipeline.
    SetPipeline,
    /// Binds the pass's one bind group at the given group index.
    SetBindGroup { index: u32 },
    /// Draws `vertex_count` vertices from `first_vertex` on, for
    /// `instance_count` instances from `first_instance` on.
    Draw { first_vertex: u32, vertex_count: u32, first_instance: u32, instance_count: u32 },
}

/// Each frame the pass clears the target to black, binds its pipeline and its
/// bind group, and draws the six vertices of the fullscreen quad once.
pub open spec fn spec_frame_commands() -> Seq<Cmd> {
    seq![
        Cmd::BeginPass { clear_to_black: true, store: true },
        Cmd::SetPipeline,
        Cmd::SetBindGroup { index: 0 },
        Cmd::Draw { first_vertex: 0, vertex_count: 6, first_instance: 0, instance_count: 1 },
    ]
}

/// Builds the command sequence of one frame, in the order it is to be replayed.
pub fn frame_commands() -> (cmds: Vec<Cmd>)
    ensures
        cmds@ == spec_frame_commands(),
{
    let mut cmds: Vec<Cmd> = Vec::new();
    cmds.push(Cmd::BeginPass { clear_to_black: true, store: true });
    cmds.push(Cmd::SetPipeline);
    cmds.push(Cmd::SetBindGroup { index: 0 });
    cmds.push(
        Cmd::Draw { first_vertex: 0, vertex_count: 6, first_instance: 0, instance_count: 1 },
    );
    proof {
        assert(cmds@ =~= spec_frame_commands());
    }
    cmds
}

/// Everything the pass needs from its construction that is not a driver
/// handle: the decoded words of both shaders and the fixed configuration.
#[derive(Clone, Debug, PartialEq, Eq)]
pub struct RendererPlan {
    pub vert_words: Vec<u32>,
    pub frag_words: Vec<u32>,
    pub sampler: SamplerConfig,
    pub bindings: Vec<BindingConfig>,
    pub pipeline: PipelineConfig,
}

/// The computing half of constructing the pass: decodes the vertex and the
/// fragment shader binaries and fixes the whole configuration. The
/// driver-facing layer turns the plan into driver objects one for one.
pub fn plan_renderer(vert_spv: &[u8], frag_spv: &[u8]) -> (p: RendererPlan)
    requires
        vert_spv@.len() % 4 == 0,
        frag_spv@.len() % 4 == 0,
    ensures
        p.vert_words@ == le_words(vert_spv@),
        p.frag_words@ == le_words(frag_spv@),
        p.sampler == spec_sampler_config(),
        p.bindings@ == spec_binding_layout(),
        p.pipeline == spec_pipeline_config(),
{
    let vert_words = read_le_words(vert_spv);
    let frag_words = read_le_words(frag_spv);
    RendererPlan {
        vert_words,
        frag_words,
        sampler: sampler_config(),
        bindings: binding_layout(),
        pipeline: pipeline_config(),
    }
}

} // verus!
