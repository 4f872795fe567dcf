//! Pipeline specialization: from a pipeline key to the description of a
//! render pipeline, and the bind-group layouts that the pipeline is built on.
//!
//! The descriptions are plain data. The host turns them into device objects.

use crate::key::PolylinePipelineKey;
use vstd::prelude::*;

verus! {

/// Bytes from one point to the next in the vertex buffer: three 4-byte floats.
pub const POINT_STRIDE: u64 = 12;

/// Vertices that the vertex stage expands each instance into: one quad of two triangles.
pub const VERTICES_PER_INSTANCE: u32 = 6;

/// The shader-stage bit of the vertex stage.
pub const SHADER_STAGE_VERTEX: u32 = 0x1;

/// All four colour channels are written.
pub const COLOR_WRITES_ALL: u32 = 0xF;

/// Every sample of a pixel is written.
pub const SAMPLE_MASK_ALL: u64 = 0xFFFF_FFFF_FFFF_FFFF;

#[derive(Clone, Copy, Debug, PartialEq, Eq)]
pub enum VertexFormat {
    Float32,
    Float32x2,
    Float32x3,
    Float32x4,
}

#[derive(Clone, Copy, Debug, PartialEq, Eq)]
pub enum VertexStepMode {
    Vertex,
    Instance,
}

#[derive(Clone, Copy, Debug, PartialEq, Eq)]
pub struct VertexAttribute {
    pub format: VertexFormat,
    pub offset: u64,
    pub shader_location: u32,
}

#[derive(Clone, Debug, PartialEq, Eq)]
pub struct VertexBufferLayout {
    pub array_stride: u64,
    pub step_mode: VertexStepMode,
    pub attributes: Vec<VertexAttribute>,
}

#[derive(Clone, Debug, PartialEq, Eq)]
pub struct VertexState {
    pub entry_point: &'static str,
    pub buffers: Vec<VertexBufferLayout>,
}

#[derive(Clone, Copy, Debug, PartialEq, Eq)]
pub enum BlendState {
    /// The fragment replaces what the target holds.
    Replace,
    /// The fragment is blended over the target by its alpha.
    AlphaBlending,
    /// As `AlphaBlending`, for colours already multiplied by alpha.
    PremultipliedAlphaBlending,
}

#[derive(Clone, Copy, Debug, PartialEq, Eq)]
pub enum TextureFormat {
    /// The default format of the host's surface.
    SurfaceDefault,
    /// The host's HDR-capable intermediate format.
    ViewTargetHdr,
    /// 32-bit float depth, no stencil.
    Depth32Float,
}

#[derive(Clone, Copy, Debug, PartialEq, Eq)]
pub struct ColorTargetState {
    pub format: TextureFormat,
    pub blend: Option<BlendState>,
    pub write_mask: u32,
}

#[derive(Clone, Debug, PartialEq, Eq)]
pub struct FragmentState {
    pub entry_point: &'static str,
    pub targets: Vec<Option<ColorTargetState>>,
}

#[derive(Clone, Copy, Debug, PartialEq, Eq)]
pub enum PrimitiveTopology {
    PointList,
    LineList,
    LineStrip,
    TriangleList,
    TriangleStrip,
}

#[derive(Clone, Copy, Debug, PartialEq, Eq)]
pub enum IndexFormat {
    Uint16,
    Uint32,
}

#[derive(Clone, Copy, Debug, PartialEq, Eq)]
pub enum FrontFace {
    Ccw,
    Cw,
}

#[derive(Clone, Copy, Debug, PartialEq, Eq)]
pub enum Face {
    Front,
    Back,
}

#[derive(Clone, Copy, Debug, PartialEq, Eq)]
pub enum PolygonMode {
    Fill,
    Line,
    Point,
}

#[derive(Clone, Copy, Debug, PartialEq, Eq)]
pub struct PrimitiveState {
    pub topology: PrimitiveTopology,
    pub strip_index_format: Option<IndexFormat>,
    pub front_face: FrontFace,
    pub cull_mode: Option<Face>,
    pub unclipped_depth: bool,
    pub polygon_mode: PolygonMode,
    pub conservative: bool,
}

#[derive(Clone, Copy, Debug, PartialEq, Eq)]
pub enum CompareFunction {
    Never,
    Less,
    Equal,
    LessEqual,
    Greater,
    NotEqual,
    GreaterEqual,
    Always,
}

#[derive(Clone, Copy, Debug, PartialEq, Eq)]
pub enum StencilOperation {
    Keep,
    Zero,
    Replace,
    Invert,
    IncrementClamp,
    DecrementClamp,
    IncrementWrap,
    DecrementWrap,
}

#[derive(Clone, Copy, Debug, PartialEq, Eq)]
pub struct StencilFaceState {
    pub compare: CompareFunction,
    pub fail_op: StencilOperation,
    pub depth_fail_op: StencilOperation,
    pub pass_op: StencilOperation,
}

#[derive(Clone, Copy, Debug, PartialEq, Eq)]
pub struct StencilState {
    pub front: StencilFaceState,
    pub back: StencilFaceState,
    pub read_mask: u32,
    pub write_mask: u32,
}

/// Depth bias. The two factors are IEEE-754 binary32 values, held as their bit patterns.
#[derive(Clone, Copy, Debug, PartialEq, Eq)]
pub struct DepthBiasState {
    pub constant: i32,
    pub slope_scale_bits: u32,
    pub clamp_bits: u32,
}

#[derive(Clone, Copy, Debug, PartialEq, Eq)]
pub struct DepthStencilState {
    pub format: TextureFormat,
    pub depth_write_enabled: bool,
    pub depth_compare: CompareFunction,
    pub stencil: StencilState,
    pub bias: DepthBiasState,
}

#[derive(Clone, Copy, Debug, PartialEq, Eq)]
pub struct MultisampleState {
    pub count: u32,
    pub mask: u64,
    pub alpha_to_coverage_enabled: bool,
}

#[derive(Clone, Copy, Debug, PartialEq, Eq)]
pub struct PushConstantRange {
    pub stages: u32,
    pub start: u32,
    pub end: u32,
}

/// The description of a render pipeline. `L` is the host's bind-group layout.
#[derive(Clone, Debug, PartialEq, Eq)]
pub struct RenderPipelineDescriptor<L> {
    pub label: Option<&'static str>,
    /// The bind-group layouts, in slot order. The material that draws the
    /// polyline fills this list.
    pub layout: Vec<L>,
    pub push_constant_ranges: Vec<PushConstantRange>,
    pub vertex: VertexState,
    pub fragment: Option<FragmentState>,
    pub primitive: PrimitiveState,
    pub depth_stencil: Option<DepthStencilState>,
    pub multisample: MultisampleState,
}

pub struct VertexBufferLayoutView {
    pub array_stride: u64,
    pub step_mode: VertexStepMode,
    pub attributes: Seq<VertexAttribute>,
}

pub struct VertexStateView {
    pub entry_point: Seq<char>,
    pub buffers: Seq<VertexBufferLayoutView>,
}

pub struct FragmentStateView {
    pub entry_point: Seq<char>,
    pub targets: Seq<Option<ColorTargetState>>,
}

pub struct RenderPipelineDescriptorView<L> {
    pub label: Option<Seq<char>>,
    pub layout: Seq<L>,
    pub push_constant_ranges: Seq<PushConstantRange>,
    pub vertex: VertexStateView,
    pub fragment: Option<FragmentStateView>,
    pub primitive: PrimitiveState,
    pub depth_stencil: Option<DepthStencilState>,
    pub multisample: MultisampleState,
}

impl View for VertexBufferLayout {
    type V = VertexBufferLayoutView;

    open spec fn view(&self) -> VertexBufferLayoutView {
        VertexBufferLayoutView {
            array_stride: self.array_stride,
            step_mode: self.step_mode,
            attributes: self.attributes@,
        }
    }
}

impl View for VertexState {
    type V = VertexStateView;

    open spec fn view(&self) -> VertexStateView {
        VertexStateView {
            entry_point: self.entry_point@,
            buffers: self.buffers@.map_values(|b: VertexBufferLayout| b@),
        }
    }
}

impl View for FragmentState {
    type V = FragmentStateView;

    open spec fn view(&self) -> FragmentStateView {
        FragmentStateView { entry_point: self.entry_point@, targets: self.targets@ }
    }
}

impl<L> View for RenderPipelineDescriptor<L> {
    type V = RenderPipelineDescriptorView<L>;

    open spec fn view(&self) -> RenderPipelineDescriptorView<L> {
        RenderPipelineDescriptorView {
            label: match self.label {
                Some(label) => Some(label@),
                None => None,
            },
            layout: self.layout@,
            push_constant_ranges: self.push_constant_ranges@,
            vertex: self.vertex@,
            fragment: match self.fragment {
                Some(fragment) => Some(fragment@),
                None => None,
            },
            primitive: self.primitive,
            depth_stencil: self.depth_stencil,
            multisample: self.multisample,
        }
    }
}

/// The row of the decision table that a key falls into. The transparent pass
/// wins over perspective fading when a key asks for both.
#[derive(Clone, Copy, Debug, PartialEq, Eq)]
pub enum PipelineVariant {
    /// The key has `TRANSPARENT_MAIN_PASS`.
    Transparent,
    /// The key has `PERSPECTIVE` and not `TRANSPARENT_MAIN_PASS`.
    PerspectiveFade,
    /// The key has neither.
    Opaque,
}

impl PipelineVariant {
    pub open spec fn spec_of(key: PolylinePipelineKey) -> PipelineVariant {
        if key.spec_contains(PolylinePipelineKey::TRANSPARENT_MAIN_PASS) {
            PipelineVariant::Transparent
        } else if key.spec_contains(PolylinePipelineKey::PERSPECTIVE) {
            PipelineVariant::PerspectiveFade
        } else {
            PipelineVariant::Opaque
        }
    }

    /// The pipeline's label: perspective fading draws with the transparent pipeline.
    pub open spec fn spec_label(self) -> Seq<char> {
        match self {
            PipelineVariant::Transparent => "transparent_polyline_pipeline"@,
            PipelineVariant::PerspectiveFade => "transparent_polyline_pipeline"@,
            PipelineVariant::Opaque => "opaque_polyline_pipeline"@,
        }
    }

    /// Alpha blending for both transparent rows, replacement for the opaque one.
    pub open spec fn spec_blend(self) -> BlendState {
        match self {
            PipelineVariant::Transparent => BlendState::AlphaBlending,
            PipelineVariant::PerspectiveFade => BlendState::AlphaBlending,
            PipelineVariant::Opaque => BlendState::Replace,
        }
    }

    /// Depth is written unless the pass is the transparent one.
    pub open spec fn spec_depth_write_enabled(self) -> bool {
        match self {
            PipelineVariant::Transparent => false,
            PipelineVariant::PerspectiveFade => true,
            PipelineVariant::Opaque => true,
        }
    }

    /// The row of the decision table for `key`.
    pub fn of(key: PolylinePipelineKey) -> (variant: PipelineVariant)
        ensures
            variant == Self::spec_of(key),
    {
        if key.contains(PolylinePipelineKey::TRANSPARENT_MAIN_PASS) {
            PipelineVariant::Transparent
        } else if key.contains(PolylinePipelineKey::PERSPECTIVE) {
            PipelineVariant::PerspectiveFade
        } else {
            PipelineVariant::Opaque
        }
    }

    pub fn label(&self) -> (label: &'static str)
        ensures
            label@ == self.spec_label(),
    {
        match self {
            PipelineVariant::Transparent => "transparent_polyline_pipeline",
            PipelineVariant::PerspectiveFade => "transparent_polyline_pipeline",
            PipelineVariant::Opaque => "opaque_polyline_pipeline",
        }
    }

    pub fn blend(&self) -> (blend: BlendState)
        ensures
            blend == self.spec_blend(),
    {
        match self {
            PipelineVariant::Transparent => BlendState::AlphaBlending,
            PipelineVariant::PerspectiveFade => BlendState::AlphaBlending,
            PipelineVariant::Opaque => BlendState::Replace,
        }
    }

    pub fn depth_write_enabled(&self) -> (enabled: bool)
        ensures
            enabled == self.spec_depth_write_enabled(),
    {
        match self {
            PipelineVariant::Transparent => false,
            PipelineVariant::PerspectiveFade => true,
            PipelineVariant::Opaque => true,
        }
    }
}

/// The colour target's format: the HDR format iff the key has `HDR`.
pub open spec fn target_format(key: PolylinePipelineKey) -> TextureFormat {
    if key.spec_contains(PolylinePipelineKey::HDR) {
        TextureFormat::ViewTargetHdr
    } else {
        TextureFormat::SurfaceDefault
    }
}

/// The two attributes of an instance: the segment's start point, and its end
/// point, which is the next point of the buffer.
pub open spec fn point_attributes() -> Seq<VertexAttribute> {
    seq![
        VertexAttribute { format: VertexFormat::Float32x3, offset: 0, shader_location: 0 },
        VertexAttribute { format: VertexFormat::Float32x3, offset: POINT_STRIDE, shader_location: 1 },
    ]
}

/// The layout of the point buffer: it advances by one point per instance.
pub open spec fn point_buffer_layout() -> VertexBufferLayoutView {
    VertexBufferLayoutView {
        array_stride: POINT_STRIDE,
        step_mode: VertexStepMode::Instance,
        attributes: point_attributes(),
    }
}

/// A stencil face that always passes and keeps the stencil value.
pub open spec fn stencil_face_ignore() -> StencilFaceState {
    StencilFaceState {
        compare: CompareFunction::Always,
        fail_op: StencilOperation::Keep,
        depth_fail_op: StencilOperation::Keep,
        pass_op: StencilOperation::Keep,
    }
}

/// Filled triangle lists, counter-clockwise front faces, no culling.
pub open spec fn quad_primitive_state() -> PrimitiveState {
    PrimitiveState {
        topology: PrimitiveTopology::TriangleList,
        strip_index_format: None,
        front_face: FrontFace::Ccw,
        cull_mode: None,
        unclipped_depth: false,
        polygon_mode: PolygonMode::Fill,
        conservative: false,
    }
}

/// Reversed depth: a fragment passes if its depth is greater. No stencil, no bias.
pub open spec fn depth_stencil_state(depth_write_enabled: bool) -> DepthStencilState {
    DepthStencilState {
        format: TextureFormat::Depth32Float,
        depth_write_enabled,
        depth_compare: CompareFunction::Greater,
        stencil: StencilState {
            front: stencil_face_ignore(),
            back: stencil_face_ignore(),
            read_mask: 0,
            write_mask: 0,
        },
        bias: DepthBiasState { constant: 0, slope_scale_bits: 0, clamp_bits: 0 },
    }
}

/// The pipeline description for `key`.
///
/// The key decides four things: label, blend and depth write by the row of the
/// decision table, the target format by `HDR`, the sample count by the MSAA field.
pub open spec fn specialize_spec<L>(key: PolylinePipelineKey) -> RenderPipelineDescriptorView<L> {
    let variant = PipelineVariant::spec_of(key);
    RenderPipelineDescriptorView {
        label: Some(variant.spec_label()),
        layout: Seq::empty(),
        push_constant_ranges: Seq::empty(),
        vertex: VertexStateView { entry_point: "vertex"@, buffers: seq![point_buffer_layout()] },
        fragment: Some(
            FragmentStateView {
                entry_point: "fragment"@,
                targets: seq![
                    Some(
                        ColorTargetState {
                            format: target_format(key),
                            blend: Some(variant.spec_blend()),
                            write_mask: COLOR_WRITES_ALL,
                        },
                    ),
                ],
            },
        ),
        primitive: quad_primitive_state(),
        depth_stencil: Some(depth_stencil_state(variant.spec_depth_write_enabled())),
        multisample: MultisampleState {
            count: key.spec_msaa_samples(),
            mask: SAMPLE_MASK_ALL,
            alpha_to_coverage_enabled: false,
        },
    }
}

/// The bind-group layouts that every polyline pipeline is built on. `L` is the
/// host's bind-group layout.
#[derive(Clone, Debug)]
pub struct PolylinePipeline<L> {
    pub view_layout: L,
    pub polyline_layout: L,
}

impl<L> PolylinePipeline<L> {
    /// Builds the pipeline description for `key`.
    pub fn specialize(&self, key: PolylinePipelineKey) -> (descriptor: RenderPipelineDescriptor<L>)
        ensures
            descriptor@ == specialize_spec::<L>(key),
    {
        let variant = PipelineVariant::of(key);
        let format = if key.contains(PolylinePipelineKey::HDR) {
            TextureFormat::ViewTargetHdr
        } else {
            TextureFormat::SurfaceDefault
        };

        let mut vertex_attributes: Vec<VertexAttribute> = Vec::new();
        vertex_attributes.push(
            VertexAttribute { format: VertexFormat::Float32x3, offset: 0, shader_location: 0 },
        );
        vertex_attributes.push(
            VertexAttribute {
                format: VertexFormat::Float32x3,
                offset: POINT_STRIDE,
                shader_location: 1,
            },
        );
        assert(vertex_attributes@ =~= point_attributes());
        let mut buffers: Vec<VertexBufferLayout> = Vec::new();
        buffers.push(
            VertexBufferLayout {
                array_stride: POINT_STRIDE,
                step_mode: VertexStepMode::Instance,
                attributes: vertex_attributes,
            },
        );
        let mut targets: Vec<Option<ColorTargetState>> = Vec::new();
        targets.push(
            Some(
                ColorTargetState {
                    format,
                    blend: Some(variant.blend()),
                    write_mask: COLOR_WRITES_ALL,
                },
            ),
        );
        let ignore = StencilFaceState {
            compare: CompareFunction::Always,
            fail_op: StencilOperation::Keep,
            depth_fail_op: StencilOperation::Keep,
            pass_op: StencilOperation::Keep,
        };

        let descriptor = RenderPipelineDescriptor {
            label: Some(variant.label()),
            layout: Vec::new(),
            push_constant_ranges: Vec::new(),
            vertex: VertexState { entry_point: "vertex", buffers },
            fragment: Some(FragmentState { entry_point: "fragment", targets }),
            primitive: PrimitiveState {
                topology: PrimitiveTopology::TriangleList,
                strip_index_format: None,
                front_face: FrontFace::Ccw,
                cull_mode: None,
                unclipped_depth: false,
                polygon_mode: PolygonMode::Fill,
                conservative: false,
            },
            depth_stencil: Some(
                DepthStencilState {
                    format: TextureFormat::Depth32Float,
                    depth_write_enabled: variant.depth_write_enabled(),
                    depth_compare: CompareFunction::Greater,
                    stencil: StencilState { front: ignore, back: ignore, read_mask: 0, write_mask: 0 },
                    bias: DepthBiasState { constant: 0, slope_scale_bits: 0, clamp_bits: 0 },
                },
            ),
            multisample: MultisampleState {
                count: key.msaa_samples(),
                mask: SAMPLE_MASK_ALL,
                alpha_to_coverage_enabled: false,
            },
        };
        proof {
            let expected = specialize_spec::<L>(key);
            assert(descriptor.vertex.buffers@[0]@ == point_buffer_layout());
            assert(descriptor.vertex@.buffers =~= expected.vertex.buffers);
            assert(descriptor.fragment.unwrap()@.targets =~= expected.fragment.unwrap().targets);
            assert(descriptor@.layout =~= expected.layout);
            assert(descriptor@.push_constant_ranges =~= expected.push_constant_ranges);
        }
        descriptor
    }
}

/// Two descriptions specialized from the same key agree in every field.
pub proof fn lemma_specialize_deterministic<L>(
    key_a: PolylinePipelineKey,
    key_b: PolylinePipelineKey,
    a: RenderPipelineDescriptor<L>,
    b: RenderPipelineDescriptor<L>,
)
    requires
        key_a == key_b,
        a@ == specialize_spec::<L>(key_a),
        b@ == specialize_spec::<L>(key_b),
    ensures
        a@ == b@,
{
}

/// The description depends on the key only through the three mode flags and
/// the MSAA field: bits that no flag names change nothing.
pub proof fn lemma_specialize_reads_named_bits_only<L>(
    key_a: PolylinePipelineKey,
    key_b: PolylinePipelineKey,
)
    requires
        key_a.bits & 0xE000_0007 == key_b.bits & 0xE000_0007,
    ensures
        specialize_spec::<L>(key_a) == specialize_spec::<L>(key_b),
{
    let a = key_a.bits;
    let b = key_b.bits;
    assert((a & 0x1 == 0x1) == (b & 0x1 == 0x1) && (a & 0x2 == 0x2) == (b & 0x2 == 0x2) && (a & 0x4
        == 0x4) == (b & 0x4 == 0x4) && (a >> 29u32) & 0b111 == (b >> 29u32) & 0b111)
        by (bit_vector)
        requires
            a & 0xE000_0007 == b & 0xE000_0007,
    ;
}

/// The decision table, row by row: label, blend and depth write of the
/// description for `key`. A key with both flags falls into the first row.
pub proof fn lemma_decision_table<L>(key: PolylinePipelineKey)
    ensures
        ({
            let transparent = key.spec_contains(PolylinePipelineKey::TRANSPARENT_MAIN_PASS);
            let perspective = key.spec_contains(PolylinePipelineKey::PERSPECTIVE);
            let descriptor = specialize_spec::<L>(key);
            let label = descriptor.label.unwrap();
            let blend = descriptor.fragment.unwrap().targets[0].unwrap().blend;
            let depth_write = descriptor.depth_stencil.unwrap().depth_write_enabled;
            &&& transparent ==> label == "transparent_polyline_pipeline"@ && blend == Some(
                BlendState::AlphaBlending,
            ) && !depth_write
            &&& !transparent && perspective ==> label == "transparent_polyline_pipeline"@ && blend
                == Some(BlendState::AlphaBlending) && depth_write
            &&& !transparent && !perspective ==> label == "opaque_polyline_pipeline"@ && blend
                == Some(BlendState::Replace) && depth_write
        }),
        "transparent_polyline_pipeline"@ != "opaque_polyline_pipeline"@,
{
    reveal_strlit("transparent_polyline_pipeline");
    reveal_strlit("opaque_polyline_pipeline");
    assert("transparent_polyline_pipeline"@.len() != "opaque_polyline_pipeline"@.len());
}

#[derive(Clone, Copy, Debug, PartialEq, Eq)]
pub enum BufferBindingType {
    Uniform,
    Storage,
    ReadOnlyStorage,
}

#[derive(Clone, Copy, Debug, PartialEq, Eq)]
pub enum BindingType {
    Buffer {
        ty: BufferBindingType,
        has_dynamic_offset: bool,
        /// The least size of the bound range, in bytes; never `Some(0)`.
        min_binding_size: Option<u64>,
    },
    Sampler,
    Texture,
}

#[derive(Clone, Copy, Debug, PartialEq, Eq)]
pub struct BindGroupLayoutEntry {
    pub binding: u32,
    /// The shader stages that see the binding, as stage bits.
    pub visibility: u32,
    pub ty: BindingType,
    pub count: Option<u32>,
}

/// The description of a bind-group layout.
#[derive(Clone, Debug, PartialEq, Eq)]
pub struct BindGroupLayoutDescriptor {
    pub label: Option<&'static str>,
    pub entries: Vec<BindGroupLayoutEntry>,
}

pub struct BindGroupLayoutDescriptorView {
    pub label: Option<Seq<char>>,
    pub entries: Seq<BindGroupLayoutEntry>,
}

impl View for BindGroupLayoutDescriptor {
    type V = BindGroupLayoutDescriptorView;

    open spec fn view(&self) -> BindGroupLayoutDescriptorView {
        BindGroupLayoutDescriptorView {
            label: match self.label {
                Some(label) => Some(label@),
                None => None,
            },
            entries: self.entries@,
        }
    }
}

/// A layout of one entry: at binding 0, visible to the vertex stage, a uniform
/// buffer with a dynamic offset. A size of 0 sets no least size.
pub open spec fn uniform_layout_spec(label: Seq<char>, min_size: u64) -> BindGroupLayoutDescriptorView {
    BindGroupLayoutDescriptorView {
        label: Some(label),
        entries: seq![
            BindGroupLayoutEntry {
                binding: 0,
                visibility: SHADER_STAGE_VERTEX,
                ty: BindingType::Buffer {
                    ty: BufferBindingType::Uniform,
                    has_dynamic_offset: true,
                    min_binding_size: if min_size == 0 {
                        None
                    } else {
                        Some(min_size)
                    },
                },
                count: None,
            },
        ],
    }
}

fn uniform_layout(label: &'static str, min_size: u64) -> (descriptor: BindGroupLayoutDescriptor)
    ensures
        descriptor@ == uniform_layout_spec(label@, min_size),
{
    let mut entries: Vec<BindGroupLayoutEntry> = Vec::new();
    entries.push(
        BindGroupLayoutEntry {
            binding: 0,
            visibility: SHADER_STAGE_VERTEX,
            ty: BindingType::Buffer {
                ty: BufferBindingType::Uniform,
                has_dynamic_offset: true,
                min_binding_size: if min_size == 0 {
                    None
                } else {
                    Some(min_size)
                },
            },
            count: None,
        },
    );
    let descriptor = BindGroupLayoutDescriptor { label: Some(label), entries };
    assert(descriptor@.entries =~= uniform_layout_spec(label@, min_size).entries);
    descriptor
}

impl PolylinePipeline<BindGroupLayoutDescriptor> {
    /// Describes the two layouts that the host creates at start-up: the one of
    /// the per-view uniform and the one of the per-polyline uniform. Each size
    /// is the least size in bytes of the uniform as the shader declares it.
    pub fn layout_descriptors(view_uniform_min_size: u64, polyline_uniform_min_size: u64) -> (pipeline:
        Self)
        ensures
            pipeline.view_layout@ == uniform_layout_spec(
                "polyline_view_layout"@,
                view_uniform_min_size,
            ),
            pipeline.polyline_layout@ == uniform_layout_spec(
                "polyline_layout"@,
                polyline_uniform_min_size,
            ),
    {
        PolylinePipeline {
            view_layout: uniform_layout("polyline_view_layout", view_uniform_min_size),
            polyline_layout: uniform_layout("polyline_layout", polyline_uniform_min_size),
        }
    }
}

} // verus!
