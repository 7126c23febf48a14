//! The render pipeline: the one fixed-function description under which the
//! fixed geometry is drawn.

use vstd::prelude::*;
use crate::geometry::{
    IndexFormat, Vertex, VertexAttribute, VertexBufferLayout, VertexFormat, VertexStepMode,
    COLOR_OFFSET, VERTEX_SIZE,
};
use crate::surface::same_format;

verus! {

/// Name of the vertex stage's entry point in the shader program.
pub const VERTEX_ENTRY_POINT: &'static str = "vs_main";

/// Name of the fragment stage's entry point in the shader program.
pub const FRAGMENT_ENTRY_POINT: &'static str = "fs_main";

/// How vertices are assembled into primitives.
#[derive(Clone, Copy, PartialEq, Eq, Structural, Debug)]
pub enum PrimitiveTopology {
    PointList,
    LineList,
    LineStrip,
    TriangleList,
    TriangleStrip,
}

/// The winding order of a front-facing triangle.
#[derive(Clone, Copy, PartialEq, Eq, Structural, Debug)]
pub enum FrontFace {
    /// Counter-clockwise.
    Ccw,
    /// Clockwise.
    Cw,
}

/// A side of a triangle.
#[derive(Clone, Copy, PartialEq, Eq, Structural, Debug)]
pub enum Face {
    Front,
    Back,
}

/// How polygons are rasterised.
#[derive(Clone, Copy, PartialEq, Eq, Structural, Debug)]
pub enum PolygonMode {
    Fill,
    Line,
    Point,
}

/// Primitive assembly and rasterisation.
#[derive(Clone, Copy, PartialEq, Eq, Structural, Debug)]
pub struct PrimitiveState {
    pub topology: PrimitiveTopology,
    pub strip_index_format: Option<IndexFormat>,
    pub front_face: FrontFace,
    pub cull_mode: Option<Face>,
    pub unclipped_depth: bool,
    pub polygon_mode: PolygonMode,
    pub conservative: bool,
}

/// Multisampling.
#[derive(Clone, Copy, PartialEq, Eq, Structural, Debug)]
pub struct MultisampleState {
    /// Samples per pixel.
    pub count: u32,
    /// One bit per sample that may be written.
    pub mask: u64,
    pub alpha_to_coverage_enabled: bool,
}

/// How a fragment's colour is combined with the colour already in the target.
#[derive(Clone, Copy, PartialEq, Eq, Structural, Debug)]
pub enum BlendState {
    /// The fragment replaces what the target held.
    Replace,
    /// The fragment is blended over the target by its alpha.
    AlphaBlending,
    /// As `AlphaBlending`, for colours already multiplied by their alpha.
    PremultipliedAlphaBlending,
}

/// The channels of a colour target that are written.
#[derive(Clone, Copy, PartialEq, Eq, Structural, Debug)]
pub struct ColorWrites {
    pub red: bool,
    pub green: bool,
    pub blue: bool,
    pub alpha: bool,
}

/// A colour target of the fragment stage.
#[derive(Debug)]
pub struct ColorTargetState {
    pub format: wgpu::TextureFormat,
    pub blend: Option<BlendState>,
    pub write_mask: ColorWrites,
}

/// The vertex stage.
#[derive(Debug)]
pub struct VertexState {
    pub entry_point: &'static str,
    pub buffers: Vec<VertexBufferLayout>,
}

/// The fragment stage.
#[derive(Debug)]
pub struct FragmentState {
    pub entry_point: &'static str,
    pub targets: Vec<ColorTargetState>,
}

/// Everything a render pipeline is built from, the shader program aside.
#[derive(Debug)]
pub struct RenderPipelineDescriptor {
    pub vertex: VertexState,
    pub primitive: PrimitiveState,
    /// Whether fragments are tested against a depth or stencil attachment.
    pub depth_stencil: bool,
    pub multisample: MultisampleState,
    pub fragment: FragmentState,
}

/// A pipeline description that cannot be built.
#[derive(Clone, Copy, PartialEq, Eq, Structural, Debug)]
pub enum PipelineError {
    /// A colour target is not in the format the surface was configured with.
    TargetFormatMismatch,
}

/// Triangle lists, counter-clockwise front faces, back faces culled, filled.
pub open spec fn triangle_list_primitive() -> PrimitiveState {
    PrimitiveState {
        topology: PrimitiveTopology::TriangleList,
        strip_index_format: None,
        front_face: FrontFace::Ccw,
        cull_mode: Some(Face::Back),
        unclipped_depth: false,
        polygon_mode: PolygonMode::Fill,
        conservative: false,
    }
}

/// One sample per pixel, written unconditionally.
pub open spec fn single_sample() -> MultisampleState {
    MultisampleState { count: 1, mask: u64::MAX, alpha_to_coverage_enabled: false }
}

/// Every channel is written.
pub open spec fn all_channels() -> ColorWrites {
    ColorWrites { red: true, green: true, blue: true, alpha: true }
}

/// The layout of vertex records: position at offset 0, colour right behind.
pub open spec fn is_vertex_layout(layout: VertexBufferLayout) -> bool {
    &&& layout.array_stride == VERTEX_SIZE
    &&& layout.step_mode == VertexStepMode::Vertex
    &&& layout.attributes@ == seq![
        VertexAttribute { format: VertexFormat::Float32x3, offset: 0, shader_location: 0 },
        VertexAttribute {
            format: VertexFormat::Float32x3,
            offset: COLOR_OFFSET,
            shader_location: 1,
        },
    ]
}

impl RenderPipelineDescriptor {
    /// The description of the pipeline that draws the fixed geometry to a
    /// target of `format`.
    pub open spec fn draws_to(&self, format: wgpu::TextureFormat) -> bool {
        &&& self.vertex.entry_point@ == VERTEX_ENTRY_POINT@
        &&& self.vertex.buffers@.len() == 1
        &&& is_vertex_layout(self.vertex.buffers@[0])
        &&& self.primitive == triangle_list_primitive()
        &&& !self.depth_stencil
        &&& self.multisample == single_sample()
        &&& self.fragment.entry_point@ == FRAGMENT_ENTRY_POINT@
        &&& self.fragment.targets@.len() == 1
        &&& self.fragment.targets@[0].format == format
        &&& self.fragment.targets@[0].blend == Some(BlendState::Replace)
        &&& self.fragment.targets@[0].write_mask == all_channels()
    }

    /// Every colour target is in `format`.
    pub open spec fn targets_match(&self, format: wgpu::TextureFormat) -> bool {
        forall|i: int|
            0 <= i < self.fragment.targets@.len() ==> (
            #[trigger] self.fragment.targets@[i]).format == format
    }

    /// Describes the pipeline for a surface of `format`: one buffer of vertex
    /// records, triangle lists with back faces culled, no depth or stencil
    /// test, one sample per pixel, and one colour target in `format` whose
    /// colour replaces what was there.
    pub fn new(format: wgpu::TextureFormat) -> (descriptor: Self)
        ensures
            descriptor.draws_to(format),
            descriptor.targets_match(format),
    {
        let mut buffers: Vec<VertexBufferLayout> = Vec::new();
        buffers.push(Vertex::desc());
        let mut targets: Vec<ColorTargetState> = Vec::new();
        targets.push(
            ColorTargetState {
                format,
                blend: Some(BlendState::Replace),
                write_mask: ColorWrites { red: true, green: true, blue: true, alpha: true },
            },
        );
        RenderPipelineDescriptor {
            vertex: VertexState { entry_point: VERTEX_ENTRY_POINT, buffers },
            primitive: PrimitiveState {
                topology: PrimitiveTopology::TriangleList,
                strip_index_format: None,
                front_face: FrontFace::Ccw,
                cull_mode: Some(Face::Back),
                unclipped_depth: false,
                polygon_mode: PolygonMode::Fill,
                conservative: false,
            },
            depth_stencil: false,
            multisample: MultisampleState {
                count: 1,
                mask: u64::MAX,
                alpha_to_coverage_enabled: false,
            },
            fragment: FragmentState { entry_point: FRAGMENT_ENTRY_POINT, targets },
        }
    }

    /// Checks the colour targets against the format the surface was
    /// configured with. A pipeline whose target is in another format must
    /// not be built.
    pub fn check_targets(&self, surface_format: &wgpu::TextureFormat) -> (result: Result<(), PipelineError>)
        ensures
            result == if self.targets_match(*surface_format) {
                Ok::<(), PipelineError>(())
            } else {
                Err::<(), PipelineError>(PipelineError::TargetFormatMismatch)
            },
    {
        let mut i: usize = 0;
        while i < self.fragment.targets.len()
            invariant
                i <= self.fragment.targets@.len(),
                forall|j: int|
                    0 <= j < i ==> (#[trigger] self.fragment.targets@[j]).format
                        == *surface_format,
            decreases self.fragment.targets@.len() - i,
        {
            if !same_format(&self.fragment.targets[i].format, surface_format) {
                return Err(PipelineError::TargetFormatMismatch);
            }
            i = i + 1;
        }
        Ok(())
    }
}

} // verus!
