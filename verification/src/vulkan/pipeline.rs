//! The graphics pipeline: the shader code it is built from, the layout of
//! the vertices it reads and its fixed state.

use vstd::prelude::*;
use crate::vulkan::swapchain::Extent2D;

verus! {

/// The name of the function at which both shader stages are entered.
pub const SHADER_ENTRY_POINT: &'static str = "main";

/// The first word of every SPIR-V module.
pub const SPIRV_MAGIC: u32 = 0x0723_0203;

/// Raw value of the format of two 32-bit floats.
pub const FORMAT_R32G32_SFLOAT: i32 = 103;

/// Raw value of the format of three 32-bit floats.
pub const FORMAT_R32G32B32_SFLOAT: i32 = 106;

/// Raw value of the topology that reads three vertices per triangle.
pub const TOPOLOGY_TRIANGLE_LIST: i32 = 3;

/// Raw value of the polygon mode that fills.
pub const POLYGON_MODE_FILL: i32 = 0;

/// Raw value of the winding by which a front face goes counter-clockwise.
pub const FRONT_FACE_COUNTER_CLOCKWISE: i32 = 0;

/// Raw value of the comparison that passes what is nearer or as near.
pub const COMPARE_OP_LESS_OR_EQUAL: i32 = 3;

/// Raw value of the comparison that always passes.
pub const COMPARE_OP_ALWAYS: i32 = 7;

/// Raw value of the stencil operation that keeps what is there.
pub const STENCIL_OP_KEEP: i32 = 0;

/// Mask of the four colour components.
pub const COLOR_COMPONENTS_RGBA: u32 = 0xF;

/// Raw value of the dynamic state of the viewport.
pub const DYNAMIC_STATE_VIEWPORT: i32 = 0;

/// Raw value of the dynamic state of the scissor.
pub const DYNAMIC_STATE_SCISSOR: i32 = 1;

/// Size in bytes of a vertex: a position of three floats and a texture
/// coordinate of two, each float of 32 bits.
pub const VERTEX_STRIDE: u32 = 20;

/// Where the position lies in a vertex.
pub const VERTEX_POSITION_OFFSET: u32 = 0;

/// Where the texture coordinate lies in a vertex.
pub const VERTEX_UV_OFFSET: u32 = 12;

/// The word at place `i` of `bytes`, lowest byte first.
pub open spec fn word_le(bytes: Seq<u8>, i: int) -> u32 {
    (bytes[4 * i] + bytes[4 * i + 1] * 0x100 + bytes[4 * i + 2] * 0x1_0000 + bytes[4 * i + 3]
        * 0x100_0000) as u32
}

/// The word at place `i` of `bytes`, highest byte first.
pub open spec fn word_be(bytes: Seq<u8>, i: int) -> u32 {
    (bytes[4 * i + 3] + bytes[4 * i + 2] * 0x100 + bytes[4 * i + 1] * 0x1_0000 + bytes[4 * i]
        * 0x100_0000) as u32
}

/// The words of a SPIR-V module given as bytes, if the bytes are one: a
/// whole number of words, at least one, read in the byte order in which the
/// first word is the magic number.
pub open spec fn spirv_words(bytes: Seq<u8>) -> Option<Seq<u32>> {
    if bytes.len() == 0 || bytes.len() % 4 != 0 {
        None
    } else if word_le(bytes, 0) == SPIRV_MAGIC {
        Some(Seq::new(bytes.len() / 4, |i: int| word_le(bytes, i)))
    } else if word_be(bytes, 0) == SPIRV_MAGIC {
        Some(Seq::new(bytes.len() / 4, |i: int| word_be(bytes, i)))
    } else {
        None
    }
}

/// Decodes a SPIR-V module with `ash::util::read_spv`, reading the bytes
/// through a cursor.
///
/// Trusted: the function fails on an input whose length is no multiple of
/// four, on an empty input and on one whose first word is the magic number
/// in neither byte order; otherwise it returns the words of the input in
/// the byte order in which the first word is the magic number.
#[verifier::external_body]
fn read_spirv(bytes: &[u8]) -> (words: Option<Vec<u32>>)
    ensures
        match spirv_words(bytes@) {
            Some(expected) => words is Some && words->Some_0@ == expected,
            None => words is None,
        },
{
    ash::util::read_spv(&mut std::io::Cursor::new(bytes)).ok()
}

/// Why a pipeline could not be described.
#[derive(Clone, Copy, Debug, PartialEq, Eq, Structural)]
pub enum PipelineError {
    /// The bytes of the vertex shader are no SPIR-V module.
    InvalidVertexShader,
    /// The bytes of the fragment shader are no SPIR-V module.
    InvalidFragmentShader,
}

/// The code of the two shader stages, as words, and the name of the
/// function at which both are entered.
#[derive(Debug, PartialEq, Eq)]
pub struct ShaderCode {
    pub vertex: Vec<u32>,
    pub fragment: Vec<u32>,
    pub entry_point: String,
}

/// The entry point is called `main`.
pub proof fn lemma_entry_point_is_main()
    ensures
        SHADER_ENTRY_POINT@ == seq!['m', 'a', 'i', 'n'],
{
    reveal_strlit("main");
    assert(SHADER_ENTRY_POINT@ =~= seq!['m', 'a', 'i', 'n']);
}

/// Decodes the two shaders of the pipeline. The vertex shader is looked at
/// first. Both shaders are entered at `SHADER_ENTRY_POINT`.
pub fn decode_shaders(vertex_bytes: &[u8], fragment_bytes: &[u8]) -> (result: Result<
    ShaderCode,
    PipelineError,
>)
    ensures
        spirv_words(vertex_bytes@) is None ==> result is Err && result->Err_0
            == PipelineError::InvalidVertexShader,
        spirv_words(vertex_bytes@) is Some && spirv_words(fragment_bytes@) is None ==> result is Err
            && result->Err_0 == PipelineError::InvalidFragmentShader,
        spirv_words(vertex_bytes@) is Some && spirv_words(fragment_bytes@) is Some ==> {
            &&& result is Ok
            &&& result->Ok_0.vertex@ == spirv_words(vertex_bytes@)->Some_0
            &&& result->Ok_0.fragment@ == spirv_words(fragment_bytes@)->Some_0
            &&& result->Ok_0.entry_point@ == SHADER_ENTRY_POINT@
        },
{
    let vertex = match read_spirv(vertex_bytes) {
        Some(words) => words,
        None => {
            return Err(PipelineError::InvalidVertexShader);
        },
    };
    let fragment = match read_spirv(fragment_bytes) {
        Some(words) => words,
        None => {
            return Err(PipelineError::InvalidFragmentShader);
        },
    };
    Ok(ShaderCode { vertex, fragment, entry_point: SHADER_ENTRY_POINT.to_owned() })
}

/// A decoded module begins with the magic number and has a word for every
/// four bytes.
pub proof fn lemma_decoded_module_begins_with_magic(bytes: Seq<u8>)
    requires
        spirv_words(bytes) is Some,
    ensures
        spirv_words(bytes)->Some_0.len() * 4 == bytes.len(),
        spirv_words(bytes)->Some_0.len() > 0,
        spirv_words(bytes)->Some_0[0] == SPIRV_MAGIC,
{
}

/// How the vertices of one binding are laid out.
#[derive(Clone, Copy, Debug, PartialEq, Eq, Structural)]
pub struct VertexInputBinding {
    pub binding: u32,
    /// The distance between two vertices, in bytes.
    pub stride: u32,
    /// Whether the binding moves on with every vertex, not every instance.
    pub per_vertex: bool,
}

/// Where an attribute of a vertex is found.
#[derive(Clone, Copy, Debug, PartialEq, Eq, Structural)]
pub struct VertexInputAttribute {
    pub location: u32,
    pub binding: u32,
    pub format: i32,
    /// The distance of the attribute from the start of the vertex, in bytes.
    pub offset: u32,
}

/// What is done with the stencil value of a face.
#[derive(Clone, Copy, Debug, PartialEq, Eq, Structural)]
pub struct StencilState {
    pub fail_op: i32,
    pub pass_op: i32,
    pub depth_fail_op: i32,
    pub compare_op: i32,
}

/// The state of a graphics pipeline, as far as it is not given as a
/// floating point number.
#[derive(Clone, Copy, Debug, PartialEq, Eq, Structural)]
pub struct GraphicsPipelineDescription {
    pub vertex_binding: VertexInputBinding,
    pub position_attribute: VertexInputAttribute,
    pub uv_attribute: VertexInputAttribute,
    pub topology: i32,
    /// The size of the viewport and of the scissor, both placed at the
    /// origin.
    pub surface_size: Extent2D,
    pub front_face: i32,
    pub polygon_mode: i32,
    pub rasterization_samples: u32,
    pub depth_test_enable: bool,
    pub depth_write_enable: bool,
    pub depth_compare_op: i32,
    pub front_stencil: StencilState,
    pub back_stencil: StencilState,
    pub blend_enable: bool,
    pub color_write_mask: u32,
    pub first_dynamic_state: i32,
    pub second_dynamic_state: i32,
}

/// The stencil state that changes nothing.
pub open spec fn keep_stencil() -> StencilState {
    StencilState {
        fail_op: STENCIL_OP_KEEP,
        pass_op: STENCIL_OP_KEEP,
        depth_fail_op: STENCIL_OP_KEEP,
        compare_op: COMPARE_OP_ALWAYS,
    }
}

/// The pipeline of the renderer for a surface of the given size and
/// vertices of the given layout.
///
/// One binding holds the vertices, one after the other. The position, three
/// floats, is attribute 0; the texture coordinate, two floats, is attribute
/// 1. Triangles are filled, tested against the depth buffer and written
/// without blending.
pub open spec fn pipeline_description(
    surface_size: Extent2D,
    stride: u32,
    position_offset: u32,
    uv_offset: u32,
) -> GraphicsPipelineDescription {
    GraphicsPipelineDescription {
        vertex_binding: VertexInputBinding { binding: 0, stride, per_vertex: true },
        position_attribute: VertexInputAttribute {
            location: 0,
            binding: 0,
            format: FORMAT_R32G32B32_SFLOAT,
            offset: position_offset,
        },
        uv_attribute: VertexInputAttribute {
            location: 1,
            binding: 0,
            format: FORMAT_R32G32_SFLOAT,
            offset: uv_offset,
        },
        topology: TOPOLOGY_TRIANGLE_LIST,
        surface_size,
        front_face: FRONT_FACE_COUNTER_CLOCKWISE,
        polygon_mode: POLYGON_MODE_FILL,
        rasterization_samples: 1,
        depth_test_enable: true,
        depth_write_enable: true,
        depth_compare_op: COMPARE_OP_LESS_OR_EQUAL,
        front_stencil: keep_stencil(),
        back_stencil: keep_stencil(),
        blend_enable: false,
        color_write_mask: COLOR_COMPONENTS_RGBA,
        first_dynamic_state: DYNAMIC_STATE_VIEWPORT,
        second_dynamic_state: DYNAMIC_STATE_SCISSOR,
    }
}

/// Computes `pipeline_description`.
pub fn describe_pipeline(
    surface_size: Extent2D,
    stride: u32,
    position_offset: u32,
    uv_offset: u32,
) -> (description: GraphicsPipelineDescription)
    ensures
        description == pipeline_description(surface_size, stride, position_offset, uv_offset),
{
    let keep = StencilState {
        fail_op: STENCIL_OP_KEEP,
        pass_op: STENCIL_OP_KEEP,
        depth_fail_op: STENCIL_OP_KEEP,
        compare_op: COMPARE_OP_ALWAYS,
    };
    GraphicsPipelineDescription {
        vertex_binding: VertexInputBinding { binding: 0, stride, per_vertex: true },
        position_attribute: VertexInputAttribute {
            location: 0,
            binding: 0,
            format: FORMAT_R32G32B32_SFLOAT,
            offset: position_offset,
        },
        uv_attribute: VertexInputAttribute {
            location: 1,
            binding: 0,
            format: FORMAT_R32G32_SFLOAT,
            offset: uv_offset,
        },
        topology: TOPOLOGY_TRIANGLE_LIST,
        surface_size,
        front_face: FRONT_FACE_COUNTER_CLOCKWISE,
        polygon_mode: POLYGON_MODE_FILL,
        rasterization_samples: 1,
        depth_test_enable: true,
        depth_write_enable: true,
        depth_compare_op: COMPARE_OP_LESS_OR_EQUAL,
        front_stencil: keep,
        back_stencil: keep,
        blend_enable: false,
        color_write_mask: COLOR_COMPONENTS_RGBA,
        first_dynamic_state: DYNAMIC_STATE_VIEWPORT,
        second_dynamic_state: DYNAMIC_STATE_SCISSOR,
    }
}

/// The pipelines that were created, with what they were created from, all
/// by their handles.
#[derive(Debug, PartialEq, Eq)]
pub struct VkGraphicsPipeline {
    pipelines: Vec<u64>,
    pipeline_layout: u64,
    vertex_shader_mod: u64,
    fragment_shader_mod: u64,
}

impl VkGraphicsPipeline {
    #[verifier::type_invariant]
    spec fn has_primary(&self) -> bool {
        self.pipelines.len() > 0
    }

    /// The handles of the pipelines, the primary one first.
    pub closed spec fn handles(&self) -> Seq<u64> {
        self.pipelines@
    }

    /// The handle of the layout the pipelines were created with.
    pub closed spec fn layout(&self) -> u64 {
        self.pipeline_layout
    }

    /// The handle of the vertex shader module the pipelines were created
    /// from.
    pub closed spec fn vertex_shader(&self) -> u64 {
        self.vertex_shader_mod
    }

    /// The handle of the fragment shader module the pipelines were created
    /// from.
    pub closed spec fn fragment_shader(&self) -> u64 {
        self.fragment_shader_mod
    }

    /// Keeps the handles of the pipelines that were created and of what
    /// they were created from. There is no value without at least one
    /// pipeline.
    pub fn new(
        pipelines: Vec<u64>,
        pipeline_layout: u64,
        vertex_shader_mod: u64,
        fragment_shader_mod: u64,
    ) -> (created: Option<VkGraphicsPipeline>)
        ensures
            pipelines.len() == 0 ==> created is None,
            pipelines.len() > 0 ==> {
                &&& created is Some
                &&& created->Some_0.handles() == pipelines@
                &&& created->Some_0.layout() == pipeline_layout
                &&& created->Some_0.vertex_shader() == vertex_shader_mod
                &&& created->Some_0.fragment_shader() == fragment_shader_mod
            },
    {
        if pipelines.len() == 0 {
            None
        } else {
            Some(
                VkGraphicsPipeline {
                    pipelines,
                    pipeline_layout,
                    vertex_shader_mod,
                    fragment_shader_mod,
                },
            )
        }
    }

    /// The layout the pipelines were created with.
    pub fn get_layout(&self) -> (layout: u64)
        ensures
            layout == self.layout(),
    {
        self.pipeline_layout
    }

    /// The vertex shader module and the fragment shader module the
    /// pipelines were created from.
    pub fn get_shader_modules(&self) -> (modules: (u64, u64))
        ensures
            modules == (self.vertex_shader(), self.fragment_shader()),
    {
        (self.vertex_shader_mod, self.fragment_shader_mod)
    }

    /// The pipeline that was created first.
    pub fn get_primary(&self) -> (primary: &u64)
        ensures
            self.handles().len() > 0,
            *primary == self.handles()[0],
    {
        proof {
            use_type_invariant(self);
        }
        &self.pipelines[0]
    }
}

} // verus!
