//! The registry of shader pipelines, and the vertex layouts and bindings
//! that the pipelines are built with.

use std::collections::HashMap;
use vstd::prelude::*;
use crate::error::MoonWalkError;
use crate::objects::ShaderId;
use crate::rendering::vertex::{QUAD_VERTEX_SIZE, RECT_INSTANCE_SIZE};

verus! {

/// Raw id of the built-in rectangle pipeline.
pub const DEFAULT_RECT_ID: u32 = 1;

/// Raw ids of compiled shaders start here.
pub const CUSTOM_ID_BASE: u32 = 100;

/// Bind group index of the projection uniform.
pub const PROJECTION_GROUP: u32 = 0;

/// Binding of the projection uniform within its group.
pub const PROJECTION_BINDING: u32 = 0;

/// Bytes that a vertex of a compiled shader takes: fifteen binary32 lanes.
pub const CUSTOM_VERTEX_SIZE: u64 = 60;

/// Format of one vertex attribute.
#[derive(Debug, Clone, Copy, PartialEq, Eq, Structural)]
pub enum VertexFormat {
    Float32x2,
    Float32x3,
    Float32x4,
    Uint32,
}

/// How often the vertex stage steps to the next record of a buffer.
#[derive(Debug, Clone, Copy, PartialEq, Eq, Structural)]
pub enum StepMode {
    Vertex,
    Instance,
}

/// One attribute of a vertex buffer layout.
#[derive(Debug, Clone, Copy, PartialEq, Eq, Structural)]
pub struct VertexAttribute {
    pub format: VertexFormat,
    pub offset: u64,
    pub shader_location: u32,
}

/// Layout of the records of one vertex buffer.
#[derive(Debug, Clone, PartialEq, Eq)]
pub struct VertexLayout {
    pub array_stride: u64,
    pub step_mode: StepMode,
    pub attributes: Vec<VertexAttribute>,
}

/// A [`VertexLayout`] with its attributes as a sequence.
pub struct VertexLayoutModel {
    pub array_stride: u64,
    pub step_mode: StepMode,
    pub attributes: Seq<VertexAttribute>,
}

/// What a registered pipeline was built from.
#[derive(Debug, Clone, Copy, PartialEq, Eq, Structural)]
pub enum PipelineKind {
    /// The built-in rectangle shader.
    DefaultRect,
    /// A shader that the application supplied.
    Custom,
}

/// Shader stage that sees a binding.
#[derive(Debug, Clone, Copy, PartialEq, Eq, Structural)]
pub enum ShaderStage {
    Vertex,
    Fragment,
}

/// The one entry of the projection bind group layout: a uniform buffer.
#[derive(Debug, Clone, Copy, PartialEq, Eq, Structural)]
pub struct BindGroupLayoutEntry {
    pub binding: u32,
    pub visibility: ShaderStage,
    pub has_dynamic_offset: bool,
}

/// A bind group that exposes a whole uniform buffer through a layout.
#[derive(Debug, Clone, Copy, PartialEq, Eq, Structural)]
pub struct BindGroupDesc {
    pub group: u32,
    pub layout: BindGroupLayoutEntry,
    pub binding: u32,
}

/// Registry of pipelines by shader id, with the layout of the projection
/// bind group that all of them share.
pub struct ShaderStore {
    pub pipelines: HashMap<u32, PipelineKind>,
    pub proj_layout: BindGroupLayoutEntry,
}

impl View for VertexLayout {
    type V = VertexLayoutModel;

    open spec fn view(&self) -> VertexLayoutModel {
        VertexLayoutModel {
            array_stride: self.array_stride,
            step_mode: self.step_mode,
            attributes: self.attributes@,
        }
    }
}

impl VertexFormat {
    /// Bytes that an attribute of the format takes.
    pub open spec fn spec_size(self) -> u64 {
        match self {
            VertexFormat::Float32x2 => 8,
            VertexFormat::Float32x3 => 12,
            VertexFormat::Float32x4 => 16,
            VertexFormat::Uint32 => 4,
        }
    }

    #[verifier::when_used_as_spec(spec_size)]
    pub fn size(self) -> (n: u64)
        ensures
            n == self.spec_size(),
    {
        match self {
            VertexFormat::Float32x2 => 8,
            VertexFormat::Float32x3 => 12,
            VertexFormat::Float32x4 => 16,
            VertexFormat::Uint32 => 4,
        }
    }
}

impl VertexAttribute {
    /// The first byte after the attribute.
    pub open spec fn end(self) -> int {
        self.offset + self.format.spec_size()
    }
}

impl VertexLayoutModel {
    /// The attributes carry the shader locations `first`, `first + 1`, ...
    pub open spec fn locations_from(self, first: u32) -> bool {
        forall|i: int|
            0 <= i < self.attributes.len() ==> (#[trigger] self.attributes[i]).shader_location
                == first + i
    }

    /// The attributes follow one another without gap from byte 0 up to
    /// the stride.
    pub open spec fn packed(self) -> bool {
        &&& self.attributes.len() > 0
        &&& self.attributes[0].offset == 0
        &&& forall|i: int|
            0 <= i < self.attributes.len() - 1 ==> (#[trigger] self.attributes[i]).end()
                == self.attributes[i + 1].offset
        &&& self.attributes.last().end() == self.array_stride
    }
}

/// Layout of the static quad's vertex buffer: one position per vertex.
pub open spec fn quad_vertex_layout() -> VertexLayoutModel {
    VertexLayoutModel {
        array_stride: QUAD_VERTEX_SIZE,
        step_mode: StepMode::Vertex,
        attributes: seq![
            VertexAttribute { format: VertexFormat::Float32x2, offset: 0, shader_location: 0 },
        ],
    }
}

/// Layout of the rectangle instance buffer. Location 1 reads position and
/// size, location 2 the corner radii, location 3 four lanes that begin at
/// depth and rotation, location 4 the packed colour.
pub open spec fn rect_instance_layout() -> VertexLayoutModel {
    VertexLayoutModel {
        array_stride: RECT_INSTANCE_SIZE,
        step_mode: StepMode::Instance,
        attributes: seq![
            VertexAttribute { format: VertexFormat::Float32x4, offset: 0, shader_location: 1 },
            VertexAttribute { format: VertexFormat::Float32x4, offset: 16, shader_location: 2 },
            VertexAttribute { format: VertexFormat::Float32x4, offset: 32, shader_location: 3 },
            VertexAttribute { format: VertexFormat::Uint32, offset: 40, shader_location: 4 },
        ],
    }
}

/// Layout of the vertex buffer of a compiled shader: fifteen lanes in
/// five attributes.
pub open spec fn custom_vertex_layout() -> VertexLayoutModel {
    VertexLayoutModel {
        array_stride: CUSTOM_VERTEX_SIZE,
        step_mode: StepMode::Vertex,
        attributes: seq![
            VertexAttribute { format: VertexFormat::Float32x3, offset: 0, shader_location: 0 },
            VertexAttribute { format: VertexFormat::Float32x4, offset: 12, shader_location: 1 },
            VertexAttribute { format: VertexFormat::Float32x2, offset: 28, shader_location: 2 },
            VertexAttribute { format: VertexFormat::Float32x2, offset: 36, shader_location: 3 },
            VertexAttribute { format: VertexFormat::Float32x4, offset: 44, shader_location: 4 },
        ],
    }
}

/// The vertex buffer layouts of a pipeline, by slot.
pub open spec fn spec_layouts_of(kind: PipelineKind) -> Seq<VertexLayoutModel> {
    match kind {
        PipelineKind::DefaultRect => seq![quad_vertex_layout(), rect_instance_layout()],
        PipelineKind::Custom => seq![custom_vertex_layout()],
    }
}

/// The layout of the projection bind group: one uniform buffer at binding
/// 0, seen by the vertex stage, at a fixed offset.
pub open spec fn projection_layout() -> BindGroupLayoutEntry {
    BindGroupLayoutEntry {
        binding: PROJECTION_BINDING,
        visibility: ShaderStage::Vertex,
        has_dynamic_offset: false,
    }
}

/// The id that the next compiled shader gets in a registry of `len`
/// pipelines.
pub open spec fn next_custom_id(len: nat) -> int {
    len + CUSTOM_ID_BASE
}

fn attribute(format: VertexFormat, offset: u64, shader_location: u32) -> (a: VertexAttribute)
    ensures
        a == (VertexAttribute { format, offset, shader_location }),
{
    VertexAttribute { format, offset, shader_location }
}

/// Builds the vertex buffer layouts of a pipeline, by slot.
pub fn layouts_of(kind: PipelineKind) -> (layouts: Vec<VertexLayout>)
    ensures
        layouts@.len() == spec_layouts_of(kind).len(),
        forall|i: int| 0 <= i < layouts@.len() ==> (#[trigger] layouts@[i])@ == spec_layouts_of(kind)[i],
{
    let mut layouts: Vec<VertexLayout> = Vec::new();
    match kind {
        PipelineKind::DefaultRect => {
            let mut quad: Vec<VertexAttribute> = Vec::new();
            quad.push(attribute(VertexFormat::Float32x2, 0, 0));
            let mut instance: Vec<VertexAttribute> = Vec::new();
            instance.push(attribute(VertexFormat::Float32x4, 0, 1));
            instance.push(attribute(VertexFormat::Float32x4, 16, 2));
            instance.push(attribute(VertexFormat::Float32x4, 32, 3));
            instance.push(attribute(VertexFormat::Uint32, 40, 4));
            proof {
                assert(quad@ =~= quad_vertex_layout().attributes);
                assert(instance@ =~= rect_instance_layout().attributes);
            }
            layouts.push(
                VertexLayout {
                    array_stride: QUAD_VERTEX_SIZE,
                    step_mode: StepMode::Vertex,
                    attributes: quad,
                },
            );
            layouts.push(
                VertexLayout {
                    array_stride: RECT_INSTANCE_SIZE,
                    step_mode: StepMode::Instance,
                    attributes: instance,
                },
            );
        },
        PipelineKind::Custom => {
            let mut vertex: Vec<VertexAttribute> = Vec::new();
            vertex.push(attribute(VertexFormat::Float32x3, 0, 0));
            vertex.push(attribute(VertexFormat::Float32x4, 12, 1));
            vertex.push(attribute(VertexFormat::Float32x2, 28, 2));
            vertex.push(attribute(VertexFormat::Float32x2, 36, 3));
            vertex.push(attribute(VertexFormat::Float32x4, 44, 4));
            proof {
                assert(vertex@ =~= custom_vertex_layout().attributes);
            }
            layouts.push(
                VertexLayout {
                    array_stride: CUSTOM_VERTEX_SIZE,
                    step_mode: StepMode::Vertex,
                    attributes: vertex,
                },
            );
        },
    }
    layouts
}

impl ShaderStore {
    /// Every registered id is that of the built-in rectangle pipeline or
    /// one that a registry smaller than this one handed out, so the next
    /// compiled shader gets an id that is still free.
    pub open spec fn wf(&self) -> bool {
        &&& self.proj_layout == projection_layout()
        &&& self.pipelines@.dom().finite()
        &&& forall|id: u32| #[trigger]
            self.pipelines@.contains_key(id) ==> id == DEFAULT_RECT_ID || (CUSTOM_ID_BASE <= id
                < next_custom_id(self.pipelines@.len()))
        &&& self.pipelines@.contains_key(DEFAULT_RECT_ID) ==> self.pipelines@[DEFAULT_RECT_ID]
            is DefaultRect
    }

    /// The pipeline registered under an id, if any.
    pub open spec fn spec_get_pipeline(&self, id: ShaderId) -> Option<PipelineKind> {
        if self.pipelines@.contains_key(id.0) {
            Some(self.pipelines@[id.0])
        } else {
            None
        }
    }

    /// An empty registry with the projection layout.
    pub fn new() -> (s: Self)
        ensures
            s.wf(),
            s.pipelines@ == Map::<u32, PipelineKind>::empty(),
            s.proj_layout == projection_layout(),
    {
        ShaderStore {
            pipelines: HashMap::new(),
            proj_layout: BindGroupLayoutEntry {
                binding: PROJECTION_BINDING,
                visibility: ShaderStage::Vertex,
                has_dynamic_offset: false,
            },
        }
    }

    /// Registers the built-in rectangle pipeline once the back end has
    /// built it from [`layouts_of`] and the projection layout. A rejected
    /// shader is reported and registers nothing.
    pub fn create_default_rect(&mut self, compiled: Result<(), String>) -> (r: Result<
        ShaderId,
        MoonWalkError,
    >)
        requires
            old(self).wf(),
        ensures
            final(self).wf(),
            final(self).proj_layout == old(self).proj_layout,
            compiled is Ok ==> r == Ok::<ShaderId, MoonWalkError>(ShaderId(DEFAULT_RECT_ID))
                && final(self).pipelines@ == old(self).pipelines@.insert(
                DEFAULT_RECT_ID,
                PipelineKind::DefaultRect,
            ),
            compiled matches Err(detail) ==> r == Err::<ShaderId, MoonWalkError>(
                MoonWalkError::ShaderCompilation(detail),
            ) && final(self).pipelines@ == old(self).pipelines@,
    {
        match compiled {
            Ok(_) => {
                broadcast use vstd::std_specs::hash::group_hash_axioms;

                let ghost before = self.pipelines@;
                self.pipelines.insert(DEFAULT_RECT_ID, PipelineKind::DefaultRect);
                proof {
                    lemma_insert_len(before, DEFAULT_RECT_ID, PipelineKind::DefaultRect);
                }
                Ok(ShaderId(DEFAULT_RECT_ID))
            },
            Err(detail) => Err(MoonWalkError::ShaderCompilation(detail)),
        }
    }

    /// Registers a shader of the application once the back end has built
    /// its pipeline, under the id 100 plus the number of pipelines
    /// registered so far. A rejected shader is reported and registers
    /// nothing.
    pub fn compile_shader(&mut self, compiled: Result<(), String>) -> (r: Result<
        ShaderId,
        MoonWalkError,
    >)
        requires
            old(self).wf(),
            next_custom_id(old(self).pipelines@.len()) <= u32::MAX,
        ensures
            final(self).wf(),
            final(self).proj_layout == old(self).proj_layout,
            compiled is Ok ==> r == Ok::<ShaderId, MoonWalkError>(
                ShaderId(next_custom_id(old(self).pipelines@.len()) as u32),
            ),
            compiled is Ok ==> !old(self).pipelines@.contains_key(
                next_custom_id(old(self).pipelines@.len()) as u32,
            ),
            compiled is Ok ==> final(self).pipelines@ == old(self).pipelines@.insert(
                next_custom_id(old(self).pipelines@.len()) as u32,
                PipelineKind::Custom,
            ),
            compiled matches Err(detail) ==> r == Err::<ShaderId, MoonWalkError>(
                MoonWalkError::ShaderCompilation(detail),
            ) && final(self).pipelines@ == old(self).pipelines@,
    {
        match compiled {
            Ok(_) => {
                broadcast use vstd::std_specs::hash::group_hash_axioms;

                let ghost before = self.pipelines@;
                let len: usize = self.pipelines.len();
                let raw: u32 = len as u32 + CUSTOM_ID_BASE;
                self.pipelines.insert(raw, PipelineKind::Custom);
                proof {
                    lemma_insert_len(before, raw, PipelineKind::Custom);
                }
                Ok(ShaderId(raw))
            },
            Err(detail) => Err(MoonWalkError::ShaderCompilation(detail)),
        }
    }

    /// Looks a pipeline up by its shader id.
    pub fn get_pipeline(&self, id: ShaderId) -> (kind: Option<PipelineKind>)
        ensures
            kind == self.spec_get_pipeline(id),
    {
        broadcast use vstd::std_specs::hash::group_hash_axioms;

        match self.pipelines.get(&id.0) {
            Some(kind) => Some(*kind),
            None => None,
        }
    }

    /// Describes the bind group that exposes the whole projection uniform
    /// buffer through the registry's layout, at group 0.
    pub fn get_proj_bind_group(&self) -> (group: BindGroupDesc)
        ensures
            group == (BindGroupDesc {
                group: PROJECTION_GROUP,
                layout: self.proj_layout,
                binding: PROJECTION_BINDING,
            }),
    {
        BindGroupDesc {
            group: PROJECTION_GROUP,
            layout: self.proj_layout,
            binding: PROJECTION_BINDING,
        }
    }
}

proof fn lemma_insert_len(m: Map<u32, PipelineKind>, k: u32, v: PipelineKind)
    requires
        m.dom().finite(),
    ensures
        m.insert(k, v).dom().finite(),
        m.insert(k, v).len() == m.len() + if m.contains_key(k) {
            0int
        } else {
            1int
        },
{
}

/// The quad layout and the layout of compiled shaders are packed; in the
/// instance layout locations 1, 2 and 4 cover position and size, corner
/// radii and colour of the record, location 3 begins where depth and
/// rotation lie, and the stride is the size of the record.
pub proof fn lemma_layouts()
    ensures
        quad_vertex_layout().packed(),
        quad_vertex_layout().locations_from(0),
        custom_vertex_layout().packed(),
        custom_vertex_layout().locations_from(0),
        rect_instance_layout().locations_from(1),
        rect_instance_layout().array_stride == RECT_INSTANCE_SIZE,
        rect_instance_layout().attributes[0].offset == 0 && rect_instance_layout().attributes[0].end()
            == 16,
        rect_instance_layout().attributes[1].offset == 16
            && rect_instance_layout().attributes[1].end() == 32,
        rect_instance_layout().attributes[2].offset == 32,
        rect_instance_layout().attributes[3].offset == 40
            && rect_instance_layout().attributes[3].end() == RECT_INSTANCE_SIZE,
{
}

} // verus!
