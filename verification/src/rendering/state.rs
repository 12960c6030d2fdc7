//! The state that a frame is drawn from, and the plan of a frame.

use vstd::prelude::*;
use crate::batching::common::{sorted_by_depth, UploadAction};
use crate::batching::group::BatchGroup;
use crate::batching::shapes::rect::{encode_all, lemma_encode_ignores_flags, DrawCall};
use crate::binary32::{from_u32, u32_to_binary32, ONE, TENTH};
use crate::error::MoonWalkError;
use crate::objects::store::{ObjectStore, StoreModel};
use crate::objects::ShaderId;
use crate::rendering::pipeline::{
    projection_layout, PipelineKind, ShaderStore, DEFAULT_RECT_ID, PROJECTION_GROUP,
};
use crate::rendering::vertex::{QuadVertex, RectInstance, QUAD_INDEX_COUNT};
use crate::vector::Vec4Bits;

verus! {

/// The logical size that the view-projection is built for, as binary32
/// patterns. The matrix maps the logical rectangle from (0, 0) to
/// (`width`, `height`) onto clip space, y pointing down.
#[derive(Debug, Clone, Copy, PartialEq, Eq, Structural)]
pub struct Projection {
    pub width: u32,
    pub height: u32,
}

/// What the back end has to do for one frame, in this order: upload the
/// instance records as `upload` says; begin a render pass that clears to
/// `clear_color`; bind the projection bind group at `projection_group`;
/// if `pipeline` is there, bind it, and if `draw` is there, bind the quad
/// and instance buffers and issue the draw; end the pass.
#[derive(Debug, Clone, Copy, PartialEq, Eq, Structural)]
pub struct FramePlan {
    pub upload: UploadAction,
    pub clear_color: Vec4Bits,
    pub projection_group: u32,
    pub pipeline: Option<ShaderId>,
    pub draw: Option<DrawCall>,
}

/// The store, its batches, the pipelines and the projection.
pub struct RenderState {
    pub store: ObjectStore,
    pub batches: BatchGroup,
    pub shaders: ShaderStore,
    pub projection: Projection,
    pub rect_shader: ShaderId,
}

/// The colour that a frame is cleared to where the caller names none:
/// a tenth of red, green and blue, opaque.
pub open spec fn default_clear_color() -> Vec4Bits {
    Vec4Bits { x: TENTH, y: TENTH, z: TENTH, w: ONE }
}

/// The colour that a frame is cleared to.
pub open spec fn clear_color_of(clear: Option<Vec4Bits>) -> Vec4Bits {
    match clear {
        Some(c) => c,
        None => default_clear_color(),
    }
}

impl RenderState {
    /// Store, batches and pipelines are well formed, and unless the store
    /// says that it has changed, the staged records are those of the store.
    pub open spec fn wf(&self) -> bool {
        &&& self.store@.wf()
        &&& self.batches.wf()
        &&& self.shaders.wf()
        &&& !self.store.dirty ==> self.batches.rects.holds(self.store@)
    }

    /// The id of the rectangle pipeline, if the pipeline is registered.
    pub open spec fn bound_pipeline(&self) -> Option<ShaderId> {
        if self.shaders.spec_get_pipeline(self.rect_shader) is Some {
            Some(self.rect_shader)
        } else {
            None
        }
    }

    /// This state is what [`RenderState::draw`] makes of the state
    /// `before`, with `plan` as the frame it asks for.
    ///
    /// The rows of the store stay and both of its flags are clear. The
    /// rectangle batch is prepared from the store as it was. The plan
    /// clears to the colour asked for, binds the projection at group 0,
    /// binds the rectangle pipeline if it is registered, and draws what
    /// the batch then has to show.
    pub open spec fn drawn_from(
        &self,
        before: RenderState,
        clear: Option<Vec4Bits>,
        plan: FramePlan,
    ) -> bool {
        &&& self.store@ == before.store@.synced()
        &&& self.batches.rects.prepared_from(before.batches.rects, before.store@, plan.upload)
        &&& self.shaders == before.shaders
        &&& self.projection == before.projection
        &&& self.rect_shader == before.rect_shader
        &&& plan.clear_color == clear_color_of(clear)
        &&& plan.projection_group == PROJECTION_GROUP
        &&& plan.pipeline == before.bound_pipeline()
        &&& plan.draw == if plan.pipeline is Some {
            self.batches.rects.spec_render()
        } else {
            None
        }
    }

    /// The state that [`RenderState::new`] builds for a surface of `width`
    /// by `height` pixels: no objects, both flags clear, nothing staged and
    /// no GPU buffer, the built-in rectangle pipeline as the only one, and
    /// a projection for as many logical pixels as the surface has physical
    /// ones.
    pub open spec fn is_initial(&self, width: u32, height: u32) -> bool {
        &&& self.store@ == StoreModel::fresh()
        &&& self.batches.rects.static_vbo == QuadVertex::spec_quad()
        &&& self.batches.rects.static_ibo == QuadVertex::spec_indices()
        &&& self.batches.rects.batch.cpu_buffer@ == Seq::<RectInstance>::empty()
        &&& self.batches.rects.batch.gpu_buffer is None
        &&& self.shaders.proj_layout == projection_layout()
        &&& self.shaders.pipelines@ == Map::<u32, PipelineKind>::empty().insert(
            DEFAULT_RECT_ID,
            PipelineKind::DefaultRect,
        )
        &&& self.projection == (Projection {
            width: u32_to_binary32(width),
            height: u32_to_binary32(height),
        })
        &&& self.rect_shader == ShaderId(DEFAULT_RECT_ID)
    }

    /// An empty scene with the built-in rectangle pipeline, and a
    /// projection for a logical size of `width` by `height`.
    /// `default_rect` is what building the rectangle pipeline gave.
    pub fn new(width: u32, height: u32, default_rect: Result<(), String>) -> (r: Result<
        Self,
        MoonWalkError,
    >)
        ensures
            default_rect is Ok <==> r is Ok,
            default_rect matches Err(detail) ==> (r matches Err(e) && e
                == MoonWalkError::ShaderCompilation(detail)),
            r matches Ok(state) ==> state.wf() && state.is_initial(width, height),
    {
        let mut shaders = ShaderStore::new();
        let rect_shader = match shaders.create_default_rect(default_rect) {
            Ok(id) => id,
            Err(e) => {
                return Err(e);
            },
        };
        Ok(
            RenderState {
                store: ObjectStore::new(),
                batches: BatchGroup::new(),
                shaders,
                projection: Projection { width: from_u32(width), height: from_u32(height) },
                rect_shader,
            },
        )
    }

    /// Records the logical size that the view-projection has to be built
    /// for, and hands the record back for the uniform buffer to be
    /// rewritten in place.
    pub fn update_projection(&mut self, width: u32, height: u32) -> (p: Projection)
        ensures
            p == (Projection { width, height }),
            final(self).projection == p,
            final(self).store == old(self).store,
            final(self).batches == old(self).batches,
            final(self).shaders == old(self).shaders,
            final(self).rect_shader == old(self).rect_shader,
    {
        let p = Projection { width, height };
        self.projection = p;
        p
    }

    /// Plans one frame: brings the rectangle batch up to date with the
    /// store, clears both flags of the store, and describes the render
    /// pass. `clear` is the colour to clear to; without one the pass clears
    /// to [`default_clear_color`].
    pub fn draw(&mut self, clear: Option<Vec4Bits>) -> (plan: FramePlan)
        requires
            old(self).wf(),
        ensures
            final(self).wf(),
            final(self).drawn_from(*old(self), clear, plan),
            !final(self).store.dirty && !final(self).store.z_dirty,
            !old(self).store.dirty ==> plan.upload is Skip && final(self).batches == old(
                self,
            ).batches,
            old(self).store@.len() == 0 ==> plan.draw is None && plan.upload is Skip,
    {
        let ghost before = *self;
        let upload = self.batches.rects.prepare(&self.store);
        self.store.mark_synced();
        let clear_color = match clear {
            Some(c) => c,
            None => Vec4Bits::new(TENTH, TENTH, TENTH, ONE),
        };
        let (pipeline, draw) = match self.shaders.get_pipeline(self.rect_shader) {
            Some(_) => (Some(self.rect_shader), self.batches.rects.render()),
            None => (None, None),
        };
        let plan = FramePlan {
            upload,
            clear_color,
            projection_group: PROJECTION_GROUP,
            pipeline,
            draw,
        };
        proof {
            lemma_draw_laws(before, *self, clear, plan);
        }
        plan
    }
}

/// What holds of every frame that is planned from a well-formed state.
///
/// The state stays well formed and both flags of the store are clear. The
/// staged records are those of the store's rows in some order, and in
/// ascending depth if the depth flag was set. If the general flag was
/// clear, nothing is uploaded and the batches are untouched. If the scene
/// is empty, nothing is uploaded and nothing is drawn; the pass still
/// clears. A draw, where there is one, covers every rectangle.
pub proof fn lemma_draw_laws(
    before: RenderState,
    after: RenderState,
    clear: Option<Vec4Bits>,
    plan: FramePlan,
)
    requires
        before.wf(),
        after.drawn_from(before, clear, plan),
    ensures
        after.wf(),
        !after.store.dirty && !after.store.z_dirty,
        after.batches.rects.holds(before.store@),
        after.batches.rects.batch.cpu_buffer@.len() == before.store@.rect_ids.len(),
        before.store.z_dirty ==> sorted_by_depth(after.batches.rects.batch.cpu_buffer@),
        !before.store.dirty ==> plan.upload is Skip && after.batches == before.batches,
        before.store@.len() == 0 ==> plan.draw is None && plan.upload is Skip,
        plan.clear_color == clear_color_of(clear),
        plan.draw matches Some(call) ==> call.instance_count == before.store@.rect_ids.len()
            && call.index_count == QUAD_INDEX_COUNT,
{
    lemma_encode_ignores_flags(before.store@);
    before.batches.rects.batch.cpu_buffer@.to_multiset_ensures();
    after.batches.rects.batch.cpu_buffer@.to_multiset_ensures();
    encode_all(before.store@).to_multiset_ensures();
}

} // verus!
