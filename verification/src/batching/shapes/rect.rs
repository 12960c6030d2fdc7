//! The rectangle batch: encodes store rows into instance records, keeps
//! them in depth order when depths have changed, and describes the one
//! instanced draw that shows them.

use vstd::prelude::*;
use crate::batching::common::{
    gpu_after_upload, lemma_depth_order_is_determined, sorted_by_depth, upload_action, BatchBuffer,
    SortableInstance, UploadAction,
};
use crate::objects::store::{ObjectStore, StoreModel};
use crate::objects::{lemma_id_round_trip, ObjectType, MAX_OBJECTS};
use crate::rendering::vertex::{QuadVertex, RectInstance, QUAD_INDEX_COUNT};

verus! {

/// Vertex buffer slot of the static quad.
pub const QUAD_SLOT: u32 = 0;

/// Vertex buffer slot of the instance records.
pub const INSTANCE_SLOT: u32 = 1;

/// One indexed, instanced draw.
#[derive(Debug, Clone, Copy, PartialEq, Eq, Structural)]
pub struct DrawCall {
    /// Slot at which the per-vertex buffer is bound.
    pub vertex_slot: u32,
    /// Slot at which the per-instance buffer is bound.
    pub instance_slot: u32,
    /// Number of indices drawn per instance.
    pub index_count: u32,
    /// Number of instances drawn.
    pub instance_count: u32,
}

/// The rectangle batch.
pub struct RectBatch {
    /// Corners of the unit quad.
    pub static_vbo: [QuadVertex; 4],
    /// Indices of the quad's two triangles.
    pub static_ibo: [u32; 6],
    /// Staged instance records.
    pub batch: BatchBuffer<RectInstance>,
}

/// The instance record of row `i`.
pub open spec fn encode_row(s: StoreModel, i: int) -> RectInstance {
    RectInstance {
        pos_size: [s.positions[i].x, s.positions[i].y, s.sizes[i].x, s.sizes[i].y],
        radii: s.rect_radii[i].spec_to_array(),
        extra: [s.z_indices[i], s.rotations[i]],
        color: RectInstance::spec_pack_color(s.colors[i].spec_to_array()),
    }
}

/// The instance records of all rectangles, in the order of their ids.
pub open spec fn encode_all(s: StoreModel) -> Seq<RectInstance> {
    Seq::new(s.rect_ids.len(), |k: int| encode_row(s, s.rect_ids[k].spec_index() as int))
}

/// The instance records do not depend on the flags.
pub proof fn lemma_encode_ignores_flags(s: StoreModel)
    ensures
        encode_all(s.synced()) == encode_all(s),
{
    assert(encode_all(s.synced()) =~= encode_all(s));
}

/// Encodes one row of the store as an instance record.
pub fn encode_rect(store: &ObjectStore, idx: usize) -> (instance: RectInstance)
    requires
        store@.wf(),
        idx < store@.len(),
    ensures
        instance == encode_row(store@, idx as int),
{
    RectInstance {
        pos_size: [
            store.positions[idx].x,
            store.positions[idx].y,
            store.sizes[idx].x,
            store.sizes[idx].y,
        ],
        radii: store.rect_radii[idx].to_array(),
        extra: [store.z_indices[idx], store.rotations[idx]],
        color: RectInstance::pack_color(store.colors[idx].to_array()),
    }
}

impl RectBatch {
    /// The quad is the unit quad, the staged records can be counted in 32
    /// bits, and whenever records are staged a GPU buffer that holds them
    /// all is at hand.
    pub open spec fn wf(&self) -> bool {
        &&& self.static_vbo == QuadVertex::spec_quad()
        &&& self.static_ibo == QuadVertex::spec_indices()
        &&& self.batch.cpu_buffer@.len() <= MAX_OBJECTS
        &&& self.batch.gpu_buffer matches Some(buf) ==> buf.capacity >= self.batch.cpu_buffer@.len()
        &&& self.batch.cpu_buffer@.len() > 0 ==> self.batch.gpu_buffer is Some
    }

    /// The staged records are those of the store, in some order.
    pub open spec fn holds(&self, s: StoreModel) -> bool {
        self.batch.cpu_buffer@.to_multiset() == encode_all(s).to_multiset()
    }

    /// The draw that shows the staged records, if there is anything to
    /// show: none without a GPU buffer, none without records.
    pub open spec fn spec_render(&self) -> Option<DrawCall> {
        if self.batch.gpu_buffer is Some && self.batch.cpu_buffer@.len() > 0 {
            Some(
                DrawCall {
                    vertex_slot: QUAD_SLOT,
                    instance_slot: INSTANCE_SLOT,
                    index_count: QUAD_INDEX_COUNT,
                    instance_count: self.batch.cpu_buffer@.len() as u32,
                },
            )
        } else {
            None
        }
    }

    /// A batch with the static quad and nothing staged.
    pub fn new() -> (b: Self)
        ensures
            b.wf(),
            b.batch.cpu_buffer@ == Seq::<RectInstance>::empty(),
            b.batch.gpu_buffer is None,
            b.holds(StoreModel::fresh()),
    {
        let b = RectBatch {
            static_vbo: QuadVertex::quad(),
            static_ibo: QuadVertex::indices(),
            batch: BatchBuffer::new(),
        };
        proof {
            assert(encode_all(StoreModel::fresh()) =~= Seq::<RectInstance>::empty());
        }
        b
    }

    /// This batch is what [`RectBatch::prepare`] makes of the batch `before`
    /// and a store, with `action` as the upload it asks for.
    ///
    /// A store whose general flag is clear leaves the batch as it was and
    /// asks for no upload. Otherwise the staged records are those of the
    /// store: in the order of the rectangle ids if the depth flag is clear,
    /// in ascending depth if it is set; and the upload is the one that
    /// their number and the buffer at hand call for.
    pub open spec fn prepared_from(
        &self,
        before: RectBatch,
        s: StoreModel,
        action: UploadAction,
    ) -> bool {
        &&& self.static_vbo == before.static_vbo
        &&& self.static_ibo == before.static_ibo
        &&& if !s.dirty {
            *self == before && action is Skip
        } else {
            &&& self.holds(s)
            &&& self.batch.cpu_buffer@.len() == s.rect_ids.len()
            &&& s.z_dirty ==> sorted_by_depth(self.batch.cpu_buffer@)
            &&& !s.z_dirty ==> self.batch.cpu_buffer@ == encode_all(s)
            &&& action == upload_action(s.rect_ids.len(), before.batch.gpu_buffer)
            &&& self.batch.gpu_buffer == gpu_after_upload(
                s.rect_ids.len(),
                before.batch.gpu_buffer,
            )
        }
    }

    /// Brings the staged records up to date with the store and says what
    /// has to be written to the GPU.
    ///
    /// A store whose general flag is clear is not read at all. Otherwise
    /// the records are encoded afresh in the order of the rectangle ids,
    /// sorted by ascending depth if the depth flag is set, and uploaded.
    pub fn prepare(&mut self, store: &ObjectStore) -> (action: UploadAction)
        requires
            old(self).wf(),
            store@.wf(),
        ensures
            final(self).wf(),
            final(self).prepared_from(*old(self), store@, action),
            store.dirty && !action.spec_writes() ==> final(self).spec_render() is None,
    {
        if !store.dirty {
            return UploadAction::Skip;
        }
        self.batch.clear();
        let n = store.rect_ids.len();
        let mut k: usize = 0;
        while k < n
            invariant
                store@.wf(),
                n == store@.rect_ids.len(),
                k <= n,
                self.batch.cpu_buffer@ == encode_all(store@).take(k as int),
                self.batch.gpu_buffer == old(self).batch.gpu_buffer,
                self.static_vbo == old(self).static_vbo,
                self.static_ibo == old(self).static_ibo,
            decreases n - k,
        {
            let global_id = store.rect_ids[k];
            proof {
                lemma_id_round_trip(ObjectType::Rect, k);
            }
            let idx = global_id.index();
            self.batch.push(encode_rect(store, idx));
            k = k + 1;
            proof {
                assert(self.batch.cpu_buffer@ =~= encode_all(store@).take(k as int));
            }
        }
        proof {
            assert(encode_all(store@).take(n as int) =~= encode_all(store@));
        }
        if store.z_dirty {
            self.batch.sort();
        }
        self.batch.upload()
    }

    /// Describes the draw that shows the staged records, or nothing where
    /// no GPU buffer is at hand or nothing is staged.
    pub fn render(&self) -> (call: Option<DrawCall>)
        requires
            self.wf(),
        ensures
            call == self.spec_render(),
            call matches Some(c) ==> c.instance_count == self.batch.cpu_buffer@.len()
                && c.index_count == 6,
    {
        match self.batch.gpu_buffer {
            Some(_) => {
                let count: u32 = self.batch.cpu_buffer.len() as u32;
                if count > 0 {
                    Some(
                        DrawCall {
                            vertex_slot: QUAD_SLOT,
                            instance_slot: INSTANCE_SLOT,
                            index_count: QUAD_INDEX_COUNT,
                            instance_count: count,
                        },
                    )
                } else {
                    None
                }
            },
            None => None,
        }
    }
}

/// Preparing from one store twice gives streams of the same length, and
/// where the depth flag is set, the same depth at every place of the
/// stream: only records of equal depth can change places. Where the depth
/// flag is clear the two streams are the same.
pub proof fn lemma_prepared_streams_agree(
    first: RectBatch,
    first_before: RectBatch,
    first_action: UploadAction,
    second: RectBatch,
    second_before: RectBatch,
    second_action: UploadAction,
    s: StoreModel,
)
    requires
        s.dirty,
        first.prepared_from(first_before, s, first_action),
        second.prepared_from(second_before, s, second_action),
    ensures
        first.batch.cpu_buffer@.len() == second.batch.cpu_buffer@.len(),
        forall|i: int|
            0 <= i < first.batch.cpu_buffer@.len() ==> (#[trigger] first.batch.cpu_buffer@[i]).z_bits()
                == second.batch.cpu_buffer@[i].z_bits(),
        !s.z_dirty ==> first.batch.cpu_buffer@ == second.batch.cpu_buffer@,
{
    if s.z_dirty {
        lemma_depth_order_is_determined(first.batch.cpu_buffer@, second.batch.cpu_buffer@);
    }
}

} // verus!
