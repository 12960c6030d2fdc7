//! All batches of a scene. There is one: the rectangles.

use vstd::prelude::*;
use crate::batching::common::UploadAction;
use crate::batching::shapes::rect::RectBatch;
use crate::objects::store::{ObjectStore, StoreModel};

verus! {

/// The batches of a scene, one per shape kind.
pub struct BatchGroup {
    pub rects: RectBatch,
}

impl BatchGroup {
    /// Every batch is well formed.
    pub open spec fn wf(&self) -> bool {
        self.rects.wf()
    }

    /// Batches with nothing staged.
    pub fn new() -> (g: Self)
        ensures
            g.wf(),
            g.rects.batch.cpu_buffer@ == Seq::<crate::rendering::vertex::RectInstance>::empty(),
            g.rects.batch.gpu_buffer is None,
            g.rects.holds(StoreModel::fresh()),
    {
        BatchGroup { rects: RectBatch::new() }
    }

    /// Prepares every batch from the store.
    pub fn prepare(&mut self, store: &ObjectStore) -> (action: UploadAction)
        requires
            old(self).wf(),
            store@.wf(),
        ensures
            final(self).wf(),
            final(self).rects.prepared_from(old(self).rects, store@, action),
    {
        self.rects.prepare(store)
    }
}

} // verus!
