//! The interface of a batch.

use vstd::prelude::*;
use crate::batching::common::UploadAction;
use crate::batching::shapes::rect::{DrawCall, RectBatch};
use crate::objects::store::ObjectStore;

verus! {

/// What every batch offers: it takes the store in, and it describes its
/// draw.
pub trait Submiter {
    /// The batch is in a state that its methods accept.
    spec fn ready(&self) -> bool;

    /// Reads the store, orders the records and says what has to be written
    /// to the GPU. A store whose general flag is clear asks for nothing.
    fn prepare(&mut self, store: &ObjectStore) -> (action: UploadAction)
        requires
            old(self).ready(),
            store@.wf(),
        ensures
            final(self).ready(),
            !store.dirty ==> action is Skip,
    ;

    /// Describes the draw of the batch, if it has anything to show.
    fn render(&self) -> (call: Option<DrawCall>)
        requires
            self.ready(),
    ;
}

impl Submiter for RectBatch {
    open spec fn ready(&self) -> bool {
        self.wf()
    }

    fn prepare(&mut self, store: &ObjectStore) -> (action: UploadAction)
        ensures
            final(self).prepared_from(*old(self), store@, action),
    {
        RectBatch::prepare(self, store)
    }

    fn render(&self) -> (call: Option<DrawCall>)
        ensures
            call == self.spec_render(),
    {
        RectBatch::render(self)
    }
}

} // verus!
