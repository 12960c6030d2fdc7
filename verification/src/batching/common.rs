//! The staging container shared by all batches: a list of instance records
//! on the CPU side and what is known of the buffer that mirrors it on the
//! GPU side.

use vstd::prelude::*;
use crate::binary32::{lemma_total_order_key_injective, order_key, total_order_key};

verus! {

/// An instance record that can be ordered by depth.
pub trait SortableInstance: Copy {
    /// The depth of the record, as a binary32 pattern.
    spec fn z_bits(&self) -> u32;

    /// Reads the depth of the record.
    fn get_z_index(&self) -> (z: u32)
        ensures
            z == self.z_bits(),
    ;
}

/// What the core knows of a buffer that lives on the GPU: how many records
/// it was allocated for.
#[derive(Debug, Clone, Copy, PartialEq, Eq, Structural)]
pub struct GpuBufferState {
    pub capacity: usize,
}

/// What the back end has to do with the staged records.
#[derive(Debug, Clone, Copy, PartialEq, Eq, Structural)]
pub enum UploadAction {
    /// Nothing: no buffer is written or made.
    Skip,
    /// Write the staged records over the start of the existing buffer.
    Overwrite,
    /// Make a buffer that holds exactly the staged records, and drop the
    /// one before it.
    Allocate,
}

/// Staged instance records and the state of their GPU buffer.
pub struct BatchBuffer<T: SortableInstance> {
    pub cpu_buffer: Vec<T>,
    pub gpu_buffer: Option<GpuBufferState>,
}

/// The depths of a sequence of records never decrease, in the total order
/// of binary32.
pub open spec fn sorted_by_depth<T: SortableInstance>(s: Seq<T>) -> bool {
    forall|i: int, j: int|
        0 <= i <= j < s.len() ==> total_order_key(#[trigger] s[i].z_bits()) <= total_order_key(
            #[trigger] s[j].z_bits(),
        )
}

/// What an upload of `len` staged records does, given the buffer at hand.
pub open spec fn upload_action(len: nat, gpu: Option<GpuBufferState>) -> UploadAction {
    if len == 0 {
        UploadAction::Skip
    } else if gpu matches Some(buf) && buf.capacity >= len {
        UploadAction::Overwrite
    } else {
        UploadAction::Allocate
    }
}

/// The buffer at hand after an upload of `len` staged records.
pub open spec fn gpu_after_upload(len: nat, gpu: Option<GpuBufferState>) -> Option<
    GpuBufferState,
> {
    if upload_action(len, gpu) is Allocate {
        Some(GpuBufferState { capacity: len as usize })
    } else {
        gpu
    }
}

impl UploadAction {
    /// The action writes to the GPU.
    pub open spec fn spec_writes(self) -> bool {
        !(self is Skip)
    }

    #[verifier::when_used_as_spec(spec_writes)]
    pub fn writes(self) -> (b: bool)
        ensures
            b == self.spec_writes(),
    {
        match self {
            UploadAction::Skip => false,
            UploadAction::Overwrite => true,
            UploadAction::Allocate => true,
        }
    }
}

/// Orders the records with `sort_unstable_by_key` of the standard library's
/// slices, keyed by the rank of each depth in the total order. Taken on
/// trust from its documentation: the call rearranges the records, and
/// afterwards the keys never decrease. Records of equal key may come out
/// in any order.
#[verifier::external_body]
fn sort_unstable_by_depth<T: SortableInstance>(records: &mut Vec<T>)
    ensures
        final(records)@.to_multiset() == old(records)@.to_multiset(),
        final(records)@.len() == old(records)@.len(),
        sorted_by_depth(final(records)@),
{
    records.sort_unstable_by_key(|r| order_key(r.get_z_index()));
}

impl<T: SortableInstance> BatchBuffer<T> {
    /// An empty staging list and no GPU buffer.
    pub fn new() -> (b: Self)
        ensures
            b.cpu_buffer@ == Seq::<T>::empty(),
            b.gpu_buffer is None,
    {
        BatchBuffer { cpu_buffer: Vec::with_capacity(1024), gpu_buffer: None }
    }

    /// Empties the staging list. The GPU buffer stays.
    pub fn clear(&mut self)
        ensures
            final(self).cpu_buffer@ == Seq::<T>::empty(),
            final(self).gpu_buffer == old(self).gpu_buffer,
    {
        self.cpu_buffer.clear();
    }

    /// Appends a record to the staging list.
    #[inline]
    pub fn push(&mut self, instance: T)
        ensures
            final(self).cpu_buffer@ == old(self).cpu_buffer@.push(instance),
            final(self).gpu_buffer == old(self).gpu_buffer,
    {
        self.cpu_buffer.push(instance);
    }

    /// Reorders the staged records by ascending depth, in the total order
    /// of binary32. The order among records of equal depth is not fixed.
    pub fn sort(&mut self)
        ensures
            final(self).cpu_buffer@.to_multiset() == old(self).cpu_buffer@.to_multiset(),
            final(self).cpu_buffer@.len() == old(self).cpu_buffer@.len(),
            sorted_by_depth(final(self).cpu_buffer@),
            final(self).gpu_buffer == old(self).gpu_buffer,
    {
        sort_unstable_by_depth(&mut self.cpu_buffer);
    }

    /// Decides how the staged records reach the GPU and records the buffer
    /// that will hold them. With nothing staged, nothing is done; a buffer
    /// that is large enough is written over; otherwise a buffer sized to
    /// the staged records takes its place.
    pub fn upload(&mut self) -> (action: UploadAction)
        ensures
            action == upload_action(old(self).cpu_buffer@.len(), old(self).gpu_buffer),
            final(self).gpu_buffer == gpu_after_upload(
                old(self).cpu_buffer@.len(),
                old(self).gpu_buffer,
            ),
            final(self).cpu_buffer@ == old(self).cpu_buffer@,
            action.spec_writes() <==> old(self).cpu_buffer@.len() > 0,
    {
        let len = self.cpu_buffer.len();
        if len == 0 {
            return UploadAction::Skip;
        }
        match self.gpu_buffer {
            Some(buf) => {
                if buf.capacity >= len {
                    return UploadAction::Overwrite;
                }
            },
            None => {},
        }
        self.gpu_buffer = Some(GpuBufferState { capacity: len });
        UploadAction::Allocate
    }
}

/// The depth order leaves no choice of depths: two arrangements of the
/// same records that are both in ascending depth show the same depth at
/// every place. They can differ only in which of several records of one
/// depth stands where.
pub proof fn lemma_depth_order_is_determined<T: SortableInstance>(a: Seq<T>, b: Seq<T>)
    requires
        a.to_multiset() == b.to_multiset(),
        sorted_by_depth(a),
        sorted_by_depth(b),
    ensures
        a.len() == b.len(),
        forall|i: int| 0 <= i < a.len() ==> (#[trigger] a[i]).z_bits() == b[i].z_bits(),
    decreases a.len(),
{
    a.to_multiset_ensures();
    b.to_multiset_ensures();
    if a.len() > 0 {
        let n = a.len() as int;
        assert(b.len() == n) by {
            assert(a.to_multiset().len() == b.to_multiset().len());
        }
        let x = a[n - 1];
        let y = b[n - 1];
        assert(b.contains(x)) by {
            assert(a.contains(x));
            assert(a.to_multiset().count(x) > 0);
            assert(b.to_multiset().count(x) > 0);
        }
        assert(a.contains(y)) by {
            assert(b.contains(y));
            assert(b.to_multiset().count(y) > 0);
            assert(a.to_multiset().count(y) > 0);
        }
        let j = choose|j: int| 0 <= j < b.len() && b[j] == x;
        let k = choose|k: int| 0 <= k < a.len() && a[k] == y;
        let top = total_order_key(x.z_bits());
        assert(total_order_key(a[k].z_bits()) <= total_order_key(a[n - 1].z_bits()));
        assert(total_order_key(b[j].z_bits()) <= total_order_key(b[n - 1].z_bits()));
        assert(total_order_key(y.z_bits()) == top);
        let a1 = a.remove(n - 1);
        let b1 = b.remove(j);
        a.remove_ensures(n - 1);
        b.remove_ensures(j);
        assert(a1.to_multiset() == b1.to_multiset());
        assert(sorted_by_depth(a1)) by {
            assert forall|p: int, q: int| 0 <= p <= q < a1.len() implies total_order_key(
                #[trigger] a1[p].z_bits(),
            ) <= total_order_key(#[trigger] a1[q].z_bits()) by {
                assert(a1[p] == a[p] && a1[q] == a[q]);
            }
        }
        assert(sorted_by_depth(b1)) by {
            assert forall|p: int, q: int| 0 <= p <= q < b1.len() implies total_order_key(
                #[trigger] b1[p].z_bits(),
            ) <= total_order_key(#[trigger] b1[q].z_bits()) by {
                let p0 = if p < j { p } else { p + 1 };
                let q0 = if q < j { q } else { q + 1 };
                assert(b1[p] == b[p0] && b1[q] == b[q0]);
            }
        }
        lemma_depth_order_is_determined(a1, b1);
        assert forall|i: int| 0 <= i < a.len() implies (#[trigger] a[i]).z_bits()
            == b[i].z_bits() by {
            if i < j {
                assert(a1[i] == a[i] && b1[i] == b[i]);
            } else {
                assert(total_order_key(b[j].z_bits()) <= total_order_key(b[i].z_bits()));
                assert(total_order_key(b[i].z_bits()) <= total_order_key(b[n - 1].z_bits()));
                if i < n - 1 {
                    assert(a1[i] == a[i] && b1[i] == b[i + 1]);
                    assert(total_order_key(b[j].z_bits()) <= total_order_key(b[i + 1].z_bits()));
                    assert(total_order_key(b[i + 1].z_bits()) <= total_order_key(
                        b[n - 1].z_bits(),
                    ));
                }
                lemma_total_order_key_injective(a[i].z_bits(), b[i].z_bits());
            }
        }
    }
}

} // verus!
