//! Structure-of-arrays storage of scene objects, with the two flags that
//! tell the batcher what has changed since it last read the store.

use vstd::prelude::*;
use crate::binary32::ZERO;
use crate::objects::{ObjectId, ObjectType, MAX_OBJECTS};
use crate::vector::{Vec2Bits, Vec4Bits};

verus! {

/// Storage of all scene objects. Row `i` of every column describes the
/// object whose id has index `i`.
pub struct ObjectStore {
    /// Position `(x, y)` of each object, in logical pixels.
    pub positions: Vec<Vec2Bits>,
    /// Size `(w, h)` of each object.
    pub sizes: Vec<Vec2Bits>,
    /// Colour `(r, g, b, a)` of each object.
    pub colors: Vec<Vec4Bits>,
    /// Rotation of each object, in radians.
    pub rotations: Vec<u32>,
    /// Depth of each object.
    pub z_indices: Vec<u32>,
    /// Ids of the rectangles, in the order they were made.
    pub rect_ids: Vec<ObjectId>,
    /// Corner radii of each rectangle.
    pub rect_radii: Vec<Vec4Bits>,
    /// Some attribute has changed since the batches were last prepared.
    pub dirty: bool,
    /// Some depth has changed since the batches were last prepared.
    pub z_dirty: bool,
}

/// The contents of an [`ObjectStore`] as sequences.
pub struct StoreModel {
    pub positions: Seq<Vec2Bits>,
    pub sizes: Seq<Vec2Bits>,
    pub colors: Seq<Vec4Bits>,
    pub rotations: Seq<u32>,
    pub z_indices: Seq<u32>,
    pub rect_ids: Seq<ObjectId>,
    pub rect_radii: Seq<Vec4Bits>,
    pub dirty: bool,
    pub z_dirty: bool,
}

/// One call of the store's mutating interface.
pub enum Mutation {
    NewRect,
    Position(ObjectId, Vec2Bits),
    Size(ObjectId, Vec2Bits),
    Color(ObjectId, Vec4Bits),
    Rotation(ObjectId, u32),
    ZIndex(ObjectId, u32),
    Rounded(ObjectId, Vec4Bits),
}

impl View for ObjectStore {
    type V = StoreModel;

    open spec fn view(&self) -> StoreModel {
        StoreModel {
            positions: self.positions@,
            sizes: self.sizes@,
            colors: self.colors@,
            rotations: self.rotations@,
            z_indices: self.z_indices@,
            rect_ids: self.rect_ids@,
            rect_radii: self.rect_radii@,
            dirty: self.dirty,
            z_dirty: self.z_dirty,
        }
    }
}

impl StoreModel {
    /// Number of rows.
    pub open spec fn len(self) -> nat {
        self.positions.len()
    }

    /// Every column has one entry per row, the rectangle ids name the rows
    /// in order, and the depth flag is never set without the general one.
    pub open spec fn wf(self) -> bool {
        &&& self.len() <= MAX_OBJECTS
        &&& self.sizes.len() == self.len()
        &&& self.colors.len() == self.len()
        &&& self.rotations.len() == self.len()
        &&& self.z_indices.len() == self.len()
        &&& self.rect_radii.len() == self.len()
        &&& self.rect_ids.len() == self.len()
        &&& forall|k: int|
            0 <= k < self.rect_ids.len() ==> #[trigger] self.rect_ids[k] == ObjectId::spec_new(
                ObjectType::Rect,
                k as usize,
            )
        &&& self.z_dirty ==> self.dirty
    }

    /// Neither flag is set.
    pub open spec fn clean(self) -> bool {
        !self.dirty && !self.z_dirty
    }

    /// The store without objects and with both flags clear.
    pub open spec fn fresh() -> StoreModel {
        StoreModel {
            positions: Seq::empty(),
            sizes: Seq::empty(),
            colors: Seq::empty(),
            rotations: Seq::empty(),
            z_indices: Seq::empty(),
            rect_ids: Seq::empty(),
            rect_radii: Seq::empty(),
            dirty: false,
            z_dirty: false,
        }
    }

    /// The id that the next new rectangle gets.
    pub open spec fn next_rect_id(self) -> ObjectId {
        ObjectId::spec_new(ObjectType::Rect, self.len() as usize)
    }

    /// The store after one more rectangle with default attributes.
    pub open spec fn with_new_rect(self) -> StoreModel {
        StoreModel {
            positions: self.positions.push(Vec2Bits::spec_zero()),
            sizes: self.sizes.push(Vec2Bits::spec_hundred()),
            colors: self.colors.push(Vec4Bits::spec_one()),
            rotations: self.rotations.push(ZERO),
            z_indices: self.z_indices.push(ZERO),
            rect_ids: self.rect_ids.push(self.next_rect_id()),
            rect_radii: self.rect_radii.push(Vec4Bits::spec_zero()),
            dirty: true,
            z_dirty: true,
        }
    }

    pub open spec fn with_position(self, id: ObjectId, pos: Vec2Bits) -> StoreModel {
        StoreModel { positions: self.positions.update(id.spec_index() as int, pos), dirty: true, ..self }
    }

    pub open spec fn with_size(self, id: ObjectId, size: Vec2Bits) -> StoreModel {
        StoreModel { sizes: self.sizes.update(id.spec_index() as int, size), dirty: true, ..self }
    }

    pub open spec fn with_color(self, id: ObjectId, color: Vec4Bits) -> StoreModel {
        StoreModel { colors: self.colors.update(id.spec_index() as int, color), dirty: true, ..self }
    }

    pub open spec fn with_rotation(self, id: ObjectId, rad: u32) -> StoreModel {
        StoreModel { rotations: self.rotations.update(id.spec_index() as int, rad), dirty: true, ..self }
    }

    pub open spec fn with_z_index(self, id: ObjectId, z: u32) -> StoreModel {
        StoreModel {
            z_indices: self.z_indices.update(id.spec_index() as int, z),
            dirty: true,
            z_dirty: true,
            ..self
        }
    }

    /// Corner radii are set where the id names a row; elsewhere nothing
    /// changes, the flags included.
    pub open spec fn with_rounded(self, id: ObjectId, radii: Vec4Bits) -> StoreModel {
        if id.spec_index() < self.rect_radii.len() {
            StoreModel {
                rect_radii: self.rect_radii.update(id.spec_index() as int, radii),
                dirty: true,
                ..self
            }
        } else {
            self
        }
    }

    /// The store with both flags clear and the rows as they are.
    pub open spec fn synced(self) -> StoreModel {
        StoreModel { dirty: false, z_dirty: false, ..self }
    }

    /// The store accepts the call: a new rectangle while there is room for
    /// its id, an attribute of a row that exists. Corner radii are accepted
    /// for any id.
    pub open spec fn admits(self, m: Mutation) -> bool {
        match m {
            Mutation::NewRect => self.len() < MAX_OBJECTS,
            Mutation::Position(id, _) => id.spec_index() < self.len(),
            Mutation::Size(id, _) => id.spec_index() < self.len(),
            Mutation::Color(id, _) => id.spec_index() < self.len(),
            Mutation::Rotation(id, _) => id.spec_index() < self.len(),
            Mutation::ZIndex(id, _) => id.spec_index() < self.len(),
            Mutation::Rounded(_, _) => true,
        }
    }

    /// The call writes to the store: every call but corner radii for an id
    /// that names no row.
    pub open spec fn touched_by(self, m: Mutation) -> bool {
        match m {
            Mutation::Rounded(id, _) => id.spec_index() < self.rect_radii.len(),
            _ => true,
        }
    }

    /// The store after one call.
    pub open spec fn apply(self, m: Mutation) -> StoreModel {
        match m {
            Mutation::NewRect => self.with_new_rect(),
            Mutation::Position(id, pos) => self.with_position(id, pos),
            Mutation::Size(id, size) => self.with_size(id, size),
            Mutation::Color(id, color) => self.with_color(id, color),
            Mutation::Rotation(id, rad) => self.with_rotation(id, rad),
            Mutation::ZIndex(id, z) => self.with_z_index(id, z),
            Mutation::Rounded(id, radii) => self.with_rounded(id, radii),
        }
    }

    /// The store after a sequence of calls, first to last.
    pub open spec fn apply_all(self, ms: Seq<Mutation>) -> StoreModel
        decreases ms.len(),
    {
        if ms.len() == 0 {
            self
        } else {
            self.apply_all(ms.drop_last()).apply(ms.last())
        }
    }

    /// The store accepts each call of the sequence at the time it is made.
    pub open spec fn admits_all(self, ms: Seq<Mutation>) -> bool
        decreases ms.len(),
    {
        ms.len() == 0 || (self.admits_all(ms.drop_last()) && self.apply_all(ms.drop_last()).admits(
            ms.last(),
        ))
    }

    /// Some call of the sequence writes to the store at the time it is made.
    pub open spec fn touched_by_any(self, ms: Seq<Mutation>) -> bool
        decreases ms.len(),
    {
        ms.len() != 0 && (self.touched_by_any(ms.drop_last()) || self.apply_all(
            ms.drop_last(),
        ).touched_by(ms.last()))
    }
}

impl Mutation {
    /// The call changes what the depth order rests on: it sets a depth, or
    /// adds a row.
    pub open spec fn touches_depth(self) -> bool {
        self is ZIndex || self is NewRect
    }

    /// The call sets an attribute of an existing row.
    pub open spec fn is_setter(self) -> bool {
        !(self is NewRect)
    }
}

/// Number of calls in a sequence that add a rectangle.
pub open spec fn count_new_rects(ms: Seq<Mutation>) -> nat
    decreases ms.len(),
{
    if ms.len() == 0 {
        0
    } else {
        count_new_rects(ms.drop_last()) + if ms.last() is NewRect {
            1nat
        } else {
            0nat
        }
    }
}

impl ObjectStore {
    /// An empty store with both flags clear.
    pub fn new() -> (store: Self)
        ensures
            store@ == StoreModel::fresh(),
            store@.wf(),
    {
        ObjectStore {
            positions: Vec::with_capacity(1024),
            sizes: Vec::with_capacity(1024),
            colors: Vec::with_capacity(1024),
            rotations: Vec::with_capacity(1024),
            z_indices: Vec::with_capacity(1024),
            rect_ids: Vec::with_capacity(1024),
            rect_radii: Vec::with_capacity(1024),
            dirty: false,
            z_dirty: false,
        }
    }

    /// Number of rows.
    pub fn len(&self) -> (n: usize)
        ensures
            n == self@.len(),
    {
        self.positions.len()
    }

    /// Whether `id` names a row of the store.
    pub fn contains(&self, id: ObjectId) -> (b: bool)
        ensures
            b == (id.spec_index() < self@.len()),
    {
        id.index() < self.positions.len()
    }

    /// Whether [`ObjectStore::new_rect`] may be called: the next row index
    /// still fits in an id.
    pub fn has_room(&self) -> (b: bool)
        ensures
            b == self@.admits(Mutation::NewRect),
    {
        self.positions.len() < MAX_OBJECTS
    }

    /// Whether the store is well formed. Every store that is only changed
    /// through its methods is; one whose fields were written directly can
    /// be checked here.
    pub fn is_well_formed(&self) -> (b: bool)
        ensures
            b == self@.wf(),
    {
        let n = self.positions.len();
        if n > MAX_OBJECTS || self.sizes.len() != n || self.colors.len() != n
            || self.rotations.len() != n || self.z_indices.len() != n || self.rect_radii.len()
            != n || self.rect_ids.len() != n || (self.z_dirty && !self.dirty) {
            return false;
        }
        let mut k: usize = 0;
        while k < n
            invariant
                n == self.rect_ids@.len(),
                k <= n,
                forall|j: int|
                    0 <= j < k ==> #[trigger] self.rect_ids@[j] == ObjectId::spec_new(
                        ObjectType::Rect,
                        j as usize,
                    ),
            decreases n - k,
        {
            let expected = ObjectId::new(ObjectType::Rect, k);
            if self.rect_ids[k].0 != expected.0 {
                return false;
            }
            k = k + 1;
        }
        true
    }

    /// Appends one row with default attributes to every attribute column,
    /// sets both flags and returns the index of the row.
    fn alloc_common(&mut self) -> (index: usize)
        requires
            old(self)@.wf(),
        ensures
            index == old(self)@.len(),
            final(self)@ == (StoreModel {
                rect_ids: old(self)@.rect_ids,
                ..old(self)@.with_new_rect()
            }),
    {
        let index = self.positions.len();
        self.positions.push(Vec2Bits::zero());
        self.sizes.push(Vec2Bits::hundred());
        self.colors.push(Vec4Bits::one());
        self.rotations.push(ZERO);
        self.z_indices.push(ZERO);
        self.rect_radii.push(Vec4Bits::zero());
        self.dirty = true;
        self.z_dirty = true;
        index
    }

    /// Adds a rectangle at position (0, 0), of size (100, 100), white,
    /// unrotated, at depth 0, with square corners, and returns its id.
    pub fn new_rect(&mut self) -> (id: ObjectId)
        requires
            old(self)@.wf(),
            old(self)@.len() < MAX_OBJECTS,
        ensures
            final(self)@ == old(self)@.with_new_rect(),
            final(self)@.wf(),
            id == old(self)@.next_rect_id(),
            id.spec_index() == old(self)@.len(),
            id.spec_get_type() == Some(ObjectType::Rect),
    {
        let index = self.alloc_common();
        let id = ObjectId::new(ObjectType::Rect, index);
        self.rect_ids.push(id);
        id
    }

    /// Sets the position of an object.
    #[inline(always)]
    pub fn config_position(&mut self, id: ObjectId, pos: Vec2Bits)
        requires
            old(self)@.wf(),
            id.spec_index() < old(self)@.len(),
        ensures
            final(self)@ == old(self)@.with_position(id, pos),
            final(self)@.wf(),
    {
        self.positions.set(id.index(), pos);
        self.dirty = true;
    }

    /// Sets the size of an object.
    #[inline(always)]
    pub fn config_size(&mut self, id: ObjectId, size: Vec2Bits)
        requires
            old(self)@.wf(),
            id.spec_index() < old(self)@.len(),
        ensures
            final(self)@ == old(self)@.with_size(id, size),
            final(self)@.wf(),
    {
        self.sizes.set(id.index(), size);
        self.dirty = true;
    }

    /// Sets the colour of an object.
    #[inline(always)]
    pub fn config_color(&mut self, id: ObjectId, color: Vec4Bits)
        requires
            old(self)@.wf(),
            id.spec_index() < old(self)@.len(),
        ensures
            final(self)@ == old(self)@.with_color(id, color),
            final(self)@.wf(),
    {
        self.colors.set(id.index(), color);
        self.dirty = true;
    }

    /// Sets the rotation of an object, in radians.
    #[inline(always)]
    pub fn config_rotation(&mut self, id: ObjectId, rad: u32)
        requires
            old(self)@.wf(),
            id.spec_index() < old(self)@.len(),
        ensures
            final(self)@ == old(self)@.with_rotation(id, rad),
            final(self)@.wf(),
    {
        self.rotations.set(id.index(), rad);
        self.dirty = true;
    }

    /// Sets the depth of an object. The depth order has to be rebuilt.
    #[inline(always)]
    pub fn config_z_index(&mut self, id: ObjectId, z: u32)
        requires
            old(self)@.wf(),
            id.spec_index() < old(self)@.len(),
        ensures
            final(self)@ == old(self)@.with_z_index(id, z),
            final(self)@.wf(),
    {
        self.z_indices.set(id.index(), z);
        self.dirty = true;
        self.z_dirty = true;
    }

    /// Sets the corner radii of a rectangle. An id that names no row is
    /// ignored.
    pub fn set_rounded(&mut self, id: ObjectId, radii: Vec4Bits)
        requires
            old(self)@.wf(),
        ensures
            final(self)@ == old(self)@.with_rounded(id, radii),
            final(self)@.wf(),
    {
        if id.index() < self.rect_radii.len() {
            self.rect_radii.set(id.index(), radii);
            self.dirty = true;
        }
    }

    /// Clears both flags, once the batches have taken the store in.
    pub fn mark_synced(&mut self)
        ensures
            final(self)@ == old(self)@.synced(),
    {
        self.dirty = false;
        self.z_dirty = false;
    }
}

/// Every accepted call keeps the store well formed.
pub proof fn lemma_apply_preserves_wf(s: StoreModel, m: Mutation)
    requires
        s.wf(),
        s.admits(m),
    ensures
        s.apply(m).wf(),
        s.apply(m).len() == s.len() + if m is NewRect {
            1nat
        } else {
            0nat
        },
{
}

/// Every accepted sequence of calls keeps the store well formed, and the
/// store grows by one row for each new rectangle.
pub proof fn lemma_apply_all_preserves_wf(s: StoreModel, ms: Seq<Mutation>)
    requires
        s.wf(),
        s.admits_all(ms),
    ensures
        s.apply_all(ms).wf(),
        s.apply_all(ms).len() == s.len() + count_new_rects(ms),
    decreases ms.len(),
{
    if ms.len() > 0 {
        lemma_apply_all_preserves_wf(s, ms.drop_last());
        lemma_apply_preserves_wf(s.apply_all(ms.drop_last()), ms.last());
    }
}

/// In a well-formed store every rectangle id names a row, has the
/// rectangle tag, and no two of them name the same row.
pub proof fn lemma_rect_ids_in_range(s: StoreModel)
    requires
        s.wf(),
    ensures
        forall|k: int|
            0 <= k < s.rect_ids.len() ==> (#[trigger] s.rect_ids[k]).spec_index() == k
                && s.rect_ids[k].spec_index() < s.len() && s.rect_ids[k].spec_get_type() == Some(
                ObjectType::Rect,
            ),
        forall|j: int, k: int|
            0 <= j < k < s.rect_ids.len() ==> #[trigger] s.rect_ids[j] != #[trigger] s.rect_ids[k],
{
    assert forall|k: int| 0 <= k < s.rect_ids.len() implies (#[trigger] s.rect_ids[k]).spec_index()
        == k && s.rect_ids[k].spec_index() < s.len() && s.rect_ids[k].spec_get_type() == Some(
        ObjectType::Rect,
    ) by {
        crate::objects::lemma_id_round_trip(ObjectType::Rect, k as usize);
    }
}

/// Starting from a store with both flags clear, after an accepted sequence
/// of calls the general flag is set exactly if some call wrote to the
/// store, and the depth flag exactly if some call set a depth or added a
/// row.
pub proof fn lemma_dirty_flags(s: StoreModel, ms: Seq<Mutation>)
    requires
        s.wf(),
        s.clean(),
        s.admits_all(ms),
    ensures
        s.apply_all(ms).dirty <==> s.touched_by_any(ms),
        s.apply_all(ms).z_dirty <==> exists|i: int|
            0 <= i < ms.len() && (#[trigger] ms[i]).touches_depth(),
    decreases ms.len(),
{
    if ms.len() > 0 {
        let front = ms.drop_last();
        lemma_dirty_flags(s, front);
        let before = s.apply_all(front);
        let after = before.apply(ms.last());
        assert(after.dirty <==> before.dirty || before.touched_by(ms.last()));
        assert(after.z_dirty <==> before.z_dirty || ms.last().touches_depth());
        if after.z_dirty {
            if before.z_dirty {
                let i = choose|i: int| 0 <= i < front.len() && (#[trigger] front[i]).touches_depth();
                assert(ms[i] == front[i]);
            } else {
                assert(ms[ms.len() - 1].touches_depth());
            }
        }
        if exists|i: int| 0 <= i < ms.len() && (#[trigger] ms[i]).touches_depth() {
            let i = choose|i: int| 0 <= i < ms.len() && (#[trigger] ms[i]).touches_depth();
            if i < front.len() {
                assert(front[i] == ms[i]);
            }
        }
    }
}

/// Starting from a store with both flags clear, after an accepted
/// sequence of attribute calls on existing rows the general flag is set
/// exactly if the sequence is not empty, and the depth flag exactly if the
/// sequence sets a depth.
pub proof fn lemma_dirty_flags_of_setters(s: StoreModel, ms: Seq<Mutation>)
    requires
        s.wf(),
        s.clean(),
        s.admits_all(ms),
        forall|i: int|
            0 <= i < ms.len() ==> (#[trigger] ms[i]).is_setter() && (ms[i] matches Mutation::Rounded(
                id,
                _,
            ) ==> id.spec_index() < s.len()),
    ensures
        s.apply_all(ms).dirty <==> ms.len() > 0,
        s.apply_all(ms).z_dirty <==> exists|i: int| 0 <= i < ms.len() && #[trigger] ms[i] is ZIndex,
        s.apply_all(ms).len() == s.len(),
    decreases ms.len(),
{
    if ms.len() > 0 {
        let front = ms.drop_last();
        assert forall|i: int| 0 <= i < front.len() implies (#[trigger] front[i]).is_setter() && (
        front[i] matches Mutation::Rounded(id, _) ==> id.spec_index() < s.len()) by {
            assert(front[i] == ms[i]);
        }
        lemma_dirty_flags_of_setters(s, front);
        lemma_apply_all_preserves_wf(s, front);
        let before = s.apply_all(front);
        let last = ms[ms.len() - 1];
        assert(last.is_setter());
        let after = before.apply(last);
        assert(after.dirty);
        assert(after.z_dirty <==> before.z_dirty || last is ZIndex);
        if after.z_dirty {
            if before.z_dirty {
                let i = choose|i: int| 0 <= i < front.len() && #[trigger] front[i] is ZIndex;
                assert(ms[i] == front[i]);
            } else {
                assert(ms[ms.len() - 1] is ZIndex);
            }
        }
        if exists|i: int| 0 <= i < ms.len() && #[trigger] ms[i] is ZIndex {
            let i = choose|i: int| 0 <= i < ms.len() && #[trigger] ms[i] is ZIndex;
            if i < front.len() {
                assert(front[i] == ms[i]);
            }
        }
    }
}

/// Making the same attribute call twice leaves the store as making it
/// once, and the general flag set wherever the call wrote to the store.
pub proof fn lemma_setter_idempotent(s: StoreModel, m: Mutation)
    requires
        s.wf(),
        m.is_setter(),
        s.admits(m),
    ensures
        s.apply(m).apply(m) == s.apply(m),
        s.touched_by(m) ==> s.apply(m).dirty,
{
    let once = s.apply(m);
    let twice = once.apply(m);
    assert(twice.positions =~= once.positions);
    assert(twice.sizes =~= once.sizes);
    assert(twice.colors =~= once.colors);
    assert(twice.rotations =~= once.rotations);
    assert(twice.z_indices =~= once.z_indices);
    assert(twice.rect_radii =~= once.rect_radii);
}

/// On a store that began empty, the rectangle made after `k` earlier ones
/// gets the id with index `k` and the rectangle tag, whatever attribute
/// calls were made in between.
pub proof fn lemma_kth_rect_id(ms: Seq<Mutation>)
    requires
        StoreModel::fresh().admits_all(ms),
        StoreModel::fresh().apply_all(ms).admits(Mutation::NewRect),
    ensures
        StoreModel::fresh().apply_all(ms).next_rect_id().spec_index() == count_new_rects(ms),
        StoreModel::fresh().apply_all(ms).next_rect_id().spec_get_type() == Some(ObjectType::Rect),
        StoreModel::fresh().apply_all(ms).with_new_rect().rect_ids.last()
            == StoreModel::fresh().apply_all(ms).next_rect_id(),
{
    lemma_apply_all_preserves_wf(StoreModel::fresh(), ms);
    crate::objects::lemma_id_round_trip(ObjectType::Rect, count_new_rects(ms) as usize);
}

} // verus!
