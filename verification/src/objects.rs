//! Identifiers of scene objects and shaders.

use vstd::prelude::*;

pub mod store;

verus! {

/// Number of low bits of an [`ObjectId`] that hold the row index.
pub const TYPE_SHIFT: usize = 24;

/// Mask selecting the row index of an [`ObjectId`].
pub const INDEX_MASK: usize = 0x00FF_FFFF;

/// Largest number of rows that ids can tell apart.
pub const MAX_OBJECTS: usize = 0x0100_0000;

/// Identifier of a scene object: an 8-bit shape tag above a 24-bit row index.
#[derive(Debug, Clone, Copy, PartialEq, Eq, Hash, Structural)]
pub struct ObjectId(pub usize);

/// Identifier of a registered shader pipeline.
#[derive(Debug, Clone, Copy, PartialEq, Eq, Hash, Structural)]
pub struct ShaderId(pub u32);

/// Shape kinds that an [`ObjectId`] can be tagged with.
#[derive(Debug, Clone, Copy, PartialEq, Eq, Structural)]
pub enum ObjectType {
    Rect,
}

impl Default for ShaderId {
    fn default() -> (id: Self)
        ensures
            id == ShaderId(0),
    {
        ShaderId(0)
    }
}

impl ObjectType {
    /// The 8-bit tag that stands for a shape kind.
    pub open spec fn spec_tag(self) -> u8 {
        match self {
            ObjectType::Rect => 1u8,
        }
    }

    /// The shape kind that a tag stands for, if any.
    pub open spec fn spec_from_u8(v: u8) -> Option<ObjectType> {
        if v == 1 {
            Some(ObjectType::Rect)
        } else {
            None
        }
    }

    #[verifier::when_used_as_spec(spec_tag)]
    pub fn tag(self) -> (t: u8)
        ensures
            t == self.spec_tag(),
            ObjectType::spec_from_u8(t) == Some(self),
    {
        match self {
            ObjectType::Rect => 1,
        }
    }

    #[verifier::when_used_as_spec(spec_from_u8)]
    pub fn from_u8(v: u8) -> (ty: Option<Self>)
        ensures
            ty == ObjectType::spec_from_u8(v),
            ty matches Some(t) ==> t.spec_tag() == v,
    {
        match v {
            1 => Some(ObjectType::Rect),
            _ => None,
        }
    }
}

impl ObjectId {
    /// The row index: the low 24 bits.
    pub open spec fn spec_index(&self) -> usize {
        self.0 % 0x0100_0000
    }

    /// The raw shape tag: bits 24 to 31.
    pub open spec fn spec_tag_bits(&self) -> u8 {
        ((self.0 / 0x0100_0000) % 0x100) as u8
    }

    /// The shape kind named by the tag, if the tag is a known one.
    pub open spec fn spec_get_type(&self) -> Option<ObjectType> {
        ObjectType::spec_from_u8(self.spec_tag_bits())
    }

    /// The id made of a shape kind and the low 24 bits of `index`.
    pub open spec fn spec_new(ty: ObjectType, index: usize) -> ObjectId {
        ObjectId((ty.spec_tag() * 0x0100_0000 + index % 0x0100_0000) as usize)
    }

    /// Builds an id from a shape kind and a row index. Only the low 24 bits
    /// of `index` are kept.
    #[inline(always)]
    #[verifier::when_used_as_spec(spec_new)]
    pub fn new(ty: ObjectType, index: usize) -> (id: Self)
        ensures
            id == ObjectId::spec_new(ty, index),
            id.spec_index() == index % 0x0100_0000,
            id.spec_get_type() == Some(ty),
            id.0 < 0x1_0000_0000,
    {
        let t: usize = ty.tag() as usize;
        assert(((t << 24usize) | (index & 0x00FF_FFFFusize)) == t * 0x0100_0000 + index
            % 0x0100_0000) by (bit_vector)
            requires
                t < 256,
        ;
        let raw: usize = (t << TYPE_SHIFT) | (index & INDEX_MASK);
        ObjectId(raw)
    }

    /// The shape kind of the object, or `None` where the tag is unknown.
    #[inline(always)]
    #[verifier::when_used_as_spec(spec_get_type)]
    pub fn get_type(&self) -> (ty: Option<ObjectType>)
        ensures
            ty == self.spec_get_type(),
    {
        let raw: usize = self.0;
        assert(((raw >> 24usize) & 0xFFusize) == (raw / 0x0100_0000) % 0x100) by (bit_vector);
        let tag: u8 = ((raw >> TYPE_SHIFT) & 0xFF) as u8;
        ObjectType::from_u8(tag)
    }

    /// The row index of the object in the store's columns.
    #[inline(always)]
    #[verifier::when_used_as_spec(spec_index)]
    pub fn index(&self) -> (i: usize)
        ensures
            i == self.spec_index(),
            i < MAX_OBJECTS,
    {
        let raw: usize = self.0;
        assert((raw & 0x00FF_FFFFusize) == raw % 0x0100_0000) by (bit_vector);
        raw & INDEX_MASK
    }
}

/// An id keeps the kind and the index it was built from, whenever the index
/// fits in 24 bits.
pub proof fn lemma_id_round_trip(ty: ObjectType, index: usize)
    requires
        index < MAX_OBJECTS,
    ensures
        ObjectId::spec_new(ty, index).spec_index() == index,
        ObjectId::spec_new(ty, index).spec_get_type() == Some(ty),
{
}

/// Ids of one kind are equal exactly when their indices agree in the low
/// 24 bits.
pub proof fn lemma_id_injective(ty: ObjectType, i: usize, j: usize)
    ensures
        ObjectId::spec_new(ty, i) == ObjectId::spec_new(ty, j) <==> i % 0x0100_0000 == j
            % 0x0100_0000,
{
}

} // verus!
