//! Records that the vertex stage reads: the static quad and the
//! per-rectangle instance.

use vstd::prelude::*;
use crate::binary32::{
    in_unit_interval, lemma_unit_interval_scales_to_byte, scale_255, times_255_truncated, ONE, ZERO,
};
use crate::batching::common::SortableInstance;

verus! {

/// Bytes that one [`QuadVertex`] takes in a vertex buffer.
pub const QUAD_VERTEX_SIZE: u64 = 8;

/// Bytes that one [`RectInstance`] takes in an instance buffer.
pub const RECT_INSTANCE_SIZE: u64 = 44;

/// Number of indices that draw the quad.
pub const QUAD_INDEX_COUNT: u32 = 6;

/// Corner of the unit quad, as binary32 patterns.
#[derive(Clone, Copy, Debug, PartialEq, Eq)]
pub struct QuadVertex {
    pub position: [u32; 2],
}

/// Per-rectangle record of the instance stream.
///
/// In order: `pos_size` is x, y, width, height; `radii` is top-left,
/// top-right, bottom-right, bottom-left; `extra` is depth, rotation; all as
/// binary32 patterns. `color` is the packed colour, red in the lowest byte.
#[derive(Clone, Copy, Debug, PartialEq, Eq)]
pub struct RectInstance {
    pub pos_size: [u32; 4],
    pub radii: [u32; 4],
    pub extra: [u32; 2],
    pub color: u32,
}

impl QuadVertex {
    /// The four corners of the unit quad: (0,0), (0,1), (1,1), (1,0).
    pub open spec fn spec_quad() -> [QuadVertex; 4] {
        [
            QuadVertex { position: [ZERO, ZERO] },
            QuadVertex { position: [ZERO, ONE] },
            QuadVertex { position: [ONE, ONE] },
            QuadVertex { position: [ONE, ZERO] },
        ]
    }

    /// The two triangles of the quad, as indices into the corners.
    pub open spec fn spec_indices() -> [u32; 6] {
        [0u32, 1u32, 2u32, 0u32, 2u32, 3u32]
    }

    #[verifier::when_used_as_spec(spec_quad)]
    pub fn quad() -> (q: [QuadVertex; 4])
        ensures
            q == QuadVertex::spec_quad(),
    {
        [
            QuadVertex { position: [ZERO, ZERO] },
            QuadVertex { position: [ZERO, ONE] },
            QuadVertex { position: [ONE, ONE] },
            QuadVertex { position: [ONE, ZERO] },
        ]
    }

    #[verifier::when_used_as_spec(spec_indices)]
    pub fn indices() -> (i: [u32; 6])
        ensures
            i == QuadVertex::spec_indices(),
    {
        [0u32, 1u32, 2u32, 0u32, 2u32, 3u32]
    }
}

/// Byte `i` of a packed colour, counted from the lowest.
pub open spec fn channel_byte(packed: u32, i: int) -> u32 {
    if i == 0 {
        packed % 0x100
    } else if i == 1 {
        (packed / 0x100) % 0x100
    } else if i == 2 {
        (packed / 0x1_0000) % 0x100
    } else {
        (packed / 0x100_0000) % 0x100
    }
}

/// Four channel values laid one above the other, eight bits apart. Bits of
/// a channel beyond its byte run into the channels above it.
pub open spec fn assemble_channels(r: u32, g: u32, b: u32, a: u32) -> u32 {
    (a << 24u32) | (b << 16u32) | (g << 8u32) | r
}

impl RectInstance {
    /// The packed colour of four channels: each channel is multiplied by
    /// 255 and truncated, then the four are assembled with red lowest.
    pub open spec fn spec_pack_color(c: [u32; 4]) -> u32 {
        assemble_channels(
            times_255_truncated(c[0]),
            times_255_truncated(c[1]),
            times_255_truncated(c[2]),
            times_255_truncated(c[3]),
        )
    }

    /// Packs `[r, g, b, a]` into one word, red in the lowest byte.
    #[verifier::when_used_as_spec(spec_pack_color)]
    pub fn pack_color(c: [u32; 4]) -> (packed: u32)
        ensures
            packed == RectInstance::spec_pack_color(c),
    {
        let r: u32 = scale_255(c[0]);
        let g: u32 = scale_255(c[1]);
        let b: u32 = scale_255(c[2]);
        let a: u32 = scale_255(c[3]);
        (a << 24u32) | (b << 16u32) | (g << 8u32) | r
    }
}

impl SortableInstance for RectInstance {
    open spec fn z_bits(&self) -> u32 {
        self.extra[0]
    }

    fn get_z_index(&self) -> (z: u32) {
        self.extra[0]
    }
}

/// Channels that are bytes come back unchanged from the assembled word.
pub proof fn lemma_assemble_bytes(r: u32, g: u32, b: u32, a: u32)
    requires
        r <= 255,
        g <= 255,
        b <= 255,
        a <= 255,
    ensures
        channel_byte(assemble_channels(r, g, b, a), 0) == r,
        channel_byte(assemble_channels(r, g, b, a), 1) == g,
        channel_byte(assemble_channels(r, g, b, a), 2) == b,
        channel_byte(assemble_channels(r, g, b, a), 3) == a,
        assemble_channels(r, g, b, a) == r + g * 0x100 + b * 0x1_0000 + a * 0x100_0000,
{
    let p = (a << 24u32) | (b << 16u32) | (g << 8u32) | r;
    assert(p % 0x100 == r && (p / 0x100) % 0x100 == g && (p / 0x1_0000) % 0x100 == b && (p
        / 0x100_0000) % 0x100 == a && p == r + g * 0x100 + b * 0x1_0000 + a * 0x100_0000)
        by (bit_vector)
        requires
            p == (a << 24u32) | (b << 16u32) | (g << 8u32) | r,
            r <= 255,
            g <= 255,
            b <= 255,
            a <= 255,
    ;
}

/// Packing a colour whose channels lie between zero and one loses nothing
/// but the fraction of each scaled channel: byte `i` of the packed word is
/// channel `i` times 255, truncated.
pub proof fn lemma_pack_color_round_trip(c: [u32; 4])
    requires
        forall|i: int| 0 <= i < 4 ==> in_unit_interval(#[trigger] c[i]),
    ensures
        forall|i: int|
            0 <= i < 4 ==> channel_byte(RectInstance::spec_pack_color(c), i)
                == times_255_truncated(#[trigger] c[i]),
        forall|i: int| 0 <= i < 4 ==> times_255_truncated(#[trigger] c[i]) <= 255,
{
    lemma_unit_interval_scales_to_byte(c[0]);
    lemma_unit_interval_scales_to_byte(c[1]);
    lemma_unit_interval_scales_to_byte(c[2]);
    lemma_unit_interval_scales_to_byte(c[3]);
    lemma_assemble_bytes(
        times_255_truncated(c[0]),
        times_255_truncated(c[1]),
        times_255_truncated(c[2]),
        times_255_truncated(c[3]),
    );
}

} // verus!
