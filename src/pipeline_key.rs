use crate::topology::{ordinal, topology_of_ordinal, topology_ordinal};
use vstd::prelude::*;
use wgpu_types::PrimitiveTopology;

verus! {

/// The base mesh pipeline key.
///
/// Its bits start from the highest bit and go downward: bit 63 marks morph
/// targets and bits 60 to 62 hold the primitive topology. Downstream pipeline
/// keys take bits from the lowest bit upward, so both can share one word
/// without shifts.
#[derive(Clone, Copy, Debug)]
pub struct BaseMeshPipelineKey {
    bits: u64,
}

impl View for BaseMeshPipelineKey {
    type V = u64;

    closed spec fn view(&self) -> u64 {
        self.bits
    }
}

/// The topology field of a key, still in place: bits 60 to 62.
pub open spec fn topology_field() -> u64 {
    0x7000_0000_0000_0000u64
}

/// The bits that encode `t`: its ordinal, masked to three bits and shifted
/// up to sit directly below the morph-targets bit.
pub open spec fn encode_topology(t: PrimitiveTopology) -> u64 {
    (ordinal(t) & 0b111u64) << 60u64
}

/// The topology that `bits` holds; a field with no defined ordinal decodes
/// to the triangle-list default.
pub open spec fn decode_topology(bits: u64) -> PrimitiveTopology {
    topology_of_ordinal((bits >> 60u64) & 0b111u64)
}

impl BaseMeshPipelineKey {
    /// The mask of the topology field, before it is shifted into place.
    pub const PRIMITIVE_TOPOLOGY_MASK_BITS: u64 = 0b111;

    /// How far the topology field is shifted: it sits directly below the
    /// single highest bit.
    pub const PRIMITIVE_TOPOLOGY_SHIFT_BITS: u64 = 60;

    /// The bit of the morph-targets flag: the highest bit of the word.
    pub const MORPH_TARGETS_BITS: u64 = 0x8000_0000_0000_0000;

    /// The key that holds the morph-targets flag alone.
    pub fn morph_targets() -> (r: Self)
        ensures
            r@ == 1u64 << 63u64,
    {
        assert(1u64 << 63u64 == 0x8000_0000_0000_0000u64) by (bit_vector);
        BaseMeshPipelineKey { bits: Self::MORPH_TARGETS_BITS }
    }

    /// Makes a key that holds exactly `bits`.
    pub fn from_bits_retain(bits: u64) -> (r: Self)
        ensures
            r@ == bits,
    {
        BaseMeshPipelineKey { bits }
    }

    /// The bits of the key.
    pub fn bits(&self) -> (r: u64)
        ensures
            r == self@,
    {
        self.bits
    }

    /// The key that holds the bits of both keys.
    pub fn union(self, other: Self) -> (r: Self)
        ensures
            r@ == self@ | other@,
    {
        BaseMeshPipelineKey { bits: self.bits | other.bits }
    }

    /// Whether every bit of `other` is set in this key.
    pub fn contains(&self, other: Self) -> (r: bool)
        ensures
            r == (self@ & other@ == other@),
    {
        self.bits & other.bits == other.bits
    }

    /// The key that holds `primitive_topology` in its topology field and no
    /// other bit.
    pub fn from_primitive_topology(primitive_topology: PrimitiveTopology) -> (r: Self)
        ensures
            r@ == encode_topology(primitive_topology),
    {
        let primitive_topology_bits = (topology_ordinal(primitive_topology)
            & Self::PRIMITIVE_TOPOLOGY_MASK_BITS) << Self::PRIMITIVE_TOPOLOGY_SHIFT_BITS;
        Self::from_bits_retain(primitive_topology_bits)
    }

    /// The topology that the key holds, or the triangle-list default when its
    /// topology field matches no defined ordinal.
    pub fn primitive_topology(&self) -> (r: PrimitiveTopology)
        ensures
            r == decode_topology(self@),
    {
        let primitive_topology_bits = (self.bits() >> Self::PRIMITIVE_TOPOLOGY_SHIFT_BITS)
            & Self::PRIMITIVE_TOPOLOGY_MASK_BITS;
        if primitive_topology_bits == 0 {
            PrimitiveTopology::PointList
        } else if primitive_topology_bits == 1 {
            PrimitiveTopology::LineList
        } else if primitive_topology_bits == 2 {
            PrimitiveTopology::LineStrip
        } else if primitive_topology_bits == 3 {
            PrimitiveTopology::TriangleList
        } else if primitive_topology_bits == 4 {
            PrimitiveTopology::TriangleStrip
        } else {
            PrimitiveTopology::default()
        }
    }
}

/// Decoding the encoding of a topology gives that topology back.
pub proof fn lemma_topology_round_trip(t: PrimitiveTopology)
    ensures
        decode_topology(encode_topology(t)) == t,
{
    let x = ordinal(t);
    assert(((x & 0b111u64) << 60u64 >> 60u64) & 0b111u64 == x) by (bit_vector)
        requires
            x <= 4,
    ;
}

/// A key whose topology field holds no defined ordinal decodes to the
/// triangle-list default.
pub proof fn lemma_unknown_topology_is_triangle_list(bits: u64)
    requires
        (bits >> 60u64) & 0b111u64 > 4,
    ensures
        decode_topology(bits) == PrimitiveTopology::TriangleList,
{
}

/// The encoding of a topology sets no bit outside the topology field, and
/// decoding reads no bit outside it.
pub proof fn lemma_topology_reads_only_its_field(t: PrimitiveTopology, bits: u64)
    ensures
        encode_topology(t) & !topology_field() == 0,
        decode_topology(bits) == decode_topology(bits & topology_field()),
{
    let x = ordinal(t);
    assert(((x & 0b111u64) << 60u64) & !0x7000_0000_0000_0000u64 == 0) by (bit_vector);
    assert((bits >> 60u64) & 0b111u64 == ((bits & 0x7000_0000_0000_0000u64) >> 60u64) & 0b111u64)
        by (bit_vector);
}

/// Feature bits set outside the topology field, by downstream keys or by
/// the morph-targets flag, leave the encoded topology intact.
pub proof fn lemma_feature_bits_keep_topology(t: PrimitiveTopology, features: u64)
    requires
        features & topology_field() == 0,
    ensures
        decode_topology(encode_topology(t) | features) == t,
{
    let x = ordinal(t);
    assert((((x & 0b111u64) << 60u64 | features) >> 60u64) & 0b111u64 == x) by (bit_vector)
        requires
            x <= 4,
            features & 0x7000_0000_0000_0000u64 == 0,
    ;
}

} // verus!
