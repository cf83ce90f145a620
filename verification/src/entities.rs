//! Identities and positions of things in the world, as messages carry them.
use crate::codec::{ClientPayload, ReadError, WireEncode};
use crate::wire::{from_le_u32, from_le_u64, get_u32_le, get_u64_le, le_u32, le_u64, put_u32_le, put_u64_le, put_u8};
use vstd::prelude::*;

verus! {

/// The 64-bit identity of an object in the world; it travels as its raw value.
#[derive(Debug, Clone, Copy, PartialEq, Eq, Structural)]
pub struct ObjectGuid {
    pub raw: u64,
}

/// The guid whose raw value is zero, used where no object is meant.
pub open spec fn zero_guid() -> ObjectGuid {
    ObjectGuid { raw: 0 }
}

impl ObjectGuid {
    /// The raw 64-bit value.
    pub fn raw(&self) -> (r: u64)
        ensures
            r == self.raw,
    {
        self.raw
    }

    /// The guid whose raw value is zero.
    pub fn zero() -> (r: ObjectGuid)
        ensures
            r == zero_guid(),
    {
        ObjectGuid { raw: 0 }
    }

    /// The compact form of this guid.
    pub fn as_packed(&self) -> (r: PackedObjectGuid)
        ensures
            r.raw == self.raw,
    {
        PackedObjectGuid { raw: self.raw }
    }
}

impl WireEncode for ObjectGuid {
    open spec fn spec_encode(&self) -> Seq<u8> {
        le_u64(self.raw)
    }

    fn encode_into(&self, out: &mut Vec<u8>) {
        put_u64_le(out, self.raw);
    }
}

impl ClientPayload for ObjectGuid {
    open spec fn spec_accepts(data: Seq<u8>) -> bool {
        data.len() >= 8
    }

    open spec fn spec_reads_as(data: Seq<u8>, v: Self) -> bool {
        v == ObjectGuid { raw: from_le_u64(data.subrange(0, 8)) }
    }

    fn read(data: &[u8]) -> (r: Result<Self, ReadError>) {
        if data.len() < 8 {
            return Err(ReadError::UnexpectedEnd);
        }
        Ok(ObjectGuid { raw: get_u64_le(data, 0) })
    }
}

/// A guid in compact form: a mask byte telling which of its eight little-endian
/// bytes are not zero, followed by those bytes in order.
#[derive(Debug, Clone, Copy, PartialEq, Eq, Structural)]
pub struct PackedObjectGuid {
    pub raw: u64,
}

/// 2 to the power `i`, for `i` below 8.
pub open spec fn bit_of(i: int) -> int {
    if i == 0 {
        1
    } else if i == 1 {
        2
    } else if i == 2 {
        4
    } else if i == 3 {
        8
    } else if i == 4 {
        16
    } else if i == 5 {
        32
    } else if i == 6 {
        64
    } else {
        128
    }
}

/// The mask of the first `n` bytes of `bytes`: bit `i` is set when byte `i` is not zero.
pub open spec fn nonzero_mask(bytes: Seq<u8>, n: int) -> int
    decreases n,
{
    if n <= 0 {
        0
    } else {
        nonzero_mask(bytes, n - 1) + if bytes[n - 1] != 0 {
            bit_of(n - 1)
        } else {
            0
        }
    }
}

/// The bytes of `bytes` that are not zero, in order.
pub open spec fn nonzero_bytes(bytes: Seq<u8>) -> Seq<u8>
    decreases bytes.len(),
{
    if bytes.len() == 0 {
        Seq::empty()
    } else {
        nonzero_bytes(bytes.drop_last()) + if bytes.last() != 0 {
            seq![bytes.last()]
        } else {
            Seq::empty()
        }
    }
}

/// The mask of the first `n` bytes is below `2^n` and fits in a byte.
pub proof fn lemma_mask_bound(bytes: Seq<u8>, n: int)
    requires
        0 <= n <= 8,
    ensures
        0 <= nonzero_mask(bytes, n) < bit_of(n) * (if n == 8 { 2int } else { 1int }),
        n < 8 ==> nonzero_mask(bytes, n) < bit_of(n),
        nonzero_mask(bytes, n) <= 255,
    decreases n,
{
    if n > 0 {
        lemma_mask_bound(bytes, n - 1);
    }
}

impl WireEncode for PackedObjectGuid {
    open spec fn spec_encode(&self) -> Seq<u8> {
        seq![nonzero_mask(le_u64(self.raw), 8) as u8] + nonzero_bytes(le_u64(self.raw))
    }

    fn encode_into(&self, out: &mut Vec<u8>) {
        let mut bytes: Vec<u8> = Vec::new();
        put_u64_le(&mut bytes, self.raw);
        assert(bytes@ =~= le_u64(self.raw));
        let mut mask: u8 = 0;
        let mut bit: u8 = 1;
        let mut kept: Vec<u8> = Vec::new();
        let mut i: usize = 0;
        while i < 8
            invariant
                bytes@ == le_u64(self.raw),
                i <= 8,
                mask as int == nonzero_mask(bytes@, i as int),
                i < 8 ==> bit as int == bit_of(i as int),
                kept@ == nonzero_bytes(bytes@.subrange(0, i as int)),
            decreases 8 - i,
        {
            proof {
                lemma_mask_bound(bytes@, i as int);
            }
            let b = bytes[i];
            if b != 0 {
                mask = mask + bit;
                kept.push(b);
            }
            assert(bytes@.subrange(0, i + 1).drop_last() =~= bytes@.subrange(0, i as int));
            if i < 7 {
                bit = bit * 2;
            }
            i = i + 1;
        }
        assert(bytes@.subrange(0, 8) =~= bytes@);
        put_u8(out, mask);
        let mut j: usize = 0;
        while j < kept.len()
            invariant
                j <= kept@.len(),
                out@ == old(out)@ + seq![mask] + kept@.subrange(0, j as int),
            decreases kept@.len() - j,
        {
            out.push(kept[j]);
            j = j + 1;
            assert(out@ =~= old(out)@ + seq![mask] + kept@.subrange(0, j as int));
        }
        assert(kept@.subrange(0, kept@.len() as int) =~= kept@);
        assert(out@ =~= old(out)@ + self.spec_encode());
    }
}

/// A point in the world with an orientation; each coordinate is an `f32`, kept as
/// its IEEE-754 bits.
#[derive(Debug, Clone, Copy, PartialEq, Eq, Structural)]
pub struct Position {
    pub x: u32,
    pub y: u32,
    pub z: u32,
    pub o: u32,
}

impl WireEncode for Position {
    open spec fn spec_encode(&self) -> Seq<u8> {
        le_u32(self.x) + le_u32(self.y) + le_u32(self.z) + le_u32(self.o)
    }

    fn encode_into(&self, out: &mut Vec<u8>) {
        put_u32_le(out, self.x);
        put_u32_le(out, self.y);
        put_u32_le(out, self.z);
        put_u32_le(out, self.o);
        assert(out@ =~= old(out)@ + self.spec_encode());
    }
}

impl ClientPayload for Position {
    open spec fn spec_accepts(data: Seq<u8>) -> bool {
        data.len() >= 16
    }

    open spec fn spec_reads_as(data: Seq<u8>, v: Self) -> bool {
        v == Position {
                    x: from_le_u32(data.subrange(0, 4)),
                    y: from_le_u32(data.subrange(4, 8)),
                    z: from_le_u32(data.subrange(8, 12)),
                    o: from_le_u32(data.subrange(12, 16)),
                }
    }

    fn read(data: &[u8]) -> (r: Result<Self, ReadError>) {
        if data.len() < 16 {
            return Err(ReadError::UnexpectedEnd);
        }
        Ok(
            Position {
                x: get_u32_le(data, 0),
                y: get_u32_le(data, 4),
                z: get_u32_le(data, 8),
                o: get_u32_le(data, 12),
            },
        )
    }
}

/// A place in a map: the map and zone, and a position (the bits of `f32` values).
#[derive(Debug, Clone, Copy, PartialEq, Eq, Structural)]
pub struct WorldPosition {
    pub map_id: u32,
    pub zone: u32,
    pub x: u32,
    pub y: u32,
    pub z: u32,
    pub o: u32,
}

} // verus!
