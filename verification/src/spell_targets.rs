//! The targets of a spell cast as the client sends them: a mask of target kinds,
//! then, for each kind present, its guid, location or text.
use crate::codec::ReadError;
use crate::constants::{HighGuidType, SpellFailReason};
use crate::protocol::packets::spell_packets::SmsgCastFailed;
use crate::entities::{lemma_mask_bound, nonzero_bytes, nonzero_mask, ObjectGuid, PackedObjectGuid, Position};
use crate::codec::WireEncode;
use crate::wire::{le_u32, le_u64, lemma_le_u32_roundtrip, lemma_le_u64_roundtrip, from_le_u32, from_le_u64, get_null_string, get_u32_le, get_u64_le, lemma_null_string_unique, null_string_at};
use vstd::prelude::*;

verus! {

/// True when the high sixteen bits of `raw` name a kind of object.
pub open spec fn spec_valid_guid(raw: u64) -> bool {
    exists|t: HighGuidType| t.spec_value() == (raw >> 48u64) as i64
}

impl ObjectGuid {
    /// The guid with raw value `raw`, when its high sixteen bits name a kind of object.
    pub fn from_raw(raw: u64) -> (r: Option<ObjectGuid>)
        ensures
            spec_valid_guid(raw) ==> r == Some(ObjectGuid { raw }),
            !spec_valid_guid(raw) ==> r is None,
    {
        match HighGuidType::n((raw >> 48u64) as i64) {
            Some(_) => Some(ObjectGuid { raw }),
            None => None,
        }
    }
}

/// The targets of a spell cast. Locations are read without orientation (zero).
#[derive(Debug, Clone, PartialEq, Eq)]
pub struct SpellCastTargets {
    pub unit_guid: Option<ObjectGuid>,
    pub game_object_guid: Option<ObjectGuid>,
    pub item_guid: Option<ObjectGuid>,
    pub source_position: Option<Position>,
    pub destination_position: Option<Position>,
    pub string: Option<Vec<u8>>,
}

/// The targets as plain values.
pub struct CastTargetsView {
    pub unit_guid: Option<ObjectGuid>,
    pub game_object_guid: Option<ObjectGuid>,
    pub item_guid: Option<ObjectGuid>,
    pub source_position: Option<Position>,
    pub destination_position: Option<Position>,
    pub string: Option<Seq<u8>>,
}

impl SpellCastTargets {
    pub open spec fn view(&self) -> CastTargetsView {
        CastTargetsView {
            unit_guid: self.unit_guid,
            game_object_guid: self.game_object_guid,
            item_guid: self.item_guid,
            source_position: self.source_position,
            destination_position: self.destination_position,
            string: match self.string {
                Some(s) => Some(s@),
                None => None,
            },
        }
    }
}

/// The target kinds that a cast may name; any other bit makes the mask invalid.
pub const VALID_TARGET_BITS: u32 = 0x0001_FFFF;

/// The kinds whose target is a unit (unit, unknown second unit kind).
pub const UNIT_TARGET_BITS: u32 = 0x0001_0002;

/// The kinds whose target is a game object (object, unknown object kind, lock).
pub const GAME_OBJECT_TARGET_BITS: u32 = 0x0000_4880;

/// The kinds whose target is an item (item, traded item).
pub const ITEM_TARGET_BITS: u32 = 0x0000_1010;

/// The kind whose target is a source location.
pub const SOURCE_LOCATION_BIT: u32 = 0x0000_0020;

/// The kind whose target is a destination location.
pub const DEST_LOCATION_BIT: u32 = 0x0000_0040;

/// The kind whose target is a text.
pub const STRING_BIT: u32 = 0x0000_2000;

/// True when bit `i` of `mask` is set.
pub open spec fn mask_bit(mask: u8, i: u8) -> bool {
    (mask >> i) & 1u8 == 1u8
}

/// The eight little-endian bytes of a packed guid whose mask is `mask` and whose
/// present bytes start at `next`, from byte `i` on; and where they end.
pub open spec fn unpacked_bytes(data: Seq<u8>, mask: u8, i: int, next: int) -> (Seq<u8>, int)
    decreases 8 - i,
{
    if i >= 8 || i < 0 {
        (Seq::empty(), next)
    } else if mask_bit(mask, i as u8) {
        let rest = unpacked_bytes(data, mask, i + 1, next + 1);
        (seq![data[next]] + rest.0, rest.1)
    } else {
        let rest = unpacked_bytes(data, mask, i + 1, next);
        (seq![0u8] + rest.0, rest.1)
    }
}

/// An optional packed guid at `pos`, read only when `wanted`: the guid (absent when
/// the data ends first or the guid names no kind of object) and the position after
/// it (the end of the data when it ended first).
pub open spec fn read_opt_guid(data: Seq<u8>, pos: int, wanted: bool) -> (Option<ObjectGuid>, int) {
    if !wanted {
        (None, pos)
    } else if pos >= data.len() {
        (None, data.len() as int)
    } else {
        let u = unpacked_bytes(data, data[pos], 0, pos + 1);
        if u.1 > data.len() {
            (None, data.len() as int)
        } else {
            let raw = from_le_u64(u.0);
            (if spec_valid_guid(raw) { Some(ObjectGuid { raw }) } else { None }, u.1)
        }
    }
}

/// An optional location (three coordinates) at `pos`, read only when `wanted`;
/// `None` when the data ends first.
pub open spec fn read_opt_location(data: Seq<u8>, pos: int, wanted: bool) -> Option<(Option<Position>, int)> {
    if !wanted {
        Some((None, pos))
    } else if pos + 12 <= data.len() {
        Some(
            (
                Some(
                    Position {
                        x: from_le_u32(data.subrange(pos, pos + 4)),
                        y: from_le_u32(data.subrange(pos + 4, pos + 8)),
                        z: from_le_u32(data.subrange(pos + 8, pos + 12)),
                        o: 0,
                    },
                ),
                pos + 12,
            ),
        )
    } else {
        None
    }
}

/// An optional NUL-terminated text at `pos`, read only when `wanted`; absent when
/// the data holds no terminated text there.
pub open spec fn read_opt_string(data: Seq<u8>, pos: int, wanted: bool) -> Option<Seq<u8>> {
    if wanted && exists|s: Seq<u8>| #[trigger] string_at(data, pos, s) {
        Some(choose|s: Seq<u8>| #[trigger] string_at(data, pos, s))
    } else {
        None
    }
}

/// True when `data` holds the NUL-terminated text `s` at `pos`.
pub open spec fn string_at(data: Seq<u8>, pos: int, s: Seq<u8>) -> bool {
    null_string_at(data, pos, s, pos + s.len() + 1)
}

/// The targets read from `data` at `pos`, or `None` when the message cannot be read:
/// it ends inside the mask or inside a location, or the mask has a bit of no kind.
pub open spec fn spec_read_targets(data: Seq<u8>, pos: int) -> Option<CastTargetsView> {
    if pos < 0 || pos + 4 > data.len() {
        None
    } else {
        let mask = from_le_u32(data.subrange(pos, pos + 4));
        if mask & !VALID_TARGET_BITS != 0 {
            None
        } else if mask == 0 {
            Some(
                CastTargetsView {
                    unit_guid: None,
                    game_object_guid: None,
                    item_guid: None,
                    source_position: None,
                    destination_position: None,
                    string: None,
                },
            )
        } else {
            let unit = read_opt_guid(data, pos + 4, mask & UNIT_TARGET_BITS != 0);
            let object = read_opt_guid(data, unit.1, mask & GAME_OBJECT_TARGET_BITS != 0);
            let item = read_opt_guid(data, object.1, mask & ITEM_TARGET_BITS != 0);
            match read_opt_location(data, item.1, mask & SOURCE_LOCATION_BIT != 0) {
                None => None,
                Some(source) => match read_opt_location(data, source.1, mask & DEST_LOCATION_BIT != 0) {
                    None => None,
                    Some(dest) => Some(
                        CastTargetsView {
                            unit_guid: unit.0,
                            game_object_guid: object.0,
                            item_guid: item.0,
                            source_position: source.0,
                            destination_position: dest.0,
                            string: read_opt_string(data, dest.1, mask & STRING_BIT != 0),
                        },
                    ),
                },
            }
        }
    }
}

/// Bit `i` of the mask of eight bytes is set exactly when byte `i` is not zero.
proof fn lemma_mask_bits(b: Seq<u8>)
    requires
        b.len() == 8,
    ensures
        forall|i: int| 0 <= i < 8 ==> mask_bit(nonzero_mask(b, 8) as u8, i as u8) == (#[trigger] b[i] != 0),
{
    reveal_with_fuel(nonzero_mask, 9);
    lemma_mask_bound(b, 8);
    let m = nonzero_mask(b, 8) as u8;
    let c0 = b[0] != 0;
    let c1 = b[1] != 0;
    let c2 = b[2] != 0;
    let c3 = b[3] != 0;
    let c4 = b[4] != 0;
    let c5 = b[5] != 0;
    let c6 = b[6] != 0;
    let c7 = b[7] != 0;
    assert(m == (if c0 { 1u8 } else { 0u8 }) + (if c1 { 2u8 } else { 0u8 }) + (if c2 { 4u8 } else { 0u8 }) + (if c3 {
        8u8
    } else {
        0u8
    }) + (if c4 { 16u8 } else { 0u8 }) + (if c5 { 32u8 } else { 0u8 }) + (if c6 { 64u8 } else { 0u8 }) + (if c7 {
        128u8
    } else {
        0u8
    }));
    assert({
        &&& mask_bit(m, 0u8) == c0
        &&& mask_bit(m, 1u8) == c1
        &&& mask_bit(m, 2u8) == c2
        &&& mask_bit(m, 3u8) == c3
        &&& mask_bit(m, 4u8) == c4
        &&& mask_bit(m, 5u8) == c5
        &&& mask_bit(m, 6u8) == c6
        &&& mask_bit(m, 7u8) == c7
    }) by (bit_vector)
        requires
            m == (if c0 { 1u8 } else { 0u8 }) + (if c1 { 2u8 } else { 0u8 }) + (if c2 { 4u8 } else { 0u8 }) + (if c3 {
                8u8
            } else {
                0u8
            }) + (if c4 { 16u8 } else { 0u8 }) + (if c5 { 32u8 } else { 0u8 }) + (if c6 { 64u8 } else { 0u8 }) + (
            if c7 {
                128u8
            } else {
                0u8
            }),
    ;
}

/// The kept bytes of a prefix are a prefix of the kept bytes of the whole.
proof fn lemma_nonzero_bytes_prefix(b: Seq<u8>, i: int)
    requires
        0 <= i <= b.len(),
    ensures
        nonzero_bytes(b.subrange(0, i)).len() <= nonzero_bytes(b).len(),
        nonzero_bytes(b) == nonzero_bytes(b.subrange(0, i)) + nonzero_bytes(b).subrange(
            nonzero_bytes(b.subrange(0, i)).len() as int,
            nonzero_bytes(b).len() as int,
        ),
    decreases b.len() - i,
{
    if i == b.len() {
        assert(b.subrange(0, i) =~= b);
        assert(nonzero_bytes(b) =~= nonzero_bytes(b) + nonzero_bytes(b).subrange(
            nonzero_bytes(b).len() as int,
            nonzero_bytes(b).len() as int,
        ));
    } else {
        lemma_nonzero_bytes_prefix(b, i + 1);
        let p = b.subrange(0, i);
        let q = b.subrange(0, i + 1);
        assert(q.drop_last() =~= p);
        let np = nonzero_bytes(p);
        let nq = nonzero_bytes(q);
        let nb = nonzero_bytes(b);
        assert(nb =~= np + nb.subrange(np.len() as int, nb.len() as int)) by {
            assert forall|k: int| 0 <= k < np.len() implies nb[k] == np[k] by {
                assert(nq[k] == np[k]);
                assert(nb[k] == nq[k]);
            }
        }
    }
}

/// Unpacking the image of a packed guid gives back its eight bytes, from byte `i` on.
proof fn lemma_unpack_image(b: Seq<u8>, rest: Seq<u8>, i: int)
    requires
        b.len() == 8,
        0 <= i <= 8,
    ensures
        ({
            let data = seq![nonzero_mask(b, 8) as u8] + nonzero_bytes(b) + rest;
            let u = unpacked_bytes(data, nonzero_mask(b, 8) as u8, i, 1int + nonzero_bytes(b.subrange(0, i)).len());
            &&& u.0 == b.subrange(i, 8)
            &&& u.1 == 1 + nonzero_bytes(b).len()
        }),
    decreases 8 - i,
{
    let m = nonzero_mask(b, 8) as u8;
    let data = seq![m] + nonzero_bytes(b) + rest;
    if i == 8 {
        assert(b.subrange(0, 8) =~= b);
        assert(b.subrange(8, 8) =~= Seq::<u8>::empty());
    } else {
        lemma_unpack_image(b, rest, i + 1);
        lemma_mask_bits(b);
        let p = b.subrange(0, i);
        let q = b.subrange(0, i + 1);
        assert(q.drop_last() =~= p);
        let next = 1int + nonzero_bytes(p).len();
        assert(b.subrange(i, 8) =~= seq![b[i]] + b.subrange(i + 1, 8));
        if b[i] != 0 {
            assert(mask_bit(m, i as u8));
            lemma_nonzero_bytes_prefix(b, i + 1);
            assert(nonzero_bytes(q) == nonzero_bytes(p).push(b[i]));
            assert(nonzero_bytes(b)[nonzero_bytes(p).len() as int] == nonzero_bytes(q)[nonzero_bytes(p).len() as int]);
            assert(data[next] == b[i]);
        } else {
            assert(!mask_bit(m, i as u8));
            assert(nonzero_bytes(q) == nonzero_bytes(p));
        }
    }
}

/// A packed guid read back from its image (followed by anything) is the same guid
/// (absent when it names no kind of object), and the reading ends right after the
/// image.
pub proof fn lemma_packed_guid_roundtrip(g: PackedObjectGuid, rest: Seq<u8>)
    ensures
        ({
            let data = g.spec_encode() + rest;
            let u = unpacked_bytes(data, data[0], 0, 1);
            &&& u.1 == g.spec_encode().len()
            &&& from_le_u64(u.0) == g.raw
            &&& read_opt_guid(data, 0, true).1 == g.spec_encode().len()
            &&& read_opt_guid(data, 0, true).0 == if spec_valid_guid(g.raw) {
                Some(ObjectGuid { raw: g.raw })
            } else {
                None
            }
        }),
{
    let b = le_u64(g.raw);
    lemma_le_u64_roundtrip(g.raw);
    lemma_unpack_image(b, rest, 0);
    let data = g.spec_encode() + rest;
    assert(data =~= seq![nonzero_mask(b, 8) as u8] + nonzero_bytes(b) + rest);
    assert(b.subrange(0, 0) =~= Seq::<u8>::empty());
    assert(b.subrange(0, 8) =~= b);
}

/// Reads the eight bytes of a packed guid, from bit `i` of the mask on.
fn read_unpacked(data: &[u8], mask: u8, next: usize) -> (r: Option<(Vec<u8>, usize)>)
    requires
        next <= data@.len(),
    ensures
        match r {
            Some((bytes, end)) => {
                &&& unpacked_bytes(data@, mask, 0, next as int).1 <= data@.len()
                &&& bytes@ == unpacked_bytes(data@, mask, 0, next as int).0
                &&& end == unpacked_bytes(data@, mask, 0, next as int).1
            },
            None => unpacked_bytes(data@, mask, 0, next as int).1 > data@.len(),
        },
{
    let mut bytes: Vec<u8> = Vec::new();
    let mut i: u8 = 0;
    let mut pos: usize = next;
    proof {
        lemma_unpacked_end_grows(data@, mask, 0, next as int);
        assert(bytes@ + unpacked_bytes(data@, mask, 0, next as int).0 =~= unpacked_bytes(data@, mask, 0, next as int).0);
    }
    while i < 8
        invariant
            i <= 8,
            next <= pos <= data@.len(),
            unpacked_bytes(data@, mask, 0, next as int).0 == bytes@ + unpacked_bytes(
                data@,
                mask,
                i as int,
                pos as int,
            ).0,
            unpacked_bytes(data@, mask, 0, next as int).1 == unpacked_bytes(data@, mask, i as int, pos as int).1,
            unpacked_bytes(data@, mask, i as int, pos as int).1 >= pos,
        decreases 8 - i,
    {
        proof {
            lemma_unpacked_end_grows(data@, mask, (i + 1) as int, pos as int + 1);
            lemma_unpacked_end_grows(data@, mask, (i + 1) as int, pos as int);
        }
        if (mask >> i) & 1u8 == 1u8 {
            if pos >= data.len() {
                return None;
            }
            let b = data[pos];
            bytes.push(b);
            proof {
                let rest = unpacked_bytes(data@, mask, i + 1, pos + 1);
                assert(unpacked_bytes(data@, mask, i as int, pos as int).0 == seq![b] + rest.0);
                assert(bytes@ + rest.0 =~= bytes@.drop_last() + (seq![b] + rest.0));
            }
            pos = pos + 1;
        } else {
            bytes.push(0u8);
            proof {
                let rest = unpacked_bytes(data@, mask, i + 1, pos as int);
                assert(bytes@ + rest.0 =~= bytes@.drop_last() + (seq![0u8] + rest.0));
            }
        }
        i = i + 1;
    }
    assert(bytes@ + Seq::<u8>::empty() =~= bytes@);
    Some((bytes, pos))
}

/// The end of a packed guid's bytes is never before where they start.
proof fn lemma_unpacked_end_grows(data: Seq<u8>, mask: u8, i: int, next: int)
    ensures
        unpacked_bytes(data, mask, i, next).1 >= next,
        unpacked_bytes(data, mask, i, next).0.len() == if 0 <= i < 8 {
            8 - i
        } else {
            0
        },
    decreases 8 - i,
{
    if 0 <= i < 8 {
        lemma_unpacked_end_grows(data, mask, i + 1, next + 1);
        lemma_unpacked_end_grows(data, mask, i + 1, next);
    }
}

/// Reads an optional packed guid.
fn read_guid_at(data: &[u8], pos: usize, wanted: bool) -> (r: (Option<ObjectGuid>, usize))
    requires
        pos <= data@.len(),
    ensures
        r.0 == read_opt_guid(data@, pos as int, wanted).0,
        r.1 == read_opt_guid(data@, pos as int, wanted).1,
        r.1 <= data@.len(),
{
    if !wanted {
        return (None, pos);
    }
    if pos >= data.len() {
        return (None, data.len());
    }
    let mask = data[pos];
    proof {
        lemma_unpacked_end_grows(data@, mask, 0, pos + 1);
    }
    match read_unpacked(data, mask, pos + 1) {
        None => (None, data.len()),
        Some((bytes, end)) => {
            let raw = get_u64_le(bytes.as_slice(), 0);
            assert(bytes@.subrange(0, 8) =~= bytes@);
            (ObjectGuid::from_raw(raw), end)
        },
    }
}

/// Reads an optional location.
fn read_location_at(data: &[u8], pos: usize, wanted: bool) -> (r: Option<(Option<Position>, usize)>)
    requires
        pos <= data@.len(),
    ensures
        match r {
            Some((p, next)) => read_opt_location(data@, pos as int, wanted) == Some((p, next as int))
                && next <= data@.len(),
            None => read_opt_location(data@, pos as int, wanted) is None,
        },
{
    if !wanted {
        return Some((None, pos));
    }
    if data.len() - pos < 12 {
        return None;
    }
    let p = Position { x: get_u32_le(data, pos), y: get_u32_le(data, pos + 4), z: get_u32_le(data, pos + 8), o: 0 };
    Some((Some(p), pos + 12))
}

/// True unless the target mask at `pos` is there and has a bit outside the known
/// target kinds.
pub open spec fn spec_target_mask_known(data: Seq<u8>, pos: int) -> bool {
    pos + 4 <= data.len() ==> from_le_u32(data.subrange(pos, pos + 4)) & !VALID_TARGET_BITS == 0
}

/// Whether the target mask at `pos`, when there is one, has only known target kinds.
/// A caller tests it before `read_cast_targets`.
pub fn target_mask_known(data: &[u8], pos: usize) -> (r: bool)
    requires
        pos <= data@.len(),
    ensures
        r == spec_target_mask_known(data@, pos as int),
{
    if data.len() - pos < 4 {
        return true;
    }
    get_u32_le(data, pos) & !VALID_TARGET_BITS == 0
}

/// Reads the targets of a spell cast starting at `pos`, whose target mask holds only
/// known target kinds.
pub fn read_cast_targets(data: &[u8], pos: usize) -> (r: Result<SpellCastTargets, ReadError>)
    requires
        pos <= data@.len(),
        spec_target_mask_known(data@, pos as int),
    ensures
        match r {
            Ok(t) => spec_read_targets(data@, pos as int) == Some(t.view()),
            Err(_) => spec_read_targets(data@, pos as int) is None,
        },
{
    if data.len() - pos < 4 {
        return Err(ReadError::UnexpectedEnd);
    }
    let mask = get_u32_le(data, pos);
    if mask == 0 {
        return Ok(
            SpellCastTargets {
                unit_guid: None,
                game_object_guid: None,
                item_guid: None,
                source_position: None,
                destination_position: None,
                string: None,
            },
        );
    }
    let (unit_guid, p1) = read_guid_at(data, pos + 4, mask & UNIT_TARGET_BITS != 0);
    let (game_object_guid, p2) = read_guid_at(data, p1, mask & GAME_OBJECT_TARGET_BITS != 0);
    let (item_guid, p3) = read_guid_at(data, p2, mask & ITEM_TARGET_BITS != 0);
    let (source_position, p4) = match read_location_at(data, p3, mask & SOURCE_LOCATION_BIT != 0) {
        Some(found) => found,
        None => {
            return Err(ReadError::UnexpectedEnd);
        },
    };
    let (destination_position, p5) = match read_location_at(data, p4, mask & DEST_LOCATION_BIT != 0) {
        Some(found) => found,
        None => {
            return Err(ReadError::UnexpectedEnd);
        },
    };
    let string = if mask & STRING_BIT != 0 {
        match get_null_string(data, p5) {
            Some((s, next)) => {
                proof {
                    assert(string_at(data@, p5 as int, s@));
                    let c = choose|t: Seq<u8>| #[trigger] string_at(data@, p5 as int, t);
                    lemma_null_string_unique(data@, p5 as int, c, p5 + c.len() + 1, s@, next as int);
                }
                Some(s)
            },
            None => {
                proof {
                    assert forall|t: Seq<u8>| !#[trigger] string_at(data@, p5 as int, t) by {}
                }
                None
            },
        }
    } else {
        None
    };
    let t = SpellCastTargets { unit_guid, game_object_guid, item_guid, source_position, destination_position, string };
    Ok(t)
}

/// What using an item comes to.
#[derive(Debug, PartialEq, Eq)]
pub enum UseItemAction {
    /// The player has no such item, or the item has no template: nothing happens.
    Ignore,
    /// A ranged spell is being cast already: the cast fails with this answer.
    CastFailed(SmsgCastFailed),
    /// The item's first spell starts being cast.
    StartCast { spell_id: u32 },
}

/// Decides the use of an item whose template's first spell is `spell_id` (none
/// when the player has no such item or the item has no template), while a ranged
/// spell is or is not being cast, with the client's cast counter `cast_count`.
pub fn use_item_action(spell_id: Option<u32>, ranged_in_progress: bool, cast_count: u8) -> (r: UseItemAction)
    ensures
        r == (match spell_id {
            None => UseItemAction::Ignore,
            Some(id) => if ranged_in_progress {
                UseItemAction::CastFailed(SmsgCastFailed { spell_id: id, result: SpellFailReason::SpellInProgress, cast_count })
            } else {
                UseItemAction::StartCast { spell_id: id }
            },
        }),
{
    match spell_id {
        None => UseItemAction::Ignore,
        Some(id) => if ranged_in_progress {
            UseItemAction::CastFailed(SmsgCastFailed { spell_id: id, result: SpellFailReason::SpellInProgress, cast_count })
        } else {
            UseItemAction::StartCast { spell_id: id }
        },
    }
}

/// Unpacking a packed guid does not depend on what comes before it: behind a
/// prefix, the same bytes are read and the end moves by the prefix's length.
proof fn lemma_unpacked_shift(p: Seq<u8>, d: Seq<u8>, mask: u8, i: int, next: int)
    requires
        0 <= next,
        unpacked_bytes(d, mask, i, next).1 <= d.len(),
    ensures
        unpacked_bytes(d, mask, i, next).1 >= next,
        unpacked_bytes(p + d, mask, i, next + p.len()) == (
            unpacked_bytes(d, mask, i, next).0,
            unpacked_bytes(d, mask, i, next).1 + p.len(),
        ),
    decreases 8 - i,
{
    if i >= 8 || i < 0 {
    } else if mask_bit(mask, i as u8) {
        lemma_unpacked_shift(p, d, mask, i + 1, next + 1);
        assert((p + d)[next + p.len()] == d[next]);
    } else {
        lemma_unpacked_shift(p, d, mask, i + 1, next);
    }
}

/// A packed guid read behind a prefix reads as it does on its own.
proof fn lemma_guid_behind_prefix(p: Seq<u8>, g: PackedObjectGuid, rest: Seq<u8>)
    ensures
        read_opt_guid(p + g.spec_encode() + rest, p.len() as int, true) == (
            if spec_valid_guid(g.raw) {
                Some(ObjectGuid { raw: g.raw })
            } else {
                None::<ObjectGuid>
            },
            (p.len() + g.spec_encode().len()) as int,
        ),
{
    let d = g.spec_encode() + rest;
    lemma_packed_guid_roundtrip(g, rest);
    let u = unpacked_bytes(d, d[0], 0, 1);
    lemma_unpacked_shift(p, d, d[0], 0, 1);
    let data = p + g.spec_encode() + rest;
    assert(data =~= p + d);
    assert(data[p.len() as int] == d[0]);
}

/// The reading of a cast whose mask is `m`, followed by one packed guid `g`.
pub open spec fn spec_single_guid_cast(m: u32, g: PackedObjectGuid, rest: Seq<u8>) -> Option<CastTargetsView> {
    spec_read_targets(le_u32(m) + g.spec_encode() + rest, 0)
}

/// The guid `g` names, when it names a kind of object.
pub open spec fn spec_named_guid(g: PackedObjectGuid) -> Option<ObjectGuid> {
    if spec_valid_guid(g.raw) {
        Some(ObjectGuid { raw: g.raw })
    } else {
        None
    }
}

/// The mask read at the start of `le_u32(m) + tail` is `m`.
proof fn lemma_mask_read_back(m: u32, tail: Seq<u8>)
    ensures
        (le_u32(m) + tail).len() >= 4,
        from_le_u32((le_u32(m) + tail).subrange(0, 4)) == m,
{
    lemma_le_u32_roundtrip(m);
    assert((le_u32(m) + tail).subrange(0, 4) =~= le_u32(m));
}

/// A cast whose mask names only item targets reads the guid that follows as the
/// item target, and no unit, game object, location or text.
pub proof fn lemma_item_mask_reads_item_guid(m: u32, g: PackedObjectGuid, rest: Seq<u8>)
    requires
        m != 0,
        m & !ITEM_TARGET_BITS == 0,
    ensures
        spec_single_guid_cast(m, g, rest) matches Some(t) && t.item_guid == spec_named_guid(g)
            && t.game_object_guid is None && t.unit_guid is None && t.source_position is None
            && t.destination_position is None && t.string is None,
{
    let data = le_u32(m) + g.spec_encode() + rest;
    lemma_mask_read_back(m, g.spec_encode() + rest);
    assert(data =~= le_u32(m) + (g.spec_encode() + rest));
    lemma_guid_behind_prefix(le_u32(m), g, rest);
    assert(m & !0x0001_FFFFu32 == 0 && m & 0x0001_0002u32 == 0 && m & 0x0000_4880u32 == 0 && m & 0x0000_1010u32 != 0
        && m & 0x20u32 == 0 && m & 0x40u32 == 0 && m & 0x2000u32 == 0) by (bit_vector)
        requires
            m != 0,
            m & !0x0000_1010u32 == 0,
    ;
}

/// A cast whose mask names only game object targets reads the guid that follows as
/// the game object target, and no unit, item, location or text.
pub proof fn lemma_game_object_mask_reads_game_object_guid(m: u32, g: PackedObjectGuid, rest: Seq<u8>)
    requires
        m != 0,
        m & !GAME_OBJECT_TARGET_BITS == 0,
    ensures
        spec_single_guid_cast(m, g, rest) matches Some(t) && t.game_object_guid == spec_named_guid(g)
            && t.item_guid is None && t.unit_guid is None && t.source_position is None
            && t.destination_position is None && t.string is None,
{
    let data = le_u32(m) + g.spec_encode() + rest;
    lemma_mask_read_back(m, g.spec_encode() + rest);
    assert(data =~= le_u32(m) + (g.spec_encode() + rest));
    lemma_guid_behind_prefix(le_u32(m), g, rest);
    assert(m & !0x0001_FFFFu32 == 0 && m & 0x0001_0002u32 == 0 && m & 0x0000_4880u32 != 0 && m & 0x0000_1010u32 == 0
        && m & 0x20u32 == 0 && m & 0x40u32 == 0 && m & 0x2000u32 == 0) by (bit_vector)
        requires
            m != 0,
            m & !0x0000_4880u32 == 0,
    ;
}

/// A cast whose mask names only unit targets reads the guid that follows as the
/// unit target, and no game object, item, location or text.
pub proof fn lemma_unit_mask_reads_unit_guid(m: u32, g: PackedObjectGuid, rest: Seq<u8>)
    requires
        m != 0,
        m & !UNIT_TARGET_BITS == 0,
    ensures
        spec_single_guid_cast(m, g, rest) matches Some(t) && t.unit_guid == spec_named_guid(g)
            && t.item_guid is None && t.game_object_guid is None && t.source_position is None
            && t.destination_position is None && t.string is None,
{
    let data = le_u32(m) + g.spec_encode() + rest;
    lemma_mask_read_back(m, g.spec_encode() + rest);
    assert(data =~= le_u32(m) + (g.spec_encode() + rest));
    lemma_guid_behind_prefix(le_u32(m), g, rest);
    assert(m & !0x0001_FFFFu32 == 0 && m & 0x0001_0002u32 != 0 && m & 0x0000_4880u32 == 0 && m & 0x0000_1010u32 == 0
        && m & 0x20u32 == 0 && m & 0x40u32 == 0 && m & 0x2000u32 == 0) by (bit_vector)
        requires
            m != 0,
            m & !0x0001_0002u32 == 0,
    ;
}

/// A cast whose mask names only a source location, a destination location or both
/// reads the three words that follow (each location in turn, source first) as those
/// locations, with no orientation, and no guid or text.
pub proof fn lemma_location_mask_reads_locations(m: u32, first: Position, second: Position, rest: Seq<u8>)
    requires
        m != 0,
        m & !(SOURCE_LOCATION_BIT | DEST_LOCATION_BIT) == 0,
        first.o == 0,
        second.o == 0,
    ensures
        ({
            let image = |p: Position| le_u32(p.x) + le_u32(p.y) + le_u32(p.z);
            let data = le_u32(m) + image(first) + image(second) + rest;
            let has_source = m & SOURCE_LOCATION_BIT != 0;
            let has_dest = m & DEST_LOCATION_BIT != 0;
            spec_read_targets(data, 0) matches Some(t) && t.unit_guid is None && t.game_object_guid is None
                && t.item_guid is None && t.string is None && t.source_position == (if has_source {
                Some(first)
            } else {
                None
            }) && t.destination_position == (if has_dest {
                if has_source {
                    Some(second)
                } else {
                    Some(first)
                }
            } else {
                None
            })
        }),
{
    let image = |p: Position| le_u32(p.x) + le_u32(p.y) + le_u32(p.z);
    let data = le_u32(m) + image(first) + image(second) + rest;
    lemma_mask_read_back(m, image(first) + image(second) + rest);
    assert(data =~= le_u32(m) + (image(first) + image(second) + rest));
    lemma_le_u32_roundtrip(first.x);
    lemma_le_u32_roundtrip(first.y);
    lemma_le_u32_roundtrip(first.z);
    lemma_le_u32_roundtrip(second.x);
    lemma_le_u32_roundtrip(second.y);
    lemma_le_u32_roundtrip(second.z);
    assert(data.subrange(4, 8) =~= le_u32(first.x));
    assert(data.subrange(8, 12) =~= le_u32(first.y));
    assert(data.subrange(12, 16) =~= le_u32(first.z));
    assert(data.subrange(16, 20) =~= le_u32(second.x));
    assert(data.subrange(20, 24) =~= le_u32(second.y));
    assert(data.subrange(24, 28) =~= le_u32(second.z));
    assert(m & !0x0001_FFFFu32 == 0 && m & 0x0001_0002u32 == 0 && m & 0x0000_4880u32 == 0 && m & 0x0000_1010u32 == 0
        && m & 0x2000u32 == 0 && (m & 0x20u32 != 0 || m & 0x40u32 != 0)) by (bit_vector)
        requires
            m != 0,
            m & !(0x20u32 | 0x40u32) == 0,
    ;
}

} // verus!
