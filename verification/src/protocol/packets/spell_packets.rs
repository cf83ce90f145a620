//! Spell casting messages.
use crate::codec::{ClientPayload, ReadError, WireEncode};
use crate::constants::{SpellFailReason};
use crate::entities::{ObjectGuid, PackedObjectGuid};
use crate::protocol::server::ServerMessagePayload;
use crate::wire::{lemma_le_u32_roundtrip, from_le_u32, from_le_u64, get_u32_le, le_u32, le_u64, lemma_le_u64_roundtrip, put_u8};
use crate::spell_targets::{SpellCastTargets, read_cast_targets, spec_read_targets, target_mask_known};
use vstd::prelude::*;

verus! {

#[derive(Debug, PartialEq, Eq)]
pub struct SmsgSpellStart {
    /// Can be an item for example
    pub caster_entity_guid: PackedObjectGuid,
    pub caster_unit_guid: PackedObjectGuid,
    pub spell_id: u32,
    pub cast_id: u8,
    pub cast_flags: u16,
    /// cast time in milliseconds
    pub cast_time_ms: u32,
    /// 0 for now
    pub target_flags: u32,
}

impl WireEncode for SmsgSpellStart {
    open spec fn spec_encode(&self) -> Seq<u8> {
        self.caster_entity_guid.spec_encode() + self.caster_unit_guid.spec_encode() + self.spell_id.spec_encode() + self.cast_id.spec_encode() + self.cast_flags.spec_encode() + self.cast_time_ms.spec_encode() + self.target_flags.spec_encode()
    }

    fn encode_into(&self, out: &mut Vec<u8>) {
        self.caster_entity_guid.encode_into(out);
        self.caster_unit_guid.encode_into(out);
        self.spell_id.encode_into(out);
        self.cast_id.encode_into(out);
        self.cast_flags.encode_into(out);
        self.cast_time_ms.encode_into(out);
        self.target_flags.encode_into(out);
        assert(out@ =~= old(out)@ + self.spec_encode());
    }
}

impl ServerMessagePayload for SmsgSpellStart {}

#[derive(Debug, PartialEq, Eq)]
pub struct SmsgSpellGo {
    /// Can be an item for example
    pub caster_entity_guid: PackedObjectGuid,
    pub caster_unit_guid: PackedObjectGuid,
    pub spell_id: u32,
    pub cast_flags: u16,
    pub timestamp: u32,
    pub target_count: u8,
}

impl WireEncode for SmsgSpellGo {
    open spec fn spec_encode(&self) -> Seq<u8> {
        self.caster_entity_guid.spec_encode() + self.caster_unit_guid.spec_encode() + self.spell_id.spec_encode() + self.cast_flags.spec_encode() + self.timestamp.spec_encode() + self.target_count.spec_encode()
    }

    fn encode_into(&self, out: &mut Vec<u8>) {
        self.caster_entity_guid.encode_into(out);
        self.caster_unit_guid.encode_into(out);
        self.spell_id.encode_into(out);
        self.cast_flags.encode_into(out);
        self.timestamp.encode_into(out);
        self.target_count.encode_into(out);
        assert(out@ =~= old(out)@ + self.spec_encode());
    }
}

impl ServerMessagePayload for SmsgSpellGo {}

#[derive(Debug, PartialEq, Eq)]
pub struct SmsgCastFailed {
    pub spell_id: u32,
    pub result: SpellFailReason,
    pub cast_count: u8,
}

impl WireEncode for SmsgCastFailed {
    open spec fn spec_encode(&self) -> Seq<u8> {
        self.spell_id.spec_encode() + seq![self.result.spec_value() as u8] + self.cast_count.spec_encode()
    }

    fn encode_into(&self, out: &mut Vec<u8>) {
        self.spell_id.encode_into(out);
        put_u8(out, self.result.value() as u8);
        self.cast_count.encode_into(out);
        assert(out@ =~= old(out)@ + self.spec_encode());
    }
}

impl ServerMessagePayload for SmsgCastFailed {}

#[derive(Debug, PartialEq, Eq)]
pub struct CmsgCancelCast {
    pub spell_id: u32,
}

impl ClientPayload for CmsgCancelCast {
    open spec fn spec_accepts(data: Seq<u8>) -> bool {
        data.len() >= 4
    }

    open spec fn spec_reads_as(data: Seq<u8>, v: Self) -> bool {
        v == CmsgCancelCast { spell_id: from_le_u32(data.subrange(0, 4)) }
    }

    fn read(data: &[u8]) -> (r: Result<Self, ReadError>) {
        if data.len() < 4 {
            return Err(ReadError::UnexpectedEnd);
        }
        Ok(CmsgCancelCast { spell_id: get_u32_le(data, 0) })
    }
}

/// Reading the bytes of a `CmsgCancelCast` (its fields in order, little-endian) gives it
/// back: each field is read from its own bytes.
pub proof fn lemma_cmsg_cancel_cast_reads_back(v: CmsgCancelCast)
    ensures
        CmsgCancelCast::spec_accepts(le_u32(v.spell_id)),
        CmsgCancelCast::spec_reads_as(le_u32(v.spell_id), v),
{
    let data = le_u32(v.spell_id);
    lemma_le_u32_roundtrip(v.spell_id);
    assert(data.subrange(0, 4) =~= le_u32(v.spell_id));
}

/// A spell known at login.
#[derive(Debug, PartialEq, Eq)]
pub struct InitialSpell {
    pub spell_id: u16,
    /// 0
    pub unk: u16,
}

impl WireEncode for InitialSpell {
    open spec fn spec_encode(&self) -> Seq<u8> {
        self.spell_id.spec_encode() + self.unk.spec_encode()
    }

    fn encode_into(&self, out: &mut Vec<u8>) {
        self.spell_id.encode_into(out);
        self.unk.encode_into(out);
        assert(out@ =~= old(out)@ + self.spec_encode());
    }
}

/// A cooldown running at login.
#[derive(Debug, PartialEq, Eq)]
pub struct InitialSpellCooldown {
    pub spell_id: u16,
    pub cast_item_id: u16,
    pub spell_category: u16,
    pub cooldown_millis: u32,
    pub category_cooldown: u32,
}

impl WireEncode for InitialSpellCooldown {
    open spec fn spec_encode(&self) -> Seq<u8> {
        self.spell_id.spec_encode() + self.cast_item_id.spec_encode() + self.spell_category.spec_encode() + self.cooldown_millis.spec_encode() + self.category_cooldown.spec_encode()
    }

    fn encode_into(&self, out: &mut Vec<u8>) {
        self.spell_id.encode_into(out);
        self.cast_item_id.encode_into(out);
        self.spell_category.encode_into(out);
        self.cooldown_millis.encode_into(out);
        self.category_cooldown.encode_into(out);
        assert(out@ =~= old(out)@ + self.spec_encode());
    }
}

#[derive(Debug, PartialEq, Eq)]
pub struct SmsgInitialSpells {
    /// 0
    pub unk: u8,
    pub spell_count: u16,
    pub spells: Vec<InitialSpell>,
    pub cooldown_count: u16,
    pub cooldowns: Vec<InitialSpellCooldown>,
}

impl WireEncode for SmsgInitialSpells {
    open spec fn spec_encode(&self) -> Seq<u8> {
        self.unk.spec_encode() + self.spell_count.spec_encode() + self.spells.spec_encode() + self.cooldown_count.spec_encode() + self.cooldowns.spec_encode()
    }

    fn encode_into(&self, out: &mut Vec<u8>) {
        self.unk.encode_into(out);
        self.spell_count.encode_into(out);
        self.spells.encode_into(out);
        self.cooldown_count.encode_into(out);
        self.cooldowns.encode_into(out);
        assert(out@ =~= old(out)@ + self.spec_encode());
    }
}

impl ServerMessagePayload for SmsgInitialSpells {}

#[derive(Debug, PartialEq, Eq)]
pub struct SmsgSpellCooldown {
    pub guid: ObjectGuid,
    pub flags: u8,
    pub cooldowns: Vec<ClientSpellCooldown>,
}

impl WireEncode for SmsgSpellCooldown {
    open spec fn spec_encode(&self) -> Seq<u8> {
        self.guid.spec_encode() + self.flags.spec_encode() + self.cooldowns.spec_encode()
    }

    fn encode_into(&self, out: &mut Vec<u8>) {
        self.guid.encode_into(out);
        self.flags.encode_into(out);
        self.cooldowns.encode_into(out);
        assert(out@ =~= old(out)@ + self.spec_encode());
    }
}

impl ServerMessagePayload for SmsgSpellCooldown {}

/// A spell cooldown sent to the client.
#[derive(Debug, PartialEq, Eq)]
pub struct ClientSpellCooldown {
    pub spell_id: u32,
    pub cooldown_ms: u32,
}

impl WireEncode for ClientSpellCooldown {
    open spec fn spec_encode(&self) -> Seq<u8> {
        self.spell_id.spec_encode() + self.cooldown_ms.spec_encode()
    }

    fn encode_into(&self, out: &mut Vec<u8>) {
        self.spell_id.encode_into(out);
        self.cooldown_ms.encode_into(out);
        assert(out@ =~= old(out)@ + self.spec_encode());
    }
}

/// The bytes of a `ClientSpellCooldown` hold its fields in declaration order, little-endian:
/// each field reads back from its own place.
pub proof fn lemma_client_spell_cooldown_image_fields(v: ClientSpellCooldown)
    ensures
        v.spec_encode().len() == 8,
        from_le_u32(v.spec_encode().subrange(0, 4)) == v.spell_id,
        from_le_u32(v.spec_encode().subrange(4, 8)) == v.cooldown_ms,
{
    let data = v.spec_encode();
    lemma_le_u32_roundtrip(v.spell_id);
    assert(data.subrange(0, 4) =~= le_u32(v.spell_id));
    lemma_le_u32_roundtrip(v.cooldown_ms);
    assert(data.subrange(4, 8) =~= le_u32(v.cooldown_ms));
}

#[derive(Debug, PartialEq, Eq)]
pub struct SmsgPlaySpellVisual {
    pub caster_guid: ObjectGuid,
    pub spell_art_kit: u32,
}

impl WireEncode for SmsgPlaySpellVisual {
    open spec fn spec_encode(&self) -> Seq<u8> {
        self.caster_guid.spec_encode() + self.spell_art_kit.spec_encode()
    }

    fn encode_into(&self, out: &mut Vec<u8>) {
        self.caster_guid.encode_into(out);
        self.spell_art_kit.encode_into(out);
        assert(out@ =~= old(out)@ + self.spec_encode());
    }
}

impl ServerMessagePayload for SmsgPlaySpellVisual {}

/// The bytes of a `SmsgPlaySpellVisual` hold its fields in declaration order, little-endian:
/// each field reads back from its own place.
pub proof fn lemma_smsg_play_spell_visual_image_fields(v: SmsgPlaySpellVisual)
    ensures
        v.spec_encode().len() == 12,
        from_le_u64(v.spec_encode().subrange(0, 8)) == v.caster_guid.raw,
        from_le_u32(v.spec_encode().subrange(8, 12)) == v.spell_art_kit,
{
    let data = v.spec_encode();
    lemma_le_u64_roundtrip(v.caster_guid.raw);
    assert(data.subrange(0, 8) =~= le_u64(v.caster_guid.raw));
    lemma_le_u32_roundtrip(v.spell_art_kit);
    assert(data.subrange(8, 12) =~= le_u32(v.spell_art_kit));
}

#[derive(Debug, PartialEq, Eq)]
pub struct SmsgPlaySpellImpact {
    pub caster_guid: ObjectGuid,
    pub spell_art_kit: u32,
}

impl WireEncode for SmsgPlaySpellImpact {
    open spec fn spec_encode(&self) -> Seq<u8> {
        self.caster_guid.spec_encode() + self.spell_art_kit.spec_encode()
    }

    fn encode_into(&self, out: &mut Vec<u8>) {
        self.caster_guid.encode_into(out);
        self.spell_art_kit.encode_into(out);
        assert(out@ =~= old(out)@ + self.spec_encode());
    }
}

impl ServerMessagePayload for SmsgPlaySpellImpact {}

/// The bytes of a `SmsgPlaySpellImpact` hold its fields in declaration order, little-endian:
/// each field reads back from its own place.
pub proof fn lemma_smsg_play_spell_impact_image_fields(v: SmsgPlaySpellImpact)
    ensures
        v.spec_encode().len() == 12,
        from_le_u64(v.spec_encode().subrange(0, 8)) == v.caster_guid.raw,
        from_le_u32(v.spec_encode().subrange(8, 12)) == v.spell_art_kit,
{
    let data = v.spec_encode();
    lemma_le_u64_roundtrip(v.caster_guid.raw);
    assert(data.subrange(0, 8) =~= le_u64(v.caster_guid.raw));
    lemma_le_u32_roundtrip(v.spell_art_kit);
    assert(data.subrange(8, 12) =~= le_u32(v.spell_art_kit));
}

#[derive(Debug, PartialEq, Eq)]
pub struct SmsgLearnedSpell {
    pub spell_id: u32,
}

impl WireEncode for SmsgLearnedSpell {
    open spec fn spec_encode(&self) -> Seq<u8> {
        self.spell_id.spec_encode()
    }

    fn encode_into(&self, out: &mut Vec<u8>) {
        self.spell_id.encode_into(out);
        assert(out@ =~= old(out)@ + self.spec_encode());
    }
}

impl ServerMessagePayload for SmsgLearnedSpell {}

/// The bytes of a `SmsgLearnedSpell` hold its fields in declaration order, little-endian:
/// each field reads back from its own place.
pub proof fn lemma_smsg_learned_spell_image_fields(v: SmsgLearnedSpell)
    ensures
        v.spec_encode().len() == 4,
        from_le_u32(v.spec_encode().subrange(0, 4)) == v.spell_id,
{
    let data = v.spec_encode();
    lemma_le_u32_roundtrip(v.spell_id);
    assert(data.subrange(0, 4) =~= le_u32(v.spell_id));
}

#[derive(Debug, PartialEq, Eq)]
pub struct SmsgUpdateAuraDuration {
    pub slot: u8,
    pub duration_ms: u32,
}

impl WireEncode for SmsgUpdateAuraDuration {
    open spec fn spec_encode(&self) -> Seq<u8> {
        self.slot.spec_encode() + self.duration_ms.spec_encode()
    }

    fn encode_into(&self, out: &mut Vec<u8>) {
        self.slot.encode_into(out);
        self.duration_ms.encode_into(out);
        assert(out@ =~= old(out)@ + self.spec_encode());
    }
}

impl ServerMessagePayload for SmsgUpdateAuraDuration {}

/// The bytes of a `SmsgUpdateAuraDuration` hold its fields in declaration order, little-endian:
/// each field reads back from its own place.
pub proof fn lemma_smsg_update_aura_duration_image_fields(v: SmsgUpdateAuraDuration)
    ensures
        v.spec_encode().len() == 5,
        v.spec_encode()[0] == v.slot,
        from_le_u32(v.spec_encode().subrange(1, 5)) == v.duration_ms,
{
    let data = v.spec_encode();
    lemma_le_u32_roundtrip(v.duration_ms);
    assert(data.subrange(1, 5) =~= le_u32(v.duration_ms));
}

#[derive(Debug, PartialEq, Eq)]
pub struct SmsgSetExtraAuraInfo {
    pub target_guid: PackedObjectGuid,
    pub slot: u8,
    pub spell_id: u32,
    pub max_duration_ms: u32,
    pub duration_ms: u32,
}

impl WireEncode for SmsgSetExtraAuraInfo {
    open spec fn spec_encode(&self) -> Seq<u8> {
        self.target_guid.spec_encode() + self.slot.spec_encode() + self.spell_id.spec_encode() + self.max_duration_ms.spec_encode() + self.duration_ms.spec_encode()
    }

    fn encode_into(&self, out: &mut Vec<u8>) {
        self.target_guid.encode_into(out);
        self.slot.encode_into(out);
        self.spell_id.encode_into(out);
        self.max_duration_ms.encode_into(out);
        self.duration_ms.encode_into(out);
        assert(out@ =~= old(out)@ + self.spec_encode());
    }
}

impl ServerMessagePayload for SmsgSetExtraAuraInfo {}

#[derive(Debug, PartialEq, Eq)]
pub struct SmsgSetExtraAuraInfoNeedUpdate {
    pub target_guid: PackedObjectGuid,
    pub slot: u8,
    pub spell_id: u32,
    pub max_duration_ms: u32,
    pub duration_ms: u32,
}

impl WireEncode for SmsgSetExtraAuraInfoNeedUpdate {
    open spec fn spec_encode(&self) -> Seq<u8> {
        self.target_guid.spec_encode() + self.slot.spec_encode() + self.spell_id.spec_encode() + self.max_duration_ms.spec_encode() + self.duration_ms.spec_encode()
    }

    fn encode_into(&self, out: &mut Vec<u8>) {
        self.target_guid.encode_into(out);
        self.slot.encode_into(out);
        self.spell_id.encode_into(out);
        self.max_duration_ms.encode_into(out);
        self.duration_ms.encode_into(out);
        assert(out@ =~= old(out)@ + self.spec_encode());
    }
}

impl ServerMessagePayload for SmsgSetExtraAuraInfoNeedUpdate {}

#[derive(Debug, PartialEq, Eq)]
pub struct SmsgClearExtraAuraInfo {
    pub target_guid: PackedObjectGuid,
    pub spell_id: u32,
}

impl WireEncode for SmsgClearExtraAuraInfo {
    open spec fn spec_encode(&self) -> Seq<u8> {
        self.target_guid.spec_encode() + self.spell_id.spec_encode()
    }

    fn encode_into(&self, out: &mut Vec<u8>) {
        self.target_guid.encode_into(out);
        self.spell_id.encode_into(out);
        assert(out@ =~= old(out)@ + self.spec_encode());
    }
}

impl ServerMessagePayload for SmsgClearExtraAuraInfo {}
impl SmsgInitialSpells {
    /// The spells and cooldowns known at login. Each spell id and each count is
    /// kept to its low sixteen bits.
    pub fn new(spells: Vec<u32>, cooldowns: Vec<InitialSpellCooldown>) -> (r: Self)
        ensures
            r.unk == 0,
            r.spell_count == spells@.len() as u16,
            r.spells@.len() == spells@.len(),
            forall|i: int|
                0 <= i < spells@.len() ==> #[trigger] r.spells@[i] == (InitialSpell {
                    spell_id: spells@[i] as u16,
                    unk: 0,
                }),
            r.cooldown_count == cooldowns@.len() as u16,
            r.cooldowns == cooldowns,
    {
        let mut initial: Vec<InitialSpell> = Vec::new();
        let mut i: usize = 0;
        while i < spells.len()
            invariant
                i <= spells@.len(),
                initial@.len() == i,
                forall|j: int|
                    0 <= j < i ==> #[trigger] initial@[j] == (InitialSpell {
                        spell_id: spells@[j] as u16,
                        unk: 0,
                    }),
            decreases spells@.len() - i,
        {
            initial.push(InitialSpell { spell_id: spells[i] as u16, unk: 0 });
            i = i + 1;
        }
        let spell_count = spells.len() as u16;
        let cooldown_count = cooldowns.len() as u16;
        SmsgInitialSpells { unk: 0, spell_count, spells: initial, cooldown_count, cooldowns }
    }
}

/// A spell cast: the spell, the client's cast counter and the targets. A payload
/// whose target mask holds a bit outside the known target kinds is not accepted.
#[derive(Debug, PartialEq, Eq)]
pub struct CmsgCastSpell {
    pub spell_id: u32,
    pub cast_count: u8,
    pub cast_targets: SpellCastTargets,
}

impl ClientPayload for CmsgCastSpell {
    open spec fn spec_accepts(data: Seq<u8>) -> bool {
        data.len() >= 5 && spec_read_targets(data, 5) is Some
    }

    open spec fn spec_reads_as(data: Seq<u8>, v: Self) -> bool {
        &&& data.len() >= 5
        &&& v.spell_id == from_le_u32(data.subrange(0, 4))
        &&& v.cast_count == data[4]
        &&& spec_read_targets(data, 5) == Some(v.cast_targets.view())
    }

    fn read(data: &[u8]) -> (r: Result<Self, ReadError>) {
        if data.len() < 5 {
            return Err(ReadError::UnexpectedEnd);
        }
        let spell_id = get_u32_le(data, 0);
        let cast_count = data[4];
        if !target_mask_known(data, 5) {
            return Err(ReadError::InvalidValue);
        }
        let cast_targets = read_cast_targets(data, 5)?;
        Ok(CmsgCastSpell { spell_id, cast_count, cast_targets })
    }
}

} // verus!
