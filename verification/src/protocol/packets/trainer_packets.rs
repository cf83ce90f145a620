//! Trainer messages.
use crate::codec::{NullString, WireEncode};
use crate::constants::{TrainerSpellState};
use crate::entities::{ObjectGuid};
use crate::protocol::server::ServerMessagePayload;
use crate::wire::{bool_u32, lemma_le_u32_roundtrip, from_le_u32, from_le_u64, le_u32, le_u64, lemma_le_u64_roundtrip, put_bool_u32, put_u8};
use vstd::prelude::*;

verus! {

#[derive(Debug, PartialEq, Eq)]
pub struct SmsgTrainerBuySucceeded {
    pub trainer_guid: ObjectGuid,
    pub spell_id: u32,
}

impl WireEncode for SmsgTrainerBuySucceeded {
    open spec fn spec_encode(&self) -> Seq<u8> {
        self.trainer_guid.spec_encode() + self.spell_id.spec_encode()
    }

    fn encode_into(&self, out: &mut Vec<u8>) {
        self.trainer_guid.encode_into(out);
        self.spell_id.encode_into(out);
        assert(out@ =~= old(out)@ + self.spec_encode());
    }
}

impl ServerMessagePayload for SmsgTrainerBuySucceeded {}

/// The bytes of a `SmsgTrainerBuySucceeded` hold its fields in declaration order, little-endian:
/// each field reads back from its own place.
pub proof fn lemma_smsg_trainer_buy_succeeded_image_fields(v: SmsgTrainerBuySucceeded)
    ensures
        v.spec_encode().len() == 12,
        from_le_u64(v.spec_encode().subrange(0, 8)) == v.trainer_guid.raw,
        from_le_u32(v.spec_encode().subrange(8, 12)) == v.spell_id,
{
    let data = v.spec_encode();
    lemma_le_u64_roundtrip(v.trainer_guid.raw);
    assert(data.subrange(0, 8) =~= le_u64(v.trainer_guid.raw));
    lemma_le_u32_roundtrip(v.spell_id);
    assert(data.subrange(8, 12) =~= le_u32(v.spell_id));
}

#[derive(Debug, PartialEq, Eq)]
pub struct SmsgTrainerList {
    pub trainer_guid: ObjectGuid,
    pub trainer_type: u32,
    pub spell_count: u32,
    pub spells: Vec<TrainerSpell>,
    pub title: NullString,
}

impl WireEncode for SmsgTrainerList {
    open spec fn spec_encode(&self) -> Seq<u8> {
        self.trainer_guid.spec_encode() + self.trainer_type.spec_encode() + self.spell_count.spec_encode() + self.spells.spec_encode() + self.title.spec_encode()
    }

    fn encode_into(&self, out: &mut Vec<u8>) {
        self.trainer_guid.encode_into(out);
        self.trainer_type.encode_into(out);
        self.spell_count.encode_into(out);
        self.spells.encode_into(out);
        self.title.encode_into(out);
        assert(out@ =~= old(out)@ + self.spec_encode());
    }
}

impl ServerMessagePayload for SmsgTrainerList {}

/// A spell offered by a trainer.
#[derive(Debug, PartialEq, Eq)]
pub struct TrainerSpell {
    pub spell_id: u32,
    pub state: TrainerSpellState,
    pub cost: u32,
    pub can_learn_primary_profession_first_rank: bool,
    pub enable_learn_primary_profession_button: bool,
    pub required_level: u8,
    pub required_skill: u32,
    pub required_skill_value: u32,
    pub previous_spell: u32,
    pub required_required_spell: u32,
    /// always 0 in MaNGOS
    pub unk: u32,
}

impl WireEncode for TrainerSpell {
    open spec fn spec_encode(&self) -> Seq<u8> {
        self.spell_id.spec_encode() + seq![self.state.spec_value() as u8] + self.cost.spec_encode() + bool_u32(self.can_learn_primary_profession_first_rank) + bool_u32(self.enable_learn_primary_profession_button) + self.required_level.spec_encode() + self.required_skill.spec_encode() + self.required_skill_value.spec_encode() + self.previous_spell.spec_encode() + self.required_required_spell.spec_encode() + self.unk.spec_encode()
    }

    fn encode_into(&self, out: &mut Vec<u8>) {
        self.spell_id.encode_into(out);
        put_u8(out, self.state.value() as u8);
        self.cost.encode_into(out);
        put_bool_u32(out, self.can_learn_primary_profession_first_rank);
        put_bool_u32(out, self.enable_learn_primary_profession_button);
        self.required_level.encode_into(out);
        self.required_skill.encode_into(out);
        self.required_skill_value.encode_into(out);
        self.previous_spell.encode_into(out);
        self.required_required_spell.encode_into(out);
        self.unk.encode_into(out);
        assert(out@ =~= old(out)@ + self.spec_encode());
    }
}

} // verus!
