//! Melee combat messages.
use crate::codec::{ClientPayload, ReadError, WireEncode};
use crate::entities::{ObjectGuid, PackedObjectGuid};
use crate::protocol::server::ServerMessagePayload;
use crate::wire::{from_le_u64, get_u64_le, le_u64, lemma_le_u64_roundtrip};
use vstd::seq_lib::lemma_concat_associative;
use vstd::prelude::*;

verus! {

#[derive(Debug, PartialEq, Eq)]
pub struct CmsgAttackSwing {
    pub guid: ObjectGuid,
}

impl ClientPayload for CmsgAttackSwing {
    open spec fn spec_accepts(data: Seq<u8>) -> bool {
        data.len() >= 8
    }

    open spec fn spec_reads_as(data: Seq<u8>, v: Self) -> bool {
        v == CmsgAttackSwing { guid: ObjectGuid { raw: from_le_u64(data.subrange(0, 8)) } }
    }

    fn read(data: &[u8]) -> (r: Result<Self, ReadError>) {
        if data.len() < 8 {
            return Err(ReadError::UnexpectedEnd);
        }
        Ok(CmsgAttackSwing { guid: ObjectGuid { raw: get_u64_le(data, 0) } })
    }
}

/// Reading the bytes of a `CmsgAttackSwing` (its fields in order, little-endian) gives it
/// back: each field is read from its own bytes.
pub proof fn lemma_cmsg_attack_swing_reads_back(v: CmsgAttackSwing)
    ensures
        CmsgAttackSwing::spec_accepts(le_u64(v.guid.raw)),
        CmsgAttackSwing::spec_reads_as(le_u64(v.guid.raw), v),
{
    let data = le_u64(v.guid.raw);
    lemma_le_u64_roundtrip(v.guid.raw);
    assert(data.subrange(0, 8) =~= le_u64(v.guid.raw));
}

#[derive(Debug, PartialEq, Eq)]
pub struct SmsgAttackStop {
    pub attacker_guid: PackedObjectGuid,
    pub enemy_guid: PackedObjectGuid,
    /// 0 or 1, "NowDead" in TrinityCore
    pub unk: u32,
}

impl WireEncode for SmsgAttackStop {
    open spec fn spec_encode(&self) -> Seq<u8> {
        self.attacker_guid.spec_encode() + self.enemy_guid.spec_encode() + self.unk.spec_encode()
    }

    fn encode_into(&self, out: &mut Vec<u8>) {
        self.attacker_guid.encode_into(out);
        self.enemy_guid.encode_into(out);
        self.unk.encode_into(out);
        assert(out@ =~= old(out)@ + self.spec_encode());
    }
}

impl ServerMessagePayload for SmsgAttackStop {}

#[derive(Debug, PartialEq, Eq)]
pub struct SmsgAttackStart {
    pub attacker_guid: ObjectGuid,
    pub target_guid: ObjectGuid,
}

impl WireEncode for SmsgAttackStart {
    open spec fn spec_encode(&self) -> Seq<u8> {
        self.attacker_guid.spec_encode() + self.target_guid.spec_encode()
    }

    fn encode_into(&self, out: &mut Vec<u8>) {
        self.attacker_guid.encode_into(out);
        self.target_guid.encode_into(out);
        assert(out@ =~= old(out)@ + self.spec_encode());
    }
}

impl ServerMessagePayload for SmsgAttackStart {}

/// The bytes of a `SmsgAttackStart` hold its fields in declaration order, little-endian:
/// each field reads back from its own place.
pub proof fn lemma_smsg_attack_start_image_fields(v: SmsgAttackStart)
    ensures
        v.spec_encode().len() == 16,
        from_le_u64(v.spec_encode().subrange(0, 8)) == v.attacker_guid.raw,
        from_le_u64(v.spec_encode().subrange(8, 16)) == v.target_guid.raw,
{
    let data = v.spec_encode();
    lemma_le_u64_roundtrip(v.attacker_guid.raw);
    assert(data.subrange(0, 8) =~= le_u64(v.attacker_guid.raw));
    lemma_le_u64_roundtrip(v.target_guid.raw);
    assert(data.subrange(8, 16) =~= le_u64(v.target_guid.raw));
}

#[derive(Debug, PartialEq, Eq)]
pub struct SmsgAttackerStateUpdate {
    pub hit_info: u32,
    pub attacker_guid: PackedObjectGuid,
    pub target_guid: PackedObjectGuid,
    pub actual_damage: u32,
    pub sub_damage_count: u8,
    pub sub_damage_school_mask: u32,
    /// The bits of an `f32`.
    pub sub_damage: u32,
    pub sub_damage_rounded: u32,
    pub sub_damage_absorb: u32,
    pub sub_damage_resist: u32,
    pub target_state: u32,
    /// -1, 0 or 1000
    pub unk1: u32,
    pub spell_id: u32,
    pub damage_blocked_amount: u32,
}

impl WireEncode for SmsgAttackerStateUpdate {
    open spec fn spec_encode(&self) -> Seq<u8> {
        self.hit_info.spec_encode() + self.attacker_guid.spec_encode() + self.target_guid.spec_encode() + self.actual_damage.spec_encode() + self.sub_damage_count.spec_encode() + self.sub_damage_school_mask.spec_encode() + self.sub_damage.spec_encode() + self.sub_damage_rounded.spec_encode() + self.sub_damage_absorb.spec_encode() + self.sub_damage_resist.spec_encode() + self.target_state.spec_encode() + self.unk1.spec_encode() + self.spell_id.spec_encode() + self.damage_blocked_amount.spec_encode()
    }

    #[verifier::spinoff_prover]
    #[verifier::rlimit(80)]
    fn encode_into(&self, out: &mut Vec<u8>) {
        let ghost start = out@;
        self.hit_info.encode_into(out);
        let ghost mut acc = self.hit_info.spec_encode();
        self.attacker_guid.encode_into(out);
        proof {
            lemma_concat_associative(start, acc, self.attacker_guid.spec_encode());
            acc = acc + self.attacker_guid.spec_encode();
        }
        self.target_guid.encode_into(out);
        proof {
            lemma_concat_associative(start, acc, self.target_guid.spec_encode());
            acc = acc + self.target_guid.spec_encode();
        }
        self.actual_damage.encode_into(out);
        proof {
            lemma_concat_associative(start, acc, self.actual_damage.spec_encode());
            acc = acc + self.actual_damage.spec_encode();
        }
        self.sub_damage_count.encode_into(out);
        proof {
            lemma_concat_associative(start, acc, self.sub_damage_count.spec_encode());
            acc = acc + self.sub_damage_count.spec_encode();
        }
        self.sub_damage_school_mask.encode_into(out);
        proof {
            lemma_concat_associative(start, acc, self.sub_damage_school_mask.spec_encode());
            acc = acc + self.sub_damage_school_mask.spec_encode();
        }
        self.sub_damage.encode_into(out);
        proof {
            lemma_concat_associative(start, acc, self.sub_damage.spec_encode());
            acc = acc + self.sub_damage.spec_encode();
        }
        self.sub_damage_rounded.encode_into(out);
        proof {
            lemma_concat_associative(start, acc, self.sub_damage_rounded.spec_encode());
            acc = acc + self.sub_damage_rounded.spec_encode();
        }
        self.sub_damage_absorb.encode_into(out);
        proof {
            lemma_concat_associative(start, acc, self.sub_damage_absorb.spec_encode());
            acc = acc + self.sub_damage_absorb.spec_encode();
        }
        self.sub_damage_resist.encode_into(out);
        proof {
            lemma_concat_associative(start, acc, self.sub_damage_resist.spec_encode());
            acc = acc + self.sub_damage_resist.spec_encode();
        }
        self.target_state.encode_into(out);
        proof {
            lemma_concat_associative(start, acc, self.target_state.spec_encode());
            acc = acc + self.target_state.spec_encode();
        }
        self.unk1.encode_into(out);
        proof {
            lemma_concat_associative(start, acc, self.unk1.spec_encode());
            acc = acc + self.unk1.spec_encode();
        }
        self.spell_id.encode_into(out);
        proof {
            lemma_concat_associative(start, acc, self.spell_id.spec_encode());
            acc = acc + self.spell_id.spec_encode();
        }
        self.damage_blocked_amount.encode_into(out);
        proof {
            lemma_concat_associative(start, acc, self.damage_blocked_amount.spec_encode());
            acc = acc + self.damage_blocked_amount.spec_encode();
        }
        assert(acc == self.spec_encode());
    }
}

impl ServerMessagePayload for SmsgAttackerStateUpdate {}

#[derive(Debug, PartialEq, Eq)]
pub struct SmsgAttackSwingNotInRange {
}

impl WireEncode for SmsgAttackSwingNotInRange {
    open spec fn spec_encode(&self) -> Seq<u8> {
        Seq::empty()
    }

    fn encode_into(&self, out: &mut Vec<u8>) {
        assert(out@ =~= old(out)@ + self.spec_encode());
    }
}

impl ServerMessagePayload for SmsgAttackSwingNotInRange {}
impl SmsgAttackStop {
    /// The notice that `attacker` stopped attacking `target` (the zero guid when it had
    /// no target).
    pub fn build(attacker: &ObjectGuid, target: Option<ObjectGuid>) -> (r: Self)
        ensures
            r.attacker_guid.raw == attacker.raw,
            r.enemy_guid.raw == (match target {
                Some(t) => t.raw,
                None => 0,
            }),
            r.unk == 0,
    {
        let enemy = match target {
            Some(t) => t,
            None => ObjectGuid::zero(),
        };
        SmsgAttackStop { attacker_guid: attacker.as_packed(), enemy_guid: enemy.as_packed(), unk: 0 }
    }
}

} // verus!
