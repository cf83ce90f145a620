//! Player state messages.
use crate::codec::{ClientPayload, ReadError, WireEncode};
use crate::entities::{ObjectGuid};
use crate::protocol::server::ServerMessagePayload;
use crate::wire::{lemma_le_u32_roundtrip, from_le_u32, from_le_u64, get_u64_le, le_u32, le_u64, lemma_le_u64_roundtrip};
use crate::entities::WorldPosition;
use vstd::prelude::*;

verus! {

#[derive(Debug, PartialEq, Eq)]
pub struct SmsgSetRestStart {
    pub rest_start: u32,
}

impl WireEncode for SmsgSetRestStart {
    open spec fn spec_encode(&self) -> Seq<u8> {
        self.rest_start.spec_encode()
    }

    fn encode_into(&self, out: &mut Vec<u8>) {
        self.rest_start.encode_into(out);
        assert(out@ =~= old(out)@ + self.spec_encode());
    }
}

impl ServerMessagePayload for SmsgSetRestStart {}

/// The bytes of a `SmsgSetRestStart` hold its fields in declaration order, little-endian:
/// each field reads back from its own place.
pub proof fn lemma_smsg_set_rest_start_image_fields(v: SmsgSetRestStart)
    ensures
        v.spec_encode().len() == 4,
        from_le_u32(v.spec_encode().subrange(0, 4)) == v.rest_start,
{
    let data = v.spec_encode();
    lemma_le_u32_roundtrip(v.rest_start);
    assert(data.subrange(0, 4) =~= le_u32(v.rest_start));
}

#[derive(Debug, PartialEq, Eq)]
pub struct SmsgBindpointUpdate {
    /// The bits of an `f32`.
    pub homebind_x: u32,
    /// The bits of an `f32`.
    pub homebind_y: u32,
    /// The bits of an `f32`.
    pub homebind_z: u32,
    pub homebind_map_id: u32,
    pub homebind_area_id: u32,
}

impl WireEncode for SmsgBindpointUpdate {
    open spec fn spec_encode(&self) -> Seq<u8> {
        self.homebind_x.spec_encode() + self.homebind_y.spec_encode() + self.homebind_z.spec_encode() + self.homebind_map_id.spec_encode() + self.homebind_area_id.spec_encode()
    }

    fn encode_into(&self, out: &mut Vec<u8>) {
        self.homebind_x.encode_into(out);
        self.homebind_y.encode_into(out);
        self.homebind_z.encode_into(out);
        self.homebind_map_id.encode_into(out);
        self.homebind_area_id.encode_into(out);
        assert(out@ =~= old(out)@ + self.spec_encode());
    }
}

impl ServerMessagePayload for SmsgBindpointUpdate {}

/// The bytes of a `SmsgBindpointUpdate` hold its fields in declaration order, little-endian:
/// each field reads back from its own place.
pub proof fn lemma_smsg_bindpoint_update_image_fields(v: SmsgBindpointUpdate)
    ensures
        v.spec_encode().len() == 20,
        from_le_u32(v.spec_encode().subrange(0, 4)) == v.homebind_x,
        from_le_u32(v.spec_encode().subrange(4, 8)) == v.homebind_y,
        from_le_u32(v.spec_encode().subrange(8, 12)) == v.homebind_z,
        from_le_u32(v.spec_encode().subrange(12, 16)) == v.homebind_map_id,
        from_le_u32(v.spec_encode().subrange(16, 20)) == v.homebind_area_id,
{
    let data = v.spec_encode();
    lemma_le_u32_roundtrip(v.homebind_x);
    assert(data.subrange(0, 4) =~= le_u32(v.homebind_x));
    lemma_le_u32_roundtrip(v.homebind_y);
    assert(data.subrange(4, 8) =~= le_u32(v.homebind_y));
    lemma_le_u32_roundtrip(v.homebind_z);
    assert(data.subrange(8, 12) =~= le_u32(v.homebind_z));
    lemma_le_u32_roundtrip(v.homebind_map_id);
    assert(data.subrange(12, 16) =~= le_u32(v.homebind_map_id));
    lemma_le_u32_roundtrip(v.homebind_area_id);
    assert(data.subrange(16, 20) =~= le_u32(v.homebind_area_id));
}

#[derive(Debug, PartialEq, Eq)]
pub struct SmsgPlayerBound {
    /// The innkeeper's guid (that cast the Bind spell)
    pub caster_guid: ObjectGuid,
    pub area_id: u32,
}

impl WireEncode for SmsgPlayerBound {
    open spec fn spec_encode(&self) -> Seq<u8> {
        self.caster_guid.spec_encode() + self.area_id.spec_encode()
    }

    fn encode_into(&self, out: &mut Vec<u8>) {
        self.caster_guid.encode_into(out);
        self.area_id.encode_into(out);
        assert(out@ =~= old(out)@ + self.spec_encode());
    }
}

impl ServerMessagePayload for SmsgPlayerBound {}

/// The bytes of a `SmsgPlayerBound` hold its fields in declaration order, little-endian:
/// each field reads back from its own place.
pub proof fn lemma_smsg_player_bound_image_fields(v: SmsgPlayerBound)
    ensures
        v.spec_encode().len() == 12,
        from_le_u64(v.spec_encode().subrange(0, 8)) == v.caster_guid.raw,
        from_le_u32(v.spec_encode().subrange(8, 12)) == v.area_id,
{
    let data = v.spec_encode();
    lemma_le_u64_roundtrip(v.caster_guid.raw);
    assert(data.subrange(0, 8) =~= le_u64(v.caster_guid.raw));
    lemma_le_u32_roundtrip(v.area_id);
    assert(data.subrange(8, 12) =~= le_u32(v.area_id));
}

#[derive(Debug, PartialEq, Eq)]
pub struct MsgSetDungeonDifficulty {
    /// 0 = Normal, 1 = Heroic
    pub difficulty: u32,
    /// Always 1
    pub unk: u32,
    pub is_in_group: u32,
}

impl WireEncode for MsgSetDungeonDifficulty {
    open spec fn spec_encode(&self) -> Seq<u8> {
        self.difficulty.spec_encode() + self.unk.spec_encode() + self.is_in_group.spec_encode()
    }

    fn encode_into(&self, out: &mut Vec<u8>) {
        self.difficulty.encode_into(out);
        self.unk.encode_into(out);
        self.is_in_group.encode_into(out);
        assert(out@ =~= old(out)@ + self.spec_encode());
    }
}

impl ServerMessagePayload for MsgSetDungeonDifficulty {}

/// The bytes of a `MsgSetDungeonDifficulty` hold its fields in declaration order, little-endian:
/// each field reads back from its own place.
pub proof fn lemma_msg_set_dungeon_difficulty_image_fields(v: MsgSetDungeonDifficulty)
    ensures
        v.spec_encode().len() == 12,
        from_le_u32(v.spec_encode().subrange(0, 4)) == v.difficulty,
        from_le_u32(v.spec_encode().subrange(4, 8)) == v.unk,
        from_le_u32(v.spec_encode().subrange(8, 12)) == v.is_in_group,
{
    let data = v.spec_encode();
    lemma_le_u32_roundtrip(v.difficulty);
    assert(data.subrange(0, 4) =~= le_u32(v.difficulty));
    lemma_le_u32_roundtrip(v.unk);
    assert(data.subrange(4, 8) =~= le_u32(v.unk));
    lemma_le_u32_roundtrip(v.is_in_group);
    assert(data.subrange(8, 12) =~= le_u32(v.is_in_group));
}

#[derive(Debug, PartialEq, Eq)]
pub struct CmsgLogoutRequest {
}

impl ClientPayload for CmsgLogoutRequest {
    open spec fn spec_accepts(data: Seq<u8>) -> bool {
        data.len() >= 0
    }

    open spec fn spec_reads_as(data: Seq<u8>, v: Self) -> bool {
        v == CmsgLogoutRequest {}
    }

    fn read(data: &[u8]) -> (r: Result<Self, ReadError>) {
        Ok(CmsgLogoutRequest {})
    }
}

#[derive(Debug, PartialEq, Eq)]
pub struct SmsgLogoutResponse {
    /// 0 for success, anything else will show "You can't logout right now"
    pub reason: u32,
    /// Boolean
    pub is_instant_logout: u8,
}

impl WireEncode for SmsgLogoutResponse {
    open spec fn spec_encode(&self) -> Seq<u8> {
        self.reason.spec_encode() + self.is_instant_logout.spec_encode()
    }

    fn encode_into(&self, out: &mut Vec<u8>) {
        self.reason.encode_into(out);
        self.is_instant_logout.encode_into(out);
        assert(out@ =~= old(out)@ + self.spec_encode());
    }
}

impl ServerMessagePayload for SmsgLogoutResponse {}

/// The bytes of a `SmsgLogoutResponse` hold its fields in declaration order, little-endian:
/// each field reads back from its own place.
pub proof fn lemma_smsg_logout_response_image_fields(v: SmsgLogoutResponse)
    ensures
        v.spec_encode().len() == 5,
        from_le_u32(v.spec_encode().subrange(0, 4)) == v.reason,
        v.spec_encode()[4] == v.is_instant_logout,
{
    let data = v.spec_encode();
    lemma_le_u32_roundtrip(v.reason);
    assert(data.subrange(0, 4) =~= le_u32(v.reason));
}

#[derive(Debug, PartialEq, Eq)]
pub struct SmsgLogoutComplete {
}

impl WireEncode for SmsgLogoutComplete {
    open spec fn spec_encode(&self) -> Seq<u8> {
        Seq::empty()
    }

    fn encode_into(&self, out: &mut Vec<u8>) {
        assert(out@ =~= old(out)@ + self.spec_encode());
    }
}

impl ServerMessagePayload for SmsgLogoutComplete {}

#[derive(Debug, PartialEq, Eq)]
pub struct SmsgActionButtons {
    pub buttons_packed: Vec<u32>,
}

impl WireEncode for SmsgActionButtons {
    open spec fn spec_encode(&self) -> Seq<u8> {
        self.buttons_packed.spec_encode()
    }

    fn encode_into(&self, out: &mut Vec<u8>) {
        self.buttons_packed.encode_into(out);
        assert(out@ =~= old(out)@ + self.spec_encode());
    }
}

impl ServerMessagePayload for SmsgActionButtons {}

/// The initial state of one faction.
#[derive(Debug, PartialEq, Eq)]
pub struct FactionInit {
    pub flags: u8,
    pub standing: u32,
}

impl WireEncode for FactionInit {
    open spec fn spec_encode(&self) -> Seq<u8> {
        self.flags.spec_encode() + self.standing.spec_encode()
    }

    fn encode_into(&self, out: &mut Vec<u8>) {
        self.flags.encode_into(out);
        self.standing.encode_into(out);
        assert(out@ =~= old(out)@ + self.spec_encode());
    }
}

/// The bytes of a `FactionInit` hold its fields in declaration order, little-endian:
/// each field reads back from its own place.
pub proof fn lemma_faction_init_image_fields(v: FactionInit)
    ensures
        v.spec_encode().len() == 5,
        v.spec_encode()[0] == v.flags,
        from_le_u32(v.spec_encode().subrange(1, 5)) == v.standing,
{
    let data = v.spec_encode();
    lemma_le_u32_roundtrip(v.standing);
    assert(data.subrange(1, 5) =~= le_u32(v.standing));
}

#[derive(Debug, PartialEq, Eq)]
pub struct SmsgInitializeFactions {
    /// 0x80
    pub unk: u32,
    pub factions: Vec<FactionInit>,
}

impl WireEncode for SmsgInitializeFactions {
    open spec fn spec_encode(&self) -> Seq<u8> {
        self.unk.spec_encode() + self.factions.spec_encode()
    }

    fn encode_into(&self, out: &mut Vec<u8>) {
        self.unk.encode_into(out);
        self.factions.encode_into(out);
        assert(out@ =~= old(out)@ + self.spec_encode());
    }
}

impl ServerMessagePayload for SmsgInitializeFactions {}

#[derive(Debug, PartialEq, Eq)]
pub struct CmsgSetSelection {
    pub guid: u64,
}

impl ClientPayload for CmsgSetSelection {
    open spec fn spec_accepts(data: Seq<u8>) -> bool {
        data.len() >= 8
    }

    open spec fn spec_reads_as(data: Seq<u8>, v: Self) -> bool {
        v == CmsgSetSelection { guid: from_le_u64(data.subrange(0, 8)) }
    }

    fn read(data: &[u8]) -> (r: Result<Self, ReadError>) {
        if data.len() < 8 {
            return Err(ReadError::UnexpectedEnd);
        }
        Ok(CmsgSetSelection { guid: get_u64_le(data, 0) })
    }
}

/// Reading the bytes of a `CmsgSetSelection` (its fields in order, little-endian) gives it
/// back: each field is read from its own bytes.
pub proof fn lemma_cmsg_set_selection_reads_back(v: CmsgSetSelection)
    ensures
        CmsgSetSelection::spec_accepts(le_u64(v.guid)),
        CmsgSetSelection::spec_reads_as(le_u64(v.guid), v),
{
    let data = le_u64(v.guid);
    lemma_le_u64_roundtrip(v.guid);
    assert(data.subrange(0, 8) =~= le_u64(v.guid));
}

#[derive(Debug, PartialEq, Eq)]
pub struct SmsgLogXpGain {
    pub victim_guid: u64,
    pub given_xp: u32,
    pub from_kill: bool,
    pub xp_without_rested_bonus: Option<u32>,
    pub group_bonus: Option<u32>,
    /// Always 0
    pub unk: u8,
}

impl WireEncode for SmsgLogXpGain {
    open spec fn spec_encode(&self) -> Seq<u8> {
        self.victim_guid.spec_encode() + self.given_xp.spec_encode() + self.from_kill.spec_encode() + (if !self.from_kill { self.xp_without_rested_bonus.spec_encode() } else { Seq::empty() }) + (if !self.from_kill { self.group_bonus.spec_encode() } else { Seq::empty() }) + self.unk.spec_encode()
    }

    fn encode_into(&self, out: &mut Vec<u8>) {
        self.victim_guid.encode_into(out);
        self.given_xp.encode_into(out);
        self.from_kill.encode_into(out);
        if !self.from_kill {
            self.xp_without_rested_bonus.encode_into(out);
        }
        if !self.from_kill {
            self.group_bonus.encode_into(out);
        }
        self.unk.encode_into(out);
        assert(out@ =~= old(out)@ + self.spec_encode());
    }
}

impl ServerMessagePayload for SmsgLogXpGain {}

#[derive(Debug, PartialEq, Eq)]
pub struct SmsgLevelUpInfo {
    pub level: u32,
    pub health_gained: u32,
    pub mana_gained: u32,
    /// Filled with zeroes
    pub powers_gained: [u32; 4],
    pub strength_gained: u32,
    pub agility_gained: u32,
    pub stamina_gained: u32,
    pub intellect_gained: u32,
    pub spirit_gained: u32,
}

impl WireEncode for SmsgLevelUpInfo {
    open spec fn spec_encode(&self) -> Seq<u8> {
        self.level.spec_encode() + self.health_gained.spec_encode() + self.mana_gained.spec_encode() + self.powers_gained.spec_encode() + self.strength_gained.spec_encode() + self.agility_gained.spec_encode() + self.stamina_gained.spec_encode() + self.intellect_gained.spec_encode() + self.spirit_gained.spec_encode()
    }

    fn encode_into(&self, out: &mut Vec<u8>) {
        self.level.encode_into(out);
        self.health_gained.encode_into(out);
        self.mana_gained.encode_into(out);
        self.powers_gained.encode_into(out);
        self.strength_gained.encode_into(out);
        self.agility_gained.encode_into(out);
        self.stamina_gained.encode_into(out);
        self.intellect_gained.encode_into(out);
        self.spirit_gained.encode_into(out);
        assert(out@ =~= old(out)@ + self.spec_encode());
    }
}

impl ServerMessagePayload for SmsgLevelUpInfo {}
impl SmsgLogXpGain {
    /// Experience gained, from a kill of `victim_guid` when there is one.
    pub fn build(victim_guid: Option<ObjectGuid>, experience: u32) -> (r: Self)
        ensures
            r.victim_guid == (match victim_guid {
                Some(g) => g.raw,
                None => 0,
            }),
            r.given_xp == experience,
            r.from_kill == victim_guid is Some,
            r.xp_without_rested_bonus == (if victim_guid is Some {
                Some(experience)
            } else {
                None
            }),
            r.group_bonus == (if victim_guid is Some {
                Some(0u32)
            } else {
                None
            }),
            r.unk == 0,
    {
        match victim_guid {
            Some(g) => SmsgLogXpGain {
                victim_guid: g.raw(),
                given_xp: experience,
                from_kill: true,
                xp_without_rested_bonus: Some(experience),
                group_bonus: Some(0),
                unk: 0,
            },
            None => SmsgLogXpGain {
                victim_guid: 0,
                given_xp: experience,
                from_kill: false,
                xp_without_rested_bonus: None,
                group_bonus: None,
                unk: 0,
            },
        }
    }
}

impl SmsgLevelUpInfo {
    /// What a level gained brings; the other powers gain nothing.
    pub fn build(
        level: u32,
        health_gained: u32,
        mana_gained: u32,
        strength_gained: u32,
        agility_gained: u32,
        stamina_gained: u32,
        intellect_gained: u32,
        spirit_gained: u32,
    ) -> (r: Self)
        ensures
            r.level == level,
            r.health_gained == health_gained,
            r.mana_gained == mana_gained,
            r.powers_gained@ == seq![0u32, 0u32, 0u32, 0u32],
            r.strength_gained == strength_gained,
            r.agility_gained == agility_gained,
            r.stamina_gained == stamina_gained,
            r.intellect_gained == intellect_gained,
            r.spirit_gained == spirit_gained,
    {
        let powers_gained: [u32; 4] = [0u32, 0u32, 0u32, 0u32];
        SmsgLevelUpInfo {
            level,
            health_gained,
            mana_gained,
            powers_gained,
            strength_gained,
            agility_gained,
            stamina_gained,
            intellect_gained,
            spirit_gained,
        }
    }
}

impl SmsgBindpointUpdate {
    /// The bind point of a player: where the hearthstone takes it back to.
    pub fn from_position(position: &WorldPosition) -> (r: Self)
        ensures
            r == (SmsgBindpointUpdate {
                homebind_x: position.x,
                homebind_y: position.y,
                homebind_z: position.z,
                homebind_map_id: position.map_id,
                homebind_area_id: position.zone,
            }),
    {
        SmsgBindpointUpdate {
            homebind_x: position.x,
            homebind_y: position.y,
            homebind_z: position.z,
            homebind_map_id: position.map_id,
            homebind_area_id: position.zone,
        }
    }
}

} // verus!
