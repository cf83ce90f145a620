//! The answers the server gives to the client's simple requests, and the entries of
//! the character list.
use crate::codec::NullString;
use crate::constants::{CharacterClass, CharacterRace, Gender};
use crate::protocol::packets::misc_packets::{
    CmsgPing, CmsgUpdateAccountData, SmsgPong, SmsgQueryTimeResponse, SmsgUpdateAccountData,
};
use crate::protocol::packets::player_packets::SmsgLogoutResponse;
use crate::protocol::packets::query_packets::SmsgNameQueryResponse;
use crate::protocol::packets::{CharEnumData, CharEnumEquip, CmsgRealmSplit, SmsgCharEnum, SmsgRealmSplit};
use vstd::prelude::*;

verus! {

impl SmsgPong {
    /// The answer to a ping: the same ping number.
    pub fn answer(ping: &CmsgPing) -> (r: Self)
        ensures
            r == (SmsgPong { ping: ping.ping }),
    {
        SmsgPong { ping: ping.ping }
    }
}

/// The date the realm split answer carries.
pub open spec fn realm_split_date() -> Seq<u8> {
    seq![48u8, 49u8, 47u8, 48u8, 49u8, 47u8, 48u8, 49u8]
}

impl SmsgRealmSplit {
    /// The answer to a realm split query: the client's state, a realm that is not
    /// split, and the date "01/01/01".
    pub fn answer(request: &CmsgRealmSplit) -> (r: Self)
        ensures
            r.client_state == request.client_state,
            r.realm_state == 0,
            r.split_date.0@ == realm_split_date(),
    {
        let date: Vec<u8> = vec![48u8, 49u8, 47u8, 48u8, 49u8, 47u8, 48u8, 49u8];
        assert(date@ =~= realm_split_date());
        SmsgRealmSplit { client_state: request.client_state, realm_state: 0, split_date: NullString(date) }
    }
}

impl SmsgUpdateAccountData {
    /// The answer to an account data update: the same data id, no data.
    pub fn answer(request: &CmsgUpdateAccountData) -> (r: Self)
        ensures
            r == (SmsgUpdateAccountData { account_data_id: request.account_data_id, data: 0 }),
    {
        SmsgUpdateAccountData { account_data_id: request.account_data_id, data: 0 }
    }
}

impl SmsgQueryTimeResponse {
    /// The server time, as seconds since the Unix epoch kept to their low 32 bits;
    /// daily quests do not reset.
    pub fn at(seconds_since_epoch: u64) -> (r: Self)
        ensures
            r == (SmsgQueryTimeResponse {
                seconds_since_epoch: seconds_since_epoch as u32,
                seconds_until_daily_quests_reset: 0,
            }),
    {
        SmsgQueryTimeResponse {
            seconds_since_epoch: #[verifier::truncate] (seconds_since_epoch as u32),
            seconds_until_daily_quests_reset: 0,
        }
    }
}

impl SmsgLogoutResponse {
    /// The answer to a logout request: accepted, and immediate.
    pub fn instant() -> (r: Self)
        ensures
            r == (SmsgLogoutResponse { reason: 0, is_instant_logout: 1 }),
    {
        SmsgLogoutResponse { reason: 0, is_instant_logout: 1 }
    }
}

impl SmsgCharEnum {
    /// The character list; the count is the number of characters, kept to its low
    /// eight bits.
    pub fn from_characters(character_data: Vec<CharEnumData>) -> (r: Self)
        ensures
            r.number_of_characters == character_data@.len() as u8,
            r.character_data == character_data,
    {
        let number_of_characters = character_data.len() as u8;
        SmsgCharEnum { number_of_characters, character_data }
    }
}

/// What the name query needs of a character.
#[derive(Debug, Clone, PartialEq, Eq)]
pub struct NamedCharacter {
    pub guid: u64,
    pub name: Vec<u8>,
    pub race: CharacterRace,
    pub class: CharacterClass,
    pub gender: Gender,
}

/// The name shown for a guid that belongs to no character.
pub open spec fn unknown_character_name() -> Seq<u8> {
    seq![
        60u8, 110u8, 111u8, 110u8, 45u8, 101u8, 120u8, 105u8, 115u8, 116u8, 105u8, 110u8, 103u8, 32u8, 99u8, 104u8,
        97u8, 114u8, 97u8, 99u8, 116u8, 101u8, 114u8, 62u8,
    ]
}

impl SmsgNameQueryResponse {
    /// The answer to a name query about `guid`: the character's name, race, class and
    /// gender, or a placeholder name and zeroes when no character has that guid.
    pub fn answer(guid: u64, character: Option<NamedCharacter>) -> (r: Self)
        ensures
            r.realm_name == 0,
            r.is_name_declined == false,
            match character {
                Some(c) => {
                    &&& r.guid == c.guid
                    &&& r.name.0@ == c.name@
                    &&& r.race == c.race.spec_value() as u32
                    &&& r.class == c.class.spec_value() as u32
                    &&& r.gender == c.gender.spec_value() as u32
                },
                None => {
                    &&& r.guid == guid
                    &&& r.name.0@ == unknown_character_name()
                    &&& r.race == 0
                    &&& r.class == 0
                    &&& r.gender == 0
                },
            },
    {
        match character {
            Some(c) => SmsgNameQueryResponse {
                guid: c.guid,
                name: NullString(c.name),
                realm_name: 0,
                race: c.race.value() as u32,
                class: c.class.value() as u32,
                gender: c.gender.value() as u32,
                is_name_declined: false,
            },
            None => {
                let name: Vec<u8> = vec![
                    60u8, 110u8, 111u8, 110u8, 45u8, 101u8, 120u8, 105u8, 115u8, 116u8, 105u8, 110u8, 103u8, 32u8,
                    99u8, 104u8, 97u8, 114u8, 97u8, 99u8, 116u8, 101u8, 114u8, 62u8,
                ];
                assert(name@ =~= unknown_character_name());
                SmsgNameQueryResponse {
                    guid,
                    name: NullString(name),
                    realm_name: 0,
                    race: 0,
                    class: 0,
                    gender: 0,
                    is_name_declined: false,
                }
            },
        }
    }
}

/// A character as the character list reads it from the database; coordinates are
/// the bits of `f32` values.
#[derive(Debug, Clone, PartialEq, Eq)]
pub struct CharacterListRow {
    pub guid: u64,
    pub name: Vec<u8>,
    pub race: u8,
    pub class: u8,
    pub gender: u8,
    pub skin: u8,
    pub face: u8,
    pub hairstyle: u8,
    pub haircolor: u8,
    pub facialstyle: u8,
    pub level: u8,
    pub zone: u32,
    pub map: u32,
    pub position_x: u32,
    pub position_y: u32,
    pub position_z: u32,
}

impl CharEnumData {
    /// The character list entry of a character wearing `equipment`: no guild, no
    /// flags, no pet, and shown as logging in for the first time.
    pub fn from_row(row: CharacterListRow, equipment: Vec<CharEnumEquip>) -> (r: CharEnumData)
        ensures
            r.guid == row.guid,
            r.name.0@ == row.name@,
            r.race == row.race,
            r.class == row.class,
            r.gender == row.gender,
            r.skin == row.skin,
            r.face == row.face,
            r.hairstyle == row.hairstyle,
            r.haircolor == row.haircolor,
            r.facialstyle == row.facialstyle,
            r.level == row.level,
            r.zone == row.zone,
            r.map == row.map,
            r.position_x == row.position_x,
            r.position_y == row.position_y,
            r.position_z == row.position_z,
            r.guild_id == 0,
            r.flags == 0,
            r.first_login == true,
            r.pet_display_id == 0,
            r.pet_level == 0,
            r.pet_family == 0,
            r.equipment == equipment,
    {
        CharEnumData {
            guid: row.guid,
            name: NullString(row.name),
            race: row.race,
            class: row.class,
            gender: row.gender,
            skin: row.skin,
            face: row.face,
            hairstyle: row.hairstyle,
            haircolor: row.haircolor,
            facialstyle: row.facialstyle,
            level: row.level,
            zone: row.zone,
            map: row.map,
            position_x: row.position_x,
            position_y: row.position_y,
            position_z: row.position_z,
            guild_id: 0,
            flags: 0,
            first_login: true,
            pet_display_id: 0,
            pet_level: 0,
            pet_family: 0,
            equipment,
        }
    }
}

} // verus!
