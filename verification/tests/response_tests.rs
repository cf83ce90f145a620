use rustbolt_world::codec::{ClientPayload, NullString, WireEncode};
use rustbolt_world::constants::{CharacterClass, CharacterRace, ChatMessageType, Gender, InventoryType, Language};
use rustbolt_world::entities::ObjectGuid;
use rustbolt_world::protocol::packets::auth_packets::CmsgAuthSession;
use rustbolt_world::protocol::packets::chat_packets::SmsgMessageChat;
use rustbolt_world::protocol::packets::combat_packets::SmsgAttackStop;
use rustbolt_world::protocol::packets::entity_packets::SmsgDestroyObject;
use rustbolt_world::protocol::packets::misc_packets::{CmsgPing, CmsgUpdateAccountData, SmsgPong, SmsgQueryTimeResponse, SmsgUpdateAccountData};
use rustbolt_world::protocol::packets::player_packets::SmsgLogoutResponse;
use rustbolt_world::protocol::packets::query_packets::SmsgNameQueryResponse;
use rustbolt_world::protocol::packets::{CharEnumData, CharEnumEquip, CmsgRealmSplit, SmsgCharEnum, SmsgRealmSplit};
use rustbolt_world::protocol::server::ServerMessagePayload;
use rustbolt_world::responses::{CharacterListRow, NamedCharacter};
use rustbolt_world::session::KnownGuids;

#[test]
fn pong_echoes_ping() {
    let ping = CmsgPing::read(&[7, 0, 0, 0, 50, 0, 0, 0]).unwrap();
    assert_eq!(ping.ping, 7);
    assert_eq!(ping.latency, 50);
    assert_eq!(SmsgPong::answer(&ping), SmsgPong { ping: 7 });
}

#[test]
fn realm_split_answer() {
    let answer = SmsgRealmSplit::answer(&CmsgRealmSplit { client_state: 3 });
    assert_eq!(answer.client_state, 3);
    assert_eq!(answer.realm_state, 0);
    assert_eq!(answer.split_date, NullString(b"01/01/01".to_vec()));
    let mut expected = vec![3, 0, 0, 0, 0, 0, 0, 0];
    expected.extend_from_slice(b"01/01/01\0");
    assert_eq!(answer.encode(), expected);
}

#[test]
fn account_data_time_and_logout_answers() {
    let answer = SmsgUpdateAccountData::answer(&CmsgUpdateAccountData { account_data_id: 4 });
    assert_eq!(answer, SmsgUpdateAccountData { account_data_id: 4, data: 0 });
    assert_eq!(
        SmsgQueryTimeResponse::at(0x1_0000_0005),
        SmsgQueryTimeResponse { seconds_since_epoch: 5, seconds_until_daily_quests_reset: 0 }
    );
    assert_eq!(SmsgLogoutResponse::instant(), SmsgLogoutResponse { reason: 0, is_instant_logout: 1 });
}

#[test]
fn name_query_answers() {
    let found = SmsgNameQueryResponse::answer(
        1,
        Some(NamedCharacter {
            guid: 9,
            name: b"Rexxar".to_vec(),
            race: CharacterRace::Orc,
            class: CharacterClass::Hunter,
            gender: Gender::Male,
        }),
    );
    assert_eq!(found.guid, 9);
    assert_eq!(found.name, NullString(b"Rexxar".to_vec()));
    assert_eq!((found.race, found.class, found.gender), (2, 3, 0));
    let missing = SmsgNameQueryResponse::answer(12, None);
    assert_eq!(missing.guid, 12);
    assert_eq!(missing.name, NullString(b"<non-existing character>".to_vec()));
    assert_eq!((missing.race, missing.class, missing.gender), (0, 0, 0));
    assert!(!missing.is_name_declined);
}

#[test]
fn character_list_entries() {
    let row = CharacterListRow {
        guid: 5,
        name: b"Anduin".to_vec(),
        race: 1,
        class: 5,
        gender: 0,
        skin: 1,
        face: 2,
        hairstyle: 3,
        haircolor: 4,
        facialstyle: 5,
        level: 10,
        zone: 12,
        map: 0,
        position_x: 1.0f32.to_bits(),
        position_y: 2.0f32.to_bits(),
        position_z: 3.0f32.to_bits(),
    };
    let equipment = vec![CharEnumEquip::none(InventoryType::Head)];
    let data = CharEnumData::from_row(row, equipment);
    assert_eq!(data.name, NullString(b"Anduin".to_vec()));
    assert_eq!(data.level, 10);
    assert!(data.first_login);
    assert_eq!((data.guild_id, data.flags, data.pet_display_id), (0, 0, 0));
    let list = SmsgCharEnum::from_characters(vec![data]);
    assert_eq!(list.number_of_characters, 1);
    let bytes = list.encode();
    assert_eq!(bytes[0], 1);
    assert_eq!(&bytes[1..9], &5u64.to_le_bytes());
    assert_eq!(&bytes[9..16], b"Anduin\0");
}

#[test]
fn system_and_error_messages() {
    let m = SmsgMessageChat::system(NullString(b"Welcome".to_vec()));
    assert_eq!(m.message_type, ChatMessageType::System);
    assert_eq!(m.language, Language::Universal);
    assert_eq!((m.sender_guid, m.target_guid), (0, 0));
    assert_eq!(m.message_len, 8);
    let e = SmsgMessageChat::error_system(&b"no target".to_vec());
    assert_eq!(e.message, NullString(b"|cffff0000Error:|r no target".to_vec()));
    assert_eq!(e.message_len, 29);
}

#[test]
fn attack_stop_defaults_to_zero_target() {
    let stop = SmsgAttackStop::build(&ObjectGuid { raw: 2 }, None);
    assert_eq!(stop.attacker_guid.raw, 2);
    assert_eq!(stop.enemy_guid.raw, 0);
    assert_eq!(stop.encode(), vec![0x01, 0x02, 0x00, 0, 0, 0, 0]);
    let stop = SmsgAttackStop::build(&ObjectGuid { raw: 2 }, Some(ObjectGuid { raw: 0x300 }));
    assert_eq!(stop.encode(), vec![0x01, 0x02, 0x02, 0x03, 0, 0, 0, 0]);
}

#[test]
fn destroy_only_known_entities() {
    let mut known = KnownGuids::new();
    known.set_player_guid(ObjectGuid { raw: 1 });
    let creature = ObjectGuid { raw: 0xF130_0000_0000_0001 };
    assert_eq!(known.destroy_entity(&creature), None);
    known.add_known_guid(&creature);
    assert_eq!(known.destroy_entity(&creature), Some(SmsgDestroyObject { guid: creature.raw }));
    assert!(!known.is_guid_known(&creature));
    assert_eq!(known.destroy_entity(&creature), None);
}

#[test]
fn auth_session_layout_reads_back() {
    let mut data = Vec::new();
    data.extend_from_slice(&8606u32.to_le_bytes());
    data.extend_from_slice(&0u32.to_le_bytes());
    data.extend_from_slice(b"PLAYER\0");
    data.extend_from_slice(&0xCAFEu32.to_le_bytes());
    data.extend_from_slice(&[0xAB; 20]);
    data.extend_from_slice(&[1, 2, 3]);
    let msg = CmsgAuthSession::read(&data).unwrap();
    assert_eq!(msg._build, 8606);
    assert_eq!(msg.username, NullString(b"PLAYER".to_vec()));
    assert_eq!(msg.client_seed, 0xCAFE);
    assert_eq!(msg.client_proof, [0xAB; 20]);
}
