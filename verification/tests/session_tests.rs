use rustbolt_world::entities::{ObjectGuid, Position, WorldPosition};
use rustbolt_world::protocol::packets::player_packets::SmsgBindpointUpdate;
use rustbolt_world::protocol::packets::entity_packets::MovementInfo;
use rustbolt_world::protocol::packets::player_packets::FactionInit;
use rustbolt_world::protocol::client::ClientMessageHeader;
use rustbolt_world::protocol::server::{encrypted_frame, ServerMessageHeader};
use rustbolt_world::session::{
    frame_outgoing, initial_factions, packed_game_time, session_key_from_hex, FactionStanding, KnownGuids, SessionHolder,
    TimeSync,
    SMSG_COMPRESSED_UPDATE_OBJECT, SMSG_UPDATE_OBJECT,
};
use wow_srp::normalized_string::NormalizedString;
use wow_srp::tbc_header::{HeaderCrypto, ProofSeed};

#[test]
fn time_sync_counts_requests() {
    let mut sync = TimeSync::new(5000);
    assert_eq!(sync.server_last_sync_ticks, 5000);
    assert_eq!(sync.record_request(6000), 0);
    assert_eq!(sync.record_request(7000), 1);
    assert_eq!(sync.server_counter, 2);
    assert_eq!(sync.server_last_sync_ticks, 7000);
    sync.record_response(1, 123);
    assert_eq!(sync.client_counter, 1);
    assert_eq!(sync.client_last_sync_ticks, 123);
    assert_eq!(sync.server_counter, 2);
}

#[test]
fn time_sync_reset_zeroes_everything() {
    let mut sync = TimeSync::new(10);
    sync.record_request(20);
    sync.record_response(0, 30);
    sync.reset();
    assert_eq!(
        sync,
        TimeSync { server_counter: 0, server_last_sync_ticks: 0, client_counter: 0, client_last_sync_ticks: 0 }
    );
}

#[test]
fn known_guids_add_and_remove() {
    let player = ObjectGuid { raw: 1 };
    let a = ObjectGuid { raw: 2 };
    let b = ObjectGuid { raw: 3 };
    let mut known = KnownGuids::new();
    assert_eq!(known.player_guid(), None);
    known.set_player_guid(player);
    assert!(known.is_guid_known(&player));
    assert!(!known.is_guid_known(&a));
    known.add_known_guid(&a);
    known.add_known_guid(&b);
    known.add_known_guid(&a);
    assert!(known.is_guid_known(&a));
    assert_eq!(known.known_guids(), vec![a, b, a]);
    known.remove_known_guid(&a);
    assert!(!known.is_guid_known(&a));
    assert!(known.is_guid_known(&b));
    assert_eq!(known.known_guids(), vec![b]);
    known.clear();
    assert_eq!(known.player_guid(), None);
    assert!(known.known_guids().is_empty());
}

#[test]
fn small_messages_are_framed_as_they_are() {
    let (header, body) = frame_outgoing(0x1DD, vec![1, 2, 3]).unwrap();
    assert_eq!(header, ServerMessageHeader { size: 5, opcode: 0x1DD });
    assert_eq!(body, vec![1, 2, 3]);
    let small_update: Vec<u8> = (0..50).collect();
    let (header, body) = frame_outgoing(SMSG_UPDATE_OBJECT, small_update.clone()).unwrap();
    assert_eq!(header, ServerMessageHeader { size: 52, opcode: SMSG_UPDATE_OBJECT });
    assert_eq!(body, small_update);
}

#[test]
fn large_updates_are_compressed() {
    let payload: Vec<u8> = (0..200u32).map(|i| (i % 7) as u8).collect();
    let (header, body) = frame_outgoing(SMSG_UPDATE_OBJECT, payload.clone()).unwrap();
    let compressed = miniz_oxide::deflate::compress_to_vec_zlib(&payload, 6);
    assert_eq!(header.opcode, SMSG_COMPRESSED_UPDATE_OBJECT);
    assert_eq!(header.size as usize, compressed.len() + 6);
    assert_eq!(&body[..4], &200u32.to_le_bytes());
    assert_eq!(&body[4..], &compressed[..]);
    assert_ne!(&body[4..], &payload[..]);
    let inflated = miniz_oxide::inflate::decompress_to_vec_zlib(&body[4..]).unwrap();
    assert_eq!(inflated, payload);
    assert_eq!(header.size as usize, body.len() + 2);
}

#[test]
fn oversized_messages_are_not_framed() {
    assert!(frame_outgoing(0x1DD, vec![0; 65534]).is_none());
    assert!(frame_outgoing(0x1DD, vec![0; 65533]).is_some());
}

#[test]
fn login_time_packing() {
    let t = packed_game_time(2024, 3, 15, 6, 13, 45);
    assert_eq!(t, (2024u32 << 24) | (3 << 20) | (14 << 14) | (6 << 11) | (13 << 6) | 45);
    assert_eq!(packed_game_time(0, 1, 1, 1, 0, 0), (1 << 20) | (1 << 11));
}

#[test]
fn initial_factions_fill_the_list() {
    let standings = vec![
        (2u32, FactionStanding { flags: 0x101, db_standing: -20 }),
        (0u32, FactionStanding { flags: 1, db_standing: 3000 }),
        (2u32, FactionStanding { flags: 9, db_standing: 9 }),
    ];
    let factions = initial_factions(&standings, 128);
    assert_eq!(factions.len(), 128);
    assert_eq!(factions[0], FactionInit { flags: 1, standing: 3000 });
    assert_eq!(factions[1], FactionInit { flags: 0, standing: 0 });
    assert_eq!(factions[2], FactionInit { flags: 1, standing: (-20i32) as u32 });
    assert_eq!(factions[127], FactionInit { flags: 0, standing: 0 });
}

#[test]
fn session_holder_store_lookup_remove() {
    let mut holder: SessionHolder<&'static str> = SessionHolder::new();
    assert_eq!(holder.len(), 0);
    assert_eq!(holder.insert_session(7, "first"), None);
    assert_eq!(holder.insert_session(9, "other"), None);
    assert_eq!(holder.get_session(7), Some(&"first"));
    assert_eq!(holder.insert_session(7, "second"), Some("first"));
    assert_eq!(holder.get_session(7), Some(&"second"));
    assert_eq!(holder.len(), 2);
    assert!(holder.remove_session(7));
    assert!(!holder.remove_session(7));
    assert_eq!(holder.get_session(7), None);
    assert_eq!(holder.get_session(9), Some(&"other"));
    assert_eq!(holder.len(), 1);
}

#[test]
fn movement_relay_payload() {
    let info = MovementInfo {
        movement_flags: 1,
        movement_flags2: 0,
        timestamp: 2,
        position: Position { x: 0, y: 0, z: 0, o: 0 },
        fall_time: 3,
    };
    let payload = rustbolt_world::session::movement_payload(&ObjectGuid { raw: 0x0105 }, &info);
    let mut expected = vec![0x03, 0x05, 0x01, 1, 0, 0, 0, 0, 2, 0, 0, 0];
    expected.extend_from_slice(&[0; 16]);
    expected.extend_from_slice(&[3, 0, 0, 0]);
    assert_eq!(payload, expected);
    assert_eq!(
        rustbolt_world::session::plain_header(0xB5, payload.len()),
        Some(ServerMessageHeader { size: payload.len() as u16 + 2, opcode: 0xB5 })
    );
    assert_eq!(rustbolt_world::session::plain_header(0xB5, 65534), None);
    assert_eq!(
        rustbolt_world::session::plain_header(0xB5, 70000),
        Some(ServerMessageHeader { size: 4466, opcode: 0xB5 })
    );
}

#[test]
fn remove_undoes_add() {
    let mut known = KnownGuids::new();
    let a = ObjectGuid { raw: 2 };
    let b = ObjectGuid { raw: 3 };
    known.add_known_guid(&a);
    known.add_known_guid(&b);
    let before = known.known_guids();
    let c = ObjectGuid { raw: 4 };
    known.add_known_guid(&c);
    known.remove_known_guid(&c);
    assert_eq!(known.known_guids(), before);
}

#[test]
fn bind_point_from_position() {
    let p = WorldPosition { map_id: 0, zone: 85, x: 1, y: 2, z: 3, o: 4 };
    let b = SmsgBindpointUpdate::from_position(&p);
    assert_eq!((b.homebind_x, b.homebind_y, b.homebind_z, b.homebind_map_id, b.homebind_area_id), (1, 2, 3, 0, 85));
}

#[test]
fn session_holder_matching_sessions() {
    let mut holder: SessionHolder<&'static str> = SessionHolder::new();
    holder.insert_session(3, "three");
    holder.insert_session(8, "eight");
    holder.insert_session(12, "twelve");
    let mut found: Vec<&str> = holder.get_matching_sessions(|k| k > 5).into_iter().copied().collect();
    found.sort();
    assert_eq!(found, vec!["eight", "twelve"]);
    assert!(holder.get_matching_sessions(|_| false).is_empty());
    assert_eq!(holder.get_matching_sessions(|_| true).len(), 3);
}

fn paired_ciphers() -> (HeaderCrypto, HeaderCrypto) {
    let name = NormalizedString::new("PLAYER").unwrap();
    let key = [0x5Au8; 40];
    let (_, one) = ProofSeed::new().into_client_header_crypto(&name, key, 1);
    let (_, other) = ProofSeed::new().into_client_header_crypto(&name, key, 2);
    (one, other)
}

#[test]
fn encrypted_frame_carries_the_header_and_the_payload() {
    let (mut server, mut client) = paired_ciphers();
    let header = ServerMessageHeader { size: 6, opcode: 0x1DD };
    let bytes = encrypted_frame(&mut server, &header, &[1, 2, 3, 4]);
    assert_eq!(bytes.len(), 8);
    assert_eq!(&bytes[4..], &[1, 2, 3, 4]);
    let plain = client.decrypt_server_header([bytes[0], bytes[1], bytes[2], bytes[3]]);
    assert_eq!((plain.size, plain.opcode), (6, 0x1DD));
}

#[test]
fn client_header_is_decrypted() {
    let (mut server, mut client) = paired_ciphers();
    let raw = client.encrypt_client_header(8, 0x1DC);
    let header = ClientMessageHeader::decrypt(&mut server, raw);
    assert_eq!(header.size, 8);
    assert_eq!(header.opcode, 0x1DC);
}

#[test]
fn session_key_hex_is_read_most_significant_first() {
    let mut hex = String::from("0A");
    hex.push_str(&"00".repeat(38));
    hex.push_str("fF");
    let key = session_key_from_hex(hex.as_bytes()).unwrap();
    assert_eq!(key.len(), 40);
    assert_eq!(key[0], 0xFF);
    assert_eq!(key[39], 0x0A);
    assert!(key[1..39].iter().all(|b| *b == 0));
    assert_eq!(session_key_from_hex(&hex.as_bytes()[..78]), None);
    let mut bad = hex.clone().into_bytes();
    bad[5] = b'g';
    assert_eq!(session_key_from_hex(&bad), None);
}
