use rustbolt_world::codec::{ClientPayload, NullString, ReadError, WireEncode};
use rustbolt_world::constants::{
    ChatMessageType, InventoryResult, InventoryType, Language, LootSlotType, LootType,
};
use rustbolt_world::entities::{ObjectGuid, Position};
use rustbolt_world::protocol::client::{ClientMessage, ClientMessageHeader};
use rustbolt_world::protocol::packets::auth_packets::{ClientAddonInfo, CmsgAuthSession};
use rustbolt_world::protocol::packets::chat_packets::{CmsgMessageChat, SmsgMessageChat};
use rustbolt_world::protocol::packets::item_packets::SmsgInventoryChangeFailure;
use rustbolt_world::protocol::packets::loot_packets::{LootResponseItem, SmsgLootReleaseResponse, SmsgLootResponse};
use rustbolt_world::protocol::packets::movement_packets::{
    SmsgMonsterMove, SmsgMoveSetCanFly, SmsgMoveUnsetCanFly, Vector3, SPLINE_FLAG_CYCLIC, SPLINE_FLAG_FLYING,
};
use rustbolt_world::protocol::packets::player_packets::{SmsgLevelUpInfo, SmsgLogXpGain};
use rustbolt_world::protocol::packets::spell_packets::{CmsgCastSpell, InitialSpellCooldown, SmsgInitialSpells};
use rustbolt_world::protocol::packets::vendor_packets::{InventoryItem, SmsgListInventory};
use rustbolt_world::protocol::packets::{CharEnumEquip, CmsgCharCreate};
use rustbolt_world::protocol::server::{ServerMessage, ServerMessagePayload};
use rustbolt_world::spell_targets::target_mask_known;

fn auth_session_bytes() -> Vec<u8> {
    let mut data = vec![0x9E, 0x21, 0, 0, 1, 0, 0, 0];
    data.extend_from_slice(b"AB\0");
    data.extend_from_slice(&[4, 3, 2, 1]);
    data.extend((0u8..20).collect::<Vec<u8>>());
    data
}

#[test]
fn char_enum_equip_none_uses_inventory_type() {
    let e = CharEnumEquip::none(InventoryType::Finger);
    assert_eq!(e, CharEnumEquip { display_id: 0, slot: 11, enchant_id: 0 });
    assert_eq!(CharEnumEquip::none(InventoryType::NonEquip).slot, 0);
}

#[test]
fn char_create_reads_name_and_appearance() {
    let mut data = b"Thrall\0".to_vec();
    data.extend_from_slice(&[2, 7, 0, 1, 2, 3, 4, 5]);
    let msg = CmsgCharCreate::read(&data).unwrap();
    assert_eq!(msg.name, NullString(b"Thrall".to_vec()));
    assert_eq!((msg.race, msg.class, msg.gender), (2, 7, 0));
    assert_eq!((msg.skin, msg.face, msg.hairstyle, msg.haircolor, msg.facialstyle), (1, 2, 3, 4, 5));
}

#[test]
fn char_create_short_message_is_refused() {
    let mut data = b"Thrall\0".to_vec();
    data.extend_from_slice(&[2, 7, 0]);
    assert_eq!(CmsgCharCreate::read(&data).unwrap_err(), ReadError::UnexpectedEnd);
    assert_eq!(CmsgCharCreate::read(b"NoEnd").unwrap_err(), ReadError::UnexpectedEnd);
}

#[test]
fn auth_session_reads_all_fields() {
    let data = auth_session_bytes();
    let msg = CmsgAuthSession::read(&data).unwrap();
    assert_eq!(msg._build, 8606);
    assert_eq!(msg._server_id, 1);
    assert_eq!(msg.username, NullString(b"AB".to_vec()));
    assert_eq!(msg.client_seed, 0x0102_0304);
    let expected: Vec<u8> = (0u8..20).collect();
    assert_eq!(msg.client_proof.to_vec(), expected);
    assert_eq!(msg.len(), 4 + 4 + 2 + 1 + 4 + 20);
    assert_eq!(msg.len(), data.len());
}

#[test]
fn auth_session_truncated_is_refused() {
    let data = auth_session_bytes();
    assert_eq!(CmsgAuthSession::read(&data[..data.len() - 1]).unwrap_err(), ReadError::UnexpectedEnd);
    assert_eq!(CmsgAuthSession::read(&data[..5]).unwrap_err(), ReadError::UnexpectedEnd);
}

#[test]
fn addon_info_reads_and_counts_its_bytes() {
    let mut data = b"Blizzard_AuctionUI\0".to_vec();
    data.extend_from_slice(&[0x10, 0x20, 0, 0, 1, 0, 0, 0, 7]);
    let info = ClientAddonInfo::read(&data).unwrap();
    assert_eq!(info.name, NullString(b"Blizzard_AuctionUI".to_vec()));
    assert_eq!(info.crc, 0x2010);
    assert_eq!(info.unk1, 1);
    assert_eq!(info.unk2, 7);
    assert_eq!(info.len(), data.len());
}

#[test]
fn chat_say_reads_message() {
    let mut data = vec![1, 0, 0, 0, 7, 0, 0, 0];
    data.extend_from_slice(b"hello\0");
    let msg = CmsgMessageChat::read(&data).unwrap();
    assert_eq!(msg.chat_type, ChatMessageType::Say);
    assert_eq!(msg.language, Language::Common);
    assert_eq!(msg._recipient, None);
    assert_eq!(msg._channel, None);
    assert_eq!(msg.msg, NullString(b"hello".to_vec()));
}

#[test]
fn chat_whisper_reads_recipient_first() {
    let mut data = vec![7, 0, 0, 0, 1, 0, 0, 0];
    data.extend_from_slice(b"Jaina\0psst\0");
    let msg = CmsgMessageChat::read(&data).unwrap();
    assert_eq!(msg.chat_type, ChatMessageType::Whisper);
    assert_eq!(msg.language, Language::Orcish);
    assert_eq!(msg._recipient, Some(NullString(b"Jaina".to_vec())));
    assert_eq!(msg._channel, None);
    assert_eq!(msg.msg, NullString(b"psst".to_vec()));
}

#[test]
fn chat_channel_reads_channel_first() {
    let mut data = vec![17, 0, 0, 0, 0, 0, 0, 0];
    data.extend_from_slice(b"General\0hi all\0");
    let msg = CmsgMessageChat::read(&data).unwrap();
    assert_eq!(msg._channel, Some(NullString(b"General".to_vec())));
    assert_eq!(msg._recipient, None);
    assert_eq!(msg.msg, NullString(b"hi all".to_vec()));
}

#[test]
fn chat_with_unknown_kind_or_language_is_refused() {
    let mut data = vec![200, 0, 0, 0, 0, 0, 0, 0];
    data.extend_from_slice(b"x\0");
    assert_eq!(CmsgMessageChat::read(&data).unwrap_err(), ReadError::InvalidValue);
    let mut data = vec![1, 0, 0, 0, 0xFF, 0xFF, 0, 0];
    data.extend_from_slice(b"x\0");
    assert_eq!(CmsgMessageChat::read(&data).unwrap_err(), ReadError::InvalidValue);
    let mut data = vec![7, 0, 0, 0, 0, 0, 0, 0];
    data.extend_from_slice(b"Jaina\0no end");
    assert_eq!(CmsgMessageChat::read(&data).unwrap_err(), ReadError::UnexpectedEnd);
}

#[test]
fn message_chat_counts_the_terminator() {
    let sender = ObjectGuid { raw: 42 };
    let msg = SmsgMessageChat::build(
        ChatMessageType::Say,
        Language::Common,
        Some(&sender),
        None,
        NullString(b"hi".to_vec()),
    );
    assert_eq!(msg.sender_guid, 42);
    assert_eq!(msg.target_guid, 0);
    assert_eq!(msg.message_len, 3);
    assert_eq!(msg.unk, 0);
    assert_eq!(msg.chat_tag, 0);
    let bytes = msg.encode();
    let mut expected = vec![1, 7, 0, 0, 0];
    expected.extend_from_slice(&42u64.to_le_bytes());
    expected.extend_from_slice(&[0, 0, 0, 0]);
    expected.extend_from_slice(&0u64.to_le_bytes());
    expected.extend_from_slice(&[3, 0, 0, 0]);
    expected.extend_from_slice(b"hi\0");
    expected.push(0);
    assert_eq!(bytes, expected);
}

#[test]
fn inventory_failure_sends_level_only_for_level_errors() {
    let moved = Some(ObjectGuid { raw: 1 });
    let target = Some(ObjectGuid { raw: 2 });
    let level = SmsgInventoryChangeFailure::build(InventoryResult::CantEquipLevelI, moved, Some(40), target);
    assert_eq!(level.result, 1);
    assert_eq!(level.required_level, Some(40));
    assert_eq!(level.moved_item_guid, moved);
    assert_eq!(level.target_item_guid, target);
    assert_eq!(level.bag_type_subclass, Some(0));
    let full = SmsgInventoryChangeFailure::build(InventoryResult::BagFull, moved, Some(40), target);
    assert_eq!(full.result, 4);
    assert_eq!(full.required_level, None);
    assert_eq!(full.moved_item_guid, moved);
}

#[test]
fn inventory_success_drops_guids() {
    let ok = SmsgInventoryChangeFailure::build(
        InventoryResult::Okay,
        Some(ObjectGuid { raw: 1 }),
        Some(10),
        Some(ObjectGuid { raw: 2 }),
    );
    assert_eq!(ok.result, 0);
    assert_eq!(ok.required_level, None);
    assert_eq!(ok.moved_item_guid, None);
    assert_eq!(ok.target_item_guid, None);
    assert_eq!(ok.encode(), vec![0, 0]);
}

fn loot_item(index: u8) -> LootResponseItem {
    LootResponseItem {
        index,
        id: 100 + index as u32,
        count: 1,
        display_info_id: 5,
        random_suffix: 0,
        random_property_id: 0,
        slot_type: LootSlotType::Normal,
    }
}

#[test]
fn loot_response_counts_items() {
    let guid = ObjectGuid { raw: 9 };
    let r = SmsgLootResponse::build(&guid, LootType::Corpse, 250, vec![loot_item(0), loot_item(1)]);
    assert_eq!(r.target_guid, 9);
    assert_eq!(r.item_count, 2);
    assert_eq!(r.money, 250);
    let bytes = r.encode();
    assert_eq!(bytes.len(), 8 + 1 + 4 + 1 + 2 * 22);
    assert_eq!(&bytes[8..14], &[1, 250, 0, 0, 0, 2]);
}

#[test]
fn loot_response_count_wraps_at_256() {
    let guid = ObjectGuid { raw: 9 };
    let items: Vec<LootResponseItem> = (0..256).map(|i| loot_item(i as u8)).collect();
    let r = SmsgLootResponse::build(&guid, LootType::Corpse, 0, items);
    assert_eq!(r.item_count, 0);
}

#[test]
fn loot_release_answer() {
    let r = SmsgLootReleaseResponse::build(77);
    assert_eq!(r, SmsgLootReleaseResponse { looted_guid: 77, unk: 1 });
    let framed = ServerMessage::<0x161, SmsgLootReleaseResponse>::new(r).frame_unencrypted();
    let mut expected = vec![0, 11, 0x61, 0x01];
    expected.extend_from_slice(&77u64.to_le_bytes());
    expected.push(1);
    assert_eq!(framed, expected);
}

#[test]
fn can_fly_messages_pack_the_guid() {
    let guid = ObjectGuid { raw: 0x0102 };
    let set = SmsgMoveSetCanFly::build(&guid);
    assert_eq!(set.guid.raw, 0x0102);
    assert_eq!(set.counter, 0);
    assert_eq!(set.encode(), vec![0x03, 0x02, 0x01, 0, 0, 0, 0]);
    let unset = SmsgMoveUnsetCanFly::build(&guid);
    assert_eq!(unset.encode(), vec![0x03, 0x02, 0x01, 0, 0, 0, 0]);
}

#[test]
fn xp_from_kill_and_from_quest() {
    let kill = SmsgLogXpGain::build(Some(ObjectGuid { raw: 5 }), 120);
    assert!(kill.from_kill);
    assert_eq!(kill.victim_guid, 5);
    assert_eq!(kill.xp_without_rested_bonus, Some(120));
    assert_eq!(kill.group_bonus, Some(0));
    let mut expected = 5u64.to_le_bytes().to_vec();
    expected.extend_from_slice(&[120, 0, 0, 0, 1, 0]);
    assert_eq!(kill.encode(), expected);
    let quest = SmsgLogXpGain::build(None, 300);
    assert!(!quest.from_kill);
    assert_eq!(quest.victim_guid, 0);
    assert_eq!(quest.xp_without_rested_bonus, None);
    assert_eq!(quest.group_bonus, None);
    let mut expected = 0u64.to_le_bytes().to_vec();
    expected.extend_from_slice(&[0x2C, 0x01, 0, 0, 0, 0]);
    assert_eq!(quest.encode(), expected);
}

#[test]
fn level_up_info_has_zero_powers() {
    let info = SmsgLevelUpInfo::build(10, 20, 30, 1, 2, 3, 4, 5);
    assert_eq!(info.level, 10);
    assert_eq!(info.powers_gained, [0, 0, 0, 0]);
    assert_eq!(info.spirit_gained, 5);
    assert_eq!(info.encode().len(), 4 * 12);
}

#[test]
fn initial_spells_truncate_ids() {
    let cooldown = InitialSpellCooldown {
        spell_id: 1,
        cast_item_id: 0,
        spell_category: 0,
        cooldown_millis: 1000,
        category_cooldown: 0,
    };
    let msg = SmsgInitialSpells::new(vec![133, 0x0001_0002], vec![cooldown]);
    assert_eq!(msg.unk, 0);
    assert_eq!(msg.spell_count, 2);
    assert_eq!(msg.spells[0].spell_id, 133);
    assert_eq!(msg.spells[1].spell_id, 2);
    assert_eq!(msg.cooldown_count, 1);
    let bytes = msg.encode();
    assert_eq!(&bytes[..11], &[0, 2, 0, 133, 0, 0, 0, 2, 0, 0, 0]);
    assert_eq!(bytes.len(), 1 + 2 + 8 + 2 + 14);
}

#[test]
fn vendor_lists() {
    let guid = ObjectGuid { raw: 3 };
    let empty = SmsgListInventory::empty(guid);
    assert_eq!(empty.inventory_size, 0);
    assert_eq!(empty.items, None);
    assert_eq!(empty.error_code, Some(0));
    assert_eq!(empty.encode(), vec![3, 0, 0, 0, 0, 0, 0, 0, 0, 0, 0, 0, 0]);
    let item = InventoryItem {
        index: 1,
        item_id: 159,
        item_display_id: 18084,
        item_count_at_vendor: 0xFFFF_FFFF,
        price: 25,
        max_durability: 0,
        buy_count: 5,
        extended_cost_id: 0,
    };
    let list = SmsgListInventory::from_items(guid, vec![item]);
    assert_eq!(list.inventory_size, 1);
    assert_eq!(list.error_code, None);
    assert_eq!(list.encode().len(), 8 + 1 + 32);
}

#[test]
fn vendor_list_of_no_items_is_the_empty_answer() {
    let guid = ObjectGuid { raw: 3 };
    let list = SmsgListInventory::from_items(guid, Vec::new());
    assert_eq!(list, SmsgListInventory::empty(guid));
    assert_eq!(list.items, None);
    assert_eq!(list.error_code, Some(0));
}

#[test]
fn cast_spell_on_self() {
    let data = vec![0x85, 0, 0, 0, 3, 0, 0, 0, 0];
    let msg = CmsgCastSpell::read(&data).unwrap();
    assert_eq!(msg.spell_id, 133);
    assert_eq!(msg.cast_count, 3);
    assert_eq!(msg.cast_targets.unit_guid, None);
    assert_eq!(msg.cast_targets.string, None);
}

#[test]
fn cast_spell_on_unit_reads_packed_guid() {
    let data = vec![0x85, 0, 0, 0, 1, 0x02, 0, 0, 0, 0xC1, 0x05, 0x30, 0xF1];
    let msg = CmsgCastSpell::read(&data).unwrap();
    assert_eq!(msg.cast_targets.unit_guid, Some(ObjectGuid { raw: 0xF130_0000_0000_0005 }));
    assert_eq!(msg.cast_targets.item_guid, None);
}

#[test]
fn cast_spell_location_and_text() {
    let mut data = vec![1, 0, 0, 0, 0, 0x40 | 0x00, 0x20, 0, 0];
    data[5] = 0x40;
    data[6] = 0x20;
    for f in [1.0f32, 2.0, 3.0] {
        data.extend_from_slice(&f.to_le_bytes());
    }
    data.extend_from_slice(b"note\0");
    let msg = CmsgCastSpell::read(&data).unwrap();
    let dest = msg.cast_targets.destination_position.unwrap();
    assert_eq!(dest, Position { x: 1.0f32.to_bits(), y: 2.0f32.to_bits(), z: 3.0f32.to_bits(), o: 0 });
    assert_eq!(msg.cast_targets.source_position, None);
    assert_eq!(msg.cast_targets.string, Some(b"note".to_vec()));
}

#[test]
fn cast_spell_errors() {
    assert_eq!(CmsgCastSpell::read(&[1, 0, 0, 0]).unwrap_err(), ReadError::UnexpectedEnd);
    assert_eq!(
        CmsgCastSpell::read(&[1, 0, 0, 0, 0, 0, 0, 2, 0]).unwrap_err(),
        ReadError::InvalidValue
    );
    assert_eq!(
        CmsgCastSpell::read(&[1, 0, 0, 0, 0, 0x20, 0, 0, 0, 1, 2]).unwrap_err(),
        ReadError::UnexpectedEnd
    );
}

#[test]
fn cast_spell_guid_of_unknown_kind_is_absent() {
    let data = vec![1, 0, 0, 0, 0, 0x02, 0, 0, 0, 0x80, 0x12];
    let msg = CmsgCastSpell::read(&data).unwrap();
    assert_eq!(msg.cast_targets.unit_guid, None);
}

#[test]
fn client_header_reads_big_endian_size() {
    let header = ClientMessageHeader::read(&[0, 8, 0xDC, 0x01, 0, 0]).unwrap();
    assert_eq!(header.size, 8);
    assert_eq!(header.opcode, 0x01DC);
    assert_eq!(header.payload_len(), 4);
    assert!(header.payload_fits());
    assert!(!ClientMessageHeader { size: 3, opcode: 0 }.payload_fits());
    assert!(!ClientMessageHeader { size: 2053, opcode: 0 }.payload_fits());
    assert!(ClientMessageHeader { size: 4, opcode: 0 }.payload_fits());
    let largest = ClientMessageHeader { size: 2052, opcode: 0 };
    assert!(largest.payload_fits());
    assert_eq!(largest.payload_len(), 2048);
}

#[test]
fn client_message_reads_payload_as_type() {
    let r: Result<CmsgCharCreate, ReadError> = ClientMessage::read_as(b"A\0\x01\x01\x01\x01\x01\x01\x01\x01".to_vec());
    assert_eq!(r.unwrap().name, NullString(b"A".to_vec()));
}

#[test]
fn packed_guid_image_reads_back_as_unit_target() {
    let guid = ObjectGuid { raw: 0xF130_0000_1234_0077 };
    let mut data = vec![0x85, 0, 0, 0, 1, 0x02, 0, 0, 0];
    guid.as_packed().encode_into(&mut data);
    let msg = CmsgCastSpell::read(&data).unwrap();
    assert_eq!(msg.cast_targets.unit_guid, Some(guid));
}

fn point(x: f32, y: f32, z: f32) -> Vector3 {
    Vector3 { x: x.to_bits(), y: y.to_bits(), z: z.to_bits() }
}

#[test]
fn monster_move_flying_cyclic_repeats_first_point() {
    let guid = ObjectGuid { raw: 0xF130_0000_0000_0001 };
    let path = vec![point(1.0, 2.0, 3.0), point(4.0, 5.0, 6.0)];
    let flags = SPLINE_FLAG_FLYING | SPLINE_FLAG_CYCLIC;
    let msg = SmsgMonsterMove::build(&guid, &point(0.0, 0.0, 0.0), path, 9, 0, flags, 1500, Vec::new());
    assert_eq!(msg.point_count, 3);
    assert_eq!(msg.tick_count, 9);
    assert!(msg.linear_path.is_none());
    let points = &msg.catmullrom_path.as_ref().unwrap().points;
    assert_eq!(points, &vec![point(1.0, 2.0, 3.0), point(1.0, 2.0, 3.0), point(4.0, 5.0, 6.0)]);
}

#[test]
fn monster_move_flying_sends_the_path() {
    let guid = ObjectGuid { raw: 5 };
    let path = vec![point(1.0, 2.0, 3.0), point(4.0, 5.0, 6.0)];
    let msg = SmsgMonsterMove::build(&guid, &point(0.0, 0.0, 0.0), path, 1, 0, SPLINE_FLAG_FLYING, 10, Vec::new());
    assert_eq!(msg.point_count, 2);
    assert_eq!(msg.catmullrom_path.as_ref().unwrap().points.len(), 2);
}

#[test]
fn monster_move_walking_sends_destination_and_offsets() {
    let guid = ObjectGuid { raw: 5 };
    let path = vec![point(1.0, 2.0, 3.0), point(4.0, 5.0, 6.0), point(7.0, 8.0, 9.0)];
    let msg = SmsgMonsterMove::build(&guid, &point(0.0, 0.0, 0.0), path, 1, 0, 0x100, 10, vec![11, 22]);
    assert_eq!(msg.point_count, 3);
    assert!(msg.catmullrom_path.is_none());
    let linear = msg.linear_path.as_ref().unwrap();
    assert_eq!(linear.destination, point(7.0, 8.0, 9.0));
    assert_eq!(linear.points, vec![11, 22]);
    // packed guid (2) + position (12) + tick (4) + type (1) + flags (4) + duration (4)
    // + count (4) + destination (12) + two packed offsets (8)
    assert_eq!(msg.encode().len(), 2 + 12 + 4 + 1 + 4 + 4 + 4 + 12 + 8);
}

#[test]
fn target_masks_with_unknown_kinds_are_found() {
    assert!(target_mask_known(&[0x02, 0, 0, 0], 0));
    assert!(target_mask_known(&[0xFF, 0xFF, 0x01, 0], 0));
    assert!(!target_mask_known(&[0, 0, 0x02, 0], 0));
    assert!(!target_mask_known(&[9, 0, 0, 0, 0x80], 1));
    assert!(target_mask_known(&[0, 0, 0x02], 0));
}
