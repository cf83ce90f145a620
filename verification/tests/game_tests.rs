use rustbolt_world::codec::NullString;
use rustbolt_world::constants::{BuyFailedReason, SellFailedReason};
use rustbolt_world::npcs::{purchase, sale, PurchaseDecision, SaleDecision};
use rustbolt_world::constants::{
    CharacterClass, CharacterRace, ChatMessageType, Emote, GameObjectType, InventorySlot, InventoryType,
    LootSlotType, PlayerQuestStatus, TrainerSpellState, TrainerType,
};
use rustbolt_world::entities::ObjectGuid;
use rustbolt_world::game_objects::{GameObjectData, GameObjectRepository};
use rustbolt_world::npcs::{
    chat_distance, emote_plays_animation, loot_lines, masked_entry, trainer_refusal, vendor_inventory_answer,
    ItemSaleInfo, LootEntry, OfferedSpell,
};
use rustbolt_world::protocol::packets::chat_packets::SmsgTextEmote;
use rustbolt_world::protocol::packets::query_packets::{SmsgCreatureQueryResponseUnknownTemplate, SmsgQuestQueryResponse};
use rustbolt_world::protocol::packets::quest_packets::{
    QuestDetailsItemRewards, QuestGiverOfferRewardEmote, QuestGiverRequiredItem, SmsgQuestGiverOfferReward,
    SmsgQuestGiverQuestComplete, SmsgQuestGiverQuestDetails, SmsgQuestGiverRequestItems,
};
use rustbolt_world::protocol::packets::trainer_packets::{SmsgTrainerList, TrainerSpell};
use rustbolt_world::protocol::packets::SmsgItemQuerySingleResponse;
use rustbolt_world::quests::{quest_completion_answer, transform_entity_id, QuestCompletionAnswer, QuestTemplate};
use rustbolt_world::repositories::{
    CharacterRepository, CreatureBaseAttributesPerLevelDbRecord, CreatureRepository, EquippedItem,
    PlayerBaseAttributesPerLevelDbRecord, PlayerBaseHealthManaPerLevelDbRecord, PlayerTrainingState,
    TrainerSpellDbRecord, VendorItemDbRecord,
};

fn raw_words() -> [u32; 24] {
    let mut raw = [0u32; 24];
    for (i, w) in raw.iter_mut().enumerate() {
        *w = i as u32 * 10;
    }
    raw
}

#[test]
fn door_data_decodes_flags_and_ids() {
    let mut raw = raw_words();
    raw[0] = 1;
    raw[3] = 0;
    let data = GameObjectRepository::build_template_data(GameObjectType::Door, raw);
    assert_eq!(
        data,
        GameObjectData::Door {
            isStartOpen: true,
            openLockId: 10,
            autoCloseTimerSecs: 20,
            isNoDamageImmune: false,
            openTextId: 40,
            closeTextId: 50,
        }
    );
}

#[test]
fn chair_is_decoded_as_chest() {
    let raw = raw_words();
    let chair = GameObjectRepository::build_template_data(GameObjectType::Chair, raw);
    let chest = GameObjectRepository::build_template_data(GameObjectType::Chest, raw);
    assert_eq!(chair, chest);
    match chest {
        GameObjectData::Chest { lootTemplateEntry, usesGroupLootRules, .. } => {
            assert_eq!(lootTemplateEntry, 10);
            assert!(usesGroupLootRules);
        }
        _ => panic!("chest data expected"),
    }
}

#[test]
fn types_without_data_and_last_words() {
    let raw = raw_words();
    assert_eq!(GameObjectRepository::build_template_data(GameObjectType::Binder, raw), GameObjectData::Binder);
    assert_eq!(
        GameObjectRepository::build_template_data(GameObjectType::DuelArbiter, raw),
        GameObjectData::DualArbiter
    );
    match GameObjectRepository::build_template_data(GameObjectType::CapturePoint, raw) {
        GameObjectData::CapturePoint { maxTimeSecs, isLarge, .. } => {
            assert_eq!(maxTimeSecs, 170);
            assert!(isLarge);
        }
        _ => panic!("capture point data expected"),
    }
    let mut changed = raw;
    changed[23] = 1;
    changed[19] = 7;
    for t in [GameObjectType::CapturePoint, GameObjectType::Goober, GameObjectType::Chest] {
        assert_eq!(
            GameObjectRepository::build_template_data(t, raw),
            GameObjectRepository::build_template_data(t, changed)
        );
    }
}

fn quest() -> QuestTemplate {
    QuestTemplate {
        entry: 33,
        method: 2,
        zone_or_sort: 12,
        level: 5,
        type_: 0,
        suggested_players: 1,
        rep_objective_faction: 0,
        rep_objective_value: 0,
        next_quest_in_chain: 34,
        required_or_reward_money: -150,
        reward_money_max_level: 60,
        reward_spell: 0,
        reward_spell_cast: 0,
        reward_honorable_kills: 2,
        source_item_id: 0,
        flags: 8,
        character_title: 0,
        title: Some(b"Wolves Across the Border".to_vec()),
        details: Some(b"details".to_vec()),
        objectives: None,
        offer_reward_text: Some(b"thanks".to_vec()),
        request_items_text: None,
        end_text: None,
        objective_texts: [Some(b"kill".to_vec()), None, None, None],
        required_entity_ids: [299, -5, 0, 0],
        required_entity_counts: [10, 1, 0, 0],
        required_item_ids: [750, 0, 751, 0],
        required_item_counts: [8, 0, 2, 0],
        reward_choice_item_ids: [0, 11, 0, 12, 0, 0],
        reward_choice_item_counts: [0, 1, 0, 2, 0, 0],
        reward_item_ids: [20, 0, 0, 0],
        reward_item_counts: [3, 0, 0, 0],
        point_map_id: 0,
        point_x: 0,
        point_y: 0,
        point_opt: 0,
        details_emotes: [1, 2, 0, 0],
        details_emote_delays: [0, 100, 0, 0],
        incomplete_emote: 6,
        complete_emote: 5,
        offer_reward_emotes: [0, 4, 0, 7],
        offer_reward_emote_delays: [9, 8, 0, 6],
    }
}

fn catalog() -> Vec<(u32, u32)> {
    vec![(750, 7500), (11, 110), (20, 200), (11, 999)]
}

#[test]
fn entity_ids_for_game_objects_are_masked() {
    assert_eq!(transform_entity_id(299), 299);
    assert_eq!(transform_entity_id(-5), 0);
    assert_eq!(transform_entity_id(-0x7FFF_FFFF), 0);
    assert_eq!(transform_entity_id(i32::MAX), i32::MAX as u32);
}

#[test]
fn quest_query_response_from_template() {
    let r = SmsgQuestQueryResponse::from_template(&quest());
    assert_eq!(r.quest_id, 33);
    assert_eq!(r.quest_level, 5);
    assert_eq!(r.required_or_reward_money, -150);
    assert_eq!(r.quest_flags, 8);
    assert_eq!(r.title, NullString(b"Wolves Across the Border".to_vec()));
    assert_eq!(r.objectives, NullString(Vec::new()));
    assert_eq!(r.required_entities_and_items[0], [299, 10, 750, 8]);
    assert_eq!(r.required_entities_and_items[1], [0, 1, 0, 0]);
    assert_eq!(r.required_entities_and_items[2], [0, 0, 751, 2]);
    assert_eq!(r.objective_texts[0], NullString(b"kill".to_vec()));
    assert_eq!(r.objective_texts[1], NullString(Vec::new()));
    assert_eq!(r.reward_choice_items_id, [0, 11, 0, 12, 0, 0]);
}

#[test]
fn quest_details_list_rewards_with_display_ids() {
    let d = SmsgQuestGiverQuestDetails::from_template(77, &quest(), &catalog());
    assert_eq!(d.guid, 77);
    assert_eq!(d.reward_choice_items_count, 2);
    assert_eq!(
        d.reward_choice_items,
        vec![
            QuestDetailsItemRewards { item_id: 11, item_count: 1, item_display_id: 110 },
            QuestDetailsItemRewards { item_id: 12, item_count: 2, item_display_id: 0 },
        ]
    );
    assert_eq!(d.reward_items, vec![QuestDetailsItemRewards { item_id: 20, item_count: 3, item_display_id: 200 }]);
    assert_eq!(d.honor_reward, 20);
    assert!(!d.auto_accept);
    assert_eq!(d.emotes[1].emote, 2);
    assert_eq!(d.emotes[1].delay, 100);
}

#[test]
fn request_items_depend_on_completion() {
    let done = SmsgQuestGiverRequestItems::from_template(
        1,
        &PlayerQuestStatus::ObjectivesCompleted,
        false,
        &quest(),
        &catalog(),
    );
    assert_eq!(done.emote_id, 5);
    assert_eq!(done.flags1, 3);
    assert_eq!(done.required_money, 0);
    assert_eq!(done.auto_finish, 0);
    assert_eq!(done.text, NullString(Vec::new()));
    assert_eq!(
        done.required_items,
        vec![
            QuestGiverRequiredItem { id: 750, count: 8, display_id: 7500 },
            QuestGiverRequiredItem { id: 751, count: 2, display_id: 0 },
        ]
    );
    assert_eq!(done.required_items_count, 2);
    let mut paying = quest();
    paying.required_or_reward_money = 90;
    let open = SmsgQuestGiverRequestItems::from_template(1, &PlayerQuestStatus::InProgress, true, &paying, &catalog());
    assert_eq!(open.emote_id, 6);
    assert_eq!(open.flags1, 0);
    assert_eq!(open.required_money, 90);
    assert_eq!(open.auto_finish, 1);
    assert_eq!((open.flags2, open.flags3, open.flags4), (4, 8, 16));
}

#[test]
fn offer_reward_lists_emotes_and_items() {
    let r = SmsgQuestGiverOfferReward::from_template(5, true, &quest(), &catalog());
    assert_eq!(r.auto_finish, 1);
    assert_eq!(
        r.emotes,
        vec![QuestGiverOfferRewardEmote { delay: 8, id: 4 }, QuestGiverOfferRewardEmote { delay: 6, id: 7 }]
    );
    assert_eq!(r.emote_count, 2);
    assert_eq!(r.choice_items_count, 2);
    assert_eq!(r.items_count, 1);
    assert_eq!(r.items[0].display_id, 200);
    assert_eq!(r.honor_reward, 20);
    assert_eq!(r.unk, 8);
    assert_eq!(r.text, NullString(b"thanks".to_vec()));
}

#[test]
fn quest_complete_notice() {
    let c = SmsgQuestGiverQuestComplete::from_template(33, 450, &quest());
    assert_eq!(c.unk, 3);
    assert_eq!(c.xp, 450);
    assert_eq!(c.honorable_kills, 20);
    assert_eq!(c.reward_items_count, 0);
    assert!(c.reward_items.is_empty());
}

#[test]
fn completion_answer() {
    assert_eq!(quest_completion_answer(Some(PlayerQuestStatus::InProgress), true), QuestCompletionAnswer::RequestItems);
    assert_eq!(
        quest_completion_answer(Some(PlayerQuestStatus::ObjectivesCompleted), false),
        QuestCompletionAnswer::OfferReward
    );
    assert_eq!(quest_completion_answer(Some(PlayerQuestStatus::TurnedIn), true), QuestCompletionAnswer::Nothing);
    assert_eq!(quest_completion_answer(None, false), QuestCompletionAnswer::Nothing);
}

#[test]
fn unknown_templates_are_masked() {
    assert_eq!(masked_entry(5), 0x8000_0005);
    assert_eq!(masked_entry(0x8000_0001), 0x8000_0001);
    assert_eq!(SmsgCreatureQueryResponseUnknownTemplate::for_entry(7).masked_entry, 0x8000_0007);
    let unknown = SmsgItemQuerySingleResponse::answer(25, None);
    assert_eq!(unknown.result, Some(0x8000_0019));
    assert!(unknown.template.is_none());
}

fn vendor_record(item_id: u32, max_count: Option<u32>, cost: Option<u32>) -> VendorItemDbRecord {
    VendorItemDbRecord {
        creature_template_entry_or_template_id: 1,
        item_id,
        max_count,
        increment_time: None,
        extended_cost_id: cost,
    }
}

#[test]
fn vendor_list_numbers_all_records() {
    let records = vec![
        vendor_record(159, None, None),
        vendor_record(404, Some(3), None),
        vendor_record(4540, Some(0), Some(12)),
    ];
    let infos = vec![
        ItemSaleInfo { entry: 159, display_id: 18084, buy_price: 25, max_durability: 0, buy_count: 5 },
        ItemSaleInfo { entry: 4540, display_id: 6399, buy_price: 1, max_durability: 0, buy_count: 1 },
    ];
    let guid = ObjectGuid { raw: 0xF130_0000_0000_0010 };
    let list = vendor_inventory_answer(guid, Some(&records), &infos);
    assert_eq!(list.inventory_size, 2);
    let items = list.items.unwrap();
    assert_eq!(items[0].index, 1);
    assert_eq!(items[0].item_count_at_vendor, 0xFFFF_FFFF);
    assert_eq!(items[0].price, 25);
    assert_eq!(items[1].index, 3);
    assert_eq!(items[1].item_id, 4540);
    assert_eq!(items[1].item_count_at_vendor, 0xFFFF_FFFF);
    assert_eq!(items[1].extended_cost_id, 12);
    let limited = vendor_inventory_answer(guid, Some(&vec![vendor_record(159, Some(3), None)]), &infos);
    assert_eq!(limited.items.unwrap()[0].item_count_at_vendor, 3);
}

#[test]
fn vendor_without_known_items_is_empty() {
    let guid = ObjectGuid { raw: 1 };
    let none = vendor_inventory_answer(guid, None, &Vec::new());
    assert_eq!(none.inventory_size, 0);
    assert_eq!(none.error_code, Some(0));
    let unknown = vendor_inventory_answer(guid, Some(&vec![vendor_record(1, None, None)]), &Vec::new());
    assert_eq!(unknown.items, None);
    assert_eq!(unknown.error_code, Some(0));
}

fn trainer_spell(spell_id: u32, skill_value: u32) -> TrainerSpellDbRecord {
    TrainerSpellDbRecord {
        creature_template_entry_or_template_id: 1,
        spell_id,
        spell_cost: 100,
        required_skill: 171,
        required_skill_value: skill_value,
        required_level: 10,
    }
}

fn player() -> PlayerTrainingState {
    PlayerTrainingState { level: 12, spells: vec![133], skills: vec![(171, 50)] }
}

#[test]
fn trainer_spell_states() {
    let p = player();
    assert_eq!(trainer_spell(0, 0).state_for_player(&p, 1), TrainerSpellState::Red);
    assert_eq!(trainer_spell(133, 0).state_for_player(&p, 1), TrainerSpellState::Gray);
    assert_eq!(trainer_spell(143, 0).state_for_player(&p, 13), TrainerSpellState::Red);
    assert_eq!(trainer_spell(143, 51).state_for_player(&p, 12), TrainerSpellState::Red);
    assert_eq!(trainer_spell(143, 50).state_for_player(&p, 12), TrainerSpellState::Green);
    let no_skill = PlayerTrainingState { level: 60, spells: Vec::new(), skills: Vec::new() };
    assert_eq!(trainer_spell(143, 1).state_for_player(&no_skill, 1), TrainerSpellState::Red);
    assert_eq!(trainer_spell(143, 0).state_for_player(&no_skill, 1), TrainerSpellState::Green);
}

#[test]
fn trainer_list_line_uses_the_larger_level() {
    let line = TrainerSpell::for_player(&trainer_spell(143, 0), &player(), Some(14));
    assert_eq!(line.required_level, 14);
    assert_eq!(line.state, TrainerSpellState::Red);
    assert_eq!(line.cost, 100);
    let line = TrainerSpell::for_player(&trainer_spell(143, 0), &player(), None);
    assert_eq!(line.required_level, 10);
    assert_eq!(line.state, TrainerSpellState::Green);
    assert_eq!(CreatureRepository::trainer_spell_required_level(0, 20), 20);
    assert_eq!(CreatureRepository::trainer_spell_required_level(8, 20), 8);
}

#[test]
fn trainer_list_shows_trainable_spells() {
    let offered = vec![
        OfferedSpell { spell: trainer_spell(143, 50), trainable: true, skill_required_level: None },
        OfferedSpell { spell: trainer_spell(144, 0), trainable: false, skill_required_level: None },
        OfferedSpell { spell: trainer_spell(145, 0), trainable: true, skill_required_level: Some(20) },
    ];
    let guid = ObjectGuid { raw: 77 };
    let list = SmsgTrainerList::for_player(guid, TrainerType::Tradeskill, &offered, &player());
    assert_eq!(list.trainer_guid, guid);
    assert_eq!(list.trainer_type, 2);
    assert_eq!(list.spell_count, 2);
    assert_eq!(list.spells[0], TrainerSpell::for_player(&trainer_spell(143, 50), &player(), None));
    assert_eq!(list.spells[1].spell_id, 145);
    assert_eq!(list.spells[1].required_level, 20);
    assert_eq!(list.title, NullString(b"Hello! Ready for some training?".to_vec()));
}

#[test]
fn class_trainers_refuse_other_classes() {
    assert_eq!(trainer_refusal(TrainerType::Class, Some(CharacterClass::Mage), CharacterClass::Warrior), Some(328));
    assert_eq!(trainer_refusal(TrainerType::Class, Some(CharacterClass::Mage), CharacterClass::Mage), None);
    assert_eq!(trainer_refusal(TrainerType::Tradeskill, None, CharacterClass::Rogue), None);
    assert_eq!(trainer_refusal(TrainerType::Class, Some(CharacterClass::Hunter), CharacterClass::Druid), Some(10090));
}

#[test]
fn loot_lines_carry_display_ids() {
    let entries = vec![
        LootEntry { index: 0, item_id: 750, count: 2, random_suffix: 0, random_property_id: 0 },
        LootEntry { index: 257, item_id: 20, count: 1, random_suffix: 3, random_property_id: 4 },
    ];
    let lines = loot_lines(&entries, &catalog());
    assert_eq!(lines[0].display_info_id, 7500);
    assert_eq!(lines[1].index, 1);
    assert_eq!(lines[1].display_info_id, 200);
    assert_eq!(lines[1].slot_type, LootSlotType::Normal);
}

#[test]
fn chat_and_emotes() {
    assert_eq!(chat_distance(ChatMessageType::Say), Some(40));
    assert_eq!(chat_distance(ChatMessageType::Emote), Some(40));
    assert_eq!(chat_distance(ChatMessageType::Yell), Some(300));
    assert_eq!(chat_distance(ChatMessageType::Whisper), None);
    assert!(!emote_plays_animation(Emote::StateSit));
    assert!(!emote_plays_animation(Emote::OneshotNone));
    assert!(emote_plays_animation(Emote::OneshotBow));
    let e = SmsgTextEmote::build(&ObjectGuid { raw: 4 }, 3, 1, NullString(b"Bob".to_vec()));
    assert_eq!(e.origin_guid, 4);
    assert_eq!(e.target_name_length, 3);
}

#[test]
fn char_enum_shows_last_item_per_type() {
    let gear = vec![
        EquippedItem { slot: InventorySlot::EquipmentHead, display_id: 11, inventory_type: 1 },
        EquippedItem { slot: InventorySlot::EquipmentFinger1, display_id: 21, inventory_type: 11 },
        EquippedItem { slot: InventorySlot::EquipmentFinger2, display_id: 22, inventory_type: 11 },
    ];
    let shown = CharacterRepository::char_enum_equipment(&gear);
    assert_eq!(shown.len(), 20);
    assert_eq!((shown[0].display_id, shown[0].slot), (11, 1));
    assert_eq!((shown[1].display_id, shown[1].slot), (0, 2));
    assert_eq!(shown[10].display_id, 22);
    assert_eq!(shown[11].display_id, 22);
    assert_eq!((shown[19].display_id, shown[19].slot), (0, 0));
    assert_eq!(
        CharacterRepository::to_inventory_type_for_enum(&InventorySlot::EquipmentBack),
        InventoryType::Cloak
    );
}

#[test]
fn per_level_keys() {
    let hm = PlayerBaseHealthManaPerLevelDbRecord { class: CharacterClass::Mage, level: 60, base_health: 1, base_mana: 2 };
    assert_eq!(hm.key(), (8 << 8) | 60);
    let attr = PlayerBaseAttributesPerLevelDbRecord {
        race: CharacterRace::Orc,
        class: CharacterClass::Warrior,
        level: 5,
        strength: 1,
        agility: 1,
        stamina: 1,
        intellect: 1,
        spirit: 1,
    };
    assert_eq!(attr.key(), (2 << 16) | (1 << 8) | 5);
    let creature = CreatureBaseAttributesPerLevelDbRecord {
        class: CharacterClass::Paladin,
        level: 3,
        health_exp0: 0,
        health_exp1: 0,
        mana: 0,
        damage_exp0: 0,
        damage_exp1: 0,
        melee_attack_power: 0,
        ranged_attack_power: 0,
        armor: 0,
    };
    assert_eq!(creature.key(), (2 << 16) | 3);
}

#[test]
fn purchases_from_vendor() {
    let records = vec![vendor_record(159, None, None), vendor_record(404, None, None), vendor_record(159, None, None)];
    assert_eq!(purchase(Some(&records), 159, Some(25), 5, 1000), PurchaseDecision::Buy { index: 0, price: 125 });
    assert_eq!(purchase(Some(&records), 404, Some(10), 1, 10), PurchaseDecision::Buy { index: 1, price: 10 });
    assert_eq!(
        purchase(Some(&records), 404, Some(10), 2, 19),
        PurchaseDecision::Refused(BuyFailedReason::NotEnoughtMoney)
    );
    assert_eq!(purchase(Some(&records), 999, Some(1), 1, 100), PurchaseDecision::Ignored);
    assert_eq!(purchase(Some(&records), 159, None, 1, 100), PurchaseDecision::Ignored);
}

#[test]
fn purchase_from_creature_without_inventory() {
    assert_eq!(purchase(None, 159, Some(25), 1, 1000), PurchaseDecision::NoInventory);
}

#[test]
fn sales_to_vendor() {
    assert_eq!(sale(None, 0, Some(5)), SaleDecision::Refused(SellFailedReason::CantFindItem));
    assert_eq!(sale(Some(4), 2, Some(5)), SaleDecision::Ignored);
    assert_eq!(sale(Some(4), 0, None), SaleDecision::Ignored);
    assert_eq!(sale(Some(4), 4, Some(0)), SaleDecision::Refused(SellFailedReason::CantSellItem));
    assert_eq!(sale(Some(4), 0, Some(5)), SaleDecision::Sell { price: 20 });
    assert_eq!(sale(Some(4), 4, Some(5)), SaleDecision::Sell { price: 20 });
}
