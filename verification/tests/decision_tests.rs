use rustbolt_world::constants::{CharacterClass, GossipMenuOptionType, SpellFailReason, TrainerType};
use rustbolt_world::gossip::{gossip_option_action, GossipOptionAction, GossipOptionRecord};
use rustbolt_world::items::ItemTemplate;
use rustbolt_world::entities::ObjectGuid;
use rustbolt_world::login::{login_answers, map_entry_answers, map_entry_answers_now, player_login_answers, LocalTime, LoginCharacter};
use rustbolt_world::npcs::{trainer_purchase, trainer_purchase_answers, TrainerPurchase};
use rustbolt_world::protocol::packets::item_packets::SmsgItemPushResult;
use rustbolt_world::protocol::packets::misc_packets::SmsgLoginVerifyWorld;
use rustbolt_world::protocol::packets::player_packets::MsgSetDungeonDifficulty;
use rustbolt_world::protocol::packets::spell_packets::{SmsgLearnedSpell, SmsgPlaySpellImpact, SmsgPlaySpellVisual};
use rustbolt_world::protocol::packets::trainer_packets::SmsgTrainerBuySucceeded;
use rustbolt_world::protocol::packets::item_packets::{ItemTemplateDamage, ItemTemplateSocket, ItemTemplateSpell, ItemTemplateStat};
use rustbolt_world::protocol::packets::spell_packets::SmsgCastFailed;
use rustbolt_world::protocol::packets::{ItemQueryResponse, SmsgItemQuerySingleResponse};
use rustbolt_world::quests::chained_quest_offer;
use rustbolt_world::repositories::{CharacterRepository, SpellCooldownRecord, TrainerSpellDbRecord};
use rustbolt_world::session::{check_login, LoginRefusal, WorldSessionState};
use rustbolt_world::spell_targets::{use_item_action, UseItemAction};

fn options() -> Vec<GossipOptionRecord> {
    vec![
        GossipOptionRecord { option_type: GossipMenuOptionType::Innkeeper },
        GossipOptionRecord { option_type: GossipMenuOptionType::Trainer },
        GossipOptionRecord { option_type: GossipMenuOptionType::Vendor },
    ]
}

#[test]
fn gossip_option_out_of_range_is_ignored() {
    let action = gossip_option_action(&options(), 3, None, None, CharacterClass::Mage);
    assert_eq!(action, GossipOptionAction::Ignore);
}

#[test]
fn gossip_innkeeper_asks_to_bind() {
    let action = gossip_option_action(&options(), 0, None, None, CharacterClass::Mage);
    assert_eq!(action, GossipOptionAction::BinderConfirm);
}

#[test]
fn gossip_trainer_option_without_trainer_closes_menu() {
    let action = gossip_option_action(&options(), 1, None, None, CharacterClass::Mage);
    assert_eq!(action, GossipOptionAction::CloseMenu);
}

#[test]
fn gossip_class_trainer_refuses_other_class() {
    let action = gossip_option_action(&options(), 1, Some(TrainerType::Class), Some(CharacterClass::Warrior), CharacterClass::Mage);
    assert_eq!(action, GossipOptionAction::RefuseWithText(4985));
    let action = gossip_option_action(&options(), 1, Some(TrainerType::Class), Some(CharacterClass::Mage), CharacterClass::Warrior);
    assert_eq!(action, GossipOptionAction::RefuseWithText(328));
}

#[test]
fn gossip_trainer_shows_its_list() {
    let action = gossip_option_action(&options(), 1, Some(TrainerType::Class), Some(CharacterClass::Mage), CharacterClass::Mage);
    assert_eq!(action, GossipOptionAction::ShowTrainerList(TrainerType::Class));
    let action = gossip_option_action(&options(), 1, Some(TrainerType::Tradeskill), None, CharacterClass::Rogue);
    assert_eq!(action, GossipOptionAction::ShowTrainerList(TrainerType::Tradeskill));
}

#[test]
fn gossip_unhandled_option_kind_is_ignored() {
    let action = gossip_option_action(&options(), 2, Some(TrainerType::Class), Some(CharacterClass::Mage), CharacterClass::Mage);
    assert_eq!(action, GossipOptionAction::Ignore);
}

#[test]
fn use_item_decisions() {
    assert_eq!(use_item_action(None, false, 1), UseItemAction::Ignore);
    assert_eq!(use_item_action(None, true, 1), UseItemAction::Ignore);
    assert_eq!(use_item_action(Some(433), false, 2), UseItemAction::StartCast { spell_id: 433 });
    assert_eq!(
        use_item_action(Some(433), true, 2),
        UseItemAction::CastFailed(SmsgCastFailed { spell_id: 433, result: SpellFailReason::SpellInProgress, cast_count: 2 })
    );
}

fn taught(spell_id: u32, spell_cost: u32) -> TrainerSpellDbRecord {
    TrainerSpellDbRecord {
        creature_template_entry_or_template_id: 1,
        spell_id,
        spell_cost,
        required_skill: 0,
        required_skill_value: 0,
        required_level: 1,
    }
}

#[test]
fn trainer_purchase_decisions() {
    let spells = vec![taught(133, 100), taught(168, 10), taught(133, 5)];
    assert_eq!(trainer_purchase(None, 133, 1000), TrainerPurchase::Ignored);
    assert_eq!(trainer_purchase(Some(&spells), 999, 1000), TrainerPurchase::Ignored);
    assert_eq!(trainer_purchase(Some(&spells), 133, 99), TrainerPurchase::CannotAfford);
    assert_eq!(trainer_purchase(Some(&spells), 133, 100), TrainerPurchase::Learn { spell_id: 133, cost: 100 });
    assert_eq!(trainer_purchase(Some(&spells), 168, 10), TrainerPurchase::Learn { spell_id: 168, cost: 10 });
}

#[test]
fn chained_quest_is_offered_when_possible() {
    let starts = vec![34, 40];
    assert_eq!(chained_quest_offer(34, &starts, true), Some(34));
    assert_eq!(chained_quest_offer(34, &starts, false), None);
    assert_eq!(chained_quest_offer(35, &starts, true), None);
    assert_eq!(chained_quest_offer(0, &vec![0], true), None);
}

#[test]
fn expired_cooldowns_are_not_saved() {
    let cooldowns = vec![
        SpellCooldownRecord { spell_id: 1, item_id: 0, end_ms: 999 },
        SpellCooldownRecord { spell_id: 2, item_id: 6948, end_ms: 1000 },
        SpellCooldownRecord { spell_id: 3, item_id: 0, end_ms: 5000 },
    ];
    let kept = CharacterRepository::cooldowns_to_save(&cooldowns, 1000);
    assert_eq!(kept, vec![cooldowns[1], cooldowns[2]]);
    assert!(CharacterRepository::cooldowns_to_save(&cooldowns, 6000).is_empty());
}

#[test]
fn login_needs_an_owned_character() {
    assert_eq!(check_login(7, Some(7)), Ok(()));
    assert_eq!(check_login(7, Some(8)), Err(LoginRefusal::OtherAccount));
    assert_eq!(check_login(7, None), Err(LoginRefusal::UnknownCharacter));
}

fn item_template() -> ItemTemplate {
    ItemTemplate {
        entry: 25,
        class: 2,
        subclass: 7,
        name: b"Worn Shortsword".to_vec(),
        display_id: 1542,
        quality: 1,
        flags: 0,
        buy_price: 35,
        sell_price: 7,
        inventory_type: 21,
        allowable_class: -1,
        allowable_race: -1,
        item_level: 2,
        required_level: 1,
        required_skill: 43,
        required_spell: 0,
        required_honor_rank: 0,
        required_city_rank: 0,
        required_reputation_faction: 0,
        required_reputation_rank: 0,
        max_count: 0,
        max_stack_count: 1,
        container_slots: 0,
        stats: vec![ItemTemplateStat { stat_type: 4, stat_value: 1 }],
        damages: vec![ItemTemplateDamage { damage_min: 1.0f32.to_bits(), damage_max: 3.0f32.to_bits(), damage_type: 0 }],
        armor: 0,
        holy_res: 0,
        fire_res: 1,
        nature_res: 2,
        frost_res: 3,
        shadow_res: 4,
        arcane_res: 5,
        delay: 1900,
        ammo_type: 0,
        ranged_mod_range: 0,
        spells: vec![ItemTemplateSpell { id: 0, trigger_id: 0, charges: 0, ppm_rate: 0, cooldown: -1, category: 0, category_cooldown: -1 }],
        bonding: 0,
        description: b"old".to_vec(),
        page_text: 0,
        language_id: 0,
        page_material: 0,
        start_quest: 0,
        lock_id: 0,
        material: 1,
        sheath: 3,
        random_property: 0,
        random_suffix: 0,
        block: 0,
        itemset: 0,
        max_durability: 20,
        area: 0,
        map: 0,
        bag_family: 0,
        totem_category: 0,
        sockets: vec![ItemTemplateSocket { color: 0, content: 0 }],
        socket_bonus: 0,
        gem_properties: 0,
        required_disenchant_skill: -1,
        armor_damage_modifier: 0,
        duration: 0,
    }
}

#[test]
fn item_template_answer() {
    let response = ItemQueryResponse::from_template(item_template());
    assert_eq!(response.item_id, 25);
    assert_eq!(response.item_class, 2);
    assert_eq!(response.item_subclass, 7);
    assert_eq!(response.item_unk, -1);
    assert_eq!(response.name.0, b"Worn Shortsword".to_vec());
    assert_eq!((response.name2, response.name3, response.name4), (0, 0, 0));
    assert_eq!(response.required_skill, 43);
    assert_eq!(response.required_skill_rank, 43);
    assert_eq!(response.resist_fire, 1);
    assert_eq!(response.resist_arcane, 5);
    assert_eq!(response.item_set, 0);
    assert_eq!(response.required_enchantment_skill, -1);
    assert_eq!(response.description.0, b"old".to_vec());
    assert_eq!(response.stats, vec![ItemTemplateStat { stat_type: 4, stat_value: 1 }]);
}

#[test]
fn item_query_for_known_and_unknown_items() {
    let known = SmsgItemQuerySingleResponse::for_item(25, Some(item_template()));
    assert_eq!(known.result, None);
    assert_eq!(known.template, Some(ItemQueryResponse::from_template(item_template())));
    let unknown = SmsgItemQuerySingleResponse::for_item(25, None);
    assert_eq!(unknown.result, Some(25 | 0x8000_0000));
    assert_eq!(unknown.template, None);
}

#[test]
fn trainer_purchase_answers_in_order() {
    let trainer = ObjectGuid { raw: 0xF130_0000_0000_0009 };
    let player = ObjectGuid { raw: 4 };
    let answers = trainer_purchase_answers(trainer, player, 133);
    assert_eq!(answers.trainer_visual, SmsgPlaySpellVisual { caster_guid: trainer, spell_art_kit: 0xB3 });
    assert_eq!(answers.player_impact, SmsgPlaySpellImpact { caster_guid: player, spell_art_kit: 0x16A });
    assert_eq!(answers.learned, SmsgLearnedSpell { spell_id: 133 });
    assert_eq!(answers.succeeded, SmsgTrainerBuySucceeded { trainer_guid: trainer, spell_id: 133 });
}

#[test]
fn vendor_item_push_notice() {
    let notice = SmsgItemPushResult::from_vendor(4, 23, 159, 5, 7);
    assert_eq!(notice.loot_source, 1);
    assert_eq!(notice.is_created, 0);
    assert_eq!(notice.is_visible_in_chat, 1);
    assert_eq!(notice.bag_slot, 255);
    assert_eq!(notice.item_slot, 23);
    assert_eq!(notice.count, 5);
    assert_eq!(notice.total_count_of_this_item_in_inventory, 7);
}

fn login_character(account_id: u32) -> LoginCharacter {
    LoginCharacter {
        guid: 2,
        account_id,
        map_id: 1,
        x: 10.5f32.to_bits(),
        y: (-3.0f32).to_bits(),
        z: 0.25f32.to_bits(),
        o: 1.0f32.to_bits(),
    }
}

#[test]
fn login_answers_in_order() {
    let now = LocalTime { year: 2024, month: 3, day: 15, weekday_from_sunday: 6, hour: 13, minute: 42 };
    let a = login_answers(7, &login_character(7), now);
    assert_eq!(a.dungeon_difficulty, MsgSetDungeonDifficulty { difficulty: 0, unk: 1, is_in_group: 0 });
    assert_eq!(
        a.verify_world,
        SmsgLoginVerifyWorld {
            map: 1,
            position_x: 10.5f32.to_bits(),
            position_y: (-3.0f32).to_bits(),
            position_z: 0.25f32.to_bits(),
            orientation: 1.0f32.to_bits(),
        }
    );
    assert_eq!(a.account_data_times.data, [0u32; 32]);
    assert_eq!((a.feature_system_status.unk, a.feature_system_status.voice_chat_enabled), (2, 0));
    assert_eq!(a.motd.line_count, 1);
    assert_eq!(a.motd.message.0, b"MOTD".to_vec());
    assert_eq!(a.entry.rest_start.rest_start, 0);
    assert_eq!(a.entry.bindpoint.homebind_x, (-8953.95f32).to_bits());
    assert_eq!(a.entry.bindpoint.homebind_y, 521.019f32.to_bits());
    assert_eq!(a.entry.bindpoint.homebind_z, 96.5399f32.to_bits());
    assert_eq!((a.entry.bindpoint.homebind_map_id, a.entry.bindpoint.homebind_area_id), (0, 85));
    assert_eq!(a.entry.tutorial_flags.tutorial_data0, 0);
    let expected = (2024u32 << 24) | (3 << 20) | (14 << 14) | (6 << 11) | (13 << 6) | 42;
    assert_eq!(a.entry.time_speed.timestamp, expected);
    assert_eq!(a.entry.time_speed.game_speed, 0.01666667f32.to_bits());
    assert_eq!(a.state, WorldSessionState::InWorld);
    assert_eq!((a.entry.init_world_states.map_id, a.entry.init_world_states.zone_id, a.entry.init_world_states.area_id), (0, 85, 154));
    assert_eq!(a.entry.init_world_states.block_count, 0);
}

#[test]
fn player_login_refusals_and_answers() {
    assert_eq!(player_login_answers(7, None).unwrap_err(), LoginRefusal::UnknownCharacter);
    assert_eq!(player_login_answers(7, Some(login_character(8))).unwrap_err(), LoginRefusal::OtherAccount);
    let answers = player_login_answers(7, Some(login_character(7))).unwrap();
    assert_eq!(answers.state, WorldSessionState::InWorld);
    let month = (answers.entry.time_speed.timestamp >> 20) & 0xF;
    assert!((1..=12).contains(&month));
}

#[test]
fn map_entry_answers_carry_the_local_time() {
    let now = LocalTime { year: 2023, month: 12, day: 1, weekday_from_sunday: 1, hour: 0, minute: 5 };
    let e = map_entry_answers(now);
    let expected = (2023u32 << 24) | (12 << 20) | (0 << 14) | (1 << 11) | (0 << 6) | 5;
    assert_eq!(e.time_speed.timestamp, expected);
    assert_eq!(e.rest_start.rest_start, 0);
    assert_eq!(e.init_world_states.area_id, 154);
    let live = map_entry_answers_now();
    let day = (live.time_speed.timestamp >> 14) & 0x3F;
    assert!(day <= 30);
}
