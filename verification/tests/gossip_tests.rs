use rustbolt_world::codec::NullString;
use rustbolt_world::constants::{GossipMenuItemIcon, PlayerQuestStatus, QuestGiverStatus};
use rustbolt_world::entities::ObjectGuid;
use rustbolt_world::gossip::{EndedQuest, GossipMenu, GossipMenuItem, GossipMenuQuest, QuestSummary, StartedQuest};
use rustbolt_world::protocol::packets::gossip_packets::SmsgGossipMessage;

#[test]
fn player_sees_startable_and_unfinished_quests() {
    let mut menu = GossipMenu::empty();
    let started = vec![
        StartedQuest { quest_id: 1, status: None, can_start: true },
        StartedQuest { quest_id: 2, status: None, can_start: false },
        StartedQuest { quest_id: 3, status: Some(PlayerQuestStatus::InProgress), can_start: true },
    ];
    let ended = vec![
        EndedQuest { quest_id: 4, status: Some(PlayerQuestStatus::InProgress) },
        EndedQuest { quest_id: 5, status: Some(PlayerQuestStatus::ObjectivesCompleted) },
        EndedQuest { quest_id: 6, status: Some(PlayerQuestStatus::TurnedIn) },
        EndedQuest { quest_id: 7, status: None },
    ];
    menu.add_player_quests(&started, &ended);
    assert_eq!(
        menu.quests,
        vec![
            GossipMenuQuest { quest_id: 1, icon: QuestGiverStatus::Available.value() as u32 },
            GossipMenuQuest { quest_id: 4, icon: QuestGiverStatus::Incomplete.value() as u32 },
            GossipMenuQuest { quest_id: 5, icon: QuestGiverStatus::Incomplete.value() as u32 },
        ]
    );
    assert_eq!(menu.quests[0].icon, 6);
    assert_eq!(menu.quests[1].icon, 3);
}

#[test]
fn gossip_message_lists_options_and_quests() {
    let menu = GossipMenu {
        menu_id: 4,
        title_text_id: 90,
        items: vec![GossipMenuItem {
            icon: GossipMenuItemIcon::Chat,
            coded: false,
            required_money: 0,
            message: b"Train me".to_vec(),
            box_message: Vec::new(),
        }],
        quests: vec![GossipMenuQuest { quest_id: 33, icon: 6 }],
    };
    let summaries = vec![
        QuestSummary { quest_id: 12, level: 1, title: None },
        QuestSummary { quest_id: 33, level: 5, title: Some(b"Wolves".to_vec()) },
    ];
    let msg = SmsgGossipMessage::from_gossip_menu(&ObjectGuid { raw: 8 }, &menu, &summaries);
    assert_eq!(msg.source_guid, 8);
    assert_eq!((msg.menu_id, msg.title_text_id), (4, 90));
    assert_eq!(msg.menu_items_count, 1);
    assert_eq!(msg.menu_items[0].index, 0);
    assert_eq!(msg.menu_items[0].message, NullString(b"Train me".to_vec()));
    assert_eq!(msg.menu_quest_items_count, 1);
    assert_eq!(msg.menu_quest_items[0].quest_level, 5);
    assert_eq!(msg.menu_quest_items[0].title, NullString(b"Wolves".to_vec()));
    assert_eq!(msg.menu_quest_items[0].icon, 6);
}
