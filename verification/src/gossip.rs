//! Gossip menus: what a creature offers to talk about, which of its quests a player
//! is shown, and the message that shows the menu.
use crate::codec::NullString;
use crate::constants::{CharacterClass, GossipMenuItemIcon, GossipMenuOptionType, PlayerQuestStatus, QuestGiverStatus, TrainerType};
use crate::npcs::{spec_class_trainer_refusal_text, trainer_refusal};
use crate::entities::ObjectGuid;
use crate::protocol::packets::gossip_packets::{SmsgGossipMessage, SmsgGossipMessageMenuItem, SmsgGossipMessageMenuQuestItem};
use crate::quests::{text_bytes, text_or_empty};
use vstd::prelude::*;

verus! {

/// An option of a gossip menu.
#[derive(Debug, Clone, PartialEq, Eq)]
pub struct GossipMenuItem {
    pub icon: GossipMenuItemIcon,
    pub coded: bool,
    pub required_money: u32,
    pub message: Vec<u8>,
    pub box_message: Vec<u8>,
}

/// A quest shown in a gossip menu, with the icon of its status.
#[derive(Debug, Clone, Copy, PartialEq, Eq, Structural)]
pub struct GossipMenuQuest {
    pub quest_id: u32,
    pub icon: u32,
}

/// A gossip menu: its id, the text shown above it, its options and its quests.
#[derive(Debug, Clone, PartialEq, Eq)]
pub struct GossipMenu {
    pub menu_id: u32,
    pub title_text_id: u32,
    pub items: Vec<GossipMenuItem>,
    pub quests: Vec<GossipMenuQuest>,
}

/// A quest the creature starts, with the player's status in it (none when the player
/// never took it) and whether the player may start it.
#[derive(Debug, Clone, Copy, PartialEq, Eq, Structural)]
pub struct StartedQuest {
    pub quest_id: u32,
    pub status: Option<PlayerQuestStatus>,
    pub can_start: bool,
}

/// A quest the creature ends, with the player's status in it.
#[derive(Debug, Clone, Copy, PartialEq, Eq, Structural)]
pub struct EndedQuest {
    pub quest_id: u32,
    pub status: Option<PlayerQuestStatus>,
}

/// The quests a player is shown among those a creature starts: those the player
/// never took and may start, marked available.
pub open spec fn spec_started_entries(started: Seq<StartedQuest>) -> Seq<GossipMenuQuest>
    decreases started.len(),
{
    if started.len() == 0 {
        Seq::empty()
    } else {
        let q = started.last();
        spec_started_entries(started.drop_last()) + if q.status is None && q.can_start {
            seq![GossipMenuQuest { quest_id: q.quest_id, icon: QuestGiverStatus::Available.spec_value() as u32 }]
        } else {
            Seq::empty()
        }
    }
}

/// The quests a player is shown among those a creature ends: those in progress or
/// with their objectives done, both marked incomplete.
pub open spec fn spec_ended_entries(ended: Seq<EndedQuest>) -> Seq<GossipMenuQuest>
    decreases ended.len(),
{
    if ended.len() == 0 {
        Seq::empty()
    } else {
        let q = ended.last();
        spec_ended_entries(ended.drop_last()) + if q.status == Some(PlayerQuestStatus::InProgress) || q.status == Some(
            PlayerQuestStatus::ObjectivesCompleted,
        ) {
            seq![GossipMenuQuest { quest_id: q.quest_id, icon: QuestGiverStatus::Incomplete.spec_value() as u32 }]
        } else {
            Seq::empty()
        }
    }
}

/// A quest is offered as available only when the player never took it and may
/// start it: every such entry comes from a started quest in that state.
pub proof fn lemma_offered_quests_are_startable(started: Seq<StartedQuest>)
    ensures
        forall|k: int|
            0 <= k < spec_started_entries(started).len() ==> exists|i: int|
                0 <= i < started.len() && #[trigger] started[i].quest_id == (#[trigger] spec_started_entries(
                    started,
                )[k]).quest_id && started[i].status is None && started[i].can_start,
    decreases started.len(),
{
    if started.len() > 0 {
        let rest = started.drop_last();
        lemma_offered_quests_are_startable(rest);
        let entries = spec_started_entries(started);
        let prev = spec_started_entries(rest);
        assert forall|k: int| 0 <= k < entries.len() implies exists|i: int|
            0 <= i < started.len() && #[trigger] started[i].quest_id == (#[trigger] entries[k]).quest_id
                && started[i].status is None && started[i].can_start by {
            if k < prev.len() {
                assert(entries[k] == prev[k]);
                let i = choose|i: int|
                    0 <= i < rest.len() && #[trigger] rest[i].quest_id == (#[trigger] prev[k]).quest_id
                        && rest[i].status is None && rest[i].can_start;
                assert(started[i] == rest[i]);
            } else {
                assert(started[started.len() - 1] == started.last());
            }
        }
    }
}

impl GossipMenu {
    /// The menu of a creature without gossip: no id, no text, nothing to show.
    pub fn empty() -> (r: GossipMenu)
        ensures
            r.menu_id == 0,
            r.title_text_id == 0,
            r.items@.len() == 0,
            r.quests@.len() == 0,
    {
        GossipMenu { menu_id: 0, title_text_id: 0, items: Vec::new(), quests: Vec::new() }
    }

    /// Adds a quest with the icon of `status`.
    pub fn add_quest(&mut self, quest_id: u32, status: QuestGiverStatus)
        ensures
            final(self).menu_id == old(self).menu_id,
            final(self).title_text_id == old(self).title_text_id,
            final(self).items == old(self).items,
            final(self).quests@ == old(self).quests@.push(
                GossipMenuQuest { quest_id, icon: status.spec_value() as u32 },
            ),
    {
        self.quests.push(GossipMenuQuest { quest_id, icon: status.value() as u32 });
    }

    /// Adds the quests a player is shown: first those the creature starts, then
    /// those it ends, each in the order given.
    pub fn add_player_quests(&mut self, started: &Vec<StartedQuest>, ended: &Vec<EndedQuest>)
        ensures
            final(self).menu_id == old(self).menu_id,
            final(self).title_text_id == old(self).title_text_id,
            final(self).items == old(self).items,
            final(self).quests@ == old(self).quests@ + spec_started_entries(started@) + spec_ended_entries(ended@),
    {
        let ghost base = self.quests@;
        let mut i: usize = 0;
        while i < started.len()
            invariant
                i <= started@.len(),
                self.menu_id == old(self).menu_id,
                self.title_text_id == old(self).title_text_id,
                self.items == old(self).items,
                self.quests@ == base + spec_started_entries(started@.subrange(0, i as int)),
                base == old(self).quests@,
            decreases started@.len() - i,
        {
            let q = started[i];
            assert(started@.subrange(0, i + 1).drop_last() =~= started@.subrange(0, i as int));
            if q.status.is_none() && q.can_start {
                self.add_quest(q.quest_id, QuestGiverStatus::Available);
            }
            i = i + 1;
            assert(self.quests@ =~= base + spec_started_entries(started@.subrange(0, i as int)));
        }
        assert(started@.subrange(0, started@.len() as int) =~= started@);
        let ghost middle = self.quests@;
        let mut j: usize = 0;
        while j < ended.len()
            invariant
                j <= ended@.len(),
                self.menu_id == old(self).menu_id,
                self.title_text_id == old(self).title_text_id,
                self.items == old(self).items,
                self.quests@ == middle + spec_ended_entries(ended@.subrange(0, j as int)),
                middle == old(self).quests@ + spec_started_entries(started@),
            decreases ended@.len() - j,
        {
            let q = ended[j];
            assert(ended@.subrange(0, j + 1).drop_last() =~= ended@.subrange(0, j as int));
            let shown = match q.status {
                Some(PlayerQuestStatus::InProgress) | Some(PlayerQuestStatus::ObjectivesCompleted) => true,
                _ => false,
            };
            if shown {
                self.add_quest(q.quest_id, QuestGiverStatus::Incomplete);
            }
            j = j + 1;
            assert(self.quests@ =~= middle + spec_ended_entries(ended@.subrange(0, j as int)));
        }
        assert(ended@.subrange(0, ended@.len() as int) =~= ended@);
    }
}

/// What a gossip menu shows of a quest: its level and title.
#[derive(Debug, Clone, PartialEq, Eq)]
pub struct QuestSummary {
    pub quest_id: u32,
    pub level: i32,
    pub title: Option<Vec<u8>>,
}

/// The position of the first summary of quest `quest_id`.
pub open spec fn spec_summary_index(summaries: Seq<QuestSummary>, quest_id: u32) -> int
    decreases summaries.len(),
{
    if summaries.len() == 0 {
        0
    } else if summaries[0].quest_id == quest_id {
        0
    } else {
        1 + spec_summary_index(summaries.drop_first(), quest_id)
    }
}

/// True when some summary describes quest `quest_id`.
pub open spec fn has_summary(summaries: Seq<QuestSummary>, quest_id: u32) -> bool {
    exists|i: int| 0 <= i < summaries.len() && #[trigger] summaries[i].quest_id == quest_id
}

/// Finds the first summary of `quest_id`.
fn find_summary(summaries: &Vec<QuestSummary>, quest_id: u32) -> (r: usize)
    requires
        has_summary(summaries@, quest_id),
    ensures
        r == spec_summary_index(summaries@, quest_id),
        r < summaries@.len(),
        summaries@[r as int].quest_id == quest_id,
{
    let mut i: usize = 0;
    assert(summaries@.skip(0) =~= summaries@);
    while i < summaries.len()
        invariant
            i <= summaries@.len(),
            spec_summary_index(summaries@, quest_id) == i + spec_summary_index(summaries@.skip(i as int), quest_id),
            forall|k: int| 0 <= k < i ==> summaries@[k].quest_id != quest_id,
            has_summary(summaries@, quest_id),
        decreases summaries@.len() - i,
    {
        assert(summaries@.skip(i as int).drop_first() =~= summaries@.skip(i + 1));
        if summaries[i].quest_id == quest_id {
            return i;
        }
        i = i + 1;
    }
    assert(false);
    0
}

/// The option lines of a gossip message, numbered from 0.
pub open spec fn spec_menu_item_line(index: int, item: GossipMenuItem) -> (u32, GossipMenuItemIcon, bool, u32, Seq<u8>, Seq<u8>) {
    (index as u32, item.icon, item.coded, item.required_money, item.message@, item.box_message@)
}

impl SmsgGossipMessage {
    /// The message that shows `menu` from `source_guid`; each quest is shown with the
    /// level and title (empty when it has none) of its summary.
    pub fn from_gossip_menu(source_guid: &ObjectGuid, menu: &GossipMenu, summaries: &Vec<QuestSummary>) -> (r: Self)
        requires
            forall|i: int| 0 <= i < menu.quests@.len() ==> has_summary(summaries@, #[trigger] menu.quests@[i].quest_id),
        ensures
            r.source_guid == source_guid.raw,
            r.menu_id == menu.menu_id,
            r.title_text_id == menu.title_text_id,
            r.menu_items_count == menu.items@.len() as u32,
            r.menu_items@.len() == menu.items@.len(),
            forall|i: int|
                0 <= i < menu.items@.len() ==> {
                    let line = #[trigger] r.menu_items@[i];
                    (line.index, line.icon, line.coded, line.required_money, line.message.0@, line.box_message.0@)
                        == spec_menu_item_line(i, menu.items@[i])
                },
            r.menu_quest_items_count == menu.quests@.len() as u32,
            r.menu_quest_items@.len() == menu.quests@.len(),
            forall|i: int|
                0 <= i < menu.quests@.len() ==> {
                    let line = #[trigger] r.menu_quest_items@[i];
                    let summary = summaries@[spec_summary_index(summaries@, menu.quests@[i].quest_id)];
                    &&& line.quest_id == menu.quests@[i].quest_id
                    &&& line.icon == menu.quests@[i].icon
                    &&& line.quest_level == summary.level
                    &&& line.title.0@ == text_bytes(summary.title)
                },
    {
        let mut menu_items: Vec<SmsgGossipMessageMenuItem> = Vec::new();
        let mut i: usize = 0;
        while i < menu.items.len()
            invariant
                i <= menu.items@.len(),
                menu_items@.len() == i,
                forall|k: int|
                    0 <= k < i ==> {
                        let line = #[trigger] menu_items@[k];
                        (line.index, line.icon, line.coded, line.required_money, line.message.0@, line.box_message.0@)
                            == spec_menu_item_line(k, menu.items@[k])
                    },
            decreases menu.items@.len() - i,
        {
            let item = &menu.items[i];
            let message = item.message.clone();
            let box_message = item.box_message.clone();
            assert(message@ =~= item.message@);
            assert(box_message@ =~= item.box_message@);
            menu_items.push(
                SmsgGossipMessageMenuItem {
                    index: #[verifier::truncate] (i as u32),
                    icon: item.icon,
                    coded: item.coded,
                    required_money: item.required_money,
                    message: NullString(message),
                    box_message: NullString(box_message),
                },
            );
            i = i + 1;
        }
        let mut quest_items: Vec<SmsgGossipMessageMenuQuestItem> = Vec::new();
        let mut j: usize = 0;
        while j < menu.quests.len()
            invariant
                j <= menu.quests@.len(),
                quest_items@.len() == j,
                forall|i: int| 0 <= i < menu.quests@.len() ==> has_summary(summaries@, #[trigger] menu.quests@[i].quest_id),
                forall|k: int|
                    0 <= k < j ==> {
                        let line = #[trigger] quest_items@[k];
                        let summary = summaries@[spec_summary_index(summaries@, menu.quests@[k].quest_id)];
                        &&& line.quest_id == menu.quests@[k].quest_id
                        &&& line.icon == menu.quests@[k].icon
                        &&& line.quest_level == summary.level
                        &&& line.title.0@ == text_bytes(summary.title)
                    },
            decreases menu.quests@.len() - j,
        {
            let q = menu.quests[j];
            let at = find_summary(summaries, q.quest_id);
            let summary = &summaries[at];
            quest_items.push(
                SmsgGossipMessageMenuQuestItem {
                    quest_id: q.quest_id,
                    icon: q.icon,
                    quest_level: summary.level,
                    title: text_or_empty(&summary.title),
                },
            );
            j = j + 1;
        }
        let menu_items_count = menu.items.len() as u32;
        let menu_quest_items_count = menu.quests.len() as u32;
        SmsgGossipMessage {
            source_guid: source_guid.raw(),
            menu_id: menu.menu_id,
            title_text_id: menu.title_text_id,
            menu_items_count,
            menu_items,
            menu_quest_items_count,
            menu_quest_items: quest_items,
        }
    }
}

/// An option of a gossip menu as the database holds it: what choosing it does.
#[derive(Debug, Clone, Copy, PartialEq, Eq, Structural)]
pub struct GossipOptionRecord {
    pub option_type: GossipMenuOptionType,
}

/// What choosing an option of a gossip menu comes to.
#[derive(Debug, Clone, Copy, PartialEq, Eq, Structural)]
pub enum GossipOptionAction {
    /// No such option, or an option kind that is not handled: nothing happens.
    Ignore,
    /// The innkeeper's option: the menu closes and the player is asked to confirm
    /// the new home.
    BinderConfirm,
    /// A trainer option on a creature that trains nothing: the menu closes.
    CloseMenu,
    /// A class trainer of another class: it answers with this gossip text.
    RefuseWithText(u32),
    /// The trainer's list of spells is shown, for a trainer of this kind.
    ShowTrainerList(TrainerType),
}

/// The action for option `option_index` of a menu with `options`, chosen at a
/// creature that trains `trainer_type` (none when it trains nothing) for
/// `trainer_class`, by a player of `player_class`.
pub open spec fn spec_gossip_option_action(
    options: Seq<GossipOptionRecord>,
    option_index: u32,
    trainer_type: Option<TrainerType>,
    trainer_class: Option<CharacterClass>,
    player_class: CharacterClass,
) -> GossipOptionAction {
    if option_index >= options.len() {
        GossipOptionAction::Ignore
    } else {
        match options[option_index as int].option_type {
            GossipMenuOptionType::Innkeeper => GossipOptionAction::BinderConfirm,
            GossipMenuOptionType::Trainer => match trainer_type {
                None => GossipOptionAction::CloseMenu,
                Some(t) => if t == TrainerType::Class && player_class != trainer_class->0 {
                    GossipOptionAction::RefuseWithText(spec_class_trainer_refusal_text(trainer_class->0))
                } else {
                    GossipOptionAction::ShowTrainerList(t)
                },
            },
            _ => GossipOptionAction::Ignore,
        }
    }
}

/// Decides what choosing an option of a gossip menu does. A class trainer whose
/// trainer option is chosen must know its class.
pub fn gossip_option_action(
    options: &Vec<GossipOptionRecord>,
    option_index: u32,
    trainer_type: Option<TrainerType>,
    trainer_class: Option<CharacterClass>,
    player_class: CharacterClass,
) -> (r: GossipOptionAction)
    requires
        option_index < options@.len() && options@[option_index as int].option_type == GossipMenuOptionType::Trainer
            && trainer_type == Some(TrainerType::Class) ==> trainer_class is Some,
    ensures
        r == spec_gossip_option_action(options@, option_index, trainer_type, trainer_class, player_class),
{
    if option_index as usize >= options.len() {
        return GossipOptionAction::Ignore;
    }
    match options[option_index as usize].option_type {
        GossipMenuOptionType::Innkeeper => GossipOptionAction::BinderConfirm,
        GossipMenuOptionType::Trainer => match trainer_type {
            None => GossipOptionAction::CloseMenu,
            Some(t) => match trainer_refusal(t, trainer_class, player_class) {
                Some(text) => GossipOptionAction::RefuseWithText(text),
                None => GossipOptionAction::ShowTrainerList(t),
            },
        },
        _ => GossipOptionAction::Ignore,
    }
}

/// A class trainer shows its list only to players of its own class; to the others
/// it answers with the refusal text of its class.
pub proof fn lemma_class_trainer_serves_its_class(
    options: Seq<GossipOptionRecord>,
    option_index: u32,
    trainer_class: CharacterClass,
    player_class: CharacterClass,
)
    requires
        option_index < options.len(),
        options[option_index as int].option_type == GossipMenuOptionType::Trainer,
    ensures
        spec_gossip_option_action(options, option_index, Some(TrainerType::Class), Some(trainer_class), player_class)
            == if player_class == trainer_class {
            GossipOptionAction::ShowTrainerList(TrainerType::Class)
        } else {
            GossipOptionAction::RefuseWithText(spec_class_trainer_refusal_text(trainer_class))
        },
{
}

/// Every quest shown among those a creature starts is marked available.
pub proof fn lemma_started_entries_are_available(started: Seq<StartedQuest>)
    ensures
        forall|k: int|
            0 <= k < spec_started_entries(started).len() ==> (#[trigger] spec_started_entries(started)[k]).icon
                == QuestGiverStatus::Available.spec_value() as u32,
    decreases started.len(),
{
    if started.len() > 0 {
        lemma_started_entries_are_available(started.drop_last());
        let prev = spec_started_entries(started.drop_last());
        assert(forall|k: int| 0 <= k < prev.len() ==> spec_started_entries(started)[k] == prev[k]);
    }
}

/// Every quest shown among those a creature ends is marked incomplete and comes
/// from an ended quest that the player has in progress or with its objectives done.
pub proof fn lemma_ended_entries_are_incomplete(ended: Seq<EndedQuest>)
    ensures
        forall|k: int|
            0 <= k < spec_ended_entries(ended).len() ==> (#[trigger] spec_ended_entries(ended)[k]).icon
                == QuestGiverStatus::Incomplete.spec_value() as u32,
        forall|k: int|
            0 <= k < spec_ended_entries(ended).len() ==> exists|i: int|
                0 <= i < ended.len() && #[trigger] ended[i].quest_id == (#[trigger] spec_ended_entries(ended)[k]).quest_id
                    && (ended[i].status == Some(PlayerQuestStatus::InProgress) || ended[i].status == Some(
                    PlayerQuestStatus::ObjectivesCompleted,
                )),
    decreases ended.len(),
{
    if ended.len() > 0 {
        let rest = ended.drop_last();
        lemma_ended_entries_are_incomplete(rest);
        let prev = spec_ended_entries(rest);
        assert(forall|k: int| 0 <= k < prev.len() ==> spec_ended_entries(ended)[k] == prev[k]);
        assert forall|k: int| 0 <= k < spec_ended_entries(ended).len() implies exists|i: int|
            0 <= i < ended.len() && #[trigger] ended[i].quest_id == (#[trigger] spec_ended_entries(ended)[k]).quest_id
                && (ended[i].status == Some(PlayerQuestStatus::InProgress) || ended[i].status == Some(
                PlayerQuestStatus::ObjectivesCompleted,
            )) by {
            if k < prev.len() {
                let i = choose|i: int|
                    0 <= i < rest.len() && #[trigger] rest[i].quest_id == (#[trigger] prev[k]).quest_id && (rest[i].status
                        == Some(PlayerQuestStatus::InProgress) || rest[i].status == Some(
                        PlayerQuestStatus::ObjectivesCompleted,
                    ));
                assert(ended[i] == rest[i]);
            } else {
                assert(ended[ended.len() - 1] == ended.last());
            }
        }
    }
}

/// The option line at position `index` of a gossip message is numbered `index` and
/// shows the option's icon, coding, required money, message and box message.
pub proof fn lemma_menu_item_line_shows_option(index: int, item: GossipMenuItem)
    requires
        0 <= index <= u32::MAX,
    ensures
        spec_menu_item_line(index, item).0 == index,
        spec_menu_item_line(index, item).1 == item.icon,
        spec_menu_item_line(index, item).2 == item.coded,
        spec_menu_item_line(index, item).3 == item.required_money,
        spec_menu_item_line(index, item).4 == item.message@,
        spec_menu_item_line(index, item).5 == item.box_message@,
{
}

/// The summary found for a quest is the first summary of that quest.
pub proof fn lemma_summary_index_is_first(summaries: Seq<QuestSummary>, quest_id: u32)
    requires
        has_summary(summaries, quest_id),
    ensures
        0 <= spec_summary_index(summaries, quest_id) < summaries.len(),
        summaries[spec_summary_index(summaries, quest_id)].quest_id == quest_id,
        forall|j: int| 0 <= j < spec_summary_index(summaries, quest_id) ==> summaries[j].quest_id != quest_id,
    decreases summaries.len(),
{
    if summaries[0].quest_id != quest_id {
        let rest = summaries.drop_first();
        let k = choose|k: int| 0 <= k < summaries.len() && #[trigger] summaries[k].quest_id == quest_id;
        assert(rest[k - 1].quest_id == quest_id);
        lemma_summary_index_is_first(rest, quest_id);
        assert forall|j: int| 0 <= j < spec_summary_index(summaries, quest_id) implies summaries[j].quest_id != quest_id by {
            if j > 0 {
                assert(summaries[j] == rest[j - 1]);
            }
        }
    }
}

/// What choosing a gossip option does: nothing for an option that is not there or
/// of a kind that is not handled; the innkeeper's option asks to bind; a trainer
/// option closes the menu at a creature that trains nothing, and otherwise either
/// shows the list of the creature's trainer kind or, for a class trainer and a
/// player of another class, the refusal text of the trainer's class.
pub proof fn lemma_gossip_option_action_rules(
    options: Seq<GossipOptionRecord>,
    option_index: u32,
    trainer_type: Option<TrainerType>,
    trainer_class: Option<CharacterClass>,
    player_class: CharacterClass,
)
    ensures
        ({
            let a = spec_gossip_option_action(options, option_index, trainer_type, trainer_class, player_class);
            let chosen = options[option_index as int].option_type;
            &&& option_index >= options.len() ==> a == GossipOptionAction::Ignore
            &&& option_index < options.len() && chosen == GossipMenuOptionType::Innkeeper ==> a
                == GossipOptionAction::BinderConfirm
            &&& option_index < options.len() && chosen != GossipMenuOptionType::Innkeeper && chosen
                != GossipMenuOptionType::Trainer ==> a == GossipOptionAction::Ignore
            &&& option_index < options.len() && chosen == GossipMenuOptionType::Trainer && trainer_type is None ==> a
                == GossipOptionAction::CloseMenu
            &&& a matches GossipOptionAction::ShowTrainerList(t) ==> trainer_type == Some(t) && chosen
                == GossipMenuOptionType::Trainer && option_index < options.len() && (t == TrainerType::Class
                ==> player_class == trainer_class->0)
            &&& a matches GossipOptionAction::RefuseWithText(text) ==> trainer_type == Some(TrainerType::Class)
                && player_class != trainer_class->0 && text == spec_class_trainer_refusal_text(trainer_class->0)
        }),
{
}

} // verus!
