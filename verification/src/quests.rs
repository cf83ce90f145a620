//! Quest templates as the quest messages read them, and the rules that turn a
//! template into what the client is shown.
use crate::codec::NullString;
use crate::constants::{PlayerQuestStatus, MAX_QUEST_CHOICE_REWARDS_COUNT, MAX_QUEST_REWARDS_COUNT};
use crate::protocol::packets::quest_packets::SmsgQuestGiverQuestComplete;
use vstd::prelude::*;

verus! {

/// The parts of a quest template that the quest messages are made of. Texts are
/// UTF-8 bytes; coordinates are the bits of `f32` values.
#[derive(Debug, Clone, PartialEq, Eq)]
pub struct QuestTemplate {
    pub entry: u32,
    pub method: u32,
    pub zone_or_sort: i32,
    pub level: i32,
    pub type_: u32,
    pub suggested_players: u32,
    pub rep_objective_faction: u32,
    pub rep_objective_value: u32,
    pub next_quest_in_chain: u32,
    pub required_or_reward_money: i32,
    pub reward_money_max_level: u32,
    pub reward_spell: u32,
    pub reward_spell_cast: u32,
    pub reward_honorable_kills: u32,
    pub source_item_id: u32,
    /// The bits of the quest's flags.
    pub flags: u32,
    pub character_title: u32,
    pub title: Option<Vec<u8>>,
    pub details: Option<Vec<u8>>,
    pub objectives: Option<Vec<u8>>,
    pub offer_reward_text: Option<Vec<u8>>,
    pub request_items_text: Option<Vec<u8>>,
    pub end_text: Option<Vec<u8>>,
    pub objective_texts: [Option<Vec<u8>>; 4],
    /// A creature when positive, a game object when negative.
    pub required_entity_ids: [i32; 4],
    pub required_entity_counts: [u32; 4],
    pub required_item_ids: [u32; 4],
    pub required_item_counts: [u32; 4],
    pub reward_choice_item_ids: [u32; 6],
    pub reward_choice_item_counts: [u32; 6],
    pub reward_item_ids: [u32; 4],
    pub reward_item_counts: [u32; 4],
    pub point_map_id: u32,
    pub point_x: u32,
    pub point_y: u32,
    pub point_opt: u32,
    pub details_emotes: [u32; 4],
    pub details_emote_delays: [u32; 4],
    pub incomplete_emote: u32,
    pub complete_emote: u32,
    pub offer_reward_emotes: [u32; 4],
    pub offer_reward_emote_delays: [u32; 4],
}

/// The bytes of an optional text, empty when there is none.
pub open spec fn text_bytes(t: Option<Vec<u8>>) -> Seq<u8> {
    match t {
        Some(v) => v@,
        None => Seq::empty(),
    }
}

/// The text as a message string: the empty string when there is none.
pub fn text_or_empty(t: &Option<Vec<u8>>) -> (r: NullString)
    ensures
        r.0@ == text_bytes(*t),
{
    match t {
        Some(v) => {
            let c = v.clone();
            assert(c@ =~= v@);
            NullString(c)
        },
        None => NullString(Vec::new()),
    }
}

/// What an entity objective is sent as: a creature entry as it is, a game object
/// entry (a negative number) as its magnitude masked with the top bit.
pub open spec fn spec_transform_entity_id(entity_id: i32) -> u32 {
    if entity_id >= 0 {
        entity_id as u32
    } else {
        ((-entity_id) as u32) & 0x8000_0000u32
    }
}

/// A creature objective (a nonnegative entry) is sent as its entry. A game object
/// objective (a negative entry) keeps only the top bit of its magnitude, which is
/// never set, so it is sent as 0.
pub proof fn lemma_transform_entity_id(entity_id: i32)
    requires
        entity_id != i32::MIN,
    ensures
        entity_id >= 0 ==> spec_transform_entity_id(entity_id) == entity_id,
        entity_id < 0 ==> spec_transform_entity_id(entity_id) == 0,
{
    if entity_id < 0 {
        let m: u32 = (-entity_id) as u32;
        assert(m < 0x8000_0000u32);
        assert(m & 0x8000_0000u32 == 0) by (bit_vector)
            requires
                m < 0x8000_0000u32,
        ;
    }
}

/// The objective entity id as the client reads it.
pub fn transform_entity_id(entity_id: i32) -> (r: u32)
    requires
        entity_id != i32::MIN,
    ensures
        r == spec_transform_entity_id(entity_id),
{
    if entity_id >= 0 {
        entity_id as u32
    } else {
        ((-entity_id) as u32) & 0x8000_0000u32
    }
}

/// The display id of an item in a catalogue of `(item id, display id)` pairs: that
/// of the first entry for the item, or 0 when the item is not listed.
pub open spec fn spec_display_id_of(catalog: Seq<(u32, u32)>, item_id: u32) -> u32
    decreases catalog.len(),
{
    if catalog.len() == 0 {
        0
    } else if catalog[0].0 == item_id {
        catalog[0].1
    } else {
        spec_display_id_of(catalog.drop_first(), item_id)
    }
}

/// The display id looked up for an item is that of the first catalogue entry for
/// the item; when no entry is for the item, it is 0.
pub proof fn lemma_display_id_is_catalogued(catalog: Seq<(u32, u32)>, item_id: u32)
    ensures
        (exists|k: int| 0 <= k < catalog.len() && #[trigger] catalog[k].0 == item_id) ==> exists|k: int|
            0 <= k < catalog.len() && #[trigger] catalog[k] == (item_id, spec_display_id_of(catalog, item_id))
                && forall|j: int| 0 <= j < k ==> catalog[j].0 != item_id,
        (forall|k: int| 0 <= k < catalog.len() ==> #[trigger] catalog[k].0 != item_id) ==> spec_display_id_of(
            catalog,
            item_id,
        ) == 0,
    decreases catalog.len(),
{
    if catalog.len() > 0 {
        let rest = catalog.drop_first();
        lemma_display_id_is_catalogued(rest, item_id);
        if catalog[0].0 == item_id {
            assert(catalog[0] == (item_id, spec_display_id_of(catalog, item_id)));
        } else {
            if exists|k: int| 0 <= k < catalog.len() && #[trigger] catalog[k].0 == item_id {
                let k = choose|k: int| 0 <= k < catalog.len() && #[trigger] catalog[k].0 == item_id;
                assert(rest[k - 1].0 == item_id);
                let k2 = choose|k2: int|
                    0 <= k2 < rest.len() && #[trigger] rest[k2] == (item_id, spec_display_id_of(rest, item_id))
                        && forall|j: int| 0 <= j < k2 ==> rest[j].0 != item_id;
                assert(catalog[k2 + 1] == (item_id, spec_display_id_of(catalog, item_id)));
                assert forall|j: int| 0 <= j < k2 + 1 implies catalog[j].0 != item_id by {
                    if j > 0 {
                        assert(catalog[j] == rest[j - 1]);
                    }
                }
            }
            if forall|k: int| 0 <= k < catalog.len() ==> #[trigger] catalog[k].0 != item_id {
                assert forall|k: int| 0 <= k < rest.len() implies #[trigger] rest[k].0 != item_id by {
                    assert(catalog[k + 1] == rest[k]);
                }
            }
        }
    }
}

/// Looks up the display id of `item_id`, 0 when the catalogue does not list it.
pub fn display_id_of(catalog: &Vec<(u32, u32)>, item_id: u32) -> (r: u32)
    ensures
        r == spec_display_id_of(catalog@, item_id),
{
    let mut i: usize = 0;
    assert(catalog@.skip(0) =~= catalog@);
    while i < catalog.len()
        invariant
            i <= catalog@.len(),
            spec_display_id_of(catalog@, item_id) == spec_display_id_of(catalog@.skip(i as int), item_id),
        decreases catalog@.len() - i,
    {
        assert(catalog@.skip(i as int).drop_first() =~= catalog@.skip(i + 1));
        if catalog[i].0 == item_id {
            return catalog[i].1;
        }
        i = i + 1;
    }
    0
}

/// The `(id, count)` pairs of the entries whose id is not zero, in order.
pub open spec fn nonzero_pairs(ids: Seq<u32>, counts: Seq<u32>) -> Seq<(u32, u32)>
    decreases ids.len(),
{
    if ids.len() == 0 {
        Seq::empty()
    } else {
        let last = ids.len() - 1;
        nonzero_pairs(ids.drop_last(), counts) + if ids[last] != 0 {
            seq![(ids[last], counts[last])]
        } else {
            Seq::empty()
        }
    }
}

/// True when `p` is a nonzero id of `ids` with the count at the same position.
pub open spec fn is_nonzero_entry(ids: Seq<u32>, counts: Seq<u32>, p: (u32, u32)) -> bool {
    exists|j: int| 0 <= j < ids.len() && ids[j] != 0 && #[trigger] ids[j] == p.0 && counts[j] == p.1
}

/// The pairs collected from `ids` and `counts` are exactly the nonzero ids with the
/// count at the same position: each collected pair is some nonzero id with its
/// count, and each nonzero id is collected with its count.
pub proof fn lemma_nonzero_pairs_come_from(ids: Seq<u32>, counts: Seq<u32>)
    ensures
        forall|i: int|
            0 <= i < nonzero_pairs(ids, counts).len() ==> is_nonzero_entry(ids, counts, #[trigger] nonzero_pairs(ids, counts)[i]),
        forall|j: int| 0 <= j < ids.len() && #[trigger] ids[j] != 0 ==> nonzero_pairs(ids, counts).contains((ids[j], counts[j])),
        nonzero_pairs(ids, counts).len() <= ids.len(),
    decreases ids.len(),
{
    if ids.len() > 0 {
        let rest = ids.drop_last();
        let last = ids.len() - 1;
        lemma_nonzero_pairs_come_from(rest, counts);
        let prev = nonzero_pairs(rest, counts);
        let np = nonzero_pairs(ids, counts);
        let tail = if ids[last] != 0 { seq![(ids[last], counts[last])] } else { Seq::<(u32, u32)>::empty() };
        assert(np == prev + tail);
        assert forall|i: int| 0 <= i < np.len() implies is_nonzero_entry(ids, counts, #[trigger] np[i]) by {
            if i < prev.len() {
                assert(np[i] == prev[i]);
                assert(is_nonzero_entry(rest, counts, prev[i]));
                let j = choose|j: int| 0 <= j < rest.len() && rest[j] != 0 && #[trigger] rest[j] == prev[i].0 && counts[j] == prev[i].1;
                assert(rest[j] == ids[j]);
            } else {
                assert(np[i] == (ids[last], counts[last]));
                assert(ids[last] == np[i].0);
            }
        }
        assert forall|j: int| 0 <= j < ids.len() && #[trigger] ids[j] != 0 implies np.contains((ids[j], counts[j])) by {
            if j < last {
                assert(rest[j] == ids[j]);
                assert(prev.contains((rest[j], counts[j])));
                let k = choose|k: int| 0 <= k < prev.len() && prev[k] == (rest[j], counts[j]);
                assert(np[k] == prev[k]);
            } else {
                assert(np[prev.len() as int] == (ids[j], counts[j]));
            }
        }
    }
}

/// Collects the `(id, count)` pairs whose id is not zero.
pub fn collect_nonzero(ids: &[u32], counts: &[u32]) -> (r: Vec<(u32, u32)>)
    requires
        ids@.len() <= counts@.len(),
    ensures
        r@ == nonzero_pairs(ids@, counts@),
        r@.len() <= ids@.len(),
{
    let mut out: Vec<(u32, u32)> = Vec::new();
    let mut i: usize = 0;
    while i < ids.len()
        invariant
            i <= ids@.len(),
            ids@.len() <= counts@.len(),
            out@ == nonzero_pairs(ids@.subrange(0, i as int), counts@),
            out@.len() <= i,
        decreases ids@.len() - i,
    {
        assert(ids@.subrange(0, i + 1).drop_last() =~= ids@.subrange(0, i as int));
        if ids[i] != 0 {
            out.push((ids[i], counts[i]));
        }
        i = i + 1;
        assert(out@ =~= nonzero_pairs(ids@.subrange(0, i as int), counts@));
    }
    assert(ids@.subrange(0, ids@.len() as int) =~= ids@);
    out
}

/// A record that shows an item to the client: its id, a count and its display id.
pub trait ItemRecord: Sized {
    /// The record of `count` items `id` shown with `display_id`.
    spec fn spec_new(id: u32, count: u32, display_id: u32) -> Self;

    /// Makes the record of `count` items `id` shown with `display_id`.
    fn new_record(id: u32, count: u32, display_id: u32) -> (r: Self)
        ensures
            r == Self::spec_new(id, count, display_id),
    ;
}

/// The records of `(id, count)` pairs, each with the display id the catalogue gives.
pub open spec fn item_records<T: ItemRecord>(pairs: Seq<(u32, u32)>, catalog: Seq<(u32, u32)>) -> Seq<T> {
    Seq::new(pairs.len(), |i: int| T::spec_new(pairs[i].0, pairs[i].1, spec_display_id_of(catalog, pairs[i].0)))
}

/// Makes the records of `(id, count)` pairs, looking each display id up in the catalogue.
pub fn make_item_records<T: ItemRecord>(pairs: &Vec<(u32, u32)>, catalog: &Vec<(u32, u32)>) -> (r: Vec<T>)
    ensures
        r@ == item_records::<T>(pairs@, catalog@),
{
    let mut out: Vec<T> = Vec::new();
    let mut i: usize = 0;
    while i < pairs.len()
        invariant
            i <= pairs@.len(),
            out@.len() == i,
            forall|j: int|
                0 <= j < i ==> #[trigger] out@[j] == T::spec_new(
                    pairs@[j].0,
                    pairs@[j].1,
                    spec_display_id_of(catalog@, pairs@[j].0),
                ),
        decreases pairs@.len() - i,
    {
        let (id, count) = pairs[i];
        let display_id = display_id_of(catalog, id);
        out.push(T::new_record(id, count, display_id));
        i = i + 1;
    }
    assert(out@ =~= item_records::<T>(pairs@, catalog@));
    out
}

/// The money a quest asks for: the template's amount when it is positive, else none.
pub open spec fn spec_required_money(money: i32) -> u32 {
    if money > 0 {
        money as u32
    } else {
        0
    }
}

impl QuestTemplate {
    /// The items the player may choose one of as a reward, as `(id, count)` pairs.
    pub fn reward_choice_items(&self) -> (r: Vec<(u32, u32)>)
        ensures
            r@ == nonzero_pairs(self.reward_choice_item_ids@, self.reward_choice_item_counts@),
            r@.len() <= MAX_QUEST_CHOICE_REWARDS_COUNT,
    {
        collect_nonzero(self.reward_choice_item_ids.as_slice(), self.reward_choice_item_counts.as_slice())
    }

    /// The items the player always receives as a reward, as `(id, count)` pairs.
    pub fn reward_items(&self) -> (r: Vec<(u32, u32)>)
        ensures
            r@ == nonzero_pairs(self.reward_item_ids@, self.reward_item_counts@),
            r@.len() <= MAX_QUEST_REWARDS_COUNT,
    {
        collect_nonzero(self.reward_item_ids.as_slice(), self.reward_item_counts.as_slice())
    }
}

/// What the quest giver answers when the player says a quest is done.
#[derive(Debug, Clone, Copy, PartialEq, Eq, Structural)]
pub enum QuestCompletionAnswer {
    /// Show what the quest still asks for.
    RequestItems,
    /// Show the rewards.
    OfferReward,
    /// Nothing is sent: the player does not have the quest, or has already handed it in.
    Nothing,
}

/// The answer to a quest completion: a quest in progress or with its objectives done
/// shows its request text when it has one and its rewards otherwise; any other
/// status, or no status at all, gets no answer.
pub fn quest_completion_answer(status: Option<PlayerQuestStatus>, has_request_items_text: bool) -> (r:
    QuestCompletionAnswer)
    ensures
        r == (match status {
            Some(PlayerQuestStatus::InProgress) | Some(PlayerQuestStatus::ObjectivesCompleted) => {
                if has_request_items_text {
                    QuestCompletionAnswer::RequestItems
                } else {
                    QuestCompletionAnswer::OfferReward
                }
            },
            _ => QuestCompletionAnswer::Nothing,
        }),
{
    match status {
        Some(PlayerQuestStatus::InProgress) | Some(PlayerQuestStatus::ObjectivesCompleted) => {
            if has_request_items_text {
                QuestCompletionAnswer::RequestItems
            } else {
                QuestCompletionAnswer::OfferReward
            }
        },
        _ => QuestCompletionAnswer::Nothing,
    }
}

impl SmsgQuestGiverQuestComplete {
    /// The message that a quest was handed in: its id, the experience gained, its
    /// money and ten times its honorable kills, with no reward item listed.
    pub fn for_reward(template: &QuestTemplate, xp: u32) -> (r: Self)
        requires
            template.reward_honorable_kills * 10 <= u32::MAX,
        ensures
            r.quest_id == template.entry,
            r.unk == 0x03,
            r.xp == xp,
            r.required_or_reward_money == template.required_or_reward_money,
            r.honorable_kills == 10 * template.reward_honorable_kills,
            r.reward_items_count == 0,
            r.reward_items@.len() == 0,
    {
        SmsgQuestGiverQuestComplete {
            quest_id: template.entry,
            unk: 0x03,
            xp,
            required_or_reward_money: template.required_or_reward_money,
            honorable_kills: 10 * template.reward_honorable_kills,
            reward_items_count: 0,
            reward_items: Vec::new(),
        }
    }
}

/// The quest offered next once a quest is handed in: the next quest of its chain,
/// when there is one, the quest giver starts it (`giver_starts` lists the quests it
/// starts) and the player may start it.
pub fn chained_quest_offer(next_quest_in_chain: u32, giver_starts: &Vec<u32>, player_can_start_next: bool) -> (r:
    Option<u32>)
    ensures
        r == (if next_quest_in_chain != 0 && giver_starts@.contains(next_quest_in_chain) && player_can_start_next {
            Some(next_quest_in_chain)
        } else {
            None
        }),
{
    if next_quest_in_chain == 0 || !player_can_start_next {
        return None;
    }
    let mut i: usize = 0;
    while i < giver_starts.len()
        invariant
            i <= giver_starts@.len(),
            next_quest_in_chain != 0,
            player_can_start_next,
            forall|j: int| 0 <= j < i ==> giver_starts@[j] != next_quest_in_chain,
        decreases giver_starts@.len() - i,
    {
        if giver_starts[i] == next_quest_in_chain {
            assert(giver_starts@[i as int] == next_quest_in_chain);
            assert(giver_starts@.contains(next_quest_in_chain));
            return Some(next_quest_in_chain);
        }
        i = i + 1;
    }
    None
}

} // verus!
