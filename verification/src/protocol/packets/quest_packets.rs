//! Quest giver messages.
use crate::codec::{ClientPayload, NullString, ReadError, WireEncode};
use crate::constants::{PlayerQuestStatus, QuestGiverStatus};
use crate::protocol::server::ServerMessagePayload;
use crate::wire::{bool_u32, lemma_le_u32_roundtrip, from_le_u32, from_le_u64, get_u32_le, get_u64_le, le_u32, le_u64, lemma_le_u64_roundtrip, put_bool_u32, put_u8};
use vstd::seq_lib::lemma_concat_associative;
use crate::quests::{ItemRecord, QuestTemplate, is_nonzero_entry, item_records, lemma_nonzero_pairs_come_from, make_item_records, nonzero_pairs, spec_display_id_of, spec_required_money, text_bytes, text_or_empty};
use vstd::prelude::*;

verus! {

#[derive(Debug, PartialEq, Eq)]
pub struct CmsgQuestGiverStatusQuery {
    pub guid: u64,
}

impl ClientPayload for CmsgQuestGiverStatusQuery {
    open spec fn spec_accepts(data: Seq<u8>) -> bool {
        data.len() >= 8
    }

    open spec fn spec_reads_as(data: Seq<u8>, v: Self) -> bool {
        v == CmsgQuestGiverStatusQuery { guid: from_le_u64(data.subrange(0, 8)) }
    }

    fn read(data: &[u8]) -> (r: Result<Self, ReadError>) {
        if data.len() < 8 {
            return Err(ReadError::UnexpectedEnd);
        }
        Ok(CmsgQuestGiverStatusQuery { guid: get_u64_le(data, 0) })
    }
}

/// Reading the bytes of a `CmsgQuestGiverStatusQuery` (its fields in order, little-endian) gives it
/// back: each field is read from its own bytes.
pub proof fn lemma_cmsg_quest_giver_status_query_reads_back(v: CmsgQuestGiverStatusQuery)
    ensures
        CmsgQuestGiverStatusQuery::spec_accepts(le_u64(v.guid)),
        CmsgQuestGiverStatusQuery::spec_reads_as(le_u64(v.guid), v),
{
    let data = le_u64(v.guid);
    lemma_le_u64_roundtrip(v.guid);
    assert(data.subrange(0, 8) =~= le_u64(v.guid));
}

#[derive(Debug, PartialEq, Eq)]
pub struct SmsgQuestGiverStatus {
    pub guid: u64,
    pub status: QuestGiverStatus,
}

impl WireEncode for SmsgQuestGiverStatus {
    open spec fn spec_encode(&self) -> Seq<u8> {
        self.guid.spec_encode() + seq![self.status.spec_value() as u8]
    }

    fn encode_into(&self, out: &mut Vec<u8>) {
        self.guid.encode_into(out);
        put_u8(out, self.status.value() as u8);
        assert(out@ =~= old(out)@ + self.spec_encode());
    }
}

impl ServerMessagePayload for SmsgQuestGiverStatus {}

#[derive(Debug, PartialEq, Eq)]
pub struct SmsgQuestGiverStatusMultiple {
    pub count: u32,
    pub statuses: Vec<QuestGiverStatusMultipleEntry>,
}

impl WireEncode for SmsgQuestGiverStatusMultiple {
    open spec fn spec_encode(&self) -> Seq<u8> {
        self.count.spec_encode() + self.statuses.spec_encode()
    }

    fn encode_into(&self, out: &mut Vec<u8>) {
        self.count.encode_into(out);
        self.statuses.encode_into(out);
        assert(out@ =~= old(out)@ + self.spec_encode());
    }
}

impl ServerMessagePayload for SmsgQuestGiverStatusMultiple {}

/// The status of one quest giver.
#[derive(Debug, PartialEq, Eq)]
pub struct QuestGiverStatusMultipleEntry {
    pub guid: u64,
    pub status: QuestGiverStatus,
}

impl WireEncode for QuestGiverStatusMultipleEntry {
    open spec fn spec_encode(&self) -> Seq<u8> {
        self.guid.spec_encode() + seq![self.status.spec_value() as u8]
    }

    fn encode_into(&self, out: &mut Vec<u8>) {
        self.guid.encode_into(out);
        put_u8(out, self.status.value() as u8);
        assert(out@ =~= old(out)@ + self.spec_encode());
    }
}

#[derive(Debug, PartialEq, Eq)]
pub struct CmsgQuestGiverHello {
    pub guid: u64,
}

impl ClientPayload for CmsgQuestGiverHello {
    open spec fn spec_accepts(data: Seq<u8>) -> bool {
        data.len() >= 8
    }

    open spec fn spec_reads_as(data: Seq<u8>, v: Self) -> bool {
        v == CmsgQuestGiverHello { guid: from_le_u64(data.subrange(0, 8)) }
    }

    fn read(data: &[u8]) -> (r: Result<Self, ReadError>) {
        if data.len() < 8 {
            return Err(ReadError::UnexpectedEnd);
        }
        Ok(CmsgQuestGiverHello { guid: get_u64_le(data, 0) })
    }
}

/// Reading the bytes of a `CmsgQuestGiverHello` (its fields in order, little-endian) gives it
/// back: each field is read from its own bytes.
pub proof fn lemma_cmsg_quest_giver_hello_reads_back(v: CmsgQuestGiverHello)
    ensures
        CmsgQuestGiverHello::spec_accepts(le_u64(v.guid)),
        CmsgQuestGiverHello::spec_reads_as(le_u64(v.guid), v),
{
    let data = le_u64(v.guid);
    lemma_le_u64_roundtrip(v.guid);
    assert(data.subrange(0, 8) =~= le_u64(v.guid));
}

#[derive(Debug, PartialEq, Eq)]
pub struct CmsgQuestGiverQueryQuest {
    pub guid: u64,
    pub quest_id: u32,
}

impl ClientPayload for CmsgQuestGiverQueryQuest {
    open spec fn spec_accepts(data: Seq<u8>) -> bool {
        data.len() >= 12
    }

    open spec fn spec_reads_as(data: Seq<u8>, v: Self) -> bool {
        v == CmsgQuestGiverQueryQuest { guid: from_le_u64(data.subrange(0, 8)), quest_id: from_le_u32(data.subrange(8, 12)) }
    }

    fn read(data: &[u8]) -> (r: Result<Self, ReadError>) {
        if data.len() < 12 {
            return Err(ReadError::UnexpectedEnd);
        }
        Ok(CmsgQuestGiverQueryQuest { guid: get_u64_le(data, 0), quest_id: get_u32_le(data, 8) })
    }
}

/// Reading the bytes of a `CmsgQuestGiverQueryQuest` (its fields in order, little-endian) gives it
/// back: each field is read from its own bytes.
pub proof fn lemma_cmsg_quest_giver_query_quest_reads_back(v: CmsgQuestGiverQueryQuest)
    ensures
        CmsgQuestGiverQueryQuest::spec_accepts(le_u64(v.guid) + le_u32(v.quest_id)),
        CmsgQuestGiverQueryQuest::spec_reads_as(le_u64(v.guid) + le_u32(v.quest_id), v),
{
    let data = le_u64(v.guid) + le_u32(v.quest_id);
    lemma_le_u64_roundtrip(v.guid);
    assert(data.subrange(0, 8) =~= le_u64(v.guid));
    lemma_le_u32_roundtrip(v.quest_id);
    assert(data.subrange(8, 12) =~= le_u32(v.quest_id));
}

#[derive(Debug, PartialEq, Eq)]
pub struct SmsgQuestGiverQuestDetails {
    pub guid: u64,
    pub quest_id: u32,
    pub title: NullString,
    pub details: NullString,
    pub objectives: NullString,
    pub auto_accept: bool,
    pub suggested_players: u32,
    pub reward_choice_items_count: u32,
    pub reward_choice_items: Vec<QuestDetailsItemRewards>,
    pub reward_items_count: u32,
    pub reward_items: Vec<QuestDetailsItemRewards>,
    pub required_or_reward_money: i32,
    /// Need to multiply by 10
    pub honor_reward: u32,
    pub reward_spell: u32,
    pub reward_spell_cast: u32,
    pub reward_title_bit_index: u32,
    pub emotes: [QuestDetailsEmote; 4],
}

impl WireEncode for SmsgQuestGiverQuestDetails {
    open spec fn spec_encode(&self) -> Seq<u8> {
        self.guid.spec_encode() + self.quest_id.spec_encode() + self.title.spec_encode() + self.details.spec_encode() + self.objectives.spec_encode() + bool_u32(self.auto_accept) + self.suggested_players.spec_encode() + self.reward_choice_items_count.spec_encode() + self.reward_choice_items.spec_encode() + self.reward_items_count.spec_encode() + self.reward_items.spec_encode() + self.required_or_reward_money.spec_encode() + self.honor_reward.spec_encode() + self.reward_spell.spec_encode() + self.reward_spell_cast.spec_encode() + self.reward_title_bit_index.spec_encode() + self.emotes.spec_encode()
    }

    #[verifier::spinoff_prover]
    #[verifier::rlimit(80)]
    fn encode_into(&self, out: &mut Vec<u8>) {
        let ghost start = out@;
        self.guid.encode_into(out);
        let ghost mut acc = self.guid.spec_encode();
        self.quest_id.encode_into(out);
        proof {
            lemma_concat_associative(start, acc, self.quest_id.spec_encode());
            acc = acc + self.quest_id.spec_encode();
        }
        self.title.encode_into(out);
        proof {
            lemma_concat_associative(start, acc, self.title.spec_encode());
            acc = acc + self.title.spec_encode();
        }
        self.details.encode_into(out);
        proof {
            lemma_concat_associative(start, acc, self.details.spec_encode());
            acc = acc + self.details.spec_encode();
        }
        self.objectives.encode_into(out);
        proof {
            lemma_concat_associative(start, acc, self.objectives.spec_encode());
            acc = acc + self.objectives.spec_encode();
        }
        put_bool_u32(out, self.auto_accept);
        proof {
            lemma_concat_associative(start, acc, bool_u32(self.auto_accept));
            acc = acc + bool_u32(self.auto_accept);
        }
        self.suggested_players.encode_into(out);
        proof {
            lemma_concat_associative(start, acc, self.suggested_players.spec_encode());
            acc = acc + self.suggested_players.spec_encode();
        }
        self.reward_choice_items_count.encode_into(out);
        proof {
            lemma_concat_associative(start, acc, self.reward_choice_items_count.spec_encode());
            acc = acc + self.reward_choice_items_count.spec_encode();
        }
        self.reward_choice_items.encode_into(out);
        proof {
            lemma_concat_associative(start, acc, self.reward_choice_items.spec_encode());
            acc = acc + self.reward_choice_items.spec_encode();
        }
        self.reward_items_count.encode_into(out);
        proof {
            lemma_concat_associative(start, acc, self.reward_items_count.spec_encode());
            acc = acc + self.reward_items_count.spec_encode();
        }
        self.reward_items.encode_into(out);
        proof {
            lemma_concat_associative(start, acc, self.reward_items.spec_encode());
            acc = acc + self.reward_items.spec_encode();
        }
        self.required_or_reward_money.encode_into(out);
        proof {
            lemma_concat_associative(start, acc, self.required_or_reward_money.spec_encode());
            acc = acc + self.required_or_reward_money.spec_encode();
        }
        self.honor_reward.encode_into(out);
        proof {
            lemma_concat_associative(start, acc, self.honor_reward.spec_encode());
            acc = acc + self.honor_reward.spec_encode();
        }
        self.reward_spell.encode_into(out);
        proof {
            lemma_concat_associative(start, acc, self.reward_spell.spec_encode());
            acc = acc + self.reward_spell.spec_encode();
        }
        self.reward_spell_cast.encode_into(out);
        proof {
            lemma_concat_associative(start, acc, self.reward_spell_cast.spec_encode());
            acc = acc + self.reward_spell_cast.spec_encode();
        }
        self.reward_title_bit_index.encode_into(out);
        proof {
            lemma_concat_associative(start, acc, self.reward_title_bit_index.spec_encode());
            acc = acc + self.reward_title_bit_index.spec_encode();
        }
        self.emotes.encode_into(out);
        proof {
            lemma_concat_associative(start, acc, self.emotes.spec_encode());
            acc = acc + self.emotes.spec_encode();
        }
        assert(acc == self.spec_encode());
    }
}

impl ServerMessagePayload for SmsgQuestGiverQuestDetails {}

/// A reward item shown in quest details.
#[derive(Debug, PartialEq, Eq)]
pub struct QuestDetailsItemRewards {
    pub item_id: u32,
    pub item_count: u32,
    pub item_display_id: u32,
}

impl WireEncode for QuestDetailsItemRewards {
    open spec fn spec_encode(&self) -> Seq<u8> {
        self.item_id.spec_encode() + self.item_count.spec_encode() + self.item_display_id.spec_encode()
    }

    fn encode_into(&self, out: &mut Vec<u8>) {
        self.item_id.encode_into(out);
        self.item_count.encode_into(out);
        self.item_display_id.encode_into(out);
        assert(out@ =~= old(out)@ + self.spec_encode());
    }
}

/// The bytes of a `QuestDetailsItemRewards` hold its fields in declaration order, little-endian:
/// each field reads back from its own place.
pub proof fn lemma_quest_details_item_rewards_image_fields(v: QuestDetailsItemRewards)
    ensures
        v.spec_encode().len() == 12,
        from_le_u32(v.spec_encode().subrange(0, 4)) == v.item_id,
        from_le_u32(v.spec_encode().subrange(4, 8)) == v.item_count,
        from_le_u32(v.spec_encode().subrange(8, 12)) == v.item_display_id,
{
    let data = v.spec_encode();
    lemma_le_u32_roundtrip(v.item_id);
    assert(data.subrange(0, 4) =~= le_u32(v.item_id));
    lemma_le_u32_roundtrip(v.item_count);
    assert(data.subrange(4, 8) =~= le_u32(v.item_count));
    lemma_le_u32_roundtrip(v.item_display_id);
    assert(data.subrange(8, 12) =~= le_u32(v.item_display_id));
}

/// An emote shown with quest details.
#[derive(Debug, PartialEq, Eq)]
pub struct QuestDetailsEmote {
    pub emote: u32,
    pub delay: u32,
}

impl WireEncode for QuestDetailsEmote {
    open spec fn spec_encode(&self) -> Seq<u8> {
        self.emote.spec_encode() + self.delay.spec_encode()
    }

    fn encode_into(&self, out: &mut Vec<u8>) {
        self.emote.encode_into(out);
        self.delay.encode_into(out);
        assert(out@ =~= old(out)@ + self.spec_encode());
    }
}

/// The bytes of a `QuestDetailsEmote` hold its fields in declaration order, little-endian:
/// each field reads back from its own place.
pub proof fn lemma_quest_details_emote_image_fields(v: QuestDetailsEmote)
    ensures
        v.spec_encode().len() == 8,
        from_le_u32(v.spec_encode().subrange(0, 4)) == v.emote,
        from_le_u32(v.spec_encode().subrange(4, 8)) == v.delay,
{
    let data = v.spec_encode();
    lemma_le_u32_roundtrip(v.emote);
    assert(data.subrange(0, 4) =~= le_u32(v.emote));
    lemma_le_u32_roundtrip(v.delay);
    assert(data.subrange(4, 8) =~= le_u32(v.delay));
}

#[derive(Debug, PartialEq, Eq)]
pub struct CmsgQuestGiverAcceptQuest {
    pub guid: u64,
    pub quest_id: u32,
}

impl ClientPayload for CmsgQuestGiverAcceptQuest {
    open spec fn spec_accepts(data: Seq<u8>) -> bool {
        data.len() >= 12
    }

    open spec fn spec_reads_as(data: Seq<u8>, v: Self) -> bool {
        v == CmsgQuestGiverAcceptQuest { guid: from_le_u64(data.subrange(0, 8)), quest_id: from_le_u32(data.subrange(8, 12)) }
    }

    fn read(data: &[u8]) -> (r: Result<Self, ReadError>) {
        if data.len() < 12 {
            return Err(ReadError::UnexpectedEnd);
        }
        Ok(CmsgQuestGiverAcceptQuest { guid: get_u64_le(data, 0), quest_id: get_u32_le(data, 8) })
    }
}

/// Reading the bytes of a `CmsgQuestGiverAcceptQuest` (its fields in order, little-endian) gives it
/// back: each field is read from its own bytes.
pub proof fn lemma_cmsg_quest_giver_accept_quest_reads_back(v: CmsgQuestGiverAcceptQuest)
    ensures
        CmsgQuestGiverAcceptQuest::spec_accepts(le_u64(v.guid) + le_u32(v.quest_id)),
        CmsgQuestGiverAcceptQuest::spec_reads_as(le_u64(v.guid) + le_u32(v.quest_id), v),
{
    let data = le_u64(v.guid) + le_u32(v.quest_id);
    lemma_le_u64_roundtrip(v.guid);
    assert(data.subrange(0, 8) =~= le_u64(v.guid));
    lemma_le_u32_roundtrip(v.quest_id);
    assert(data.subrange(8, 12) =~= le_u32(v.quest_id));
}

#[derive(Debug, PartialEq, Eq)]
pub struct CmsgQuestLogRemoveQuest {
    pub slot: u8,
}

impl ClientPayload for CmsgQuestLogRemoveQuest {
    open spec fn spec_accepts(data: Seq<u8>) -> bool {
        data.len() >= 1
    }

    open spec fn spec_reads_as(data: Seq<u8>, v: Self) -> bool {
        v == CmsgQuestLogRemoveQuest { slot: data[0] }
    }

    fn read(data: &[u8]) -> (r: Result<Self, ReadError>) {
        if data.len() < 1 {
            return Err(ReadError::UnexpectedEnd);
        }
        Ok(CmsgQuestLogRemoveQuest { slot: data[0] })
    }
}

/// Reading the bytes of a `CmsgQuestLogRemoveQuest` (its fields in order, little-endian) gives it
/// back: each field is read from its own bytes.
pub proof fn lemma_cmsg_quest_log_remove_quest_reads_back(v: CmsgQuestLogRemoveQuest)
    ensures
        CmsgQuestLogRemoveQuest::spec_accepts(seq![v.slot]),
        CmsgQuestLogRemoveQuest::spec_reads_as(seq![v.slot], v),
{
    let data = seq![v.slot];
    assert(data[0] == v.slot);
}

#[derive(Debug, PartialEq, Eq)]
pub struct CmsgQuestGiverCompleteQuest {
    pub guid: u64,
    pub quest_id: u32,
}

impl ClientPayload for CmsgQuestGiverCompleteQuest {
    open spec fn spec_accepts(data: Seq<u8>) -> bool {
        data.len() >= 12
    }

    open spec fn spec_reads_as(data: Seq<u8>, v: Self) -> bool {
        v == CmsgQuestGiverCompleteQuest { guid: from_le_u64(data.subrange(0, 8)), quest_id: from_le_u32(data.subrange(8, 12)) }
    }

    fn read(data: &[u8]) -> (r: Result<Self, ReadError>) {
        if data.len() < 12 {
            return Err(ReadError::UnexpectedEnd);
        }
        Ok(CmsgQuestGiverCompleteQuest { guid: get_u64_le(data, 0), quest_id: get_u32_le(data, 8) })
    }
}

/// Reading the bytes of a `CmsgQuestGiverCompleteQuest` (its fields in order, little-endian) gives it
/// back: each field is read from its own bytes.
pub proof fn lemma_cmsg_quest_giver_complete_quest_reads_back(v: CmsgQuestGiverCompleteQuest)
    ensures
        CmsgQuestGiverCompleteQuest::spec_accepts(le_u64(v.guid) + le_u32(v.quest_id)),
        CmsgQuestGiverCompleteQuest::spec_reads_as(le_u64(v.guid) + le_u32(v.quest_id), v),
{
    let data = le_u64(v.guid) + le_u32(v.quest_id);
    lemma_le_u64_roundtrip(v.guid);
    assert(data.subrange(0, 8) =~= le_u64(v.guid));
    lemma_le_u32_roundtrip(v.quest_id);
    assert(data.subrange(8, 12) =~= le_u32(v.quest_id));
}

#[derive(Debug, PartialEq, Eq)]
pub struct SmsgQuestGiverRequestItems {
    pub quest_giver_guid: u64,
    pub quest_id: u32,
    pub title: NullString,
    pub text: NullString,
    pub emote_delay: u32,
    pub emote_id: u32,
    pub auto_finish: u32,
    pub suggested_players: u32,
    pub required_money: u32,
    pub required_items_count: u32,
    pub required_items: Vec<QuestGiverRequiredItem>,
    pub flags1: u32,
    pub flags2: u32,
    pub flags3: u32,
    pub flags4: u32,
}

impl WireEncode for SmsgQuestGiverRequestItems {
    open spec fn spec_encode(&self) -> Seq<u8> {
        self.quest_giver_guid.spec_encode() + self.quest_id.spec_encode() + self.title.spec_encode() + self.text.spec_encode() + self.emote_delay.spec_encode() + self.emote_id.spec_encode() + self.auto_finish.spec_encode() + self.suggested_players.spec_encode() + self.required_money.spec_encode() + self.required_items_count.spec_encode() + self.required_items.spec_encode() + self.flags1.spec_encode() + self.flags2.spec_encode() + self.flags3.spec_encode() + self.flags4.spec_encode()
    }

    #[verifier::spinoff_prover]
    #[verifier::rlimit(80)]
    fn encode_into(&self, out: &mut Vec<u8>) {
        let ghost start = out@;
        self.quest_giver_guid.encode_into(out);
        let ghost mut acc = self.quest_giver_guid.spec_encode();
        self.quest_id.encode_into(out);
        proof {
            lemma_concat_associative(start, acc, self.quest_id.spec_encode());
            acc = acc + self.quest_id.spec_encode();
        }
        self.title.encode_into(out);
        proof {
            lemma_concat_associative(start, acc, self.title.spec_encode());
            acc = acc + self.title.spec_encode();
        }
        self.text.encode_into(out);
        proof {
            lemma_concat_associative(start, acc, self.text.spec_encode());
            acc = acc + self.text.spec_encode();
        }
        self.emote_delay.encode_into(out);
        proof {
            lemma_concat_associative(start, acc, self.emote_delay.spec_encode());
            acc = acc + self.emote_delay.spec_encode();
        }
        self.emote_id.encode_into(out);
        proof {
            lemma_concat_associative(start, acc, self.emote_id.spec_encode());
            acc = acc + self.emote_id.spec_encode();
        }
        self.auto_finish.encode_into(out);
        proof {
            lemma_concat_associative(start, acc, self.auto_finish.spec_encode());
            acc = acc + self.auto_finish.spec_encode();
        }
        self.suggested_players.encode_into(out);
        proof {
            lemma_concat_associative(start, acc, self.suggested_players.spec_encode());
            acc = acc + self.suggested_players.spec_encode();
        }
        self.required_money.encode_into(out);
        proof {
            lemma_concat_associative(start, acc, self.required_money.spec_encode());
            acc = acc + self.required_money.spec_encode();
        }
        self.required_items_count.encode_into(out);
        proof {
            lemma_concat_associative(start, acc, self.required_items_count.spec_encode());
            acc = acc + self.required_items_count.spec_encode();
        }
        self.required_items.encode_into(out);
        proof {
            lemma_concat_associative(start, acc, self.required_items.spec_encode());
            acc = acc + self.required_items.spec_encode();
        }
        self.flags1.encode_into(out);
        proof {
            lemma_concat_associative(start, acc, self.flags1.spec_encode());
            acc = acc + self.flags1.spec_encode();
        }
        self.flags2.encode_into(out);
        proof {
            lemma_concat_associative(start, acc, self.flags2.spec_encode());
            acc = acc + self.flags2.spec_encode();
        }
        self.flags3.encode_into(out);
        proof {
            lemma_concat_associative(start, acc, self.flags3.spec_encode());
            acc = acc + self.flags3.spec_encode();
        }
        self.flags4.encode_into(out);
        proof {
            lemma_concat_associative(start, acc, self.flags4.spec_encode());
            acc = acc + self.flags4.spec_encode();
        }
        assert(acc == self.spec_encode());
    }
}

impl ServerMessagePayload for SmsgQuestGiverRequestItems {}

/// An item a quest requires.
#[derive(Debug, PartialEq, Eq)]
pub struct QuestGiverRequiredItem {
    pub id: u32,
    pub count: u32,
    pub display_id: u32,
}

impl WireEncode for QuestGiverRequiredItem {
    open spec fn spec_encode(&self) -> Seq<u8> {
        self.id.spec_encode() + self.count.spec_encode() + self.display_id.spec_encode()
    }

    fn encode_into(&self, out: &mut Vec<u8>) {
        self.id.encode_into(out);
        self.count.encode_into(out);
        self.display_id.encode_into(out);
        assert(out@ =~= old(out)@ + self.spec_encode());
    }
}

/// The bytes of a `QuestGiverRequiredItem` hold its fields in declaration order, little-endian:
/// each field reads back from its own place.
pub proof fn lemma_quest_giver_required_item_image_fields(v: QuestGiverRequiredItem)
    ensures
        v.spec_encode().len() == 12,
        from_le_u32(v.spec_encode().subrange(0, 4)) == v.id,
        from_le_u32(v.spec_encode().subrange(4, 8)) == v.count,
        from_le_u32(v.spec_encode().subrange(8, 12)) == v.display_id,
{
    let data = v.spec_encode();
    lemma_le_u32_roundtrip(v.id);
    assert(data.subrange(0, 4) =~= le_u32(v.id));
    lemma_le_u32_roundtrip(v.count);
    assert(data.subrange(4, 8) =~= le_u32(v.count));
    lemma_le_u32_roundtrip(v.display_id);
    assert(data.subrange(8, 12) =~= le_u32(v.display_id));
}

#[derive(Debug, PartialEq, Eq)]
pub struct SmsgQuestGiverOfferReward {
    pub quest_giver_guid: u64,
    pub quest_id: u32,
    pub title: NullString,
    pub text: NullString,
    pub auto_finish: u32,
    pub suggested_players: u32,
    pub emote_count: u32,
    pub emotes: Vec<QuestGiverOfferRewardEmote>,
    pub choice_items_count: u32,
    pub choice_items: Vec<QuestGiverOfferRewardChoiceItem>,
    pub items_count: u32,
    pub items: Vec<QuestGiverOfferRewardItem>,
    pub required_or_reward_money: i32,
    /// Multiply by 10
    pub honor_reward: u32,
    /// 0x08
    pub unk: u32,
    pub reward_spell: u32,
    pub reward_spell_cast: u32,
    pub character_title_bit_index: u32,
}

impl WireEncode for SmsgQuestGiverOfferReward {
    open spec fn spec_encode(&self) -> Seq<u8> {
        self.quest_giver_guid.spec_encode() + self.quest_id.spec_encode() + self.title.spec_encode() + self.text.spec_encode() + self.auto_finish.spec_encode() + self.suggested_players.spec_encode() + self.emote_count.spec_encode() + self.emotes.spec_encode() + self.choice_items_count.spec_encode() + self.choice_items.spec_encode() + self.items_count.spec_encode() + self.items.spec_encode() + self.required_or_reward_money.spec_encode() + self.honor_reward.spec_encode() + self.unk.spec_encode() + self.reward_spell.spec_encode() + self.reward_spell_cast.spec_encode() + self.character_title_bit_index.spec_encode()
    }

    #[verifier::spinoff_prover]
    #[verifier::rlimit(80)]
    fn encode_into(&self, out: &mut Vec<u8>) {
        let ghost start = out@;
        self.quest_giver_guid.encode_into(out);
        let ghost mut acc = self.quest_giver_guid.spec_encode();
        self.quest_id.encode_into(out);
        proof {
            lemma_concat_associative(start, acc, self.quest_id.spec_encode());
            acc = acc + self.quest_id.spec_encode();
        }
        self.title.encode_into(out);
        proof {
            lemma_concat_associative(start, acc, self.title.spec_encode());
            acc = acc + self.title.spec_encode();
        }
        self.text.encode_into(out);
        proof {
            lemma_concat_associative(start, acc, self.text.spec_encode());
            acc = acc + self.text.spec_encode();
        }
        self.auto_finish.encode_into(out);
        proof {
            lemma_concat_associative(start, acc, self.auto_finish.spec_encode());
            acc = acc + self.auto_finish.spec_encode();
        }
        self.suggested_players.encode_into(out);
        proof {
            lemma_concat_associative(start, acc, self.suggested_players.spec_encode());
            acc = acc + self.suggested_players.spec_encode();
        }
        self.emote_count.encode_into(out);
        proof {
            lemma_concat_associative(start, acc, self.emote_count.spec_encode());
            acc = acc + self.emote_count.spec_encode();
        }
        self.emotes.encode_into(out);
        proof {
            lemma_concat_associative(start, acc, self.emotes.spec_encode());
            acc = acc + self.emotes.spec_encode();
        }
        self.choice_items_count.encode_into(out);
        proof {
            lemma_concat_associative(start, acc, self.choice_items_count.spec_encode());
            acc = acc + self.choice_items_count.spec_encode();
        }
        self.choice_items.encode_into(out);
        proof {
            lemma_concat_associative(start, acc, self.choice_items.spec_encode());
            acc = acc + self.choice_items.spec_encode();
        }
        self.items_count.encode_into(out);
        proof {
            lemma_concat_associative(start, acc, self.items_count.spec_encode());
            acc = acc + self.items_count.spec_encode();
        }
        self.items.encode_into(out);
        proof {
            lemma_concat_associative(start, acc, self.items.spec_encode());
            acc = acc + self.items.spec_encode();
        }
        self.required_or_reward_money.encode_into(out);
        proof {
            lemma_concat_associative(start, acc, self.required_or_reward_money.spec_encode());
            acc = acc + self.required_or_reward_money.spec_encode();
        }
        self.honor_reward.encode_into(out);
        proof {
            lemma_concat_associative(start, acc, self.honor_reward.spec_encode());
            acc = acc + self.honor_reward.spec_encode();
        }
        self.unk.encode_into(out);
        proof {
            lemma_concat_associative(start, acc, self.unk.spec_encode());
            acc = acc + self.unk.spec_encode();
        }
        self.reward_spell.encode_into(out);
        proof {
            lemma_concat_associative(start, acc, self.reward_spell.spec_encode());
            acc = acc + self.reward_spell.spec_encode();
        }
        self.reward_spell_cast.encode_into(out);
        proof {
            lemma_concat_associative(start, acc, self.reward_spell_cast.spec_encode());
            acc = acc + self.reward_spell_cast.spec_encode();
        }
        self.character_title_bit_index.encode_into(out);
        proof {
            lemma_concat_associative(start, acc, self.character_title_bit_index.spec_encode());
            acc = acc + self.character_title_bit_index.spec_encode();
        }
        assert(acc == self.spec_encode());
    }
}

impl ServerMessagePayload for SmsgQuestGiverOfferReward {}

/// An emote played when a quest reward is offered.
#[derive(Debug, PartialEq, Eq)]
pub struct QuestGiverOfferRewardEmote {
    pub delay: u32,
    pub id: u32,
}

impl WireEncode for QuestGiverOfferRewardEmote {
    open spec fn spec_encode(&self) -> Seq<u8> {
        self.delay.spec_encode() + self.id.spec_encode()
    }

    fn encode_into(&self, out: &mut Vec<u8>) {
        self.delay.encode_into(out);
        self.id.encode_into(out);
        assert(out@ =~= old(out)@ + self.spec_encode());
    }
}

/// The bytes of a `QuestGiverOfferRewardEmote` hold its fields in declaration order, little-endian:
/// each field reads back from its own place.
pub proof fn lemma_quest_giver_offer_reward_emote_image_fields(v: QuestGiverOfferRewardEmote)
    ensures
        v.spec_encode().len() == 8,
        from_le_u32(v.spec_encode().subrange(0, 4)) == v.delay,
        from_le_u32(v.spec_encode().subrange(4, 8)) == v.id,
{
    let data = v.spec_encode();
    lemma_le_u32_roundtrip(v.delay);
    assert(data.subrange(0, 4) =~= le_u32(v.delay));
    lemma_le_u32_roundtrip(v.id);
    assert(data.subrange(4, 8) =~= le_u32(v.id));
}

/// A reward item the player may choose.
#[derive(Debug, PartialEq, Eq)]
pub struct QuestGiverOfferRewardChoiceItem {
    pub id: u32,
    pub count: u32,
    pub display_id: u32,
}

impl WireEncode for QuestGiverOfferRewardChoiceItem {
    open spec fn spec_encode(&self) -> Seq<u8> {
        self.id.spec_encode() + self.count.spec_encode() + self.display_id.spec_encode()
    }

    fn encode_into(&self, out: &mut Vec<u8>) {
        self.id.encode_into(out);
        self.count.encode_into(out);
        self.display_id.encode_into(out);
        assert(out@ =~= old(out)@ + self.spec_encode());
    }
}

/// The bytes of a `QuestGiverOfferRewardChoiceItem` hold its fields in declaration order, little-endian:
/// each field reads back from its own place.
pub proof fn lemma_quest_giver_offer_reward_choice_item_image_fields(v: QuestGiverOfferRewardChoiceItem)
    ensures
        v.spec_encode().len() == 12,
        from_le_u32(v.spec_encode().subrange(0, 4)) == v.id,
        from_le_u32(v.spec_encode().subrange(4, 8)) == v.count,
        from_le_u32(v.spec_encode().subrange(8, 12)) == v.display_id,
{
    let data = v.spec_encode();
    lemma_le_u32_roundtrip(v.id);
    assert(data.subrange(0, 4) =~= le_u32(v.id));
    lemma_le_u32_roundtrip(v.count);
    assert(data.subrange(4, 8) =~= le_u32(v.count));
    lemma_le_u32_roundtrip(v.display_id);
    assert(data.subrange(8, 12) =~= le_u32(v.display_id));
}

/// A reward item the player always receives.
#[derive(Debug, PartialEq, Eq)]
pub struct QuestGiverOfferRewardItem {
    pub id: u32,
    pub count: u32,
    pub display_id: u32,
}

impl WireEncode for QuestGiverOfferRewardItem {
    open spec fn spec_encode(&self) -> Seq<u8> {
        self.id.spec_encode() + self.count.spec_encode() + self.display_id.spec_encode()
    }

    fn encode_into(&self, out: &mut Vec<u8>) {
        self.id.encode_into(out);
        self.count.encode_into(out);
        self.display_id.encode_into(out);
        assert(out@ =~= old(out)@ + self.spec_encode());
    }
}

/// The bytes of a `QuestGiverOfferRewardItem` hold its fields in declaration order, little-endian:
/// each field reads back from its own place.
pub proof fn lemma_quest_giver_offer_reward_item_image_fields(v: QuestGiverOfferRewardItem)
    ensures
        v.spec_encode().len() == 12,
        from_le_u32(v.spec_encode().subrange(0, 4)) == v.id,
        from_le_u32(v.spec_encode().subrange(4, 8)) == v.count,
        from_le_u32(v.spec_encode().subrange(8, 12)) == v.display_id,
{
    let data = v.spec_encode();
    lemma_le_u32_roundtrip(v.id);
    assert(data.subrange(0, 4) =~= le_u32(v.id));
    lemma_le_u32_roundtrip(v.count);
    assert(data.subrange(4, 8) =~= le_u32(v.count));
    lemma_le_u32_roundtrip(v.display_id);
    assert(data.subrange(8, 12) =~= le_u32(v.display_id));
}

#[derive(Debug, PartialEq, Eq)]
pub struct CmsgQuestGiverChooseReward {
    pub quest_giver_guid: u64,
    pub quest_id: u32,
    pub chosen_reward_index: u32,
}

impl ClientPayload for CmsgQuestGiverChooseReward {
    open spec fn spec_accepts(data: Seq<u8>) -> bool {
        data.len() >= 16
    }

    open spec fn spec_reads_as(data: Seq<u8>, v: Self) -> bool {
        v == CmsgQuestGiverChooseReward { quest_giver_guid: from_le_u64(data.subrange(0, 8)), quest_id: from_le_u32(data.subrange(8, 12)), chosen_reward_index: from_le_u32(data.subrange(12, 16)) }
    }

    fn read(data: &[u8]) -> (r: Result<Self, ReadError>) {
        if data.len() < 16 {
            return Err(ReadError::UnexpectedEnd);
        }
        Ok(CmsgQuestGiverChooseReward { quest_giver_guid: get_u64_le(data, 0), quest_id: get_u32_le(data, 8), chosen_reward_index: get_u32_le(data, 12) })
    }
}

/// Reading the bytes of a `CmsgQuestGiverChooseReward` (its fields in order, little-endian) gives it
/// back: each field is read from its own bytes.
pub proof fn lemma_cmsg_quest_giver_choose_reward_reads_back(v: CmsgQuestGiverChooseReward)
    ensures
        CmsgQuestGiverChooseReward::spec_accepts(le_u64(v.quest_giver_guid) + le_u32(v.quest_id) + le_u32(v.chosen_reward_index)),
        CmsgQuestGiverChooseReward::spec_reads_as(le_u64(v.quest_giver_guid) + le_u32(v.quest_id) + le_u32(v.chosen_reward_index), v),
{
    let data = le_u64(v.quest_giver_guid) + le_u32(v.quest_id) + le_u32(v.chosen_reward_index);
    lemma_le_u64_roundtrip(v.quest_giver_guid);
    assert(data.subrange(0, 8) =~= le_u64(v.quest_giver_guid));
    lemma_le_u32_roundtrip(v.quest_id);
    assert(data.subrange(8, 12) =~= le_u32(v.quest_id));
    lemma_le_u32_roundtrip(v.chosen_reward_index);
    assert(data.subrange(12, 16) =~= le_u32(v.chosen_reward_index));
}

#[derive(Debug, PartialEq, Eq)]
pub struct SmsgQuestGiverQuestComplete {
    pub quest_id: u32,
    /// 0x03
    pub unk: u32,
    pub xp: u32,
    pub required_or_reward_money: i32,
    /// Multiplied by 10
    pub honorable_kills: u32,
    pub reward_items_count: u32,
    pub reward_items: Vec<QuestCompleteRewardItem>,
}

impl WireEncode for SmsgQuestGiverQuestComplete {
    open spec fn spec_encode(&self) -> Seq<u8> {
        self.quest_id.spec_encode() + self.unk.spec_encode() + self.xp.spec_encode() + self.required_or_reward_money.spec_encode() + self.honorable_kills.spec_encode() + self.reward_items_count.spec_encode() + self.reward_items.spec_encode()
    }

    fn encode_into(&self, out: &mut Vec<u8>) {
        self.quest_id.encode_into(out);
        self.unk.encode_into(out);
        self.xp.encode_into(out);
        self.required_or_reward_money.encode_into(out);
        self.honorable_kills.encode_into(out);
        self.reward_items_count.encode_into(out);
        self.reward_items.encode_into(out);
        assert(out@ =~= old(out)@ + self.spec_encode());
    }
}

impl ServerMessagePayload for SmsgQuestGiverQuestComplete {}

/// An item given when a quest is completed.
#[derive(Debug, PartialEq, Eq)]
pub struct QuestCompleteRewardItem {
    pub id: u32,
    pub count: u32,
}

impl WireEncode for QuestCompleteRewardItem {
    open spec fn spec_encode(&self) -> Seq<u8> {
        self.id.spec_encode() + self.count.spec_encode()
    }

    fn encode_into(&self, out: &mut Vec<u8>) {
        self.id.encode_into(out);
        self.count.encode_into(out);
        assert(out@ =~= old(out)@ + self.spec_encode());
    }
}

/// The bytes of a `QuestCompleteRewardItem` hold its fields in declaration order, little-endian:
/// each field reads back from its own place.
pub proof fn lemma_quest_complete_reward_item_image_fields(v: QuestCompleteRewardItem)
    ensures
        v.spec_encode().len() == 8,
        from_le_u32(v.spec_encode().subrange(0, 4)) == v.id,
        from_le_u32(v.spec_encode().subrange(4, 8)) == v.count,
{
    let data = v.spec_encode();
    lemma_le_u32_roundtrip(v.id);
    assert(data.subrange(0, 4) =~= le_u32(v.id));
    lemma_le_u32_roundtrip(v.count);
    assert(data.subrange(4, 8) =~= le_u32(v.count));
}
impl ItemRecord for QuestDetailsItemRewards {
    open spec fn spec_new(id: u32, count: u32, display_id: u32) -> Self {
        QuestDetailsItemRewards { item_id: id, item_count: count, item_display_id: display_id }
    }

    fn new_record(id: u32, count: u32, display_id: u32) -> (r: Self) {
        QuestDetailsItemRewards { item_id: id, item_count: count, item_display_id: display_id }
    }
}

impl ItemRecord for QuestGiverRequiredItem {
    open spec fn spec_new(id: u32, count: u32, display_id: u32) -> Self {
        QuestGiverRequiredItem { id, count, display_id }
    }

    fn new_record(id: u32, count: u32, display_id: u32) -> (r: Self) {
        QuestGiverRequiredItem { id, count, display_id }
    }
}

impl ItemRecord for QuestGiverOfferRewardChoiceItem {
    open spec fn spec_new(id: u32, count: u32, display_id: u32) -> Self {
        QuestGiverOfferRewardChoiceItem { id, count, display_id }
    }

    fn new_record(id: u32, count: u32, display_id: u32) -> (r: Self) {
        QuestGiverOfferRewardChoiceItem { id, count, display_id }
    }
}

impl ItemRecord for QuestGiverOfferRewardItem {
    open spec fn spec_new(id: u32, count: u32, display_id: u32) -> Self {
        QuestGiverOfferRewardItem { id, count, display_id }
    }

    fn new_record(id: u32, count: u32, display_id: u32) -> (r: Self) {
        QuestGiverOfferRewardItem { id, count, display_id }
    }
}

impl SmsgQuestGiverQuestDetails {
    /// The details of a quest as the quest giver `quest_giver_guid` presents them;
    /// reward items carry the display ids the catalogue gives.
    pub fn from_template(quest_giver_guid: u64, t: &QuestTemplate, catalog: &Vec<(u32, u32)>) -> (r: Self)
        requires
            t.reward_honorable_kills * 10 <= u32::MAX,
        ensures
            r.guid == quest_giver_guid,
            r.quest_id == t.entry,
            r.title.0@ == text_bytes(t.title),
            r.details.0@ == text_bytes(t.details),
            r.objectives.0@ == text_bytes(t.objectives),
            r.auto_accept == false,
            r.suggested_players == t.suggested_players,
            r.reward_choice_items@ == item_records::<QuestDetailsItemRewards>(
                nonzero_pairs(t.reward_choice_item_ids@, t.reward_choice_item_counts@),
                catalog@,
            ),
            r.reward_choice_items_count == r.reward_choice_items@.len(),
            r.reward_items@ == item_records::<QuestDetailsItemRewards>(
                nonzero_pairs(t.reward_item_ids@, t.reward_item_counts@),
                catalog@,
            ),
            r.reward_items_count == r.reward_items@.len(),
            r.required_or_reward_money == t.required_or_reward_money,
            r.honor_reward == t.reward_honorable_kills * 10,
            r.reward_spell == t.reward_spell,
            r.reward_spell_cast == t.reward_spell_cast,
            r.reward_title_bit_index == 0,
            forall|i: int|
                0 <= i < 4 ==> #[trigger] r.emotes@[i] == (QuestDetailsEmote {
                    emote: t.details_emotes@[i],
                    delay: t.details_emote_delays@[i],
                }),
    {
        let choice_pairs = t.reward_choice_items();
        let item_pairs = t.reward_items();
        let reward_choice_items: Vec<QuestDetailsItemRewards> = make_item_records(&choice_pairs, catalog);
        let reward_items: Vec<QuestDetailsItemRewards> = make_item_records(&item_pairs, catalog);
        let emotes: [QuestDetailsEmote; 4] = [
            QuestDetailsEmote { emote: t.details_emotes[0], delay: t.details_emote_delays[0] },
            QuestDetailsEmote { emote: t.details_emotes[1], delay: t.details_emote_delays[1] },
            QuestDetailsEmote { emote: t.details_emotes[2], delay: t.details_emote_delays[2] },
            QuestDetailsEmote { emote: t.details_emotes[3], delay: t.details_emote_delays[3] },
        ];
        SmsgQuestGiverQuestDetails {
            guid: quest_giver_guid,
            quest_id: t.entry,
            title: text_or_empty(&t.title),
            details: text_or_empty(&t.details),
            objectives: text_or_empty(&t.objectives),
            auto_accept: false,
            suggested_players: t.suggested_players,
            reward_choice_items_count: reward_choice_items.len() as u32,
            reward_choice_items,
            reward_items_count: reward_items.len() as u32,
            reward_items,
            required_or_reward_money: t.required_or_reward_money,
            honor_reward: t.reward_honorable_kills * 10,
            reward_spell: t.reward_spell,
            reward_spell_cast: t.reward_spell_cast,
            reward_title_bit_index: 0,
            emotes,
        }
    }
}

impl SmsgQuestGiverRequestItems {
    /// What a quest still asks for. A quest whose objectives are done shows its
    /// completion emote and the "completable" flag; required items carry the display
    /// ids the catalogue gives.
    pub fn from_template(
        quest_giver_guid: u64,
        status: &PlayerQuestStatus,
        auto_finish: bool,
        template: &QuestTemplate,
        catalog: &Vec<(u32, u32)>,
    ) -> (r: Self)
        ensures
            r.quest_giver_guid == quest_giver_guid,
            r.quest_id == template.entry,
            r.title.0@ == text_bytes(template.title),
            r.text.0@ == text_bytes(template.request_items_text),
            r.emote_delay == 0,
            r.emote_id == (if *status == PlayerQuestStatus::ObjectivesCompleted {
                template.complete_emote
            } else {
                template.incomplete_emote
            }),
            r.auto_finish == (if auto_finish {
                1u32
            } else {
                0u32
            }),
            r.suggested_players == template.suggested_players,
            r.required_money == spec_required_money(template.required_or_reward_money),
            r.required_items@ == item_records::<QuestGiverRequiredItem>(
                nonzero_pairs(template.required_item_ids@, template.required_item_counts@),
                catalog@,
            ),
            r.required_items_count == r.required_items@.len(),
            r.flags1 == (if *status == PlayerQuestStatus::ObjectivesCompleted {
                3u32
            } else {
                0u32
            }),
            r.flags2 == 0x04,
            r.flags3 == 0x08,
            r.flags4 == 0x10,
    {
        let completable = *status == PlayerQuestStatus::ObjectivesCompleted;
        let emote_id = if completable {
            template.complete_emote
        } else {
            template.incomplete_emote
        };
        let pairs = collect_required(template);
        let required_items: Vec<QuestGiverRequiredItem> = make_item_records(&pairs, catalog);
        let required_money: u32 = if template.required_or_reward_money > 0 {
            template.required_or_reward_money as u32
        } else {
            0
        };
        SmsgQuestGiverRequestItems {
            quest_giver_guid,
            quest_id: template.entry,
            title: text_or_empty(&template.title),
            text: text_or_empty(&template.request_items_text),
            emote_delay: 0,
            emote_id,
            auto_finish: if auto_finish {
                1
            } else {
                0
            },
            suggested_players: template.suggested_players,
            required_money,
            required_items_count: required_items.len() as u32,
            required_items,
            flags1: if completable {
                3
            } else {
                0
            },
            flags2: 0x04,
            flags3: 0x08,
            flags4: 0x10,
        }
    }
}

/// The `(id, count)` pairs of the items a quest requires.
fn collect_required(t: &QuestTemplate) -> (r: Vec<(u32, u32)>)
    ensures
        r@ == nonzero_pairs(t.required_item_ids@, t.required_item_counts@),
        r@.len() <= 4,
{
    crate::quests::collect_nonzero(t.required_item_ids.as_slice(), t.required_item_counts.as_slice())
}

/// The emotes of a reward offer: each emote that is not zero, with its delay, in order.
pub open spec fn offer_reward_emotes(t: QuestTemplate) -> Seq<QuestGiverOfferRewardEmote> {
    let pairs = nonzero_pairs(t.offer_reward_emotes@, t.offer_reward_emote_delays@);
    Seq::new(pairs.len(), |i: int| QuestGiverOfferRewardEmote { delay: pairs[i].1, id: pairs[i].0 })
}

impl SmsgQuestGiverOfferReward {
    /// The rewards of a quest as the quest giver `quest_giver_guid` offers them;
    /// reward items carry the display ids the catalogue gives.
    pub fn from_template(quest_giver_guid: u64, auto_finish: bool, template: &QuestTemplate, catalog: &Vec<(u32, u32)>) -> (r: Self)
        requires
            10 * template.reward_honorable_kills <= u32::MAX,
        ensures
            r.quest_giver_guid == quest_giver_guid,
            r.quest_id == template.entry,
            r.title.0@ == text_bytes(template.title),
            r.text.0@ == text_bytes(template.offer_reward_text),
            r.auto_finish == (if auto_finish {
                1u32
            } else {
                0u32
            }),
            r.suggested_players == template.suggested_players,
            r.emotes@ == offer_reward_emotes(*template),
            r.emote_count == r.emotes@.len(),
            r.choice_items@ == item_records::<QuestGiverOfferRewardChoiceItem>(
                nonzero_pairs(template.reward_choice_item_ids@, template.reward_choice_item_counts@),
                catalog@,
            ),
            r.choice_items_count == r.choice_items@.len(),
            r.items@ == item_records::<QuestGiverOfferRewardItem>(
                nonzero_pairs(template.reward_item_ids@, template.reward_item_counts@),
                catalog@,
            ),
            r.items_count == r.items@.len(),
            r.required_or_reward_money == template.required_or_reward_money,
            r.honor_reward == 10 * template.reward_honorable_kills,
            r.unk == 0x08,
            r.reward_spell == template.reward_spell,
            r.reward_spell_cast == template.reward_spell_cast,
            r.character_title_bit_index == 0,
    {
        let emote_pairs = crate::quests::collect_nonzero(
            template.offer_reward_emotes.as_slice(),
            template.offer_reward_emote_delays.as_slice(),
        );
        let mut emotes: Vec<QuestGiverOfferRewardEmote> = Vec::new();
        let mut i: usize = 0;
        while i < emote_pairs.len()
            invariant
                i <= emote_pairs@.len(),
                emote_pairs@.len() <= 4,
                emotes@.len() == i,
                forall|j: int|
                    0 <= j < i ==> #[trigger] emotes@[j] == (QuestGiverOfferRewardEmote {
                        delay: emote_pairs@[j].1,
                        id: emote_pairs@[j].0,
                    }),
            decreases emote_pairs@.len() - i,
        {
            let (id, delay) = emote_pairs[i];
            emotes.push(QuestGiverOfferRewardEmote { delay, id });
            i = i + 1;
        }
        assert(emotes@ =~= offer_reward_emotes(*template));
        let choice_pairs = template.reward_choice_items();
        let item_pairs = template.reward_items();
        let choice_items: Vec<QuestGiverOfferRewardChoiceItem> = make_item_records(&choice_pairs, catalog);
        let items: Vec<QuestGiverOfferRewardItem> = make_item_records(&item_pairs, catalog);
        SmsgQuestGiverOfferReward {
            quest_giver_guid,
            quest_id: template.entry,
            title: text_or_empty(&template.title),
            text: text_or_empty(&template.offer_reward_text),
            auto_finish: if auto_finish {
                1
            } else {
                0
            },
            suggested_players: template.suggested_players,
            emote_count: emotes.len() as u32,
            emotes,
            choice_items_count: choice_items.len() as u32,
            choice_items,
            items_count: items.len() as u32,
            items,
            required_or_reward_money: template.required_or_reward_money,
            honor_reward: 10 * template.reward_honorable_kills,
            unk: 0x08,
            reward_spell: template.reward_spell,
            reward_spell_cast: template.reward_spell_cast,
            character_title_bit_index: 0,
        }
    }
}

impl SmsgQuestGiverQuestComplete {
    /// The notice of a quest handed in, with the experience it gave; reward items are
    /// not listed.
    pub fn from_template(quest_id: u32, xp: u32, template: &QuestTemplate) -> (r: Self)
        requires
            10 * template.reward_honorable_kills <= u32::MAX,
        ensures
            r == (SmsgQuestGiverQuestComplete {
                quest_id,
                unk: 0x03,
                xp,
                required_or_reward_money: template.required_or_reward_money,
                honorable_kills: (10 * template.reward_honorable_kills) as u32,
                reward_items_count: 0,
                reward_items: r.reward_items,
            }),
            r.reward_items@.len() == 0,
    {
        SmsgQuestGiverQuestComplete {
            quest_id,
            unk: 0x03,
            xp,
            required_or_reward_money: template.required_or_reward_money,
            honorable_kills: 10 * template.reward_honorable_kills,
            reward_items_count: 0,
            reward_items: Vec::new(),
        }
    }
}

/// Each choice reward of a quest's details is a nonzero item of the template's list, with the count at the
/// same position of the list and the display id the catalogue gives the item.
pub proof fn lemma_details_choice_rewards_carry_template(template: QuestTemplate, catalog: Seq<(u32, u32)>)
    ensures
        forall|i: int|
            0 <= i < item_records::<QuestDetailsItemRewards>(nonzero_pairs(template.reward_choice_item_ids@, template.reward_choice_item_counts@), catalog).len() ==> {
                let rec = #[trigger] item_records::<QuestDetailsItemRewards>(nonzero_pairs(template.reward_choice_item_ids@, template.reward_choice_item_counts@), catalog)[i];
                &&& is_nonzero_entry(template.reward_choice_item_ids@, template.reward_choice_item_counts@, (rec.item_id, rec.item_count))
                &&& rec.item_display_id == spec_display_id_of(catalog, rec.item_id)
            },
{
    let pairs = nonzero_pairs(template.reward_choice_item_ids@, template.reward_choice_item_counts@);
    lemma_nonzero_pairs_come_from(template.reward_choice_item_ids@, template.reward_choice_item_counts@);
    assert forall|i: int| 0 <= i < item_records::<QuestDetailsItemRewards>(nonzero_pairs(template.reward_choice_item_ids@, template.reward_choice_item_counts@), catalog).len() implies {
        let rec = #[trigger] item_records::<QuestDetailsItemRewards>(nonzero_pairs(template.reward_choice_item_ids@, template.reward_choice_item_counts@), catalog)[i];
        &&& is_nonzero_entry(template.reward_choice_item_ids@, template.reward_choice_item_counts@, (rec.item_id, rec.item_count))
        &&& rec.item_display_id == spec_display_id_of(catalog, rec.item_id)
    } by {
        assert(is_nonzero_entry(template.reward_choice_item_ids@, template.reward_choice_item_counts@, pairs[i]));
    }
}

/// Each reward of a quest's details is a nonzero item of the template's list, with the count at the
/// same position of the list and the display id the catalogue gives the item.
pub proof fn lemma_details_rewards_carry_template(template: QuestTemplate, catalog: Seq<(u32, u32)>)
    ensures
        forall|i: int|
            0 <= i < item_records::<QuestDetailsItemRewards>(nonzero_pairs(template.reward_item_ids@, template.reward_item_counts@), catalog).len() ==> {
                let rec = #[trigger] item_records::<QuestDetailsItemRewards>(nonzero_pairs(template.reward_item_ids@, template.reward_item_counts@), catalog)[i];
                &&& is_nonzero_entry(template.reward_item_ids@, template.reward_item_counts@, (rec.item_id, rec.item_count))
                &&& rec.item_display_id == spec_display_id_of(catalog, rec.item_id)
            },
{
    let pairs = nonzero_pairs(template.reward_item_ids@, template.reward_item_counts@);
    lemma_nonzero_pairs_come_from(template.reward_item_ids@, template.reward_item_counts@);
    assert forall|i: int| 0 <= i < item_records::<QuestDetailsItemRewards>(nonzero_pairs(template.reward_item_ids@, template.reward_item_counts@), catalog).len() implies {
        let rec = #[trigger] item_records::<QuestDetailsItemRewards>(nonzero_pairs(template.reward_item_ids@, template.reward_item_counts@), catalog)[i];
        &&& is_nonzero_entry(template.reward_item_ids@, template.reward_item_counts@, (rec.item_id, rec.item_count))
        &&& rec.item_display_id == spec_display_id_of(catalog, rec.item_id)
    } by {
        assert(is_nonzero_entry(template.reward_item_ids@, template.reward_item_counts@, pairs[i]));
    }
}

/// Each item a quest asks for is a nonzero item of the template's list, with the count at the
/// same position of the list and the display id the catalogue gives the item.
pub proof fn lemma_required_items_carry_template(template: QuestTemplate, catalog: Seq<(u32, u32)>)
    ensures
        forall|i: int|
            0 <= i < item_records::<QuestGiverRequiredItem>(nonzero_pairs(template.required_item_ids@, template.required_item_counts@), catalog).len() ==> {
                let rec = #[trigger] item_records::<QuestGiverRequiredItem>(nonzero_pairs(template.required_item_ids@, template.required_item_counts@), catalog)[i];
                &&& is_nonzero_entry(template.required_item_ids@, template.required_item_counts@, (rec.id, rec.count))
                &&& rec.display_id == spec_display_id_of(catalog, rec.id)
            },
{
    let pairs = nonzero_pairs(template.required_item_ids@, template.required_item_counts@);
    lemma_nonzero_pairs_come_from(template.required_item_ids@, template.required_item_counts@);
    assert forall|i: int| 0 <= i < item_records::<QuestGiverRequiredItem>(nonzero_pairs(template.required_item_ids@, template.required_item_counts@), catalog).len() implies {
        let rec = #[trigger] item_records::<QuestGiverRequiredItem>(nonzero_pairs(template.required_item_ids@, template.required_item_counts@), catalog)[i];
        &&& is_nonzero_entry(template.required_item_ids@, template.required_item_counts@, (rec.id, rec.count))
        &&& rec.display_id == spec_display_id_of(catalog, rec.id)
    } by {
        assert(is_nonzero_entry(template.required_item_ids@, template.required_item_counts@, pairs[i]));
    }
}

/// Each choice item of a reward offer is a nonzero item of the template's list, with the count at the
/// same position of the list and the display id the catalogue gives the item.
pub proof fn lemma_offered_choice_items_carry_template(template: QuestTemplate, catalog: Seq<(u32, u32)>)
    ensures
        forall|i: int|
            0 <= i < item_records::<QuestGiverOfferRewardChoiceItem>(nonzero_pairs(template.reward_choice_item_ids@, template.reward_choice_item_counts@), catalog).len() ==> {
                let rec = #[trigger] item_records::<QuestGiverOfferRewardChoiceItem>(nonzero_pairs(template.reward_choice_item_ids@, template.reward_choice_item_counts@), catalog)[i];
                &&& is_nonzero_entry(template.reward_choice_item_ids@, template.reward_choice_item_counts@, (rec.id, rec.count))
                &&& rec.display_id == spec_display_id_of(catalog, rec.id)
            },
{
    let pairs = nonzero_pairs(template.reward_choice_item_ids@, template.reward_choice_item_counts@);
    lemma_nonzero_pairs_come_from(template.reward_choice_item_ids@, template.reward_choice_item_counts@);
    assert forall|i: int| 0 <= i < item_records::<QuestGiverOfferRewardChoiceItem>(nonzero_pairs(template.reward_choice_item_ids@, template.reward_choice_item_counts@), catalog).len() implies {
        let rec = #[trigger] item_records::<QuestGiverOfferRewardChoiceItem>(nonzero_pairs(template.reward_choice_item_ids@, template.reward_choice_item_counts@), catalog)[i];
        &&& is_nonzero_entry(template.reward_choice_item_ids@, template.reward_choice_item_counts@, (rec.id, rec.count))
        &&& rec.display_id == spec_display_id_of(catalog, rec.id)
    } by {
        assert(is_nonzero_entry(template.reward_choice_item_ids@, template.reward_choice_item_counts@, pairs[i]));
    }
}

/// Each item of a reward offer is a nonzero item of the template's list, with the count at the
/// same position of the list and the display id the catalogue gives the item.
pub proof fn lemma_offered_items_carry_template(template: QuestTemplate, catalog: Seq<(u32, u32)>)
    ensures
        forall|i: int|
            0 <= i < item_records::<QuestGiverOfferRewardItem>(nonzero_pairs(template.reward_item_ids@, template.reward_item_counts@), catalog).len() ==> {
                let rec = #[trigger] item_records::<QuestGiverOfferRewardItem>(nonzero_pairs(template.reward_item_ids@, template.reward_item_counts@), catalog)[i];
                &&& is_nonzero_entry(template.reward_item_ids@, template.reward_item_counts@, (rec.id, rec.count))
                &&& rec.display_id == spec_display_id_of(catalog, rec.id)
            },
{
    let pairs = nonzero_pairs(template.reward_item_ids@, template.reward_item_counts@);
    lemma_nonzero_pairs_come_from(template.reward_item_ids@, template.reward_item_counts@);
    assert forall|i: int| 0 <= i < item_records::<QuestGiverOfferRewardItem>(nonzero_pairs(template.reward_item_ids@, template.reward_item_counts@), catalog).len() implies {
        let rec = #[trigger] item_records::<QuestGiverOfferRewardItem>(nonzero_pairs(template.reward_item_ids@, template.reward_item_counts@), catalog)[i];
        &&& is_nonzero_entry(template.reward_item_ids@, template.reward_item_counts@, (rec.id, rec.count))
        &&& rec.display_id == spec_display_id_of(catalog, rec.id)
    } by {
        assert(is_nonzero_entry(template.reward_item_ids@, template.reward_item_counts@, pairs[i]));
    }
}

/// Each emote of a reward offer is a nonzero emote of the template, with the delay
/// at the same position.
pub proof fn lemma_offer_reward_emotes_carry_template(template: QuestTemplate)
    ensures
        forall|i: int|
            0 <= i < offer_reward_emotes(template).len() ==> is_nonzero_entry(
                template.offer_reward_emotes@,
                template.offer_reward_emote_delays@,
                ((#[trigger] offer_reward_emotes(template)[i]).id, offer_reward_emotes(template)[i].delay),
            ),
{
    let pairs = nonzero_pairs(template.offer_reward_emotes@, template.offer_reward_emote_delays@);
    lemma_nonzero_pairs_come_from(template.offer_reward_emotes@, template.offer_reward_emote_delays@);
    assert forall|i: int| 0 <= i < offer_reward_emotes(template).len() implies is_nonzero_entry(
        template.offer_reward_emotes@,
        template.offer_reward_emote_delays@,
        ((#[trigger] offer_reward_emotes(template)[i]).id, offer_reward_emotes(template)[i].delay),
    ) by {
        assert(is_nonzero_entry(template.offer_reward_emotes@, template.offer_reward_emote_delays@, pairs[i]));
    }
}

} // verus!
