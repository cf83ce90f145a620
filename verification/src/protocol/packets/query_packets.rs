//! Name, creature, NPC text and quest queries.
use crate::codec::{ClientPayload, NullString, ReadError, WireEncode};
use crate::protocol::server::ServerMessagePayload;
use crate::wire::{lemma_le_u32_roundtrip, from_le_u32, from_le_u64, get_u32_le, get_u64_le, le_u32, le_u64, lemma_le_u64_roundtrip};
use vstd::seq_lib::lemma_concat_associative;
use crate::quests::{QuestTemplate, spec_transform_entity_id, text_bytes, text_or_empty, transform_entity_id};
use vstd::prelude::*;

verus! {

#[derive(Debug, PartialEq, Eq)]
pub struct CmsgNameQuery {
    pub guid: u64,
}

impl ClientPayload for CmsgNameQuery {
    open spec fn spec_accepts(data: Seq<u8>) -> bool {
        data.len() >= 8
    }

    open spec fn spec_reads_as(data: Seq<u8>, v: Self) -> bool {
        v == CmsgNameQuery { guid: from_le_u64(data.subrange(0, 8)) }
    }

    fn read(data: &[u8]) -> (r: Result<Self, ReadError>) {
        if data.len() < 8 {
            return Err(ReadError::UnexpectedEnd);
        }
        Ok(CmsgNameQuery { guid: get_u64_le(data, 0) })
    }
}

/// Reading the bytes of a `CmsgNameQuery` (its fields in order, little-endian) gives it
/// back: each field is read from its own bytes.
pub proof fn lemma_cmsg_name_query_reads_back(v: CmsgNameQuery)
    ensures
        CmsgNameQuery::spec_accepts(le_u64(v.guid)),
        CmsgNameQuery::spec_reads_as(le_u64(v.guid), v),
{
    let data = le_u64(v.guid);
    lemma_le_u64_roundtrip(v.guid);
    assert(data.subrange(0, 8) =~= le_u64(v.guid));
}

#[derive(Debug, PartialEq, Eq)]
pub struct SmsgNameQueryResponse {
    pub guid: u64,
    pub name: NullString,
    /// Use 0, intended for cross-realm battlegrounds
    pub realm_name: u8,
    pub race: u32,
    pub class: u32,
    pub gender: u32,
    /// use false
    pub is_name_declined: bool,
}

impl WireEncode for SmsgNameQueryResponse {
    open spec fn spec_encode(&self) -> Seq<u8> {
        self.guid.spec_encode() + self.name.spec_encode() + self.realm_name.spec_encode() + self.race.spec_encode() + self.class.spec_encode() + self.gender.spec_encode() + self.is_name_declined.spec_encode()
    }

    fn encode_into(&self, out: &mut Vec<u8>) {
        self.guid.encode_into(out);
        self.name.encode_into(out);
        self.realm_name.encode_into(out);
        self.race.encode_into(out);
        self.class.encode_into(out);
        self.gender.encode_into(out);
        self.is_name_declined.encode_into(out);
        assert(out@ =~= old(out)@ + self.spec_encode());
    }
}

impl ServerMessagePayload for SmsgNameQueryResponse {}

#[derive(Debug, PartialEq, Eq)]
pub struct CmsgCreatureQuery {
    pub entry: u32,
    pub guid: u64,
}

impl ClientPayload for CmsgCreatureQuery {
    open spec fn spec_accepts(data: Seq<u8>) -> bool {
        data.len() >= 12
    }

    open spec fn spec_reads_as(data: Seq<u8>, v: Self) -> bool {
        v == CmsgCreatureQuery { entry: from_le_u32(data.subrange(0, 4)), guid: from_le_u64(data.subrange(4, 12)) }
    }

    fn read(data: &[u8]) -> (r: Result<Self, ReadError>) {
        if data.len() < 12 {
            return Err(ReadError::UnexpectedEnd);
        }
        Ok(CmsgCreatureQuery { entry: get_u32_le(data, 0), guid: get_u64_le(data, 4) })
    }
}

/// Reading the bytes of a `CmsgCreatureQuery` (its fields in order, little-endian) gives it
/// back: each field is read from its own bytes.
pub proof fn lemma_cmsg_creature_query_reads_back(v: CmsgCreatureQuery)
    ensures
        CmsgCreatureQuery::spec_accepts(le_u32(v.entry) + le_u64(v.guid)),
        CmsgCreatureQuery::spec_reads_as(le_u32(v.entry) + le_u64(v.guid), v),
{
    let data = le_u32(v.entry) + le_u64(v.guid);
    lemma_le_u32_roundtrip(v.entry);
    assert(data.subrange(0, 4) =~= le_u32(v.entry));
    lemma_le_u64_roundtrip(v.guid);
    assert(data.subrange(4, 12) =~= le_u64(v.guid));
}

#[derive(Debug, PartialEq, Eq)]
pub struct SmsgCreatureQueryResponse {
    pub entry: u32,
    pub name: NullString,
    pub name2: u8,
    pub name3: u8,
    pub name4: u8,
    pub sub_name: NullString,
    pub icon_name: NullString,
    pub type_flags: u32,
    pub type_id: u32,
    pub family: u32,
    pub rank: u32,
    /// 0
    pub unk: u32,
    pub pet_spell_data_id: u32,
    pub model_ids: Vec<u32>,
    /// The bits of an `f32`.
    pub health_multiplier: u32,
    /// The bits of an `f32`.
    pub power_multiplier: u32,
    pub racial_leader: u8,
}

impl WireEncode for SmsgCreatureQueryResponse {
    open spec fn spec_encode(&self) -> Seq<u8> {
        self.entry.spec_encode() + self.name.spec_encode() + self.name2.spec_encode() + self.name3.spec_encode() + self.name4.spec_encode() + self.sub_name.spec_encode() + self.icon_name.spec_encode() + self.type_flags.spec_encode() + self.type_id.spec_encode() + self.family.spec_encode() + self.rank.spec_encode() + self.unk.spec_encode() + self.pet_spell_data_id.spec_encode() + self.model_ids.spec_encode() + self.health_multiplier.spec_encode() + self.power_multiplier.spec_encode() + self.racial_leader.spec_encode()
    }

    #[verifier::spinoff_prover]
    #[verifier::rlimit(80)]
    fn encode_into(&self, out: &mut Vec<u8>) {
        let ghost start = out@;
        self.entry.encode_into(out);
        let ghost mut acc = self.entry.spec_encode();
        self.name.encode_into(out);
        proof {
            lemma_concat_associative(start, acc, self.name.spec_encode());
            acc = acc + self.name.spec_encode();
        }
        self.name2.encode_into(out);
        proof {
            lemma_concat_associative(start, acc, self.name2.spec_encode());
            acc = acc + self.name2.spec_encode();
        }
        self.name3.encode_into(out);
        proof {
            lemma_concat_associative(start, acc, self.name3.spec_encode());
            acc = acc + self.name3.spec_encode();
        }
        self.name4.encode_into(out);
        proof {
            lemma_concat_associative(start, acc, self.name4.spec_encode());
            acc = acc + self.name4.spec_encode();
        }
        self.sub_name.encode_into(out);
        proof {
            lemma_concat_associative(start, acc, self.sub_name.spec_encode());
            acc = acc + self.sub_name.spec_encode();
        }
        self.icon_name.encode_into(out);
        proof {
            lemma_concat_associative(start, acc, self.icon_name.spec_encode());
            acc = acc + self.icon_name.spec_encode();
        }
        self.type_flags.encode_into(out);
        proof {
            lemma_concat_associative(start, acc, self.type_flags.spec_encode());
            acc = acc + self.type_flags.spec_encode();
        }
        self.type_id.encode_into(out);
        proof {
            lemma_concat_associative(start, acc, self.type_id.spec_encode());
            acc = acc + self.type_id.spec_encode();
        }
        self.family.encode_into(out);
        proof {
            lemma_concat_associative(start, acc, self.family.spec_encode());
            acc = acc + self.family.spec_encode();
        }
        self.rank.encode_into(out);
        proof {
            lemma_concat_associative(start, acc, self.rank.spec_encode());
            acc = acc + self.rank.spec_encode();
        }
        self.unk.encode_into(out);
        proof {
            lemma_concat_associative(start, acc, self.unk.spec_encode());
            acc = acc + self.unk.spec_encode();
        }
        self.pet_spell_data_id.encode_into(out);
        proof {
            lemma_concat_associative(start, acc, self.pet_spell_data_id.spec_encode());
            acc = acc + self.pet_spell_data_id.spec_encode();
        }
        self.model_ids.encode_into(out);
        proof {
            lemma_concat_associative(start, acc, self.model_ids.spec_encode());
            acc = acc + self.model_ids.spec_encode();
        }
        self.health_multiplier.encode_into(out);
        proof {
            lemma_concat_associative(start, acc, self.health_multiplier.spec_encode());
            acc = acc + self.health_multiplier.spec_encode();
        }
        self.power_multiplier.encode_into(out);
        proof {
            lemma_concat_associative(start, acc, self.power_multiplier.spec_encode());
            acc = acc + self.power_multiplier.spec_encode();
        }
        self.racial_leader.encode_into(out);
        proof {
            lemma_concat_associative(start, acc, self.racial_leader.spec_encode());
            acc = acc + self.racial_leader.spec_encode();
        }
        assert(acc == self.spec_encode());
    }
}

impl ServerMessagePayload for SmsgCreatureQueryResponse {}

#[derive(Debug, PartialEq, Eq)]
pub struct SmsgCreatureQueryResponseUnknownTemplate {
    pub masked_entry: u32,
}

impl WireEncode for SmsgCreatureQueryResponseUnknownTemplate {
    open spec fn spec_encode(&self) -> Seq<u8> {
        self.masked_entry.spec_encode()
    }

    fn encode_into(&self, out: &mut Vec<u8>) {
        self.masked_entry.encode_into(out);
        assert(out@ =~= old(out)@ + self.spec_encode());
    }
}

impl ServerMessagePayload for SmsgCreatureQueryResponseUnknownTemplate {}

/// The bytes of a `SmsgCreatureQueryResponseUnknownTemplate` hold its fields in declaration order, little-endian:
/// each field reads back from its own place.
pub proof fn lemma_smsg_creature_query_response_unknown_template_image_fields(v: SmsgCreatureQueryResponseUnknownTemplate)
    ensures
        v.spec_encode().len() == 4,
        from_le_u32(v.spec_encode().subrange(0, 4)) == v.masked_entry,
{
    let data = v.spec_encode();
    lemma_le_u32_roundtrip(v.masked_entry);
    assert(data.subrange(0, 4) =~= le_u32(v.masked_entry));
}

#[derive(Debug, PartialEq, Eq)]
pub struct CmsgNpcTextQuery {
    pub text_id: u32,
    pub guid: u64,
}

impl ClientPayload for CmsgNpcTextQuery {
    open spec fn spec_accepts(data: Seq<u8>) -> bool {
        data.len() >= 12
    }

    open spec fn spec_reads_as(data: Seq<u8>, v: Self) -> bool {
        v == CmsgNpcTextQuery { text_id: from_le_u32(data.subrange(0, 4)), guid: from_le_u64(data.subrange(4, 12)) }
    }

    fn read(data: &[u8]) -> (r: Result<Self, ReadError>) {
        if data.len() < 12 {
            return Err(ReadError::UnexpectedEnd);
        }
        Ok(CmsgNpcTextQuery { text_id: get_u32_le(data, 0), guid: get_u64_le(data, 4) })
    }
}

/// Reading the bytes of a `CmsgNpcTextQuery` (its fields in order, little-endian) gives it
/// back: each field is read from its own bytes.
pub proof fn lemma_cmsg_npc_text_query_reads_back(v: CmsgNpcTextQuery)
    ensures
        CmsgNpcTextQuery::spec_accepts(le_u32(v.text_id) + le_u64(v.guid)),
        CmsgNpcTextQuery::spec_reads_as(le_u32(v.text_id) + le_u64(v.guid), v),
{
    let data = le_u32(v.text_id) + le_u64(v.guid);
    lemma_le_u32_roundtrip(v.text_id);
    assert(data.subrange(0, 4) =~= le_u32(v.text_id));
    lemma_le_u64_roundtrip(v.guid);
    assert(data.subrange(4, 12) =~= le_u64(v.guid));
}

#[derive(Debug, PartialEq, Eq)]
pub struct SmsgNpcTextUpdate {
    pub text_id: u32,
    /// The bits of an `f32`.
    pub probability: u32,
    pub text0: NullString,
    pub text1: NullString,
    pub language: u32,
    pub emotes: [NpcTextUpdateEmote; 3],
}

impl WireEncode for SmsgNpcTextUpdate {
    open spec fn spec_encode(&self) -> Seq<u8> {
        self.text_id.spec_encode() + self.probability.spec_encode() + self.text0.spec_encode() + self.text1.spec_encode() + self.language.spec_encode() + self.emotes.spec_encode()
    }

    fn encode_into(&self, out: &mut Vec<u8>) {
        self.text_id.encode_into(out);
        self.probability.encode_into(out);
        self.text0.encode_into(out);
        self.text1.encode_into(out);
        self.language.encode_into(out);
        self.emotes.encode_into(out);
        assert(out@ =~= old(out)@ + self.spec_encode());
    }
}

impl ServerMessagePayload for SmsgNpcTextUpdate {}

/// An emote played with an NPC text.
#[derive(Debug, PartialEq, Eq)]
pub struct NpcTextUpdateEmote {
    pub delay: u32,
    pub emote_id: u32,
}

impl WireEncode for NpcTextUpdateEmote {
    open spec fn spec_encode(&self) -> Seq<u8> {
        self.delay.spec_encode() + self.emote_id.spec_encode()
    }

    fn encode_into(&self, out: &mut Vec<u8>) {
        self.delay.encode_into(out);
        self.emote_id.encode_into(out);
        assert(out@ =~= old(out)@ + self.spec_encode());
    }
}

/// The bytes of a `NpcTextUpdateEmote` hold its fields in declaration order, little-endian:
/// each field reads back from its own place.
pub proof fn lemma_npc_text_update_emote_image_fields(v: NpcTextUpdateEmote)
    ensures
        v.spec_encode().len() == 8,
        from_le_u32(v.spec_encode().subrange(0, 4)) == v.delay,
        from_le_u32(v.spec_encode().subrange(4, 8)) == v.emote_id,
{
    let data = v.spec_encode();
    lemma_le_u32_roundtrip(v.delay);
    assert(data.subrange(0, 4) =~= le_u32(v.delay));
    lemma_le_u32_roundtrip(v.emote_id);
    assert(data.subrange(4, 8) =~= le_u32(v.emote_id));
}

#[derive(Debug, PartialEq, Eq)]
pub struct CmsgQuestQuery {
    pub quest_id: u32,
}

impl ClientPayload for CmsgQuestQuery {
    open spec fn spec_accepts(data: Seq<u8>) -> bool {
        data.len() >= 4
    }

    open spec fn spec_reads_as(data: Seq<u8>, v: Self) -> bool {
        v == CmsgQuestQuery { quest_id: from_le_u32(data.subrange(0, 4)) }
    }

    fn read(data: &[u8]) -> (r: Result<Self, ReadError>) {
        if data.len() < 4 {
            return Err(ReadError::UnexpectedEnd);
        }
        Ok(CmsgQuestQuery { quest_id: get_u32_le(data, 0) })
    }
}

/// Reading the bytes of a `CmsgQuestQuery` (its fields in order, little-endian) gives it
/// back: each field is read from its own bytes.
pub proof fn lemma_cmsg_quest_query_reads_back(v: CmsgQuestQuery)
    ensures
        CmsgQuestQuery::spec_accepts(le_u32(v.quest_id)),
        CmsgQuestQuery::spec_reads_as(le_u32(v.quest_id), v),
{
    let data = le_u32(v.quest_id);
    lemma_le_u32_roundtrip(v.quest_id);
    assert(data.subrange(0, 4) =~= le_u32(v.quest_id));
}

#[derive(Debug, PartialEq, Eq)]
pub struct SmsgQuestQueryResponse {
    pub quest_id: u32,
    pub method: u32,
    pub quest_level: i32,
    pub zone_or_sort: i32,
    pub quest_type: u32,
    pub suggested_player: u32,
    pub rep_objective_faction: u32,
    pub rep_objective_value: u32,
    /// Always 0
    pub required_opposite_rep_faction: u32,
    /// Always 0
    pub required_opposite_rep_value: u32,
    pub next_quest_in_chain: u32,
    pub required_or_reward_money: i32,
    pub reward_money_max_level: u32,
    pub reward_spell: u32,
    pub reward_spell_cast: u32,
    pub reward_honorable_kills: u32,
    pub source_item_id: u32,
    pub quest_flags: u32,
    pub character_title_id: u32,
    pub reward_items_id: [u32; 4],
    pub reward_items_count: [u32; 4],
    pub reward_choice_items_id: [u32; 6],
    pub reward_choice_items_count: [u32; 6],
    pub point_map_id: u32,
    /// The bits of an `f32`.
    pub point_x: u32,
    /// The bits of an `f32`.
    pub point_y: u32,
    pub point_opt: u32,
    pub title: NullString,
    pub objectives: NullString,
    pub details: NullString,
    pub end_text: NullString,
    pub required_entities_and_items: [[u32; 4]; 4],
    pub objective_texts: [NullString; 4],
}

impl SmsgQuestQueryResponse {
    /// Bytes of fields 1 to 16 of the image.
    pub open spec fn spec_encode_part0(&self) -> Seq<u8> {
        self.quest_id.spec_encode() + self.method.spec_encode() + self.quest_level.spec_encode() + self.zone_or_sort.spec_encode() + self.quest_type.spec_encode() + self.suggested_player.spec_encode() + self.rep_objective_faction.spec_encode() + self.rep_objective_value.spec_encode() + self.required_opposite_rep_faction.spec_encode() + self.required_opposite_rep_value.spec_encode() + self.next_quest_in_chain.spec_encode() + self.required_or_reward_money.spec_encode() + self.reward_money_max_level.spec_encode() + self.reward_spell.spec_encode() + self.reward_spell_cast.spec_encode() + self.reward_honorable_kills.spec_encode()
    }

    fn encode_part0(&self, out: &mut Vec<u8>)
        ensures
            final(out)@ == old(out)@ + self.spec_encode_part0(),
    {
        let ghost start = out@;
        self.quest_id.encode_into(out);
        let ghost mut acc = self.quest_id.spec_encode();
        self.method.encode_into(out);
        proof {
            lemma_concat_associative(start, acc, self.method.spec_encode());
            acc = acc + self.method.spec_encode();
        }
        self.quest_level.encode_into(out);
        proof {
            lemma_concat_associative(start, acc, self.quest_level.spec_encode());
            acc = acc + self.quest_level.spec_encode();
        }
        self.zone_or_sort.encode_into(out);
        proof {
            lemma_concat_associative(start, acc, self.zone_or_sort.spec_encode());
            acc = acc + self.zone_or_sort.spec_encode();
        }
        self.quest_type.encode_into(out);
        proof {
            lemma_concat_associative(start, acc, self.quest_type.spec_encode());
            acc = acc + self.quest_type.spec_encode();
        }
        self.suggested_player.encode_into(out);
        proof {
            lemma_concat_associative(start, acc, self.suggested_player.spec_encode());
            acc = acc + self.suggested_player.spec_encode();
        }
        self.rep_objective_faction.encode_into(out);
        proof {
            lemma_concat_associative(start, acc, self.rep_objective_faction.spec_encode());
            acc = acc + self.rep_objective_faction.spec_encode();
        }
        self.rep_objective_value.encode_into(out);
        proof {
            lemma_concat_associative(start, acc, self.rep_objective_value.spec_encode());
            acc = acc + self.rep_objective_value.spec_encode();
        }
        self.required_opposite_rep_faction.encode_into(out);
        proof {
            lemma_concat_associative(start, acc, self.required_opposite_rep_faction.spec_encode());
            acc = acc + self.required_opposite_rep_faction.spec_encode();
        }
        self.required_opposite_rep_value.encode_into(out);
        proof {
            lemma_concat_associative(start, acc, self.required_opposite_rep_value.spec_encode());
            acc = acc + self.required_opposite_rep_value.spec_encode();
        }
        self.next_quest_in_chain.encode_into(out);
        proof {
            lemma_concat_associative(start, acc, self.next_quest_in_chain.spec_encode());
            acc = acc + self.next_quest_in_chain.spec_encode();
        }
        self.required_or_reward_money.encode_into(out);
        proof {
            lemma_concat_associative(start, acc, self.required_or_reward_money.spec_encode());
            acc = acc + self.required_or_reward_money.spec_encode();
        }
        self.reward_money_max_level.encode_into(out);
        proof {
            lemma_concat_associative(start, acc, self.reward_money_max_level.spec_encode());
            acc = acc + self.reward_money_max_level.spec_encode();
        }
        self.reward_spell.encode_into(out);
        proof {
            lemma_concat_associative(start, acc, self.reward_spell.spec_encode());
            acc = acc + self.reward_spell.spec_encode();
        }
        self.reward_spell_cast.encode_into(out);
        proof {
            lemma_concat_associative(start, acc, self.reward_spell_cast.spec_encode());
            acc = acc + self.reward_spell_cast.spec_encode();
        }
        self.reward_honorable_kills.encode_into(out);
        proof {
            lemma_concat_associative(start, acc, self.reward_honorable_kills.spec_encode());
            acc = acc + self.reward_honorable_kills.spec_encode();
        }
        assert(acc == self.spec_encode_part0());
    }

    /// Bytes of fields 17 to 32 of the image.
    pub open spec fn spec_encode_part1(&self) -> Seq<u8> {
        self.source_item_id.spec_encode() + self.quest_flags.spec_encode() + self.character_title_id.spec_encode() + self.reward_items_id.spec_encode() + self.reward_items_count.spec_encode() + self.reward_choice_items_id.spec_encode() + self.reward_choice_items_count.spec_encode() + self.point_map_id.spec_encode() + self.point_x.spec_encode() + self.point_y.spec_encode() + self.point_opt.spec_encode() + self.title.spec_encode() + self.objectives.spec_encode() + self.details.spec_encode() + self.end_text.spec_encode() + self.required_entities_and_items.spec_encode()
    }

    fn encode_part1(&self, out: &mut Vec<u8>)
        ensures
            final(out)@ == old(out)@ + self.spec_encode_part1(),
    {
        let ghost start = out@;
        self.source_item_id.encode_into(out);
        let ghost mut acc = self.source_item_id.spec_encode();
        self.quest_flags.encode_into(out);
        proof {
            lemma_concat_associative(start, acc, self.quest_flags.spec_encode());
            acc = acc + self.quest_flags.spec_encode();
        }
        self.character_title_id.encode_into(out);
        proof {
            lemma_concat_associative(start, acc, self.character_title_id.spec_encode());
            acc = acc + self.character_title_id.spec_encode();
        }
        self.reward_items_id.encode_into(out);
        proof {
            lemma_concat_associative(start, acc, self.reward_items_id.spec_encode());
            acc = acc + self.reward_items_id.spec_encode();
        }
        self.reward_items_count.encode_into(out);
        proof {
            lemma_concat_associative(start, acc, self.reward_items_count.spec_encode());
            acc = acc + self.reward_items_count.spec_encode();
        }
        self.reward_choice_items_id.encode_into(out);
        proof {
            lemma_concat_associative(start, acc, self.reward_choice_items_id.spec_encode());
            acc = acc + self.reward_choice_items_id.spec_encode();
        }
        self.reward_choice_items_count.encode_into(out);
        proof {
            lemma_concat_associative(start, acc, self.reward_choice_items_count.spec_encode());
            acc = acc + self.reward_choice_items_count.spec_encode();
        }
        self.point_map_id.encode_into(out);
        proof {
            lemma_concat_associative(start, acc, self.point_map_id.spec_encode());
            acc = acc + self.point_map_id.spec_encode();
        }
        self.point_x.encode_into(out);
        proof {
            lemma_concat_associative(start, acc, self.point_x.spec_encode());
            acc = acc + self.point_x.spec_encode();
        }
        self.point_y.encode_into(out);
        proof {
            lemma_concat_associative(start, acc, self.point_y.spec_encode());
            acc = acc + self.point_y.spec_encode();
        }
        self.point_opt.encode_into(out);
        proof {
            lemma_concat_associative(start, acc, self.point_opt.spec_encode());
            acc = acc + self.point_opt.spec_encode();
        }
        self.title.encode_into(out);
        proof {
            lemma_concat_associative(start, acc, self.title.spec_encode());
            acc = acc + self.title.spec_encode();
        }
        self.objectives.encode_into(out);
        proof {
            lemma_concat_associative(start, acc, self.objectives.spec_encode());
            acc = acc + self.objectives.spec_encode();
        }
        self.details.encode_into(out);
        proof {
            lemma_concat_associative(start, acc, self.details.spec_encode());
            acc = acc + self.details.spec_encode();
        }
        self.end_text.encode_into(out);
        proof {
            lemma_concat_associative(start, acc, self.end_text.spec_encode());
            acc = acc + self.end_text.spec_encode();
        }
        self.required_entities_and_items.encode_into(out);
        proof {
            lemma_concat_associative(start, acc, self.required_entities_and_items.spec_encode());
            acc = acc + self.required_entities_and_items.spec_encode();
        }
        assert(acc == self.spec_encode_part1());
    }

    /// Bytes of fields 33 to 33 of the image.
    pub open spec fn spec_encode_part2(&self) -> Seq<u8> {
        self.objective_texts.spec_encode()
    }

    fn encode_part2(&self, out: &mut Vec<u8>)
        ensures
            final(out)@ == old(out)@ + self.spec_encode_part2(),
    {
        let ghost start = out@;
        self.objective_texts.encode_into(out);
        let ghost mut acc = self.objective_texts.spec_encode();
        assert(acc == self.spec_encode_part2());
    }

}

impl WireEncode for SmsgQuestQueryResponse {
    open spec fn spec_encode(&self) -> Seq<u8> {
        self.spec_encode_part0() + self.spec_encode_part1() + self.spec_encode_part2()
    }

    #[verifier::spinoff_prover]
    fn encode_into(&self, out: &mut Vec<u8>) {
        let ghost start = out@;
        self.encode_part0(out);
        assert(out@ =~= start + (self.spec_encode_part0()));
        self.encode_part1(out);
        assert(out@ =~= start + (self.spec_encode_part0() + self.spec_encode_part1()));
        self.encode_part2(out);
        assert(out@ =~= start + (self.spec_encode_part0() + self.spec_encode_part1() + self.spec_encode_part2()));
    }
}

impl ServerMessagePayload for SmsgQuestQueryResponse {}
impl SmsgQuestQueryResponse {
    /// The description of a quest sent in answer to a quest query. Each entity
    /// objective goes through `spec_transform_entity_id`; the opposite reputation
    /// fields are 0; absent texts are sent empty.
    pub fn from_template(t: &QuestTemplate) -> (r: Self)
        requires
            forall|i: int| 0 <= i < 4 ==> t.required_entity_ids@[i] != i32::MIN,
        ensures
            r.quest_id == t.entry,
            r.method == t.method,
            r.quest_level == t.level,
            r.zone_or_sort == t.zone_or_sort,
            r.quest_type == t.type_,
            r.suggested_player == t.suggested_players,
            r.rep_objective_faction == t.rep_objective_faction,
            r.rep_objective_value == t.rep_objective_value,
            r.required_opposite_rep_faction == 0,
            r.required_opposite_rep_value == 0,
            r.next_quest_in_chain == t.next_quest_in_chain,
            r.required_or_reward_money == t.required_or_reward_money,
            r.reward_money_max_level == t.reward_money_max_level,
            r.reward_spell == t.reward_spell,
            r.reward_spell_cast == t.reward_spell_cast,
            r.reward_honorable_kills == t.reward_honorable_kills,
            r.source_item_id == t.source_item_id,
            r.quest_flags == t.flags,
            r.character_title_id == t.character_title,
            r.reward_items_id == t.reward_item_ids,
            r.reward_items_count == t.reward_item_counts,
            r.reward_choice_items_id == t.reward_choice_item_ids,
            r.reward_choice_items_count == t.reward_choice_item_counts,
            r.point_map_id == t.point_map_id,
            r.point_x == t.point_x,
            r.point_y == t.point_y,
            r.point_opt == t.point_opt,
            r.title.0@ == text_bytes(t.title),
            r.objectives.0@ == text_bytes(t.objectives),
            r.details.0@ == text_bytes(t.details),
            r.end_text.0@ == text_bytes(t.end_text),
            forall|i: int|
                0 <= i < 4 ==> #[trigger] r.required_entities_and_items@[i]@ == seq![
                    spec_transform_entity_id(t.required_entity_ids@[i]),
                    t.required_entity_counts@[i],
                    t.required_item_ids@[i],
                    t.required_item_counts@[i],
                ],
            forall|i: int| 0 <= i < 4 ==> #[trigger] r.objective_texts@[i].0@ == text_bytes(t.objective_texts@[i]),
    {
        let row0: [u32; 4] = [
            transform_entity_id(t.required_entity_ids[0]),
            t.required_entity_counts[0],
            t.required_item_ids[0],
            t.required_item_counts[0],
        ];
        let row1: [u32; 4] = [
            transform_entity_id(t.required_entity_ids[1]),
            t.required_entity_counts[1],
            t.required_item_ids[1],
            t.required_item_counts[1],
        ];
        let row2: [u32; 4] = [
            transform_entity_id(t.required_entity_ids[2]),
            t.required_entity_counts[2],
            t.required_item_ids[2],
            t.required_item_counts[2],
        ];
        let row3: [u32; 4] = [
            transform_entity_id(t.required_entity_ids[3]),
            t.required_entity_counts[3],
            t.required_item_ids[3],
            t.required_item_counts[3],
        ];
        let objective_texts: [NullString; 4] = [
            text_or_empty(&t.objective_texts[0]),
            text_or_empty(&t.objective_texts[1]),
            text_or_empty(&t.objective_texts[2]),
            text_or_empty(&t.objective_texts[3]),
        ];
        let r = SmsgQuestQueryResponse {
            quest_id: t.entry,
            method: t.method,
            quest_level: t.level,
            zone_or_sort: t.zone_or_sort,
            quest_type: t.type_,
            suggested_player: t.suggested_players,
            rep_objective_faction: t.rep_objective_faction,
            rep_objective_value: t.rep_objective_value,
            required_opposite_rep_faction: 0,
            required_opposite_rep_value: 0,
            next_quest_in_chain: t.next_quest_in_chain,
            required_or_reward_money: t.required_or_reward_money,
            reward_money_max_level: t.reward_money_max_level,
            reward_spell: t.reward_spell,
            reward_spell_cast: t.reward_spell_cast,
            reward_honorable_kills: t.reward_honorable_kills,
            source_item_id: t.source_item_id,
            quest_flags: t.flags,
            character_title_id: t.character_title,
            reward_items_id: t.reward_item_ids,
            reward_items_count: t.reward_item_counts,
            reward_choice_items_id: t.reward_choice_item_ids,
            reward_choice_items_count: t.reward_choice_item_counts,
            point_map_id: t.point_map_id,
            point_x: t.point_x,
            point_y: t.point_y,
            point_opt: t.point_opt,
            title: text_or_empty(&t.title),
            objectives: text_or_empty(&t.objectives),
            details: text_or_empty(&t.details),
            end_text: text_or_empty(&t.end_text),
            required_entities_and_items: [row0, row1, row2, row3],
            objective_texts,
        };
        assert forall|i: int| 0 <= i < 4 implies #[trigger] r.required_entities_and_items@[i]@ == seq![
            spec_transform_entity_id(t.required_entity_ids@[i]),
            t.required_entity_counts@[i],
            t.required_item_ids@[i],
            t.required_item_counts@[i],
        ] by {
            assert(r.required_entities_and_items@[i]@ =~= seq![
                spec_transform_entity_id(t.required_entity_ids@[i]),
                t.required_entity_counts@[i],
                t.required_item_ids@[i],
                t.required_item_counts@[i],
            ]);
        }
        r
    }
}

} // verus!
