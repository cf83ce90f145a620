//! Gossip menu messages.
use crate::codec::{ClientPayload, NullString, ReadError, WireEncode};
use crate::constants::{GossipMenuItemIcon};
use crate::entities::{ObjectGuid};
use crate::protocol::server::ServerMessagePayload;
use crate::wire::{lemma_le_u32_roundtrip, from_le_u32, from_le_u64, get_u32_le, get_u64_le, le_u32, le_u64, lemma_le_u64_roundtrip, put_u8};
use vstd::prelude::*;

verus! {

#[derive(Debug, PartialEq, Eq)]
pub struct SmsgGossipMessage {
    pub source_guid: u64,
    pub menu_id: u32,
    pub title_text_id: u32,
    pub menu_items_count: u32,
    pub menu_items: Vec<SmsgGossipMessageMenuItem>,
    pub menu_quest_items_count: u32,
    pub menu_quest_items: Vec<SmsgGossipMessageMenuQuestItem>,
}

impl WireEncode for SmsgGossipMessage {
    open spec fn spec_encode(&self) -> Seq<u8> {
        self.source_guid.spec_encode() + self.menu_id.spec_encode() + self.title_text_id.spec_encode() + self.menu_items_count.spec_encode() + self.menu_items.spec_encode() + self.menu_quest_items_count.spec_encode() + self.menu_quest_items.spec_encode()
    }

    fn encode_into(&self, out: &mut Vec<u8>) {
        self.source_guid.encode_into(out);
        self.menu_id.encode_into(out);
        self.title_text_id.encode_into(out);
        self.menu_items_count.encode_into(out);
        self.menu_items.encode_into(out);
        self.menu_quest_items_count.encode_into(out);
        self.menu_quest_items.encode_into(out);
        assert(out@ =~= old(out)@ + self.spec_encode());
    }
}

impl ServerMessagePayload for SmsgGossipMessage {}

/// One option of a gossip menu.
#[derive(Debug, PartialEq, Eq)]
pub struct SmsgGossipMessageMenuItem {
    pub index: u32,
    pub icon: GossipMenuItemIcon,
    pub coded: bool,
    pub required_money: u32,
    pub message: NullString,
    pub box_message: NullString,
}

impl WireEncode for SmsgGossipMessageMenuItem {
    open spec fn spec_encode(&self) -> Seq<u8> {
        self.index.spec_encode() + seq![self.icon.spec_value() as u8] + self.coded.spec_encode() + self.required_money.spec_encode() + self.message.spec_encode() + self.box_message.spec_encode()
    }

    fn encode_into(&self, out: &mut Vec<u8>) {
        self.index.encode_into(out);
        put_u8(out, self.icon.value() as u8);
        self.coded.encode_into(out);
        self.required_money.encode_into(out);
        self.message.encode_into(out);
        self.box_message.encode_into(out);
        assert(out@ =~= old(out)@ + self.spec_encode());
    }
}

/// One quest of a gossip menu.
#[derive(Debug, PartialEq, Eq)]
pub struct SmsgGossipMessageMenuQuestItem {
    pub quest_id: u32,
    pub icon: u32,
    pub quest_level: i32,
    pub title: NullString,
}

impl WireEncode for SmsgGossipMessageMenuQuestItem {
    open spec fn spec_encode(&self) -> Seq<u8> {
        self.quest_id.spec_encode() + self.icon.spec_encode() + self.quest_level.spec_encode() + self.title.spec_encode()
    }

    fn encode_into(&self, out: &mut Vec<u8>) {
        self.quest_id.encode_into(out);
        self.icon.encode_into(out);
        self.quest_level.encode_into(out);
        self.title.encode_into(out);
        assert(out@ =~= old(out)@ + self.spec_encode());
    }
}

#[derive(Debug, PartialEq, Eq)]
pub struct CmsgGossipHello {
    pub guid: u64,
}

impl ClientPayload for CmsgGossipHello {
    open spec fn spec_accepts(data: Seq<u8>) -> bool {
        data.len() >= 8
    }

    open spec fn spec_reads_as(data: Seq<u8>, v: Self) -> bool {
        v == CmsgGossipHello { guid: from_le_u64(data.subrange(0, 8)) }
    }

    fn read(data: &[u8]) -> (r: Result<Self, ReadError>) {
        if data.len() < 8 {
            return Err(ReadError::UnexpectedEnd);
        }
        Ok(CmsgGossipHello { guid: get_u64_le(data, 0) })
    }
}

/// Reading the bytes of a `CmsgGossipHello` (its fields in order, little-endian) gives it
/// back: each field is read from its own bytes.
pub proof fn lemma_cmsg_gossip_hello_reads_back(v: CmsgGossipHello)
    ensures
        CmsgGossipHello::spec_accepts(le_u64(v.guid)),
        CmsgGossipHello::spec_reads_as(le_u64(v.guid), v),
{
    let data = le_u64(v.guid);
    lemma_le_u64_roundtrip(v.guid);
    assert(data.subrange(0, 8) =~= le_u64(v.guid));
}

#[derive(Debug, PartialEq, Eq)]
pub struct CmsgGossipSelectOption {
    pub guid: ObjectGuid,
    pub menu_id: u32,
    pub option_index: u32,
}

impl ClientPayload for CmsgGossipSelectOption {
    open spec fn spec_accepts(data: Seq<u8>) -> bool {
        data.len() >= 16
    }

    open spec fn spec_reads_as(data: Seq<u8>, v: Self) -> bool {
        v == CmsgGossipSelectOption { guid: ObjectGuid { raw: from_le_u64(data.subrange(0, 8)) }, menu_id: from_le_u32(data.subrange(8, 12)), option_index: from_le_u32(data.subrange(12, 16)) }
    }

    fn read(data: &[u8]) -> (r: Result<Self, ReadError>) {
        if data.len() < 16 {
            return Err(ReadError::UnexpectedEnd);
        }
        Ok(CmsgGossipSelectOption { guid: ObjectGuid { raw: get_u64_le(data, 0) }, menu_id: get_u32_le(data, 8), option_index: get_u32_le(data, 12) })
    }
}

/// Reading the bytes of a `CmsgGossipSelectOption` (its fields in order, little-endian) gives it
/// back: each field is read from its own bytes.
pub proof fn lemma_cmsg_gossip_select_option_reads_back(v: CmsgGossipSelectOption)
    ensures
        CmsgGossipSelectOption::spec_accepts(le_u64(v.guid.raw) + le_u32(v.menu_id) + le_u32(v.option_index)),
        CmsgGossipSelectOption::spec_reads_as(le_u64(v.guid.raw) + le_u32(v.menu_id) + le_u32(v.option_index), v),
{
    let data = le_u64(v.guid.raw) + le_u32(v.menu_id) + le_u32(v.option_index);
    lemma_le_u64_roundtrip(v.guid.raw);
    assert(data.subrange(0, 8) =~= le_u64(v.guid.raw));
    lemma_le_u32_roundtrip(v.menu_id);
    assert(data.subrange(8, 12) =~= le_u32(v.menu_id));
    lemma_le_u32_roundtrip(v.option_index);
    assert(data.subrange(12, 16) =~= le_u32(v.option_index));
}

} // verus!
