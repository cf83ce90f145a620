//! Loot window messages.
use crate::codec::{ClientPayload, ReadError, WireEncode};
use crate::constants::{LootSlotType, LootType};
use crate::entities::{ObjectGuid};
use crate::protocol::server::ServerMessagePayload;
use crate::wire::{lemma_le_u32_roundtrip, from_le_u32, from_le_u64, get_u64_le, le_u32, le_u64, lemma_le_u64_roundtrip, put_u8};
use vstd::prelude::*;

verus! {

#[derive(Debug, PartialEq, Eq)]
pub struct CmsgLoot {
    pub target_guid: u64,
}

impl ClientPayload for CmsgLoot {
    open spec fn spec_accepts(data: Seq<u8>) -> bool {
        data.len() >= 8
    }

    open spec fn spec_reads_as(data: Seq<u8>, v: Self) -> bool {
        v == CmsgLoot { target_guid: from_le_u64(data.subrange(0, 8)) }
    }

    fn read(data: &[u8]) -> (r: Result<Self, ReadError>) {
        if data.len() < 8 {
            return Err(ReadError::UnexpectedEnd);
        }
        Ok(CmsgLoot { target_guid: get_u64_le(data, 0) })
    }
}

/// Reading the bytes of a `CmsgLoot` (its fields in order, little-endian) gives it
/// back: each field is read from its own bytes.
pub proof fn lemma_cmsg_loot_reads_back(v: CmsgLoot)
    ensures
        CmsgLoot::spec_accepts(le_u64(v.target_guid)),
        CmsgLoot::spec_reads_as(le_u64(v.target_guid), v),
{
    let data = le_u64(v.target_guid);
    lemma_le_u64_roundtrip(v.target_guid);
    assert(data.subrange(0, 8) =~= le_u64(v.target_guid));
}

#[derive(Debug, PartialEq, Eq)]
pub struct SmsgLootResponse {
    pub target_guid: u64,
    pub loot_type: LootType,
    pub money: u32,
    pub item_count: u8,
    pub items: Vec<LootResponseItem>,
}

impl WireEncode for SmsgLootResponse {
    open spec fn spec_encode(&self) -> Seq<u8> {
        self.target_guid.spec_encode() + seq![self.loot_type.spec_value() as u8] + self.money.spec_encode() + self.item_count.spec_encode() + self.items.spec_encode()
    }

    fn encode_into(&self, out: &mut Vec<u8>) {
        self.target_guid.encode_into(out);
        put_u8(out, self.loot_type.value() as u8);
        self.money.encode_into(out);
        self.item_count.encode_into(out);
        self.items.encode_into(out);
        assert(out@ =~= old(out)@ + self.spec_encode());
    }
}

impl ServerMessagePayload for SmsgLootResponse {}

/// One item of a loot window.
#[derive(Debug, PartialEq, Eq)]
pub struct LootResponseItem {
    /// Index in the loot window
    pub index: u8,
    pub id: u32,
    pub count: u32,
    /// From ItemDisplayInfo.dbc
    pub display_info_id: u32,
    pub random_suffix: u32,
    pub random_property_id: u32,
    pub slot_type: LootSlotType,
}

impl WireEncode for LootResponseItem {
    open spec fn spec_encode(&self) -> Seq<u8> {
        self.index.spec_encode() + self.id.spec_encode() + self.count.spec_encode() + self.display_info_id.spec_encode() + self.random_suffix.spec_encode() + self.random_property_id.spec_encode() + seq![self.slot_type.spec_value() as u8]
    }

    fn encode_into(&self, out: &mut Vec<u8>) {
        self.index.encode_into(out);
        self.id.encode_into(out);
        self.count.encode_into(out);
        self.display_info_id.encode_into(out);
        self.random_suffix.encode_into(out);
        self.random_property_id.encode_into(out);
        put_u8(out, self.slot_type.value() as u8);
        assert(out@ =~= old(out)@ + self.spec_encode());
    }
}

#[derive(Debug, PartialEq, Eq)]
pub struct SmsgLootMoneyNotify {
    pub money: u32,
}

impl WireEncode for SmsgLootMoneyNotify {
    open spec fn spec_encode(&self) -> Seq<u8> {
        self.money.spec_encode()
    }

    fn encode_into(&self, out: &mut Vec<u8>) {
        self.money.encode_into(out);
        assert(out@ =~= old(out)@ + self.spec_encode());
    }
}

impl ServerMessagePayload for SmsgLootMoneyNotify {}

/// The bytes of a `SmsgLootMoneyNotify` hold its fields in declaration order, little-endian:
/// each field reads back from its own place.
pub proof fn lemma_smsg_loot_money_notify_image_fields(v: SmsgLootMoneyNotify)
    ensures
        v.spec_encode().len() == 4,
        from_le_u32(v.spec_encode().subrange(0, 4)) == v.money,
{
    let data = v.spec_encode();
    lemma_le_u32_roundtrip(v.money);
    assert(data.subrange(0, 4) =~= le_u32(v.money));
}

#[derive(Debug, PartialEq, Eq)]
pub struct SmsgLootClearMoney {
}

impl WireEncode for SmsgLootClearMoney {
    open spec fn spec_encode(&self) -> Seq<u8> {
        Seq::empty()
    }

    fn encode_into(&self, out: &mut Vec<u8>) {
        assert(out@ =~= old(out)@ + self.spec_encode());
    }
}

impl ServerMessagePayload for SmsgLootClearMoney {}

#[derive(Debug, PartialEq, Eq)]
pub struct CmsgLootRelease {
    pub looted_guid: u64,
}

impl ClientPayload for CmsgLootRelease {
    open spec fn spec_accepts(data: Seq<u8>) -> bool {
        data.len() >= 8
    }

    open spec fn spec_reads_as(data: Seq<u8>, v: Self) -> bool {
        v == CmsgLootRelease { looted_guid: from_le_u64(data.subrange(0, 8)) }
    }

    fn read(data: &[u8]) -> (r: Result<Self, ReadError>) {
        if data.len() < 8 {
            return Err(ReadError::UnexpectedEnd);
        }
        Ok(CmsgLootRelease { looted_guid: get_u64_le(data, 0) })
    }
}

/// Reading the bytes of a `CmsgLootRelease` (its fields in order, little-endian) gives it
/// back: each field is read from its own bytes.
pub proof fn lemma_cmsg_loot_release_reads_back(v: CmsgLootRelease)
    ensures
        CmsgLootRelease::spec_accepts(le_u64(v.looted_guid)),
        CmsgLootRelease::spec_reads_as(le_u64(v.looted_guid), v),
{
    let data = le_u64(v.looted_guid);
    lemma_le_u64_roundtrip(v.looted_guid);
    assert(data.subrange(0, 8) =~= le_u64(v.looted_guid));
}

#[derive(Debug, PartialEq, Eq)]
pub struct SmsgLootReleaseResponse {
    pub looted_guid: u64,
    /// Always 1
    pub unk: u8,
}

impl WireEncode for SmsgLootReleaseResponse {
    open spec fn spec_encode(&self) -> Seq<u8> {
        self.looted_guid.spec_encode() + self.unk.spec_encode()
    }

    fn encode_into(&self, out: &mut Vec<u8>) {
        self.looted_guid.encode_into(out);
        self.unk.encode_into(out);
        assert(out@ =~= old(out)@ + self.spec_encode());
    }
}

impl ServerMessagePayload for SmsgLootReleaseResponse {}

/// The bytes of a `SmsgLootReleaseResponse` hold its fields in declaration order, little-endian:
/// each field reads back from its own place.
pub proof fn lemma_smsg_loot_release_response_image_fields(v: SmsgLootReleaseResponse)
    ensures
        v.spec_encode().len() == 9,
        from_le_u64(v.spec_encode().subrange(0, 8)) == v.looted_guid,
        v.spec_encode()[8] == v.unk,
{
    let data = v.spec_encode();
    lemma_le_u64_roundtrip(v.looted_guid);
    assert(data.subrange(0, 8) =~= le_u64(v.looted_guid));
}

#[derive(Debug, PartialEq, Eq)]
pub struct CmsgAutostoreLootItem {
    pub loot_index: u8,
}

impl ClientPayload for CmsgAutostoreLootItem {
    open spec fn spec_accepts(data: Seq<u8>) -> bool {
        data.len() >= 1
    }

    open spec fn spec_reads_as(data: Seq<u8>, v: Self) -> bool {
        v == CmsgAutostoreLootItem { loot_index: data[0] }
    }

    fn read(data: &[u8]) -> (r: Result<Self, ReadError>) {
        if data.len() < 1 {
            return Err(ReadError::UnexpectedEnd);
        }
        Ok(CmsgAutostoreLootItem { loot_index: data[0] })
    }
}

/// Reading the bytes of a `CmsgAutostoreLootItem` (its fields in order, little-endian) gives it
/// back: each field is read from its own bytes.
pub proof fn lemma_cmsg_autostore_loot_item_reads_back(v: CmsgAutostoreLootItem)
    ensures
        CmsgAutostoreLootItem::spec_accepts(seq![v.loot_index]),
        CmsgAutostoreLootItem::spec_reads_as(seq![v.loot_index], v),
{
    let data = seq![v.loot_index];
    assert(data[0] == v.loot_index);
}

#[derive(Debug, PartialEq, Eq)]
pub struct SmsgLootRemoved {
    pub loot_index: u8,
}

impl WireEncode for SmsgLootRemoved {
    open spec fn spec_encode(&self) -> Seq<u8> {
        self.loot_index.spec_encode()
    }

    fn encode_into(&self, out: &mut Vec<u8>) {
        self.loot_index.encode_into(out);
        assert(out@ =~= old(out)@ + self.spec_encode());
    }
}

impl ServerMessagePayload for SmsgLootRemoved {}

/// The bytes of a `SmsgLootRemoved` hold its fields in declaration order, little-endian:
/// each field reads back from its own place.
pub proof fn lemma_smsg_loot_removed_image_fields(v: SmsgLootRemoved)
    ensures
        v.spec_encode().len() == 1,
        v.spec_encode()[0] == v.loot_index,
{
    let data = v.spec_encode();
}
impl SmsgLootResponse {
    /// The content of a loot window; the count is the number of items, kept to its
    /// low eight bits.
    pub fn build(target_guid: &ObjectGuid, loot_type: LootType, money: u32, items: Vec<LootResponseItem>) -> (r: Self)
        ensures
            r.target_guid == target_guid.raw,
            r.loot_type == loot_type,
            r.money == money,
            r.item_count == items@.len() as u8,
            r.items == items,
    {
        let item_count = items.len() as u8;
        SmsgLootResponse { target_guid: target_guid.raw(), loot_type, money, item_count, items }
    }
}

impl SmsgLootReleaseResponse {
    /// The answer to the release of a loot window.
    pub fn build(looted_guid: u64) -> (r: Self)
        ensures
            r == (SmsgLootReleaseResponse { looted_guid, unk: 1 }),
    {
        SmsgLootReleaseResponse { looted_guid, unk: 1 }
    }
}

} // verus!
