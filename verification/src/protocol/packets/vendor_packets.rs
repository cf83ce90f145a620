//! Vendor messages.
use crate::codec::{ClientPayload, ReadError, WireEncode};
use crate::entities::{ObjectGuid};
use crate::protocol::server::ServerMessagePayload;
use crate::wire::{lemma_le_u32_roundtrip, from_le_u32, from_le_u64, get_u64_le, le_u32, le_u64, lemma_le_u64_roundtrip};
use vstd::prelude::*;

verus! {

#[derive(Debug, PartialEq, Eq)]
pub struct CmsgListInventory {
    pub vendor_guid: ObjectGuid,
}

impl ClientPayload for CmsgListInventory {
    open spec fn spec_accepts(data: Seq<u8>) -> bool {
        data.len() >= 8
    }

    open spec fn spec_reads_as(data: Seq<u8>, v: Self) -> bool {
        v == CmsgListInventory { vendor_guid: ObjectGuid { raw: from_le_u64(data.subrange(0, 8)) } }
    }

    fn read(data: &[u8]) -> (r: Result<Self, ReadError>) {
        if data.len() < 8 {
            return Err(ReadError::UnexpectedEnd);
        }
        Ok(CmsgListInventory { vendor_guid: ObjectGuid { raw: get_u64_le(data, 0) } })
    }
}

/// Reading the bytes of a `CmsgListInventory` (its fields in order, little-endian) gives it
/// back: each field is read from its own bytes.
pub proof fn lemma_cmsg_list_inventory_reads_back(v: CmsgListInventory)
    ensures
        CmsgListInventory::spec_accepts(le_u64(v.vendor_guid.raw)),
        CmsgListInventory::spec_reads_as(le_u64(v.vendor_guid.raw), v),
{
    let data = le_u64(v.vendor_guid.raw);
    lemma_le_u64_roundtrip(v.vendor_guid.raw);
    assert(data.subrange(0, 8) =~= le_u64(v.vendor_guid.raw));
}

#[derive(Debug, PartialEq, Eq)]
pub struct SmsgListInventory {
    pub vendor_guid: ObjectGuid,
    pub inventory_size: u8,
    /// Some if inventory_size > 0
    pub items: Option<Vec<InventoryItem>>,
    /// Some if inventory_size == 0
    pub error_code: Option<u32>,
}

impl WireEncode for SmsgListInventory {
    open spec fn spec_encode(&self) -> Seq<u8> {
        self.vendor_guid.spec_encode() + self.inventory_size.spec_encode() + self.items.spec_encode() + self.error_code.spec_encode()
    }

    fn encode_into(&self, out: &mut Vec<u8>) {
        self.vendor_guid.encode_into(out);
        self.inventory_size.encode_into(out);
        self.items.encode_into(out);
        self.error_code.encode_into(out);
        assert(out@ =~= old(out)@ + self.spec_encode());
    }
}

impl ServerMessagePayload for SmsgListInventory {}

/// One item a vendor sells.
#[derive(Debug, PartialEq, Eq)]
pub struct InventoryItem {
    /// 1-based
    pub index: u32,
    pub item_id: u32,
    pub item_display_id: u32,
    /// 0xFFFFFFFF if <= 0
    pub item_count_at_vendor: u32,
    pub price: u32,
    pub max_durability: u32,
    pub buy_count: u32,
    pub extended_cost_id: u32,
}

impl WireEncode for InventoryItem {
    open spec fn spec_encode(&self) -> Seq<u8> {
        self.index.spec_encode() + self.item_id.spec_encode() + self.item_display_id.spec_encode() + self.item_count_at_vendor.spec_encode() + self.price.spec_encode() + self.max_durability.spec_encode() + self.buy_count.spec_encode() + self.extended_cost_id.spec_encode()
    }

    fn encode_into(&self, out: &mut Vec<u8>) {
        self.index.encode_into(out);
        self.item_id.encode_into(out);
        self.item_display_id.encode_into(out);
        self.item_count_at_vendor.encode_into(out);
        self.price.encode_into(out);
        self.max_durability.encode_into(out);
        self.buy_count.encode_into(out);
        self.extended_cost_id.encode_into(out);
        assert(out@ =~= old(out)@ + self.spec_encode());
    }
}

/// The bytes of a `InventoryItem` hold its fields in declaration order, little-endian:
/// each field reads back from its own place.
pub proof fn lemma_inventory_item_image_fields(v: InventoryItem)
    ensures
        v.spec_encode().len() == 32,
        from_le_u32(v.spec_encode().subrange(0, 4)) == v.index,
        from_le_u32(v.spec_encode().subrange(4, 8)) == v.item_id,
        from_le_u32(v.spec_encode().subrange(8, 12)) == v.item_display_id,
        from_le_u32(v.spec_encode().subrange(12, 16)) == v.item_count_at_vendor,
        from_le_u32(v.spec_encode().subrange(16, 20)) == v.price,
        from_le_u32(v.spec_encode().subrange(20, 24)) == v.max_durability,
        from_le_u32(v.spec_encode().subrange(24, 28)) == v.buy_count,
        from_le_u32(v.spec_encode().subrange(28, 32)) == v.extended_cost_id,
{
    let data = v.spec_encode();
    lemma_le_u32_roundtrip(v.index);
    assert(data.subrange(0, 4) =~= le_u32(v.index));
    lemma_le_u32_roundtrip(v.item_id);
    assert(data.subrange(4, 8) =~= le_u32(v.item_id));
    lemma_le_u32_roundtrip(v.item_display_id);
    assert(data.subrange(8, 12) =~= le_u32(v.item_display_id));
    lemma_le_u32_roundtrip(v.item_count_at_vendor);
    assert(data.subrange(12, 16) =~= le_u32(v.item_count_at_vendor));
    lemma_le_u32_roundtrip(v.price);
    assert(data.subrange(16, 20) =~= le_u32(v.price));
    lemma_le_u32_roundtrip(v.max_durability);
    assert(data.subrange(20, 24) =~= le_u32(v.max_durability));
    lemma_le_u32_roundtrip(v.buy_count);
    assert(data.subrange(24, 28) =~= le_u32(v.buy_count));
    lemma_le_u32_roundtrip(v.extended_cost_id);
    assert(data.subrange(28, 32) =~= le_u32(v.extended_cost_id));
}
impl SmsgListInventory {
    /// The answer of a vendor with nothing to sell.
    pub fn empty(vendor_guid: ObjectGuid) -> (r: Self)
        ensures
            r == (SmsgListInventory { vendor_guid, inventory_size: 0, items: None, error_code: Some(0u32) }),
    {
        SmsgListInventory { vendor_guid, inventory_size: 0, items: None, error_code: Some(0) }
    }

    /// The list of what a vendor sells. The items travel only when there are some,
    /// and the error code only when there are none, so an empty list gives the
    /// answer of `empty`. The size is the number of items, kept to its low eight bits.
    pub fn from_items(vendor_guid: ObjectGuid, items: Vec<InventoryItem>) -> (r: Self)
        ensures
            items@.len() == 0 ==> r == (SmsgListInventory {
                vendor_guid,
                inventory_size: 0,
                items: None,
                error_code: Some(0u32),
            }),
            items@.len() > 0 ==> {
                &&& r.vendor_guid == vendor_guid
                &&& r.inventory_size == items@.len() as u8
                &&& r.items == Some(items)
                &&& r.error_code is None
            },
            items@.len() <= 255 ==> (r.items is Some <==> r.inventory_size > 0) && (r.error_code is Some
                <==> r.inventory_size == 0),
    {
        if items.len() == 0 {
            return SmsgListInventory::empty(vendor_guid);
        }
        let inventory_size = items.len() as u8;
        SmsgListInventory { vendor_guid, inventory_size, items: Some(items), error_code: None }
    }
}

} // verus!
