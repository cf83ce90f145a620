//! Item query and inventory messages.
use crate::codec::{ClientPayload, NullString, ReadError, WireEncode};
use crate::constants::{InventoryResult};
use crate::entities::{ObjectGuid};
use crate::protocol::server::ServerMessagePayload;
use crate::wire::{lemma_le_u32_roundtrip, from_le_u32, from_le_u64, get_u32_le, get_u64_le, le_u32, le_u64, lemma_le_u64_roundtrip};
use vstd::prelude::*;

verus! {

#[derive(Debug, PartialEq, Eq)]
pub struct CmsgItemQuerySingle {
    pub item_id: u32,
}

impl ClientPayload for CmsgItemQuerySingle {
    open spec fn spec_accepts(data: Seq<u8>) -> bool {
        data.len() >= 4
    }

    open spec fn spec_reads_as(data: Seq<u8>, v: Self) -> bool {
        v == CmsgItemQuerySingle { item_id: from_le_u32(data.subrange(0, 4)) }
    }

    fn read(data: &[u8]) -> (r: Result<Self, ReadError>) {
        if data.len() < 4 {
            return Err(ReadError::UnexpectedEnd);
        }
        Ok(CmsgItemQuerySingle { item_id: get_u32_le(data, 0) })
    }
}

/// Reading the bytes of a `CmsgItemQuerySingle` (its fields in order, little-endian) gives it
/// back: each field is read from its own bytes.
pub proof fn lemma_cmsg_item_query_single_reads_back(v: CmsgItemQuerySingle)
    ensures
        CmsgItemQuerySingle::spec_accepts(le_u32(v.item_id)),
        CmsgItemQuerySingle::spec_reads_as(le_u32(v.item_id), v),
{
    let data = le_u32(v.item_id);
    lemma_le_u32_roundtrip(v.item_id);
    assert(data.subrange(0, 4) =~= le_u32(v.item_id));
}

#[derive(Debug, PartialEq, Eq)]
pub struct CmsgItemNameQuery {
    pub item_id: u32,
    pub item_guid: u64,
}

impl ClientPayload for CmsgItemNameQuery {
    open spec fn spec_accepts(data: Seq<u8>) -> bool {
        data.len() >= 12
    }

    open spec fn spec_reads_as(data: Seq<u8>, v: Self) -> bool {
        v == CmsgItemNameQuery { item_id: from_le_u32(data.subrange(0, 4)), item_guid: from_le_u64(data.subrange(4, 12)) }
    }

    fn read(data: &[u8]) -> (r: Result<Self, ReadError>) {
        if data.len() < 12 {
            return Err(ReadError::UnexpectedEnd);
        }
        Ok(CmsgItemNameQuery { item_id: get_u32_le(data, 0), item_guid: get_u64_le(data, 4) })
    }
}

/// Reading the bytes of a `CmsgItemNameQuery` (its fields in order, little-endian) gives it
/// back: each field is read from its own bytes.
pub proof fn lemma_cmsg_item_name_query_reads_back(v: CmsgItemNameQuery)
    ensures
        CmsgItemNameQuery::spec_accepts(le_u32(v.item_id) + le_u64(v.item_guid)),
        CmsgItemNameQuery::spec_reads_as(le_u32(v.item_id) + le_u64(v.item_guid), v),
{
    let data = le_u32(v.item_id) + le_u64(v.item_guid);
    lemma_le_u32_roundtrip(v.item_id);
    assert(data.subrange(0, 4) =~= le_u32(v.item_id));
    lemma_le_u64_roundtrip(v.item_guid);
    assert(data.subrange(4, 12) =~= le_u64(v.item_guid));
}

/// A stat of an item template.
#[derive(Debug, PartialEq, Eq)]
pub struct ItemTemplateStat {
    pub stat_type: u32,
    pub stat_value: i32,
}

impl WireEncode for ItemTemplateStat {
    open spec fn spec_encode(&self) -> Seq<u8> {
        self.stat_type.spec_encode() + self.stat_value.spec_encode()
    }

    fn encode_into(&self, out: &mut Vec<u8>) {
        self.stat_type.encode_into(out);
        self.stat_value.encode_into(out);
        assert(out@ =~= old(out)@ + self.spec_encode());
    }
}

/// A damage range of an item template.
#[derive(Debug, PartialEq, Eq)]
pub struct ItemTemplateDamage {
    /// The bits of an `f32`.
    pub damage_min: u32,
    /// The bits of an `f32`.
    pub damage_max: u32,
    pub damage_type: u32,
}

impl WireEncode for ItemTemplateDamage {
    open spec fn spec_encode(&self) -> Seq<u8> {
        self.damage_min.spec_encode() + self.damage_max.spec_encode() + self.damage_type.spec_encode()
    }

    fn encode_into(&self, out: &mut Vec<u8>) {
        self.damage_min.encode_into(out);
        self.damage_max.encode_into(out);
        self.damage_type.encode_into(out);
        assert(out@ =~= old(out)@ + self.spec_encode());
    }
}

/// The bytes of a `ItemTemplateDamage` hold its fields in declaration order, little-endian:
/// each field reads back from its own place.
pub proof fn lemma_item_template_damage_image_fields(v: ItemTemplateDamage)
    ensures
        v.spec_encode().len() == 12,
        from_le_u32(v.spec_encode().subrange(0, 4)) == v.damage_min,
        from_le_u32(v.spec_encode().subrange(4, 8)) == v.damage_max,
        from_le_u32(v.spec_encode().subrange(8, 12)) == v.damage_type,
{
    let data = v.spec_encode();
    lemma_le_u32_roundtrip(v.damage_min);
    assert(data.subrange(0, 4) =~= le_u32(v.damage_min));
    lemma_le_u32_roundtrip(v.damage_max);
    assert(data.subrange(4, 8) =~= le_u32(v.damage_max));
    lemma_le_u32_roundtrip(v.damage_type);
    assert(data.subrange(8, 12) =~= le_u32(v.damage_type));
}

/// A spell of an item template; its proc rate is not sent.
#[derive(Debug, PartialEq, Eq)]
pub struct ItemTemplateSpell {
    pub id: u32,
    pub trigger_id: u32,
    pub charges: i32,
    /// The bits of an `f32`.
    pub ppm_rate: u32,
    /// default -1
    pub cooldown: i32,
    pub category: u32,
    /// default -1
    pub category_cooldown: i32,
}

impl WireEncode for ItemTemplateSpell {
    open spec fn spec_encode(&self) -> Seq<u8> {
        self.id.spec_encode() + self.trigger_id.spec_encode() + self.charges.spec_encode() + self.cooldown.spec_encode() + self.category.spec_encode() + self.category_cooldown.spec_encode()
    }

    fn encode_into(&self, out: &mut Vec<u8>) {
        self.id.encode_into(out);
        self.trigger_id.encode_into(out);
        self.charges.encode_into(out);
        self.cooldown.encode_into(out);
        self.category.encode_into(out);
        self.category_cooldown.encode_into(out);
        assert(out@ =~= old(out)@ + self.spec_encode());
    }
}

/// A gem socket of an item template.
#[derive(Debug, PartialEq, Eq)]
pub struct ItemTemplateSocket {
    pub color: u32,
    pub content: u32,
}

impl WireEncode for ItemTemplateSocket {
    open spec fn spec_encode(&self) -> Seq<u8> {
        self.color.spec_encode() + self.content.spec_encode()
    }

    fn encode_into(&self, out: &mut Vec<u8>) {
        self.color.encode_into(out);
        self.content.encode_into(out);
        assert(out@ =~= old(out)@ + self.spec_encode());
    }
}

/// The bytes of a `ItemTemplateSocket` hold its fields in declaration order, little-endian:
/// each field reads back from its own place.
pub proof fn lemma_item_template_socket_image_fields(v: ItemTemplateSocket)
    ensures
        v.spec_encode().len() == 8,
        from_le_u32(v.spec_encode().subrange(0, 4)) == v.color,
        from_le_u32(v.spec_encode().subrange(4, 8)) == v.content,
{
    let data = v.spec_encode();
    lemma_le_u32_roundtrip(v.color);
    assert(data.subrange(0, 4) =~= le_u32(v.color));
    lemma_le_u32_roundtrip(v.content);
    assert(data.subrange(4, 8) =~= le_u32(v.content));
}

#[derive(Debug, PartialEq, Eq)]
pub struct SmsgItemNameQueryResponse {
    pub item_id: u32,
    pub name: NullString,
    pub inventory_type: u32,
}

impl WireEncode for SmsgItemNameQueryResponse {
    open spec fn spec_encode(&self) -> Seq<u8> {
        self.item_id.spec_encode() + self.name.spec_encode() + self.inventory_type.spec_encode()
    }

    fn encode_into(&self, out: &mut Vec<u8>) {
        self.item_id.encode_into(out);
        self.name.encode_into(out);
        self.inventory_type.encode_into(out);
        assert(out@ =~= old(out)@ + self.spec_encode());
    }
}

impl ServerMessagePayload for SmsgItemNameQueryResponse {}

#[derive(Debug, PartialEq, Eq)]
pub struct SmsgItemPushResult {
    pub player_guid: u64,
    /// 0 = looted, 1 = received from NPC
    pub loot_source: u32,
    /// 0 = received, 1 = created
    pub is_created: u32,
    /// boolean
    pub is_visible_in_chat: u32,
    pub bag_slot: u8,
    /// item slot or 0xFFFFFFFF if the item is added to an existing stack
    pub item_slot: u32,
    pub item_id: u32,
    pub item_suffix_factor: u32,
    pub item_random_property_id: u32,
    pub count: u32,
    pub total_count_of_this_item_in_inventory: u32,
}

impl WireEncode for SmsgItemPushResult {
    open spec fn spec_encode(&self) -> Seq<u8> {
        self.player_guid.spec_encode() + self.loot_source.spec_encode() + self.is_created.spec_encode() + self.is_visible_in_chat.spec_encode() + self.bag_slot.spec_encode() + self.item_slot.spec_encode() + self.item_id.spec_encode() + self.item_suffix_factor.spec_encode() + self.item_random_property_id.spec_encode() + self.count.spec_encode() + self.total_count_of_this_item_in_inventory.spec_encode()
    }

    fn encode_into(&self, out: &mut Vec<u8>) {
        self.player_guid.encode_into(out);
        self.loot_source.encode_into(out);
        self.is_created.encode_into(out);
        self.is_visible_in_chat.encode_into(out);
        self.bag_slot.encode_into(out);
        self.item_slot.encode_into(out);
        self.item_id.encode_into(out);
        self.item_suffix_factor.encode_into(out);
        self.item_random_property_id.encode_into(out);
        self.count.encode_into(out);
        self.total_count_of_this_item_in_inventory.encode_into(out);
        assert(out@ =~= old(out)@ + self.spec_encode());
    }
}

impl ServerMessagePayload for SmsgItemPushResult {}

/// The bytes of a `SmsgItemPushResult` hold its fields in declaration order, little-endian:
/// each field reads back from its own place.
pub proof fn lemma_smsg_item_push_result_image_fields(v: SmsgItemPushResult)
    ensures
        v.spec_encode().len() == 45,
        from_le_u64(v.spec_encode().subrange(0, 8)) == v.player_guid,
        from_le_u32(v.spec_encode().subrange(8, 12)) == v.loot_source,
        from_le_u32(v.spec_encode().subrange(12, 16)) == v.is_created,
        from_le_u32(v.spec_encode().subrange(16, 20)) == v.is_visible_in_chat,
        v.spec_encode()[20] == v.bag_slot,
        from_le_u32(v.spec_encode().subrange(21, 25)) == v.item_slot,
        from_le_u32(v.spec_encode().subrange(25, 29)) == v.item_id,
        from_le_u32(v.spec_encode().subrange(29, 33)) == v.item_suffix_factor,
        from_le_u32(v.spec_encode().subrange(33, 37)) == v.item_random_property_id,
        from_le_u32(v.spec_encode().subrange(37, 41)) == v.count,
        from_le_u32(v.spec_encode().subrange(41, 45)) == v.total_count_of_this_item_in_inventory,
{
    let data = v.spec_encode();
    lemma_le_u64_roundtrip(v.player_guid);
    assert(data.subrange(0, 8) =~= le_u64(v.player_guid));
    lemma_le_u32_roundtrip(v.loot_source);
    assert(data.subrange(8, 12) =~= le_u32(v.loot_source));
    lemma_le_u32_roundtrip(v.is_created);
    assert(data.subrange(12, 16) =~= le_u32(v.is_created));
    lemma_le_u32_roundtrip(v.is_visible_in_chat);
    assert(data.subrange(16, 20) =~= le_u32(v.is_visible_in_chat));
    lemma_le_u32_roundtrip(v.item_slot);
    assert(data.subrange(21, 25) =~= le_u32(v.item_slot));
    lemma_le_u32_roundtrip(v.item_id);
    assert(data.subrange(25, 29) =~= le_u32(v.item_id));
    lemma_le_u32_roundtrip(v.item_suffix_factor);
    assert(data.subrange(29, 33) =~= le_u32(v.item_suffix_factor));
    lemma_le_u32_roundtrip(v.item_random_property_id);
    assert(data.subrange(33, 37) =~= le_u32(v.item_random_property_id));
    lemma_le_u32_roundtrip(v.count);
    assert(data.subrange(37, 41) =~= le_u32(v.count));
    lemma_le_u32_roundtrip(v.total_count_of_this_item_in_inventory);
    assert(data.subrange(41, 45) =~= le_u32(v.total_count_of_this_item_in_inventory));
}

#[derive(Debug, PartialEq, Eq)]
pub struct CmsgDestroyItem {
    pub bag: u8,
    pub slot: u8,
    pub amount: u8,
    pub unk1: u8,
    pub unk2: u8,
    pub unk3: u8,
}

impl ClientPayload for CmsgDestroyItem {
    open spec fn spec_accepts(data: Seq<u8>) -> bool {
        data.len() >= 6
    }

    open spec fn spec_reads_as(data: Seq<u8>, v: Self) -> bool {
        v == CmsgDestroyItem { bag: data[0], slot: data[1], amount: data[2], unk1: data[3], unk2: data[4], unk3: data[5] }
    }

    fn read(data: &[u8]) -> (r: Result<Self, ReadError>) {
        if data.len() < 6 {
            return Err(ReadError::UnexpectedEnd);
        }
        Ok(CmsgDestroyItem { bag: data[0], slot: data[1], amount: data[2], unk1: data[3], unk2: data[4], unk3: data[5] })
    }
}

/// Reading the bytes of a `CmsgDestroyItem` (its fields in order, little-endian) gives it
/// back: each field is read from its own bytes.
pub proof fn lemma_cmsg_destroy_item_reads_back(v: CmsgDestroyItem)
    ensures
        CmsgDestroyItem::spec_accepts(seq![v.bag] + seq![v.slot] + seq![v.amount] + seq![v.unk1] + seq![v.unk2] + seq![v.unk3]),
        CmsgDestroyItem::spec_reads_as(seq![v.bag] + seq![v.slot] + seq![v.amount] + seq![v.unk1] + seq![v.unk2] + seq![v.unk3], v),
{
    let data = seq![v.bag] + seq![v.slot] + seq![v.amount] + seq![v.unk1] + seq![v.unk2] + seq![v.unk3];
    assert(data[0] == v.bag);
    assert(data[1] == v.slot);
    assert(data[2] == v.amount);
    assert(data[3] == v.unk1);
    assert(data[4] == v.unk2);
    assert(data[5] == v.unk3);
}

#[derive(Debug, PartialEq, Eq)]
pub struct CmsgAutoEquipItem {
    pub bag: u8,
    pub slot: u8,
}

impl ClientPayload for CmsgAutoEquipItem {
    open spec fn spec_accepts(data: Seq<u8>) -> bool {
        data.len() >= 2
    }

    open spec fn spec_reads_as(data: Seq<u8>, v: Self) -> bool {
        v == CmsgAutoEquipItem { bag: data[0], slot: data[1] }
    }

    fn read(data: &[u8]) -> (r: Result<Self, ReadError>) {
        if data.len() < 2 {
            return Err(ReadError::UnexpectedEnd);
        }
        Ok(CmsgAutoEquipItem { bag: data[0], slot: data[1] })
    }
}

/// Reading the bytes of a `CmsgAutoEquipItem` (its fields in order, little-endian) gives it
/// back: each field is read from its own bytes.
pub proof fn lemma_cmsg_auto_equip_item_reads_back(v: CmsgAutoEquipItem)
    ensures
        CmsgAutoEquipItem::spec_accepts(seq![v.bag] + seq![v.slot]),
        CmsgAutoEquipItem::spec_reads_as(seq![v.bag] + seq![v.slot], v),
{
    let data = seq![v.bag] + seq![v.slot];
    assert(data[0] == v.bag);
    assert(data[1] == v.slot);
}

#[derive(Debug, PartialEq, Eq)]
pub struct CmsgSwapInvItem {
    pub from_slot: u8,
    pub to_slot: u8,
}

impl ClientPayload for CmsgSwapInvItem {
    open spec fn spec_accepts(data: Seq<u8>) -> bool {
        data.len() >= 2
    }

    open spec fn spec_reads_as(data: Seq<u8>, v: Self) -> bool {
        v == CmsgSwapInvItem { from_slot: data[0], to_slot: data[1] }
    }

    fn read(data: &[u8]) -> (r: Result<Self, ReadError>) {
        if data.len() < 2 {
            return Err(ReadError::UnexpectedEnd);
        }
        Ok(CmsgSwapInvItem { from_slot: data[0], to_slot: data[1] })
    }
}

/// Reading the bytes of a `CmsgSwapInvItem` (its fields in order, little-endian) gives it
/// back: each field is read from its own bytes.
pub proof fn lemma_cmsg_swap_inv_item_reads_back(v: CmsgSwapInvItem)
    ensures
        CmsgSwapInvItem::spec_accepts(seq![v.from_slot] + seq![v.to_slot]),
        CmsgSwapInvItem::spec_reads_as(seq![v.from_slot] + seq![v.to_slot], v),
{
    let data = seq![v.from_slot] + seq![v.to_slot];
    assert(data[0] == v.from_slot);
    assert(data[1] == v.to_slot);
}

#[derive(Debug, PartialEq, Eq)]
pub struct SmsgInventoryChangeFailure {
    pub result: u8,
    /// Only if InventoryResult::CantEquipLevelI
    pub required_level: Option<u32>,
    pub moved_item_guid: Option<ObjectGuid>,
    pub target_item_guid: Option<ObjectGuid>,
    /// 0 unless AutoequipBindConfirm or ItemDoesntGoIntoBag2
    pub bag_type_subclass: Option<u8>,
}

impl WireEncode for SmsgInventoryChangeFailure {
    open spec fn spec_encode(&self) -> Seq<u8> {
        self.result.spec_encode() + self.required_level.spec_encode() + self.moved_item_guid.spec_encode() + self.target_item_guid.spec_encode() + self.bag_type_subclass.spec_encode()
    }

    fn encode_into(&self, out: &mut Vec<u8>) {
        self.result.encode_into(out);
        self.required_level.encode_into(out);
        self.moved_item_guid.encode_into(out);
        self.target_item_guid.encode_into(out);
        self.bag_type_subclass.encode_into(out);
        assert(out@ =~= old(out)@ + self.spec_encode());
    }
}

impl ServerMessagePayload for SmsgInventoryChangeFailure {}
impl SmsgInventoryChangeFailure {
    /// The answer to an inventory change. The required level is sent only when the
    /// item's level is the cause (and `moved_item_required_level` is the moved item's
    /// required level, when its template is known); the guids only when the change
    /// failed.
    pub fn build(
        result: InventoryResult,
        moved_item_guid: Option<ObjectGuid>,
        moved_item_required_level: Option<u32>,
        target_item_guid: Option<ObjectGuid>,
    ) -> (r: Self)
        ensures
            r.result == result.spec_value() as u8,
            r.required_level == (if result == InventoryResult::CantEquipLevelI {
                moved_item_required_level
            } else {
                None
            }),
            r.moved_item_guid == (if result != InventoryResult::Okay {
                moved_item_guid
            } else {
                None
            }),
            r.target_item_guid == (if result != InventoryResult::Okay {
                target_item_guid
            } else {
                None
            }),
            r.bag_type_subclass == Some(0u8),
    {
        let required_level = if result == InventoryResult::CantEquipLevelI {
            moved_item_required_level
        } else {
            None
        };
        let failed = result != InventoryResult::Okay;
        SmsgInventoryChangeFailure {
            result: result.value() as u8,
            required_level,
            moved_item_guid: if failed {
                moved_item_guid
            } else {
                None
            },
            target_item_guid: if failed {
                target_item_guid
            } else {
                None
            },
            bag_type_subclass: Some(0),
        }
    }
}

} // verus!
