//! What non-player characters answer: the unknown-template replies of queries, a
//! vendor's list, a trainer's spells, the content of a corpse, and how chat and
//! emotes travel.
use crate::codec::NullString;
use crate::constants::{BuyFailedReason, ChatMessageType, CharacterClass, Emote, LootSlotType, SellFailedReason, TrainerSpellState, TrainerType};
use crate::entities::ObjectGuid;
use crate::protocol::packets::chat_packets::SmsgTextEmote;
use crate::protocol::packets::loot_packets::LootResponseItem;
use crate::protocol::packets::query_packets::SmsgCreatureQueryResponseUnknownTemplate;
use crate::protocol::packets::trainer_packets::{SmsgTrainerBuySucceeded, SmsgTrainerList, TrainerSpell};
use crate::protocol::packets::spell_packets::{SmsgLearnedSpell, SmsgPlaySpellImpact, SmsgPlaySpellVisual};
use crate::protocol::packets::item_packets::SmsgItemPushResult;
use crate::protocol::packets::vendor_packets::{InventoryItem, SmsgListInventory};
use crate::protocol::packets::{ItemQueryResponse, SmsgItemQuerySingleResponse};
use crate::quests::{lemma_display_id_is_catalogued, spec_display_id_of};
use crate::repositories::{spec_trainer_spell_state, PlayerTrainingState, TrainerSpellDbRecord, VendorItemDbRecord};
use vstd::prelude::*;

verus! {

/// The entry of an unknown template as the client is told it: the entry with its
/// top bit set.
pub open spec fn spec_masked_entry(entry: u32) -> u32 {
    entry | 0x8000_0000u32
}

/// The entry with its top bit set.
pub fn masked_entry(entry: u32) -> (r: u32)
    ensures
        r == spec_masked_entry(entry),
{
    entry | 0x8000_0000u32
}

/// A masked entry has its top bit set and keeps the low 31 bits of the entry, so
/// the client can tell the entry it asked about.
pub proof fn lemma_masked_entry_keeps_entry(entry: u32)
    ensures
        spec_masked_entry(entry) >= 0x8000_0000u32,
        spec_masked_entry(entry) & 0x7FFF_FFFFu32 == entry & 0x7FFF_FFFFu32,
{
    assert(entry | 0x8000_0000u32 >= 0x8000_0000u32) by (bit_vector);
    assert((entry | 0x8000_0000u32) & 0x7FFF_FFFFu32 == entry & 0x7FFF_FFFFu32) by (bit_vector);
}

impl SmsgCreatureQueryResponseUnknownTemplate {
    /// The answer to a query about a creature entry that has no template.
    pub fn for_entry(entry: u32) -> (r: Self)
        ensures
            r.masked_entry == spec_masked_entry(entry),
    {
        SmsgCreatureQueryResponseUnknownTemplate { masked_entry: masked_entry(entry) }
    }
}

impl SmsgItemQuerySingleResponse {
    /// The answer to an item query: the template when the item is known, the masked
    /// item id otherwise.
    pub fn answer(item_id: u32, template: Option<ItemQueryResponse>) -> (r: Self)
        ensures
            template is Some ==> r.result is None && r.template == template,
            template is None ==> r.result == Some(spec_masked_entry(item_id)) && r.template is None,
    {
        match template {
            Some(t) => SmsgItemQuerySingleResponse { result: None, template: Some(t) },
            None => SmsgItemQuerySingleResponse { result: Some(masked_entry(item_id)), template: None },
        }
    }
}

/// What a vendor needs to know of an item template to sell the item.
#[derive(Debug, Clone, Copy, PartialEq, Eq, Structural)]
pub struct ItemSaleInfo {
    pub entry: u32,
    pub display_id: u32,
    pub buy_price: u32,
    pub max_durability: u32,
    pub buy_count: u32,
}

/// The sale information of item `item_id`: the first entry for it, if any.
pub open spec fn spec_sale_info(infos: Seq<ItemSaleInfo>, item_id: u32) -> Option<ItemSaleInfo>
    decreases infos.len(),
{
    if infos.len() == 0 {
        None
    } else if infos[0].entry == item_id {
        Some(infos[0])
    } else {
        spec_sale_info(infos.drop_first(), item_id)
    }
}

/// Looks up the sale information of `item_id`.
pub fn sale_info(infos: &Vec<ItemSaleInfo>, item_id: u32) -> (r: Option<ItemSaleInfo>)
    ensures
        r == spec_sale_info(infos@, item_id),
{
    let mut i: usize = 0;
    assert(infos@.skip(0) =~= infos@);
    while i < infos.len()
        invariant
            i <= infos@.len(),
            spec_sale_info(infos@, item_id) == spec_sale_info(infos@.skip(i as int), item_id),
        decreases infos@.len() - i,
    {
        assert(infos@.skip(i as int).drop_first() =~= infos@.skip(i + 1));
        if infos[i].entry == item_id {
            return Some(infos[i]);
        }
        i = i + 1;
    }
    None
}

/// How many of an item a vendor shows: its limit when it has a positive one, else
/// 0xFFFFFFFF for "no limit".
pub open spec fn spec_count_at_vendor(max_count: Option<u32>) -> u32 {
    match max_count {
        Some(c) => if c > 0 {
            c
        } else {
            0xFFFF_FFFFu32
        },
        None => 0xFFFF_FFFFu32,
    }
}

/// The line of a vendor's list for the record at position `position` (counted
/// from 1) selling the item described by `info`.
pub open spec fn spec_vendor_line(position: int, record: VendorItemDbRecord, info: ItemSaleInfo) -> InventoryItem {
    InventoryItem {
        index: position as u32,
        item_id: record.item_id,
        item_display_id: info.display_id,
        item_count_at_vendor: spec_count_at_vendor(record.max_count),
        price: info.buy_price,
        max_durability: info.max_durability,
        buy_count: info.buy_count,
        extended_cost_id: match record.extended_cost_id {
            Some(c) => c,
            None => 0,
        },
    }
}

/// The lines of a vendor's list for its first `n` records: one line per record whose
/// item has a template, numbered by the record's position among all records.
pub open spec fn spec_vendor_lines(records: Seq<VendorItemDbRecord>, infos: Seq<ItemSaleInfo>, n: int) -> Seq<InventoryItem>
    decreases n,
{
    if n <= 0 {
        Seq::empty()
    } else {
        spec_vendor_lines(records, infos, n - 1) + match spec_sale_info(infos, records[n - 1].item_id) {
            Some(info) => seq![spec_vendor_line(n, records[n - 1], info)],
            None => Seq::empty(),
        }
    }
}

/// The lines of a vendor's list.
pub fn vendor_lines(records: &Vec<VendorItemDbRecord>, infos: &Vec<ItemSaleInfo>) -> (r: Vec<InventoryItem>)
    ensures
        r@ == spec_vendor_lines(records@, infos@, records@.len() as int),
{
    let mut lines: Vec<InventoryItem> = Vec::new();
    let mut i: usize = 0;
    while i < records.len()
        invariant
            i <= records@.len(),
            lines@ == spec_vendor_lines(records@, infos@, i as int),
        decreases records@.len() - i,
    {
        let record = records[i];
        match sale_info(infos, record.item_id) {
            Some(info) => {
                let count = match record.max_count {
                    Some(c) => if c > 0 {
                        c
                    } else {
                        0xFFFF_FFFFu32
                    },
                    None => 0xFFFF_FFFFu32,
                };
                let extended_cost_id = match record.extended_cost_id {
                    Some(c) => c,
                    None => 0,
                };
                lines.push(
                    InventoryItem {
                        index: #[verifier::truncate] ((i as u64 + 1) as u32),
                        item_id: record.item_id,
                        item_display_id: info.display_id,
                        item_count_at_vendor: count,
                        price: info.buy_price,
                        max_durability: info.max_durability,
                        buy_count: info.buy_count,
                        extended_cost_id,
                    },
                );
                proof {
                    assert((i as u64 + 1) as u32 == (i + 1) as int as u32) by (bit_vector)
                        requires
                            i as u64 + 1 <= u64::MAX,
                    ;
                }
            },
            None => {},
        }
        i = i + 1;
        assert(lines@ =~= spec_vendor_lines(records@, infos@, i as int));
    }
    lines
}

/// Every line of a vendor's list points at the record it comes from: its index,
/// counted from 1, is the position of a record that sells the same item and whose
/// item has a template; and the indices increase along the list.
pub proof fn lemma_vendor_lines_point_to_records(records: Seq<VendorItemDbRecord>, infos: Seq<ItemSaleInfo>, n: int)
    requires
        0 <= n <= records.len(),
        records.len() < u32::MAX,
    ensures
        ({
            let lines = spec_vendor_lines(records, infos, n);
            &&& lines.len() <= n
            &&& forall|k: int|
                0 <= k < lines.len() ==> {
                    &&& 1 <= #[trigger] lines[k].index <= n
                    &&& records[lines[k].index - 1].item_id == lines[k].item_id
                    &&& spec_sale_info(infos, lines[k].item_id) is Some
                }
            &&& forall|j: int, k: int| 0 <= j < k < lines.len() ==> lines[j].index < lines[k].index
        }),
    decreases n,
{
    if n > 0 {
        lemma_vendor_lines_point_to_records(records, infos, n - 1);
        let prev = spec_vendor_lines(records, infos, n - 1);
        let lines = spec_vendor_lines(records, infos, n);
        assert(forall|k: int| 0 <= k < prev.len() ==> lines[k] == prev[k]);
        assert((n as u32) as int == n);
    }
}

/// The list a vendor answers with: its lines when it sells anything it has a
/// template for, the empty list when it has no inventory or no such line.
pub fn vendor_inventory_answer(
    vendor_guid: ObjectGuid,
    records: Option<&Vec<VendorItemDbRecord>>,
    infos: &Vec<ItemSaleInfo>,
) -> (r: SmsgListInventory)
    ensures
        match records {
            None => r == SmsgListInventory::spec_empty(vendor_guid),
            Some(recs) => {
                let lines = spec_vendor_lines(recs@, infos@, recs@.len() as int);
                if lines.len() == 0 {
                    r == SmsgListInventory::spec_empty(vendor_guid)
                } else {
                    &&& r.vendor_guid == vendor_guid
                    &&& r.inventory_size == lines.len() as u8
                    &&& r.items matches Some(items) && items@ == lines
                    &&& r.error_code is None
                }
            },
        },
{
    match records {
        None => SmsgListInventory::empty(vendor_guid),
        Some(recs) => {
            let lines = vendor_lines(recs, infos);
            if lines.len() == 0 {
                SmsgListInventory::empty(vendor_guid)
            } else {
                SmsgListInventory::from_items(vendor_guid, lines)
            }
        },
    }
}

impl SmsgListInventory {
    /// The answer of a vendor with nothing to sell.
    pub open spec fn spec_empty(vendor_guid: ObjectGuid) -> SmsgListInventory {
        SmsgListInventory { vendor_guid, inventory_size: 0, items: None, error_code: Some(0u32) }
    }
}

/// What a purchase from a vendor comes to.
#[derive(Debug, Clone, Copy, PartialEq, Eq, Structural)]
pub enum PurchaseDecision {
    /// The creature has no vendor inventory: it answers with the empty list.
    NoInventory,
    /// The vendor does not sell the item, or the item has no template: nothing happens.
    Ignored,
    /// The player cannot pay: the purchase fails with this reason.
    Refused(BuyFailedReason),
    /// The player pays `price` for the item at position `index` of the vendor's
    /// inventory (counted from 0).
    Buy { index: u32, price: u32 },
}

/// The position of the first record of the vendor's inventory that sells `item_id`.
pub open spec fn spec_sold_at(records: Seq<VendorItemDbRecord>, item_id: u32) -> Option<int>
    decreases records.len(),
{
    if records.len() == 0 {
        None
    } else {
        match spec_sold_at(records.drop_last(), item_id) {
            Some(i) => Some(i),
            None => if records.last().item_id == item_id {
                Some(records.len() - 1)
            } else {
                None
            },
        }
    }
}

/// The decision on buying `count` of item `item_id` (whose template asks
/// `buy_price`, when the item has one) from a creature whose vendor inventory is
/// `records` (none when it has no inventory), for a player with `money`.
pub open spec fn spec_purchase(
    records: Option<Seq<VendorItemDbRecord>>,
    item_id: u32,
    buy_price: Option<u32>,
    count: u8,
    money: u32,
) -> PurchaseDecision {
    match records {
        None => PurchaseDecision::NoInventory,
        Some(recs) => spec_purchase_from(recs, item_id, buy_price, count, money),
    }
}

/// The decision on a purchase from a vendor that sells `records`.
pub open spec fn spec_purchase_from(
    records: Seq<VendorItemDbRecord>,
    item_id: u32,
    buy_price: Option<u32>,
    count: u8,
    money: u32,
) -> PurchaseDecision {
    match (spec_sold_at(records, item_id), buy_price) {
        (Some(index), Some(unit_price)) => if money < unit_price * count {
            PurchaseDecision::Refused(BuyFailedReason::NotEnoughtMoney)
        } else {
            PurchaseDecision::Buy { index: index as u32, price: (unit_price * count) as u32 }
        },
        _ => PurchaseDecision::Ignored,
    }
}

/// Decides a purchase from a creature, given its vendor inventory if it has one.
pub fn purchase(
    records: Option<&Vec<VendorItemDbRecord>>,
    item_id: u32,
    buy_price: Option<u32>,
    count: u8,
    money: u32,
) -> (r: PurchaseDecision)
    requires
        records is Some ==> (buy_price matches Some(p) ==> p * count <= u32::MAX),
    ensures
        r == spec_purchase(
            match records {
                Some(recs) => Some(recs@),
                None => None,
            },
            item_id,
            buy_price,
            count,
            money,
        ),
{
    match records {
        None => PurchaseDecision::NoInventory,
        Some(recs) => purchase_from(recs, item_id, buy_price, count, money),
    }
}

/// Decides a purchase from a vendor that sells `records`.
fn purchase_from(records: &Vec<VendorItemDbRecord>, item_id: u32, buy_price: Option<u32>, count: u8, money: u32) -> (r:
    PurchaseDecision)
    requires
        buy_price matches Some(p) ==> p * count <= u32::MAX,
    ensures
        r == spec_purchase_from(records@, item_id, buy_price, count, money),
{
    let mut found: Option<usize> = None;
    let mut i: usize = 0;
    while i < records.len()
        invariant
            i <= records@.len(),
            found matches Some(k) ==> spec_sold_at(records@.subrange(0, i as int), item_id) == Some(k as int),
            found is None ==> spec_sold_at(records@.subrange(0, i as int), item_id) is None,
            found matches Some(k) ==> k < i,
        decreases records@.len() - i,
    {
        assert(records@.subrange(0, i + 1).drop_last() =~= records@.subrange(0, i as int));
        if found.is_none() && records[i].item_id == item_id {
            found = Some(i);
        }
        i = i + 1;
    }
    assert(records@.subrange(0, records@.len() as int) =~= records@);
    match (found, buy_price) {
        (Some(index), Some(unit_price)) => {
            let price = unit_price * (count as u32);
            if money < price {
                PurchaseDecision::Refused(BuyFailedReason::NotEnoughtMoney)
            } else {
                PurchaseDecision::Buy { index: #[verifier::truncate] (index as u32), price }
            }
        },
        _ => PurchaseDecision::Ignored,
    }
}

/// What a sale to a vendor comes to.
#[derive(Debug, Clone, Copy, PartialEq, Eq, Structural)]
pub enum SaleDecision {
    /// The sale fails with this reason.
    Refused(SellFailedReason),
    /// Part of a stack is offered, or the item has no template: nothing happens.
    Ignored,
    /// The item is removed and the player receives `price`.
    Sell { price: u32 },
}

/// The decision on selling `count` items of a stack of `stack_count` (0 for the
/// whole stack): `stack_count` is `None` when the player has no such item, and
/// `sell_price` is `None` when the item has no template.
pub open spec fn spec_sale(stack_count: Option<u32>, count: u8, sell_price: Option<u32>) -> SaleDecision {
    match stack_count {
        None => SaleDecision::Refused(SellFailedReason::CantFindItem),
        Some(stack) => if count > 0 && count as u32 != stack {
            SaleDecision::Ignored
        } else {
            match sell_price {
                None => SaleDecision::Ignored,
                Some(p) => if p == 0 {
                    SaleDecision::Refused(SellFailedReason::CantSellItem)
                } else {
                    SaleDecision::Sell { price: (p * stack) as u32 }
                },
            }
        },
    }
}

/// Decides a sale to a vendor.
pub fn sale(stack_count: Option<u32>, count: u8, sell_price: Option<u32>) -> (r: SaleDecision)
    requires
        stack_count matches Some(stack) ==> (sell_price matches Some(p) ==> p * stack <= u32::MAX),
    ensures
        r == spec_sale(stack_count, count, sell_price),
{
    match stack_count {
        None => SaleDecision::Refused(SellFailedReason::CantFindItem),
        Some(stack) => {
            if count > 0 && count as u32 != stack {
                SaleDecision::Ignored
            } else {
                match sell_price {
                    None => SaleDecision::Ignored,
                    Some(p) => {
                        if p == 0 {
                            SaleDecision::Refused(SellFailedReason::CantSellItem)
                        } else {
                            SaleDecision::Sell { price: p * stack }
                        }
                    },
                }
            }
        },
    }
}

/// A purchase goes through only when the player can pay the price, and the price
/// is the unit price times the count.
pub proof fn lemma_purchase_is_paid(
    records: Seq<VendorItemDbRecord>,
    item_id: u32,
    buy_price: Option<u32>,
    count: u8,
    money: u32,
)
    requires
        buy_price matches Some(p) ==> p * count <= u32::MAX,
        records.len() <= u32::MAX,
    ensures
        spec_purchase(Some(records), item_id, buy_price, count, money) matches PurchaseDecision::Buy { index, price } ==> {
            &&& buy_price matches Some(p) && price == p * count
            &&& price <= money
            &&& records[index as int].item_id == item_id
        },
{
    lemma_sold_at_sells(records, item_id);
    if let Some(i) = spec_sold_at(records, item_id) {
        assert((i as u32) as int == i);
    }
}

/// A purchase is decided by the first record of the vendor that sells the item: it
/// is ignored when no record sells it or the item has no template; otherwise it is
/// refused for lack of money exactly when the unit price times the count exceeds
/// the player's money, and bought at that price from the first such record.
pub proof fn lemma_purchase_rules(records: Seq<VendorItemDbRecord>, item_id: u32, buy_price: Option<u32>, count: u8, money: u32)
    requires
        buy_price matches Some(p) ==> p * count <= u32::MAX,
        records.len() <= u32::MAX,
    ensures
        ({
            let sold = exists|k: int| 0 <= k < records.len() && #[trigger] records[k].item_id == item_id;
            let d = spec_purchase(Some(records), item_id, buy_price, count, money);
            &&& (d == PurchaseDecision::Ignored) <==> (!sold || buy_price is None)
            &&& (d == PurchaseDecision::Refused(BuyFailedReason::NotEnoughtMoney)) <==> (sold && buy_price is Some
                && money < buy_price->0 * count)
            &&& d matches PurchaseDecision::Buy { index, price } ==> {
                &&& records[index as int].item_id == item_id
                &&& forall|j: int| 0 <= j < index ==> records[j].item_id != item_id
                &&& price == buy_price->0 * count
                &&& price <= money
            }
            &&& d != PurchaseDecision::NoInventory
        }),
{
    lemma_sold_at_first(records, item_id);
    lemma_sold_at_sells(records, item_id);
    if let Some(i) = spec_sold_at(records, item_id) {
        assert((i as u32) as int == i);
    }
}

/// The position found for an item is the first record that sells it; none is found
/// only when no record sells it.
proof fn lemma_sold_at_first(records: Seq<VendorItemDbRecord>, item_id: u32)
    ensures
        spec_sold_at(records, item_id) matches Some(i) ==> forall|j: int| 0 <= j < i ==> records[j].item_id != item_id,
        spec_sold_at(records, item_id) is None ==> forall|k: int| 0 <= k < records.len() ==> #[trigger] records[k].item_id
            != item_id,
    decreases records.len(),
{
    if records.len() > 0 {
        let rest = records.drop_last();
        lemma_sold_at_first(rest, item_id);
        lemma_sold_at_sells(records, item_id);
        if let Some(i) = spec_sold_at(records, item_id) {
            assert forall|j: int| 0 <= j < i implies records[j].item_id != item_id by {
                assert(rest[j] == records[j]);
            }
        } else {
            assert forall|k: int| 0 <= k < records.len() implies #[trigger] records[k].item_id != item_id by {
                if k < rest.len() {
                    assert(rest[k] == records[k]);
                }
            }
        }
    }
}

/// The position found for an item is a record that sells it.
proof fn lemma_sold_at_sells(records: Seq<VendorItemDbRecord>, item_id: u32)
    ensures
        spec_sold_at(records, item_id) matches Some(i) ==> 0 <= i < records.len() && records[i].item_id == item_id
            && i < u32::MAX + records.len(),
    decreases records.len(),
{
    if records.len() > 0 {
        lemma_sold_at_sells(records.drop_last(), item_id);
    }
}

/// The level a trainer spell is shown to require: the larger of the level its skill
/// line requires of the player (0 when none) and the level stored with the spell.
pub open spec fn spec_trainer_required_level(spell: TrainerSpellDbRecord, skill_required_level: Option<u32>) -> u32 {
    let from_skill = match skill_required_level {
        Some(l) => l,
        None => 0,
    };
    if from_skill >= spell.required_level {
        from_skill
    } else {
        spell.required_level
    }
}

/// The line of a trainer's list for `spell`, as shown to `player`.
pub open spec fn spec_trainer_line(
    spell: TrainerSpellDbRecord,
    player: PlayerTrainingState,
    skill_required_level: Option<u32>,
) -> TrainerSpell {
    TrainerSpell {
        spell_id: spell.spell_id,
        state: spec_trainer_spell_state(spell, player, spec_trainer_required_level(spell, skill_required_level)),
        cost: spell.spell_cost,
        can_learn_primary_profession_first_rank: false,
        enable_learn_primary_profession_button: false,
        required_level: spec_trainer_required_level(spell, skill_required_level) as u8,
        required_skill: spell.required_skill,
        required_skill_value: spell.required_skill_value,
        previous_spell: 0,
        required_required_spell: 0,
        unk: 0,
    }
}

impl TrainerSpell {
    /// The line of a trainer's list for `spell`, as shown to `player`.
    pub fn for_player(spell: &TrainerSpellDbRecord, player: &PlayerTrainingState, skill_required_level: Option<u32>) -> (r:
        TrainerSpell)
        ensures
            r == spec_trainer_line(*spell, *player, skill_required_level),
    {
        let from_skill = match skill_required_level {
            Some(l) => l,
            None => 0,
        };
        let required_level = if from_skill >= spell.required_level {
            from_skill
        } else {
            spell.required_level
        };
        TrainerSpell {
            spell_id: spell.spell_id,
            state: spell.state_for_player(player, required_level),
            cost: spell.spell_cost,
            can_learn_primary_profession_first_rank: false,
            enable_learn_primary_profession_button: false,
            required_level: #[verifier::truncate] (required_level as u8),
            required_skill: spell.required_skill,
            required_skill_value: spell.required_skill_value,
            previous_spell: 0,
            required_required_spell: 0,
            unk: 0,
        }
    }
}

/// A spell a trainer teaches, whether the player may train it, and the level its
/// skill line requires of the player (none when it requires none).
#[derive(Debug, Clone, Copy, PartialEq, Eq, Structural)]
pub struct OfferedSpell {
    pub spell: TrainerSpellDbRecord,
    pub trainable: bool,
    pub skill_required_level: Option<u32>,
}

/// The lines of a trainer's list: one for each offered spell the player may train,
/// in their order.
pub open spec fn spec_trainer_lines(offered: Seq<OfferedSpell>, player: PlayerTrainingState) -> Seq<TrainerSpell>
    decreases offered.len(),
{
    if offered.len() == 0 {
        Seq::empty()
    } else {
        let o = offered.last();
        spec_trainer_lines(offered.drop_last(), player) + if o.trainable {
            seq![spec_trainer_line(o.spell, player, o.skill_required_level)]
        } else {
            Seq::empty()
        }
    }
}

/// The title of a trainer's list: "Hello! Ready for some training?".
pub open spec fn trainer_list_title() -> Seq<u8> {
    seq![72u8, 101u8, 108u8, 108u8, 111u8, 33u8, 32u8, 82u8, 101u8, 97u8, 100u8, 121u8, 32u8, 102u8, 111u8, 114u8, 32u8, 115u8, 111u8, 109u8, 101u8, 32u8, 116u8, 114u8, 97u8, 105u8, 110u8, 105u8, 110u8, 103u8, 63u8]
}

impl SmsgTrainerList {
    /// The list a trainer of kind `trainer_type` shows to `player`: a line for each
    /// spell the player may train, their number, and the title.
    pub fn for_player(
        trainer_guid: ObjectGuid,
        trainer_type: TrainerType,
        offered: &Vec<OfferedSpell>,
        player: &PlayerTrainingState,
    ) -> (r: Self)
        requires
            offered@.len() <= u32::MAX,
        ensures
            r.trainer_guid == trainer_guid,
            r.trainer_type == trainer_type.spec_value(),
            r.spells@ == spec_trainer_lines(offered@, *player),
            r.spell_count == r.spells@.len(),
            r.title.0@ == trainer_list_title(),
    {
        let mut spells: Vec<TrainerSpell> = Vec::new();
        let mut i: usize = 0;
        while i < offered.len()
            invariant
                i <= offered@.len(),
                spells@ == spec_trainer_lines(offered@.subrange(0, i as int), *player),
                spells@.len() <= i,
            decreases offered@.len() - i,
        {
            assert(offered@.subrange(0, i + 1).drop_last() =~= offered@.subrange(0, i as int));
            let o = offered[i];
            if o.trainable {
                spells.push(TrainerSpell::for_player(&o.spell, player, o.skill_required_level));
            }
            i = i + 1;
            assert(spells@ =~= spec_trainer_lines(offered@.subrange(0, i as int), *player));
        }
        assert(offered@.subrange(0, offered@.len() as int) =~= offered@);
        let title: Vec<u8> = vec![72u8, 101u8, 108u8, 108u8, 111u8, 33u8, 32u8, 82u8, 101u8, 97u8, 100u8, 121u8, 32u8, 102u8, 111u8, 114u8, 32u8, 115u8, 111u8, 109u8, 101u8, 32u8, 116u8, 114u8, 97u8, 105u8, 110u8, 105u8, 110u8, 103u8, 63u8];
        assert(title@ =~= trainer_list_title());
        let trainer_type_number: u32 = match trainer_type {
            TrainerType::Class => 0,
            TrainerType::Mount => 1,
            TrainerType::Tradeskill => 2,
            TrainerType::Pet => 3,
        };
        let spell_count = spells.len() as u32;
        SmsgTrainerList { trainer_guid, trainer_type: trainer_type_number, spell_count, spells, title: NullString(title) }
    }
}

/// What buying a spell from a trainer comes to.
#[derive(Debug, Clone, Copy, PartialEq, Eq, Structural)]
pub enum TrainerPurchase {
    /// The creature trains nothing, or not this spell: nothing happens.
    Ignored,
    /// The player cannot pay the cost: nothing happens either.
    CannotAfford,
    /// The player pays `cost` and learns `spell_id`.
    Learn { spell_id: u32, cost: u32 },
}

/// The first spell of `spells` that is `spell_id`, if any.
pub open spec fn spec_taught(spells: Seq<TrainerSpellDbRecord>, spell_id: u32) -> Option<TrainerSpellDbRecord>
    decreases spells.len(),
{
    if spells.len() == 0 {
        None
    } else {
        match spec_taught(spells.drop_last(), spell_id) {
            Some(s) => Some(s),
            None => if spells.last().spell_id == spell_id {
                Some(spells.last())
            } else {
                None
            },
        }
    }
}

/// The decision on buying `spell_id` from a trainer that teaches `spells` (none
/// when the creature trains nothing), for a player with `money`.
pub open spec fn spec_trainer_purchase(spells: Option<Seq<TrainerSpellDbRecord>>, spell_id: u32, money: u32) -> TrainerPurchase {
    match spells {
        None => TrainerPurchase::Ignored,
        Some(s) => match spec_taught(s, spell_id) {
            None => TrainerPurchase::Ignored,
            Some(spell) => if money < spell.spell_cost {
                TrainerPurchase::CannotAfford
            } else {
                TrainerPurchase::Learn { spell_id, cost: spell.spell_cost }
            },
        },
    }
}

/// Decides the purchase of a spell from a trainer, given the spells it teaches if
/// it is a trainer with spells.
pub fn trainer_purchase(spells: Option<&Vec<TrainerSpellDbRecord>>, spell_id: u32, money: u32) -> (r: TrainerPurchase)
    ensures
        r == spec_trainer_purchase(
            match spells {
                Some(s) => Some(s@),
                None => None,
            },
            spell_id,
            money,
        ),
{
    let spells = match spells {
        None => return TrainerPurchase::Ignored,
        Some(s) => s,
    };
    let mut found: Option<TrainerSpellDbRecord> = None;
    let mut i: usize = 0;
    while i < spells.len()
        invariant
            i <= spells@.len(),
            found == spec_taught(spells@.subrange(0, i as int), spell_id),
        decreases spells@.len() - i,
    {
        assert(spells@.subrange(0, i + 1).drop_last() =~= spells@.subrange(0, i as int));
        if found.is_none() && spells[i].spell_id == spell_id {
            found = Some(spells[i]);
        }
        i = i + 1;
    }
    assert(spells@.subrange(0, spells@.len() as int) =~= spells@);
    match found {
        None => TrainerPurchase::Ignored,
        Some(spell) => if money < spell.spell_cost {
            TrainerPurchase::CannotAfford
        } else {
            TrainerPurchase::Learn { spell_id, cost: spell.spell_cost }
        },
    }
}

/// A spell is learnt only when the trainer teaches it and the player can pay its
/// cost, and what is paid is the cost of that spell.
pub proof fn lemma_trainer_purchase_is_paid(spells: Seq<TrainerSpellDbRecord>, spell_id: u32, money: u32)
    ensures
        spec_trainer_purchase(Some(spells), spell_id, money) matches TrainerPurchase::Learn { spell_id: s, cost } ==> {
            &&& s == spell_id
            &&& cost <= money
            &&& exists|i: int| 0 <= i < spells.len() && #[trigger] spells[i].spell_id == spell_id && spells[i].spell_cost == cost
        },
{
    lemma_taught_is_in(spells, spell_id);
    if let Some(sp) = spec_taught(spells, spell_id) {
        let i = choose|i: int| 0 <= i < spells.len() && spells[i] == sp;
        assert(spells[i].spell_id == spell_id);
    }
}

/// The spell found is one of the spells, and it is `spell_id`.
proof fn lemma_taught_is_in(spells: Seq<TrainerSpellDbRecord>, spell_id: u32)
    ensures
        spec_taught(spells, spell_id) matches Some(sp) ==> sp.spell_id == spell_id && exists|i: int|
            0 <= i < spells.len() && spells[i] == sp,
    decreases spells.len(),
{
    if spells.len() > 0 {
        lemma_taught_is_in(spells.drop_last(), spell_id);
        if let Some(sp) = spec_taught(spells.drop_last(), spell_id) {
            let i = choose|i: int| 0 <= i < spells.len() - 1 && spells.drop_last()[i] == sp;
            assert(spells[i] == sp);
        } else if spells.last().spell_id == spell_id {
            assert(spells[spells.len() - 1] == spells.last());
        }
    }
}

/// What a trainer sends when a player learns a spell from it, in order: a visual
/// effect on the trainer, one on the player, the learnt spell, and the success of
/// the purchase.
#[derive(Debug, PartialEq, Eq)]
pub struct TrainerPurchaseAnswers {
    pub trainer_visual: SmsgPlaySpellVisual,
    pub player_impact: SmsgPlaySpellImpact,
    pub learned: SmsgLearnedSpell,
    pub succeeded: SmsgTrainerBuySucceeded,
}

/// The answers to a player (`player_guid`) learning `spell_id` from the trainer
/// `trainer_guid`.
pub fn trainer_purchase_answers(trainer_guid: ObjectGuid, player_guid: ObjectGuid, spell_id: u32) -> (r:
    TrainerPurchaseAnswers)
    ensures
        r == (TrainerPurchaseAnswers {
            trainer_visual: SmsgPlaySpellVisual { caster_guid: trainer_guid, spell_art_kit: 0xB3 },
            player_impact: SmsgPlaySpellImpact { caster_guid: player_guid, spell_art_kit: 0x16A },
            learned: SmsgLearnedSpell { spell_id },
            succeeded: SmsgTrainerBuySucceeded { trainer_guid, spell_id },
        }),
{
    TrainerPurchaseAnswers {
        trainer_visual: SmsgPlaySpellVisual { caster_guid: trainer_guid, spell_art_kit: 0xB3 },
        player_impact: SmsgPlaySpellImpact { caster_guid: player_guid, spell_art_kit: 0x16A },
        learned: SmsgLearnedSpell { spell_id },
        succeeded: SmsgTrainerBuySucceeded { trainer_guid, spell_id },
    }
}

impl SmsgItemPushResult {
    /// The notice that `count` of item `item_id` bought from a vendor went to slot
    /// `item_slot` of the backpack, leaving `total_count` of them in the inventory;
    /// it shows in chat.
    pub fn from_vendor(player_guid: u64, item_slot: u32, item_id: u32, count: u8, total_count: u32) -> (r: Self)
        ensures
            r == (SmsgItemPushResult {
                player_guid,
                loot_source: 1,
                is_created: 0,
                is_visible_in_chat: 1,
                bag_slot: 255,
                item_slot,
                item_id,
                item_suffix_factor: 0,
                item_random_property_id: 0,
                count: count as u32,
                total_count_of_this_item_in_inventory: total_count,
            }),
    {
        SmsgItemPushResult {
            player_guid,
            loot_source: 1,
            is_created: 0,
            is_visible_in_chat: 1,
            bag_slot: 255,
            item_slot,
            item_id,
            item_suffix_factor: 0,
            item_random_property_id: 0,
            count: count as u32,
            total_count_of_this_item_in_inventory: total_count,
        }
    }
}

/// The gossip text a class trainer shows to a player of another class.
pub open spec fn spec_class_trainer_refusal_text(trainer_class: CharacterClass) -> u32 {
    match trainer_class {
        CharacterClass::Nil => 0,
        CharacterClass::Warrior => 4985,
        CharacterClass::Paladin => 1635,
        CharacterClass::Hunter => 10090,
        CharacterClass::Rogue => 4797,
        CharacterClass::Priest => 4436,
        CharacterClass::Shaman => 5003,
        CharacterClass::Mage => 328,
        CharacterClass::Warlock => 5836,
        CharacterClass::Druid => 4913,
    }
}

/// Whether a trainer refuses a player: a class trainer refuses players of another
/// class, with the text of its class; other trainers refuse no one.
pub fn trainer_refusal(trainer_type: TrainerType, trainer_class: Option<CharacterClass>, player_class: CharacterClass) -> (r:
    Option<u32>)
    requires
        trainer_type == TrainerType::Class ==> trainer_class is Some,
    ensures
        r == (if trainer_type == TrainerType::Class && player_class != trainer_class->0 {
            Some(spec_class_trainer_refusal_text(trainer_class->0))
        } else {
            None
        }),
{
    match trainer_type {
        TrainerType::Class => {
            let class = trainer_class.unwrap();
            if player_class != class {
                let text = match class {
                    CharacterClass::Nil => 0,
                    CharacterClass::Warrior => 4985,
                    CharacterClass::Paladin => 1635,
                    CharacterClass::Hunter => 10090,
                    CharacterClass::Rogue => 4797,
                    CharacterClass::Priest => 4436,
                    CharacterClass::Shaman => 5003,
                    CharacterClass::Mage => 328,
                    CharacterClass::Warlock => 5836,
                    CharacterClass::Druid => 4913,
                };
                Some(text)
            } else {
                None
            }
        },
        _ => None,
    }
}

/// One item of a corpse's loot.
#[derive(Debug, Clone, Copy, PartialEq, Eq, Structural)]
pub struct LootEntry {
    pub index: u32,
    pub item_id: u32,
    pub count: u32,
    pub random_suffix: u32,
    pub random_property_id: u32,
}

/// True when the catalogue lists item `item_id`.
pub open spec fn catalog_lists(catalog: Seq<(u32, u32)>, item_id: u32) -> bool {
    exists|i: int| 0 <= i < catalog.len() && #[trigger] catalog[i].0 == item_id
}

/// The loot window lines of a corpse's loot: each item with its display id, as a
/// normal loot slot; the index is kept to its low eight bits.
pub open spec fn spec_loot_lines(entries: Seq<LootEntry>, catalog: Seq<(u32, u32)>) -> Seq<LootResponseItem> {
    Seq::new(
        entries.len(),
        |i: int|
            LootResponseItem {
                index: entries[i].index as u8,
                id: entries[i].item_id,
                count: entries[i].count,
                display_info_id: spec_display_id_of(catalog, entries[i].item_id),
                random_suffix: entries[i].random_suffix,
                random_property_id: entries[i].random_property_id,
                slot_type: LootSlotType::Normal,
            },
    )
}

/// The loot window lines of a corpse's loot. Every looted item has a template.
pub fn loot_lines(entries: &Vec<LootEntry>, catalog: &Vec<(u32, u32)>) -> (r: Vec<LootResponseItem>)
    requires
        forall|i: int| 0 <= i < entries@.len() ==> catalog_lists(catalog@, #[trigger] entries@[i].item_id),
    ensures
        r@ == spec_loot_lines(entries@, catalog@),
{
    let mut lines: Vec<LootResponseItem> = Vec::new();
    let mut i: usize = 0;
    while i < entries.len()
        invariant
            i <= entries@.len(),
            lines@.len() == i,
            forall|j: int| 0 <= j < i ==> #[trigger] lines@[j] == spec_loot_lines(entries@, catalog@)[j],
        decreases entries@.len() - i,
    {
        let e = entries[i];
        let display_info_id = crate::quests::display_id_of(catalog, e.item_id);
        lines.push(
            LootResponseItem {
                index: #[verifier::truncate] (e.index as u8),
                id: e.item_id,
                count: e.count,
                display_info_id,
                random_suffix: e.random_suffix,
                random_property_id: e.random_property_id,
                slot_type: LootSlotType::Normal,
            },
        );
        i = i + 1;
    }
    assert(lines@ =~= spec_loot_lines(entries@, catalog@));
    lines
}

/// Each line of a corpse's loot window comes from the loot entry at the same
/// position: it shows that entry's item, count, random suffix and random property,
/// as a normal slot at the entry's index (its low eight bits), with the display id
/// the catalogue gives the item.
pub proof fn lemma_loot_lines_follow_entries(entries: Seq<LootEntry>, catalog: Seq<(u32, u32)>)
    ensures
        spec_loot_lines(entries, catalog).len() == entries.len(),
        forall|i: int| 0 <= i < entries.len() ==> {
            let line = #[trigger] spec_loot_lines(entries, catalog)[i];
            &&& line.id == entries[i].item_id
            &&& line.count == entries[i].count
            &&& line.random_suffix == entries[i].random_suffix
            &&& line.random_property_id == entries[i].random_property_id
            &&& line.slot_type == LootSlotType::Normal
            &&& line.index == entries[i].index % 256
            &&& catalog_lists(catalog, entries[i].item_id) ==> exists|k: int|
                0 <= k < catalog.len() && #[trigger] catalog[k] == (entries[i].item_id, line.display_info_id)
        },
{
    assert forall|i: int| 0 <= i < entries.len() implies {
        let line = #[trigger] spec_loot_lines(entries, catalog)[i];
        &&& line.id == entries[i].item_id
        &&& line.count == entries[i].count
        &&& line.random_suffix == entries[i].random_suffix
        &&& line.random_property_id == entries[i].random_property_id
        &&& line.slot_type == LootSlotType::Normal
        &&& line.index == entries[i].index % 256
        &&& catalog_lists(catalog, entries[i].item_id) ==> exists|k: int|
            0 <= k < catalog.len() && #[trigger] catalog[k] == (entries[i].item_id, line.display_info_id)
    } by {
        let e = entries[i];
        let x: u32 = e.index;
        lemma_display_id_is_catalogued(catalog, e.item_id);
        assert((x as u8) == x % 256) by (bit_vector);
    }
}

/// The sale information found for an item is the first entry for that item; none
/// is found only when no entry is for the item.
pub proof fn lemma_sale_info_is_first_entry(infos: Seq<ItemSaleInfo>, item_id: u32)
    ensures
        match spec_sale_info(infos, item_id) {
            Some(x) => exists|k: int|
                0 <= k < infos.len() && #[trigger] infos[k] == x && x.entry == item_id && forall|j: int|
                    0 <= j < k ==> infos[j].entry != item_id,
            None => forall|k: int| 0 <= k < infos.len() ==> #[trigger] infos[k].entry != item_id,
        },
    decreases infos.len(),
{
    if infos.len() > 0 {
        let rest = infos.drop_first();
        lemma_sale_info_is_first_entry(rest, item_id);
        if infos[0].entry != item_id {
            match spec_sale_info(rest, item_id) {
                Some(x) => {
                    let k = choose|k: int|
                        0 <= k < rest.len() && #[trigger] rest[k] == x && x.entry == item_id && forall|j: int|
                            0 <= j < k ==> rest[j].entry != item_id;
                    assert(infos[k + 1] == x);
                    assert forall|j: int| 0 <= j < k + 1 implies infos[j].entry != item_id by {
                        if j > 0 {
                            assert(infos[j] == rest[j - 1]);
                        }
                    }
                },
                None => {
                    assert forall|k: int| 0 <= k < infos.len() implies #[trigger] infos[k].entry != item_id by {
                        if k > 0 {
                            assert(infos[k] == rest[k - 1]);
                        }
                    }
                },
            }
        } else {
            assert(infos[0] == infos[0]);
        }
    }
}

/// Each line of a vendor's list shows the record it comes from and the template of
/// its item: the item's display id, buy price, durability and buy count from the
/// template; the vendor's limit when it is positive, else 0xFFFFFFFF; the record's
/// extended cost, or 0.
pub proof fn lemma_vendor_lines_show_record_and_template(records: Seq<VendorItemDbRecord>, infos: Seq<ItemSaleInfo>, n: int)
    requires
        0 <= n <= records.len(),
        records.len() < u32::MAX,
    ensures
        forall|k: int|
            0 <= k < spec_vendor_lines(records, infos, n).len() ==> {
                let line = #[trigger] spec_vendor_lines(records, infos, n)[k];
                let record = records[line.index - 1];
                &&& spec_sale_info(infos, line.item_id) matches Some(info) && line.item_display_id == info.display_id
                    && line.price == info.buy_price && line.max_durability == info.max_durability
                    && line.buy_count == info.buy_count
                &&& line.item_count_at_vendor == (if record.max_count is Some && record.max_count->0 > 0 {
                    record.max_count->0
                } else {
                    0xFFFF_FFFFu32
                })
                &&& line.extended_cost_id == (if record.extended_cost_id is Some {
                    record.extended_cost_id->0
                } else {
                    0u32
                })
            },
    decreases n,
{
    lemma_vendor_lines_point_to_records(records, infos, n);
    if n > 0 {
        lemma_vendor_lines_show_record_and_template(records, infos, n - 1);
        let prev = spec_vendor_lines(records, infos, n - 1);
        let lines = spec_vendor_lines(records, infos, n);
        assert(forall|k: int| 0 <= k < prev.len() ==> lines[k] == prev[k]);
        assert((n as u32) as int == n);
    }
}

/// A sale goes through only for the whole stack (a count of 0, or the stack's
/// count) of an item the player has, whose template gives a nonzero sell price;
/// the player then gets that price times the stack. An item the player lacks is
/// refused as not found, and one whose price is 0 as not sellable.
pub proof fn lemma_sale_rules(stack_count: Option<u32>, count: u8, sell_price: Option<u32>)
    ensures
        spec_sale(stack_count, count, sell_price) matches SaleDecision::Sell { price } ==> {
            &&& stack_count matches Some(stack) && (count == 0 || count == stack)
            &&& sell_price matches Some(p) && p != 0 && price == (p * stack_count->0) as u32
        },
        spec_sale(stack_count, count, sell_price) == SaleDecision::Refused(SellFailedReason::CantFindItem) <==> stack_count is None,
        spec_sale(stack_count, count, sell_price) == SaleDecision::Refused(SellFailedReason::CantSellItem) <==> (
        stack_count matches Some(stack) && (count == 0 || count == stack) && sell_price == Some(0u32)),
{
}

/// A trainer's line for a spell shows the spell, its cost and its skill
/// requirement as recorded; the level it requires is the larger of the level its
/// skill line requires (0 when none) and the recorded level; its state is the
/// state of the spell for the player at that level; the profession flags and the
/// spell chain fields are empty.
pub proof fn lemma_trainer_line_describes_spell(
    spell: TrainerSpellDbRecord,
    player: PlayerTrainingState,
    skill_required_level: Option<u32>,
)
    ensures
        ({
            let line = spec_trainer_line(spell, player, skill_required_level);
            let from_skill: u32 = if skill_required_level is Some { skill_required_level->0 } else { 0u32 };
            let level: u32 = if from_skill >= spell.required_level { from_skill } else { spell.required_level };
            &&& line.spell_id == spell.spell_id
            &&& line.cost == spell.spell_cost
            &&& line.required_skill == spell.required_skill
            &&& line.required_skill_value == spell.required_skill_value
            &&& line.required_level == level as u8
            &&& line.state == spec_trainer_spell_state(spell, player, level)
            &&& !line.can_learn_primary_profession_first_rank
            &&& !line.enable_learn_primary_profession_button
            &&& line.previous_spell == 0 && line.required_required_spell == 0 && line.unk == 0
        }),
{
}

/// A trainer's list has a line for each offered spell the player may train, in
/// their order, and no other: the k-th line is the line of the k-th trainable
/// offered spell.
pub proof fn lemma_trainer_lines_are_trainable_spells(offered: Seq<OfferedSpell>, player: PlayerTrainingState)
    ensures
        spec_trainer_lines(offered, player).len() == offered.filter(|o: OfferedSpell| o.trainable).len(),
        forall|k: int|
            0 <= k < spec_trainer_lines(offered, player).len() ==> {
                let o = offered.filter(|o: OfferedSpell| o.trainable)[k];
                #[trigger] spec_trainer_lines(offered, player)[k] == spec_trainer_line(o.spell, player, o.skill_required_level)
            },
    decreases offered.len(),
{
    reveal(Seq::filter);
    if offered.len() > 0 {
        lemma_trainer_lines_are_trainable_spells(offered.drop_last(), player);
        let prev = spec_trainer_lines(offered.drop_last(), player);
        let lines = spec_trainer_lines(offered, player);
        let f = offered.filter(|o: OfferedSpell| o.trainable);
        let fp = offered.drop_last().filter(|o: OfferedSpell| o.trainable);
        assert(forall|k: int| 0 <= k < prev.len() ==> lines[k] == prev[k]);
        assert(forall|k: int| 0 <= k < fp.len() ==> f[k] == fp[k]);
    }
}

/// How far, in yards, a chat message of kind `chat_type` carries: says and emotes
/// 40, yells 300; other kinds are not relayed.
pub open spec fn spec_chat_distance(chat_type: ChatMessageType) -> Option<u32> {
    match chat_type {
        ChatMessageType::Say | ChatMessageType::Emote => Some(40),
        ChatMessageType::Yell => Some(300),
        _ => None,
    }
}

/// The distance a chat message carries, or `None` when its kind is not relayed.
pub fn chat_distance(chat_type: ChatMessageType) -> (r: Option<u32>)
    ensures
        r == spec_chat_distance(chat_type),
{
    match chat_type {
        ChatMessageType::Say | ChatMessageType::Emote => Some(40),
        ChatMessageType::Yell => Some(300),
        _ => None,
    }
}

/// True when a text emote also plays an animation: every emote but sleeping,
/// sitting, kneeling and none.
pub fn emote_plays_animation(emote: Emote) -> (r: bool)
    ensures
        r == !(emote == Emote::StateSleep || emote == Emote::StateSit || emote == Emote::StateKneel || emote
            == Emote::OneshotNone),
{
    match emote {
        Emote::StateSleep | Emote::StateSit | Emote::StateKneel | Emote::OneshotNone => false,
        _ => true,
    }
}

impl SmsgTextEmote {
    /// A text emote of the player `origin_guid` aimed at the target named `target_name`.
    pub fn build(origin_guid: &ObjectGuid, text_emote: u32, emote_number: u32, target_name: NullString) -> (r: Self)
        requires
            target_name.0@.len() <= u32::MAX,
        ensures
            r.origin_guid == origin_guid.raw,
            r.text_emote == text_emote,
            r.emote_number == emote_number,
            r.target_name_length == target_name.0@.len(),
            r.target_name == target_name,
    {
        let target_name_length = target_name.len() as u32;
        SmsgTextEmote { origin_guid: origin_guid.raw(), text_emote, emote_number, target_name_length, target_name }
    }
}

} // verus!
