//! Item templates as the world database holds them, and the answer to an item query
//! made of one.
use crate::codec::NullString;
use crate::npcs::{masked_entry, spec_masked_entry};
use crate::protocol::packets::item_packets::{ItemTemplateDamage, ItemTemplateSocket, ItemTemplateSpell, ItemTemplateStat};
use crate::protocol::packets::{ItemQueryResponse, SmsgItemQuerySingleResponse};
use vstd::prelude::*;

verus! {

/// The parts of an item template that the item query answer is made of.
#[derive(Debug, PartialEq, Eq)]
pub struct ItemTemplate {
    pub entry: u32,
    pub class: u32,
    pub subclass: u32,
    /// The name, as UTF-8 bytes.
    pub name: Vec<u8>,
    pub display_id: u32,
    pub quality: u32,
    pub flags: u32,
    pub buy_price: u32,
    pub sell_price: u32,
    pub inventory_type: u32,
    pub allowable_class: i32,
    pub allowable_race: i32,
    pub item_level: u32,
    pub required_level: u32,
    pub required_skill: u32,
    pub required_spell: u32,
    pub required_honor_rank: u32,
    pub required_city_rank: u32,
    pub required_reputation_faction: u32,
    pub required_reputation_rank: u32,
    pub max_count: u32,
    pub max_stack_count: u32,
    pub container_slots: u32,
    pub stats: Vec<ItemTemplateStat>,
    pub damages: Vec<ItemTemplateDamage>,
    pub armor: u32,
    pub holy_res: u32,
    pub fire_res: u32,
    pub nature_res: u32,
    pub frost_res: u32,
    pub shadow_res: u32,
    pub arcane_res: u32,
    pub delay: u32,
    pub ammo_type: u32,
    /// The bits of an `f32`.
    pub ranged_mod_range: u32,
    pub spells: Vec<ItemTemplateSpell>,
    pub bonding: u32,
    /// The description, as UTF-8 bytes.
    pub description: Vec<u8>,
    pub page_text: u32,
    pub language_id: u32,
    pub page_material: u32,
    pub start_quest: u32,
    pub lock_id: u32,
    pub material: i32,
    pub sheath: u32,
    pub random_property: u32,
    pub random_suffix: u32,
    pub block: u32,
    pub itemset: u32,
    pub max_durability: u32,
    pub area: u32,
    pub map: u32,
    pub bag_family: u32,
    pub totem_category: u32,
    pub sockets: Vec<ItemTemplateSocket>,
    pub socket_bonus: u32,
    pub gem_properties: u32,
    pub required_disenchant_skill: i32,
    /// The bits of an `f32`.
    pub armor_damage_modifier: u32,
    pub duration: u32,
}

/// The answer that describes `item`: its fields under their names in the message,
/// the unknown field -1, the three other names empty, and the skill rank the same as
/// the required skill.
pub open spec fn spec_item_query_response(item: ItemTemplate) -> ItemQueryResponse {
    ItemQueryResponse {
        item_id: item.entry,
        item_class: item.class,
        item_subclass: item.subclass,
        item_unk: -1i32,
        name: NullString(item.name),
        name2: 0u8,
        name3: 0u8,
        name4: 0u8,
        display_id: item.display_id,
        quality: item.quality,
        flags: item.flags,
        buy_price: item.buy_price,
        sell_price: item.sell_price,
        inventory_type: item.inventory_type,
        allowable_class: item.allowable_class,
        allowable_race: item.allowable_race,
        item_level: item.item_level,
        required_level: item.required_level,
        required_skill: item.required_skill,
        required_skill_rank: item.required_skill,
        required_spell: item.required_spell,
        required_honor_rank: item.required_honor_rank,
        required_city_rank: item.required_city_rank,
        required_reputation_faction: item.required_reputation_faction,
        required_reputation_rank: item.required_reputation_rank,
        max_count: item.max_count,
        max_stack_count: item.max_stack_count,
        container_slots: item.container_slots,
        stats: item.stats,
        damages: item.damages,
        armor: item.armor,
        resist_holy: item.holy_res,
        resist_fire: item.fire_res,
        resist_nature: item.nature_res,
        resist_frost: item.frost_res,
        resist_shadow: item.shadow_res,
        resist_arcane: item.arcane_res,
        delay: item.delay,
        ammo_type: item.ammo_type,
        ranged_mod_range: item.ranged_mod_range,
        spells: item.spells,
        bonding: item.bonding,
        description: NullString(item.description),
        page_text: item.page_text,
        language_id: item.language_id,
        page_material: item.page_material,
        start_quest: item.start_quest,
        lock_id: item.lock_id,
        material: item.material,
        sheath: item.sheath,
        random_property: item.random_property,
        random_suffix: item.random_suffix,
        block: item.block,
        item_set: item.itemset,
        max_durability: item.max_durability,
        area: item.area,
        map: item.map,
        bag_family: item.bag_family,
        totem_category: item.totem_category,
        sockets: item.sockets,
        socket_bonus: item.socket_bonus,
        gem_properties: item.gem_properties,
        required_enchantment_skill: item.required_disenchant_skill,
        armor_damage_modifier: item.armor_damage_modifier,
        duration: item.duration,
    }
}

impl ItemQueryResponse {
    /// The answer that describes an item template.
    pub fn from_template(item: ItemTemplate) -> (r: Self)
        ensures
            r == spec_item_query_response(item),
    {
        ItemQueryResponse {
            item_id: item.entry,
            item_class: item.class,
            item_subclass: item.subclass,
            item_unk: -1i32,
            name: NullString(item.name),
            name2: 0u8,
            name3: 0u8,
            name4: 0u8,
            display_id: item.display_id,
            quality: item.quality,
            flags: item.flags,
            buy_price: item.buy_price,
            sell_price: item.sell_price,
            inventory_type: item.inventory_type,
            allowable_class: item.allowable_class,
            allowable_race: item.allowable_race,
            item_level: item.item_level,
            required_level: item.required_level,
            required_skill: item.required_skill,
            required_skill_rank: item.required_skill,
            required_spell: item.required_spell,
            required_honor_rank: item.required_honor_rank,
            required_city_rank: item.required_city_rank,
            required_reputation_faction: item.required_reputation_faction,
            required_reputation_rank: item.required_reputation_rank,
            max_count: item.max_count,
            max_stack_count: item.max_stack_count,
            container_slots: item.container_slots,
            stats: item.stats,
            damages: item.damages,
            armor: item.armor,
            resist_holy: item.holy_res,
            resist_fire: item.fire_res,
            resist_nature: item.nature_res,
            resist_frost: item.frost_res,
            resist_shadow: item.shadow_res,
            resist_arcane: item.arcane_res,
            delay: item.delay,
            ammo_type: item.ammo_type,
            ranged_mod_range: item.ranged_mod_range,
            spells: item.spells,
            bonding: item.bonding,
            description: NullString(item.description),
            page_text: item.page_text,
            language_id: item.language_id,
            page_material: item.page_material,
            start_quest: item.start_quest,
            lock_id: item.lock_id,
            material: item.material,
            sheath: item.sheath,
            random_property: item.random_property,
            random_suffix: item.random_suffix,
            block: item.block,
            item_set: item.itemset,
            max_durability: item.max_durability,
            area: item.area,
            map: item.map,
            bag_family: item.bag_family,
            totem_category: item.totem_category,
            sockets: item.sockets,
            socket_bonus: item.socket_bonus,
            gem_properties: item.gem_properties,
            required_enchantment_skill: item.required_disenchant_skill,
            armor_damage_modifier: item.armor_damage_modifier,
            duration: item.duration,
        }
    }
}

impl SmsgItemQuerySingleResponse {
    /// The answer to a query of item `item_id`: the description of its template when
    /// there is one, the masked item id otherwise.
    pub fn for_item(item_id: u32, template: Option<ItemTemplate>) -> (r: Self)
        ensures
            match template {
                Some(t) => r.result is None && r.template == Some(spec_item_query_response(t)),
                None => r.result == Some(spec_masked_entry(item_id)) && r.template is None,
            },
    {
        match template {
            Some(t) => SmsgItemQuerySingleResponse { result: None, template: Some(ItemQueryResponse::from_template(t)) },
            None => SmsgItemQuerySingleResponse { result: Some(masked_entry(item_id)), template: None },
        }
    }
}

/// The answer to an item query describes the template it is made from: every
/// number of the answer is the template's number of the same meaning (the prices,
/// the requirements, the resistances, the item set, ...), its stats, damages, spells
/// and sockets are the template's, its name and description are the template's
/// texts, the unknown field is -1, the three other names are empty, and the skill
/// rank repeats the required skill.
pub proof fn lemma_item_query_response_describes_template(item: ItemTemplate)
    ensures
        ({
            let r = spec_item_query_response(item);
            &&& r.item_id == item.entry
            &&& r.item_class == item.class
            &&& r.item_subclass == item.subclass
            &&& r.display_id == item.display_id
            &&& r.quality == item.quality
            &&& r.flags == item.flags
            &&& r.buy_price == item.buy_price
            &&& r.sell_price == item.sell_price
            &&& r.inventory_type == item.inventory_type
            &&& r.allowable_class == item.allowable_class
            &&& r.allowable_race == item.allowable_race
            &&& r.item_level == item.item_level
            &&& r.required_level == item.required_level
            &&& r.required_skill == item.required_skill
            &&& r.required_spell == item.required_spell
            &&& r.required_honor_rank == item.required_honor_rank
            &&& r.required_city_rank == item.required_city_rank
            &&& r.required_reputation_faction == item.required_reputation_faction
            &&& r.required_reputation_rank == item.required_reputation_rank
            &&& r.max_count == item.max_count
            &&& r.max_stack_count == item.max_stack_count
            &&& r.container_slots == item.container_slots
            &&& r.armor == item.armor
            &&& r.resist_holy == item.holy_res
            &&& r.resist_fire == item.fire_res
            &&& r.resist_nature == item.nature_res
            &&& r.resist_frost == item.frost_res
            &&& r.resist_shadow == item.shadow_res
            &&& r.resist_arcane == item.arcane_res
            &&& r.delay == item.delay
            &&& r.ammo_type == item.ammo_type
            &&& r.ranged_mod_range == item.ranged_mod_range
            &&& r.bonding == item.bonding
            &&& r.page_text == item.page_text
            &&& r.language_id == item.language_id
            &&& r.page_material == item.page_material
            &&& r.start_quest == item.start_quest
            &&& r.lock_id == item.lock_id
            &&& r.material == item.material
            &&& r.sheath == item.sheath
            &&& r.random_property == item.random_property
            &&& r.random_suffix == item.random_suffix
            &&& r.block == item.block
            &&& r.item_set == item.itemset
            &&& r.max_durability == item.max_durability
            &&& r.area == item.area
            &&& r.map == item.map
            &&& r.bag_family == item.bag_family
            &&& r.totem_category == item.totem_category
            &&& r.socket_bonus == item.socket_bonus
            &&& r.gem_properties == item.gem_properties
            &&& r.required_enchantment_skill == item.required_disenchant_skill
            &&& r.armor_damage_modifier == item.armor_damage_modifier
            &&& r.duration == item.duration
            &&& r.stats == item.stats
            &&& r.damages == item.damages
            &&& r.spells == item.spells
            &&& r.sockets == item.sockets
            &&& r.name.0 == item.name
            &&& r.description.0 == item.description
            &&& r.item_unk == -1
            &&& r.name2 == 0 && r.name3 == 0 && r.name4 == 0
            &&& r.required_skill_rank == item.required_skill
        }),
{
}

} // verus!
