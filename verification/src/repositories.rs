//! Records read from the world and character databases, and the rules applied to
//! them once read: keys of the per-level tables, the equipment shown on the
//! character list, and what a trainer offers a player.
use crate::constants::{CharacterClass, CharacterRace, InventorySlot, InventoryType, TrainerSpellState};
use crate::protocol::packets::CharEnumEquip;
use vstd::prelude::*;

verus! {

/// The inventory type that an equipment slot shows on the character list.
pub open spec fn spec_inventory_type_for_enum(inv_slot: InventorySlot) -> InventoryType {
    match inv_slot {
        InventorySlot::EquipmentHead => InventoryType::Head,
        InventorySlot::EquipmentNeck => InventoryType::Neck,
        InventorySlot::EquipmentShoulders => InventoryType::Shoulders,
        InventorySlot::EquipmentBody => InventoryType::Body,
        InventorySlot::EquipmentChest => InventoryType::Chest,
        InventorySlot::EquipmentWaist => InventoryType::Waist,
        InventorySlot::EquipmentLegs => InventoryType::Legs,
        InventorySlot::EquipmentFeet => InventoryType::Feet,
        InventorySlot::EquipmentWrists => InventoryType::Wrists,
        InventorySlot::EquipmentHands => InventoryType::Hands,
        InventorySlot::EquipmentFinger1 | InventorySlot::EquipmentFinger2 => InventoryType::Finger,
        InventorySlot::EquipmentTrinket1 | InventorySlot::EquipmentTrinket2 => InventoryType::Trinket,
        InventorySlot::EquipmentBack => InventoryType::Cloak,
        InventorySlot::EquipmentMainHand => InventoryType::WeaponMainHand,
        InventorySlot::EquipmentOffHand => InventoryType::WeaponOffHand,
        InventorySlot::EquipmentRanged => InventoryType::Ranged,
        InventorySlot::EquipmentTabard => InventoryType::Tabard,
    }
}

/// The inventory types shown on the character list, in the order the client reads
/// them: one entry per equipment position (two rings, two trinkets), then the bag.
pub open spec fn char_enum_slot_order() -> Seq<InventoryType> {
    seq![
        InventoryType::Head,
        InventoryType::Neck,
        InventoryType::Shoulders,
        InventoryType::Body,
        InventoryType::Chest,
        InventoryType::Waist,
        InventoryType::Legs,
        InventoryType::Feet,
        InventoryType::Wrists,
        InventoryType::Hands,
        InventoryType::Finger,
        InventoryType::Finger,
        InventoryType::Trinket,
        InventoryType::Trinket,
        InventoryType::Cloak,
        InventoryType::WeaponMainHand,
        InventoryType::WeaponOffHand,
        InventoryType::Ranged,
        InventoryType::Tabard,
        InventoryType::NonEquip,
    ]
}

/// An item a character wears, as the character list needs it: the slot it is in,
/// and the display id and inventory type of its item record.
#[derive(Debug, Clone, Copy)]
pub struct EquippedItem {
    pub slot: InventorySlot,
    pub display_id: u32,
    pub inventory_type: u32,
}

/// The item shown for inventory type `t`: the last worn item whose slot shows as
/// `t`, if any.
pub open spec fn spec_shown_item(gear: Seq<EquippedItem>, t: InventoryType) -> Option<EquippedItem>
    decreases gear.len(),
{
    if gear.len() == 0 {
        None
    } else if spec_inventory_type_for_enum(gear.last().slot) == t {
        Some(gear.last())
    } else {
        spec_shown_item(gear.drop_last(), t)
    }
}

/// The character list entry for inventory type `t`.
pub open spec fn spec_char_enum_equip(gear: Seq<EquippedItem>, t: InventoryType) -> CharEnumEquip {
    match spec_shown_item(gear, t) {
        Some(item) => CharEnumEquip { display_id: item.display_id, slot: item.inventory_type as u8, enchant_id: 0 },
        None => CharEnumEquip { display_id: 0, slot: t.spec_value() as u8, enchant_id: 0 },
    }
}

/// Reads characters, their inventories, spells, skills and reputations.
pub struct CharacterRepository;

impl CharacterRepository {
    /// The inventory type an equipment slot is shown as on the character list.
    pub fn to_inventory_type_for_enum(inv_slot: &InventorySlot) -> (r: InventoryType)
        ensures
            r == spec_inventory_type_for_enum(*inv_slot),
    {
        match inv_slot {
            InventorySlot::EquipmentHead => InventoryType::Head,
            InventorySlot::EquipmentNeck => InventoryType::Neck,
            InventorySlot::EquipmentShoulders => InventoryType::Shoulders,
            InventorySlot::EquipmentBody => InventoryType::Body,
            InventorySlot::EquipmentChest => InventoryType::Chest,
            InventorySlot::EquipmentWaist => InventoryType::Waist,
            InventorySlot::EquipmentLegs => InventoryType::Legs,
            InventorySlot::EquipmentFeet => InventoryType::Feet,
            InventorySlot::EquipmentWrists => InventoryType::Wrists,
            InventorySlot::EquipmentHands => InventoryType::Hands,
            InventorySlot::EquipmentFinger1 | InventorySlot::EquipmentFinger2 => InventoryType::Finger,
            InventorySlot::EquipmentTrinket1 | InventorySlot::EquipmentTrinket2 => InventoryType::Trinket,
            InventorySlot::EquipmentBack => InventoryType::Cloak,
            InventorySlot::EquipmentMainHand => InventoryType::WeaponMainHand,
            InventorySlot::EquipmentOffHand => InventoryType::WeaponOffHand,
            InventorySlot::EquipmentRanged => InventoryType::Ranged,
            InventorySlot::EquipmentTabard => InventoryType::Tabard,
        }
    }

    /// The character list entry for one inventory type: the last worn item that
    /// shows as that type, or an empty entry.
    fn char_enum_equip(gear: &Vec<EquippedItem>, t: InventoryType) -> (r: CharEnumEquip)
        ensures
            r == spec_char_enum_equip(gear@, t),
    {
        let mut i: usize = gear.len();
        assert(gear@.subrange(0, gear@.len() as int) =~= gear@);
        while i > 0
            invariant
                i <= gear@.len(),
                spec_shown_item(gear@, t) == spec_shown_item(gear@.subrange(0, i as int), t),
            decreases i,
        {
            assert(gear@.subrange(0, i as int).drop_last() =~= gear@.subrange(0, i - 1));
            let item = gear[i - 1];
            if Self::to_inventory_type_for_enum(&item.slot) == t {
                return CharEnumEquip { display_id: item.display_id, slot: #[verifier::truncate] (item.inventory_type as u8), enchant_id: 0 };
            }
            i = i - 1;
        }
        CharEnumEquip::none(t)
    }

    /// The equipment shown for a character on the character list: twenty entries in
    /// the order of `char_enum_slot_order`.
    pub fn char_enum_equipment(gear: &Vec<EquippedItem>) -> (r: Vec<CharEnumEquip>)
        ensures
            r@.len() == 20,
            forall|i: int| 0 <= i < 20 ==> #[trigger] r@[i] == spec_char_enum_equip(gear@, char_enum_slot_order()[i]),
    {
        assert(gear@.subrange(0, gear@.len() as int) =~= gear@);
        let order: [InventoryType; 20] = [
            InventoryType::Head,
            InventoryType::Neck,
            InventoryType::Shoulders,
            InventoryType::Body,
            InventoryType::Chest,
            InventoryType::Waist,
            InventoryType::Legs,
            InventoryType::Feet,
            InventoryType::Wrists,
            InventoryType::Hands,
            InventoryType::Finger,
            InventoryType::Finger,
            InventoryType::Trinket,
            InventoryType::Trinket,
            InventoryType::Cloak,
            InventoryType::WeaponMainHand,
            InventoryType::WeaponOffHand,
            InventoryType::Ranged,
            InventoryType::Tabard,
            InventoryType::NonEquip,
        ];
        assert(order@ =~= char_enum_slot_order());
        let mut out: Vec<CharEnumEquip> = Vec::new();
        let mut i: usize = 0;
        while i < 20
            invariant
                i <= 20,
                order@ == char_enum_slot_order(),
                out@.len() == i,
                forall|j: int| 0 <= j < i ==> #[trigger] out@[j] == spec_char_enum_equip(gear@, char_enum_slot_order()[j]),
            decreases 20 - i,
        {
            out.push(Self::char_enum_equip(gear, order[i]));
            i = i + 1;
        }
        out
    }
}

/// A spell cooldown of a character: the spell, the item that cast it (0 for
/// none) and the moment it ends, in milliseconds since the Unix epoch.
#[derive(Debug, Clone, Copy, PartialEq, Eq, Structural)]
pub struct SpellCooldownRecord {
    pub spell_id: u32,
    pub item_id: u32,
    pub end_ms: u64,
}

/// The cooldowns that are still running at `now_ms`, in their order.
pub open spec fn spec_unexpired(cooldowns: Seq<SpellCooldownRecord>, now_ms: u64) -> Seq<SpellCooldownRecord>
    decreases cooldowns.len(),
{
    if cooldowns.len() == 0 {
        Seq::empty()
    } else {
        spec_unexpired(cooldowns.drop_last(), now_ms) + if cooldowns.last().end_ms < now_ms {
            Seq::empty()
        } else {
            seq![cooldowns.last()]
        }
    }
}

impl CharacterRepository {
    /// The cooldowns a character's save keeps: those that have not ended at
    /// `now_ms`, in their order; the ended ones are dropped.
    pub fn cooldowns_to_save(cooldowns: &Vec<SpellCooldownRecord>, now_ms: u64) -> (r: Vec<SpellCooldownRecord>)
        ensures
            r@ == spec_unexpired(cooldowns@, now_ms),
    {
        let mut kept: Vec<SpellCooldownRecord> = Vec::new();
        let mut i: usize = 0;
        while i < cooldowns.len()
            invariant
                i <= cooldowns@.len(),
                kept@ == spec_unexpired(cooldowns@.subrange(0, i as int), now_ms),
            decreases cooldowns@.len() - i,
        {
            assert(cooldowns@.subrange(0, i + 1).drop_last() =~= cooldowns@.subrange(0, i as int));
            let c = cooldowns[i];
            if c.end_ms >= now_ms {
                kept.push(c);
            }
            i = i + 1;
            assert(kept@ =~= spec_unexpired(cooldowns@.subrange(0, i as int), now_ms));
        }
        assert(cooldowns@.subrange(0, cooldowns@.len() as int) =~= cooldowns@);
        kept
    }
}

/// Every cooldown a save keeps is still running, and every running cooldown is kept.
pub proof fn lemma_unexpired_exact(cooldowns: Seq<SpellCooldownRecord>, now_ms: u64, c: SpellCooldownRecord)
    ensures
        spec_unexpired(cooldowns, now_ms).contains(c) <==> (cooldowns.contains(c) && c.end_ms >= now_ms),
    decreases cooldowns.len(),
{
    if cooldowns.len() > 0 {
        let rest = cooldowns.drop_last();
        lemma_unexpired_exact(rest, now_ms, c);
        let kept = spec_unexpired(rest, now_ms);
        let tail = if cooldowns.last().end_ms < now_ms { Seq::<SpellCooldownRecord>::empty() } else { seq![cooldowns.last()] };
        assert(cooldowns =~= rest.push(cooldowns.last()));
        if spec_unexpired(cooldowns, now_ms).contains(c) {
            let i = choose|i: int| 0 <= i < (kept + tail).len() && (kept + tail)[i] == c;
            if i < kept.len() {
                assert(kept[i] == c);
                let j = choose|j: int| 0 <= j < rest.len() && rest[j] == c;
                assert(cooldowns[j] == c);
            } else {
                assert(cooldowns[cooldowns.len() - 1] == c);
            }
        }
        if cooldowns.contains(c) && c.end_ms >= now_ms {
            let j = choose|j: int| 0 <= j < cooldowns.len() && cooldowns[j] == c;
            if j < rest.len() {
                assert(rest[j] == c);
                let i = choose|i: int| 0 <= i < kept.len() && kept[i] == c;
                assert((kept + tail)[i] == c);
            } else {
                assert((kept + tail)[kept.len() as int] == c);
            }
        }
    }
}

/// A character's recorded standing with a faction.
#[derive(Debug, Clone, Copy, PartialEq, Eq, Structural)]
pub struct CharacterReputationDbRecord {
    pub character_guid: u64,
    pub faction_id: u32,
    pub standing: i32,
    pub flags: u32,
}

/// An item as the character database stores it.
#[derive(Debug, Clone, Copy, PartialEq, Eq, Structural)]
pub struct ItemDbRecord {
    pub guid: u32,
    pub entry: u32,
    pub stack_count: u32,
    pub owner_guid: Option<u64>,
    pub slot: u32,
}

/// Base health and mana of a class at a level.
#[derive(Debug, Clone, Copy, PartialEq, Eq, Structural)]
pub struct PlayerBaseHealthManaPerLevelDbRecord {
    pub class: CharacterClass,
    pub level: u32,
    pub base_health: u32,
    pub base_mana: u32,
}

impl PlayerBaseHealthManaPerLevelDbRecord {
    /// The key of the record: the class number above the low eight bits, or'ed with
    /// the level.
    pub fn key(&self) -> (r: u32)
        ensures
            r == ((self.class.spec_value() as u32) << 8u32) | self.level,
    {
        ((self.class.value() as u32) << 8u32) | self.level
    }
}

/// Base attributes of a race and class at a level.
#[derive(Debug, Clone, Copy, PartialEq, Eq, Structural)]
pub struct PlayerBaseAttributesPerLevelDbRecord {
    pub race: CharacterRace,
    pub class: CharacterClass,
    pub level: u32,
    pub strength: u32,
    pub agility: u32,
    pub stamina: u32,
    pub intellect: u32,
    pub spirit: u32,
}

impl PlayerBaseAttributesPerLevelDbRecord {
    /// The key of the record: the race number from bit 16, the class number from
    /// bit 8, or'ed with the level.
    pub fn key(&self) -> (r: u32)
        ensures
            r == ((self.race.spec_value() as u32) << 16u32) | ((self.class.spec_value() as u32) << 8u32)
                | self.level,
    {
        ((self.race.value() as u32) << 16u32) | ((self.class.value() as u32) << 8u32) | self.level
    }
}

/// Base statistics of a creature class at a level; the damage and attack power
/// values are the bits of `f32` values.
#[derive(Debug, Clone, Copy, PartialEq, Eq, Structural)]
pub struct CreatureBaseAttributesPerLevelDbRecord {
    pub class: CharacterClass,
    pub level: u32,
    pub health_exp0: u32,
    pub health_exp1: u32,
    pub mana: u32,
    pub damage_exp0: u32,
    pub damage_exp1: u32,
    pub melee_attack_power: u32,
    pub ranged_attack_power: u32,
    pub armor: u32,
}

impl CreatureBaseAttributesPerLevelDbRecord {
    /// The key of the record: the class number from bit 16, or'ed with the level.
    pub fn key(&self) -> (r: u32)
        ensures
            r == ((self.class.spec_value() as u32) << 16u32) | self.level,
    {
        ((self.class.value() as u32) << 16u32) | self.level
    }
}

/// Two records of the same race and class and of levels below 256 have the same
/// key only when they are for the same level, and so for classes and races: the
/// key identifies the record.
pub proof fn lemma_attributes_key_identifies(
    race_a: u32,
    class_a: u32,
    level_a: u32,
    race_b: u32,
    class_b: u32,
    level_b: u32,
)
    requires
        race_a < 256,
        class_a < 256,
        level_a < 256,
        race_b < 256,
        class_b < 256,
        level_b < 256,
        (race_a << 16u32) | (class_a << 8u32) | level_a == (race_b << 16u32) | (class_b << 8u32) | level_b,
    ensures
        race_a == race_b,
        class_a == class_b,
        level_a == level_b,
{
    assert(race_a == race_b && class_a == class_b && level_a == level_b) by (bit_vector)
        requires
            race_a < 256,
            class_a < 256,
            level_a < 256,
            race_b < 256,
            class_b < 256,
            level_b < 256,
            (race_a << 16u32) | (class_a << 8u32) | level_a == (race_b << 16u32) | (class_b << 8u32) | level_b,
    ;
}

/// What a trainer's offer is checked against: the player's level, spells and skills.
#[derive(Debug, Clone, PartialEq, Eq)]
pub struct PlayerTrainingState {
    pub level: u32,
    pub spells: Vec<u32>,
    /// `(skill id, skill level)` pairs.
    pub skills: Vec<(u32, u32)>,
}

/// The level of skill `skill` in the `(skill, level)` pairs: that of its first pair,
/// if any.
pub open spec fn spec_skill_level(skills: Seq<(u32, u32)>, skill: u32) -> Option<u32>
    decreases skills.len(),
{
    if skills.len() == 0 {
        None
    } else if skills[0].0 == skill {
        Some(skills[0].1)
    } else {
        spec_skill_level(skills.drop_first(), skill)
    }
}

impl PlayerTrainingState {
    /// True when the player knows `spell_id`.
    pub fn has_spell(&self, spell_id: u32) -> (r: bool)
        ensures
            r == self.spells@.contains(spell_id),
    {
        let mut i: usize = 0;
        while i < self.spells.len()
            invariant
                i <= self.spells@.len(),
                forall|j: int| 0 <= j < i ==> self.spells@[j] != spell_id,
            decreases self.spells@.len() - i,
        {
            if self.spells[i] == spell_id {
                assert(self.spells@[i as int] == spell_id);
                return true;
            }
            i = i + 1;
        }
        false
    }

    /// The player's level in skill `skill`, if the player has the skill.
    pub fn get_skill_level(&self, skill: u32) -> (r: Option<u32>)
        ensures
            r == spec_skill_level(self.skills@, skill),
    {
        let mut i: usize = 0;
        assert(self.skills@.skip(0) =~= self.skills@);
        while i < self.skills.len()
            invariant
                i <= self.skills@.len(),
                spec_skill_level(self.skills@, skill) == spec_skill_level(self.skills@.skip(i as int), skill),
            decreases self.skills@.len() - i,
        {
            assert(self.skills@.skip(i as int).drop_first() =~= self.skills@.skip(i + 1));
            if self.skills[i].0 == skill {
                return Some(self.skills[i].1);
            }
            i = i + 1;
        }
        None
    }
}

/// A spell a trainer teaches, with its price and requirements.
#[derive(Debug, Clone, Copy, PartialEq, Eq, Structural)]
pub struct TrainerSpellDbRecord {
    pub creature_template_entry_or_template_id: u32,
    pub spell_id: u32,
    pub spell_cost: u32,
    pub required_skill: u32,
    pub required_skill_value: u32,
    pub required_level: u32,
}

/// How a trainer shows a spell to a player: red when it cannot be learnt (no
/// spell, level too low, skill too low), gray when it is already known, green
/// otherwise.
pub open spec fn spec_trainer_spell_state(
    spell: TrainerSpellDbRecord,
    player: PlayerTrainingState,
    required_level: u32,
) -> TrainerSpellState {
    let skill_level = match spec_skill_level(player.skills@, spell.required_skill) {
        Some(l) => l,
        None => 0,
    };
    if spell.spell_id == 0 {
        TrainerSpellState::Red
    } else if player.spells@.contains(spell.spell_id) {
        TrainerSpellState::Gray
    } else if player.level < required_level {
        TrainerSpellState::Red
    } else if spell.required_skill_value > 0 && skill_level < spell.required_skill_value {
        TrainerSpellState::Red
    } else {
        TrainerSpellState::Green
    }
}

impl TrainerSpellDbRecord {
    /// How the trainer shows this spell to `player`, the spell requiring
    /// `required_level`.
    pub fn state_for_player(&self, player: &PlayerTrainingState, required_level: u32) -> (r: TrainerSpellState)
        ensures
            r == spec_trainer_spell_state(*self, *player, required_level),
    {
        if self.spell_id == 0 {
            return TrainerSpellState::Red;
        }
        if player.has_spell(self.spell_id) {
            return TrainerSpellState::Gray;
        }
        if player.level < required_level {
            return TrainerSpellState::Red;
        }
        let skill_level = match player.get_skill_level(self.required_skill) {
            Some(l) => l,
            None => 0,
        };
        if self.required_skill_value > 0 && skill_level < self.required_skill_value {
            return TrainerSpellState::Red;
        }
        TrainerSpellState::Green
    }
}

/// A spell shown green can be learnt: the trainer teaches a spell, the player does
/// not know it, is of the required level and has the required skill.
pub proof fn lemma_green_spell_is_learnable(spell: TrainerSpellDbRecord, player: PlayerTrainingState, required_level: u32)
    requires
        spec_trainer_spell_state(spell, player, required_level) == TrainerSpellState::Green,
    ensures
        spell.spell_id != 0,
        !player.spells@.contains(spell.spell_id),
        player.level >= required_level,
        spell.required_skill_value > 0 ==> (spec_skill_level(player.skills@, spell.required_skill) matches Some(
            l,
        ) && l >= spell.required_skill_value),
{
}

/// A trainer shows a spell gray exactly when the spell exists and the player knows
/// it, and green exactly when the spell exists, the player does not know it, has
/// the required level, and has the required skill level (when one is required);
/// every other spell is red.
pub proof fn lemma_spell_state_rules(spell: TrainerSpellDbRecord, player: PlayerTrainingState, required_level: u32)
    ensures
        (spec_trainer_spell_state(spell, player, required_level) == TrainerSpellState::Gray) <==> (spell.spell_id
            != 0 && player.spells@.contains(spell.spell_id)),
        (spec_trainer_spell_state(spell, player, required_level) == TrainerSpellState::Green) <==> ({
            &&& spell.spell_id != 0
            &&& !player.spells@.contains(spell.spell_id)
            &&& player.level >= required_level
            &&& spell.required_skill_value == 0 || (spec_skill_level(player.skills@, spell.required_skill) is Some
                && spec_skill_level(player.skills@, spell.required_skill)->0 >= spell.required_skill_value)
        }),
        spec_trainer_spell_state(spell, player, required_level) == TrainerSpellState::Gray
            || spec_trainer_spell_state(spell, player, required_level) == TrainerSpellState::Green
            || spec_trainer_spell_state(spell, player, required_level) == TrainerSpellState::Red,
{
}

/// The skill level found for a skill is that of the first entry for the skill;
/// none is found only when no entry is for the skill.
pub proof fn lemma_skill_level_is_first_entry(skills: Seq<(u32, u32)>, skill: u32)
    ensures
        match spec_skill_level(skills, skill) {
            Some(l) => exists|k: int|
                0 <= k < skills.len() && #[trigger] skills[k] == (skill, l) && forall|j: int|
                    0 <= j < k ==> skills[j].0 != skill,
            None => forall|k: int| 0 <= k < skills.len() ==> #[trigger] skills[k].0 != skill,
        },
    decreases skills.len(),
{
    if skills.len() > 0 {
        let rest = skills.drop_first();
        lemma_skill_level_is_first_entry(rest, skill);
        if skills[0].0 != skill {
            match spec_skill_level(rest, skill) {
                Some(l) => {
                    let k = choose|k: int|
                        0 <= k < rest.len() && #[trigger] rest[k] == (skill, l) && forall|j: int|
                            0 <= j < k ==> rest[j].0 != skill;
                    assert(skills[k + 1] == (skill, l));
                    assert forall|j: int| 0 <= j < k + 1 implies skills[j].0 != skill by {
                        if j > 0 {
                            assert(skills[j] == rest[j - 1]);
                        }
                    }
                },
                None => {
                    assert forall|k: int| 0 <= k < skills.len() implies #[trigger] skills[k].0 != skill by {
                        if k > 0 {
                            assert(skills[k] == rest[k - 1]);
                        }
                    }
                },
            }
        } else {
            assert(skills[0] == (skill, skills[0].1));
        }
    }
}

/// The character list entry for an inventory type shows the last worn item whose
/// slot shows as that type (its display id and its own inventory type); when no
/// worn item shows as that type, the entry is empty and names the type.
pub proof fn lemma_char_enum_entry_is_last_worn(gear: Seq<EquippedItem>, t: InventoryType)
    ensures
        (exists|k: int| 0 <= k < gear.len() && #[trigger] spec_inventory_type_for_enum(gear[k].slot) == t) ==> exists|
            k: int,
        |
            0 <= k < gear.len() && #[trigger] spec_inventory_type_for_enum(gear[k].slot) == t && spec_char_enum_equip(
                gear,
                t,
            ) == (CharEnumEquip { display_id: gear[k].display_id, slot: gear[k].inventory_type as u8, enchant_id: 0 })
                && forall|j: int| k < j < gear.len() ==> spec_inventory_type_for_enum(gear[j].slot) != t,
        (forall|k: int| 0 <= k < gear.len() ==> #[trigger] spec_inventory_type_for_enum(gear[k].slot) != t)
            ==> spec_char_enum_equip(gear, t) == (CharEnumEquip { display_id: 0, slot: t.spec_value() as u8, enchant_id: 0 }),
    decreases gear.len(),
{
    if gear.len() > 0 {
        let rest = gear.drop_last();
        let last = gear.len() - 1;
        lemma_char_enum_entry_is_last_worn(rest, t);
        if spec_inventory_type_for_enum(gear[last].slot) == t {
            assert(gear[last] == gear.last());
        } else {
            if exists|k: int| 0 <= k < gear.len() && #[trigger] spec_inventory_type_for_enum(gear[k].slot) == t {
                let k0 = choose|k: int| 0 <= k < gear.len() && #[trigger] spec_inventory_type_for_enum(gear[k].slot) == t;
                assert(rest[k0] == gear[k0]);
                let k = choose|k: int|
                    0 <= k < rest.len() && #[trigger] spec_inventory_type_for_enum(rest[k].slot) == t
                        && spec_char_enum_equip(rest, t) == (CharEnumEquip {
                        display_id: rest[k].display_id,
                        slot: rest[k].inventory_type as u8,
                        enchant_id: 0,
                    }) && forall|j: int| k < j < rest.len() ==> spec_inventory_type_for_enum(rest[j].slot) != t;
                assert(gear[k] == rest[k]);
                assert forall|j: int| k < j < gear.len() implies spec_inventory_type_for_enum(gear[j].slot) != t by {
                    if j < last {
                        assert(gear[j] == rest[j]);
                    }
                }
            }
            if forall|k: int| 0 <= k < gear.len() ==> #[trigger] spec_inventory_type_for_enum(gear[k].slot) != t {
                assert forall|k: int| 0 <= k < rest.len() implies #[trigger] spec_inventory_type_for_enum(rest[k].slot) != t by {
                    assert(rest[k] == gear[k]);
                }
            }
        }
    }
}

/// Reads creature templates, spawns, trainer spells and vendor inventories.
pub struct CreatureRepository;

impl CreatureRepository {
    /// The level a trainer spell requires: the level stored with it, or, when that is
    /// zero, the level of the spell itself.
    pub fn trainer_spell_required_level(required_level_from_db: u32, spell_level: u32) -> (r: u32)
        ensures
            r == (if required_level_from_db == 0 {
                spell_level
            } else {
                required_level_from_db
            }),
    {
        if required_level_from_db == 0 {
            spell_level
        } else {
            required_level_from_db
        }
    }
}

/// An item a vendor sells: at most `max_count` of it when limited, restocked every
/// `increment_time` seconds.
#[derive(Debug, Clone, Copy, PartialEq, Eq, Structural)]
pub struct VendorItemDbRecord {
    pub creature_template_entry_or_template_id: u32,
    pub item_id: u32,
    pub max_count: Option<u32>,
    pub increment_time: Option<u64>,
    pub extended_cost_id: Option<u32>,
}

} // verus!
