//! Enumerations and limits of the game rules and of the wire format.
use vstd::prelude::*;
use vstd::std_specs::cmp::PartialEqSpecImpl;

verus! {

pub const STANDARD_ADDON_CRC: u32 = 0x1C776D01;
pub const MAX_BASE_POWER_RAGE: u32 = 1000;
pub const MAX_BASE_POWER_FOCUS: u32 = 100;
pub const MAX_BASE_POWER_ENERGY: u32 = 100;
pub const MAX_BASE_POWER_PET_HAPPINESS: u32 = 1000000;
pub const MAX_ITEM_TEMPLATE_STATS: usize = 10;
pub const MAX_ITEM_TEMPLATE_DAMAGES: usize = 5;
pub const MAX_ITEM_TEMPLATE_SPELLS: usize = 5;
pub const MAX_ITEM_TEMPLATE_SOCKETS: usize = 3;
pub const MAX_CREATURE_TEMPLATE_MODELID: usize = 4;
pub const MAX_SPELL_TOTEMS: usize = 2;
pub const MAX_SPELL_REAGENTS: usize = 8;
pub const MAX_SPELL_EFFECTS: usize = 3;
pub const PLAYER_MAX_ACTION_BUTTONS: usize = 132;
pub const FACTION_NUMBER_BASE_REPUTATION_MASKS: usize = 4;
pub const MAX_VISIBLE_REPUTATIONS: usize = 128;
pub const NUMBER_WEAPON_ATTACK_TYPES: usize = 3;
pub const NPC_TEXT_TEXT_COUNT: usize = 8;
pub const NPC_TEXT_EMOTE_COUNT: usize = 3;
pub const QUEST_EMOTE_COUNT: usize = 4;
pub const MAX_QUEST_REWARDS_COUNT: usize = 4;
pub const MAX_QUEST_CHOICE_REWARDS_COUNT: usize = 6;
pub const MAX_QUEST_REWARDS_REPUT_COUNT: usize = 5;
pub const MAX_QUEST_OBJECTIVES_COUNT: usize = 4;
pub const MAX_QUESTS_IN_LOG: usize = 25;
pub const MAX_LEVEL_DIFFERENCE_FOR_AGGRO: i32 = -25;
pub const MAX_EXPANSION: usize = 2;
pub const FRIENDLY_FACTION_TEMPLATE_ID: u32 = 35;

#[derive(Clone, Copy, Debug, PartialEq, Eq, Structural)]
pub enum Gender {
    Male,
    Female,
    Nil,
}

impl Gender {
    /// The number that stands for this value on the wire and in the database.
    pub open spec fn spec_value(self) -> i64 {
        match self {
            Gender::Male => 0i64,
            Gender::Female => 1i64,
            Gender::Nil => 2i64,
        }
    }

    /// The number that stands for this value.
    pub fn value(self) -> (r: i64)
        ensures
            r == self.spec_value(),
    {
        match self {
            Gender::Male => 0i64,
            Gender::Female => 1i64,
            Gender::Nil => 2i64,
        }
    }

    /// The value that `v` stands for, if any.
    pub fn n(v: i64) -> (r: Option<Self>)
        ensures
            r matches Some(e) ==> e.spec_value() == v,
            r is None ==> forall|e: Self| e.spec_value() != v,
    {
        match v {
            0i64 => Some(Gender::Male),
            1i64 => Some(Gender::Female),
            2i64 => Some(Gender::Nil),
            _ => None,
        }
    }

    /// Distinct values stand for distinct numbers, so reading back the number of
    /// a value gives that value.
    pub proof fn lemma_value_injective(a: Self, b: Self)
        ensures
            a.spec_value() == b.spec_value() ==> a == b,
    {
        match a {
            Gender::Male => {},
            Gender::Female => {},
            Gender::Nil => {},
        }
    }
}

#[derive(Clone, Copy, Debug, PartialEq, Eq, Structural)]
pub enum CharacterRace {
    Nil,
    Human,
    Orc,
    Dwarf,
    NightElf,
    UndeadPlayer,
    Tauren,
    Gnome,
    Troll,
    BloodElf,
    Draenei,
}

impl CharacterRace {
    /// The number that stands for this value on the wire and in the database.
    pub open spec fn spec_value(self) -> i64 {
        match self {
            CharacterRace::Nil => 0i64,
            CharacterRace::Human => 1i64,
            CharacterRace::Orc => 2i64,
            CharacterRace::Dwarf => 3i64,
            CharacterRace::NightElf => 4i64,
            CharacterRace::UndeadPlayer => 5i64,
            CharacterRace::Tauren => 6i64,
            CharacterRace::Gnome => 7i64,
            CharacterRace::Troll => 8i64,
            CharacterRace::BloodElf => 10i64,
            CharacterRace::Draenei => 11i64,
        }
    }

    /// The number that stands for this value.
    pub fn value(self) -> (r: i64)
        ensures
            r == self.spec_value(),
    {
        match self {
            CharacterRace::Nil => 0i64,
            CharacterRace::Human => 1i64,
            CharacterRace::Orc => 2i64,
            CharacterRace::Dwarf => 3i64,
            CharacterRace::NightElf => 4i64,
            CharacterRace::UndeadPlayer => 5i64,
            CharacterRace::Tauren => 6i64,
            CharacterRace::Gnome => 7i64,
            CharacterRace::Troll => 8i64,
            CharacterRace::BloodElf => 10i64,
            CharacterRace::Draenei => 11i64,
        }
    }

    /// The value that `v` stands for, if any.
    pub fn n(v: i64) -> (r: Option<Self>)
        ensures
            r matches Some(e) ==> e.spec_value() == v,
            r is None ==> forall|e: Self| e.spec_value() != v,
    {
        match v {
            0i64 => Some(CharacterRace::Nil),
            1i64 => Some(CharacterRace::Human),
            2i64 => Some(CharacterRace::Orc),
            3i64 => Some(CharacterRace::Dwarf),
            4i64 => Some(CharacterRace::NightElf),
            5i64 => Some(CharacterRace::UndeadPlayer),
            6i64 => Some(CharacterRace::Tauren),
            7i64 => Some(CharacterRace::Gnome),
            8i64 => Some(CharacterRace::Troll),
            10i64 => Some(CharacterRace::BloodElf),
            11i64 => Some(CharacterRace::Draenei),
            _ => None,
        }
    }

    /// Distinct values stand for distinct numbers, so reading back the number of
    /// a value gives that value.
    pub proof fn lemma_value_injective(a: Self, b: Self)
        ensures
            a.spec_value() == b.spec_value() ==> a == b,
    {
        match a {
            CharacterRace::Nil => {},
            CharacterRace::Human => {},
            CharacterRace::Orc => {},
            CharacterRace::Dwarf => {},
            CharacterRace::NightElf => {},
            CharacterRace::UndeadPlayer => {},
            CharacterRace::Tauren => {},
            CharacterRace::Gnome => {},
            CharacterRace::Troll => {},
            CharacterRace::BloodElf => {},
            CharacterRace::Draenei => {},
        }
    }
}

#[derive(Clone, Copy, Debug, PartialEq, Eq, Structural)]
pub enum CharacterRaceBit {
    Human,
    Orc,
    Dwarf,
    NightElf,
    UndeadPlayer,
    Tauren,
    Gnome,
    Troll,
    BloodElf,
    Draenei,
}

impl CharacterRaceBit {
    /// The number that stands for this value on the wire and in the database.
    pub open spec fn spec_value(self) -> u32 {
        match self {
            CharacterRaceBit::Human => 1u32,
            CharacterRaceBit::Orc => 2u32,
            CharacterRaceBit::Dwarf => 4u32,
            CharacterRaceBit::NightElf => 8u32,
            CharacterRaceBit::UndeadPlayer => 16u32,
            CharacterRaceBit::Tauren => 32u32,
            CharacterRaceBit::Gnome => 64u32,
            CharacterRaceBit::Troll => 128u32,
            CharacterRaceBit::BloodElf => 512u32,
            CharacterRaceBit::Draenei => 1024u32,
        }
    }

    /// The number that stands for this value.
    pub fn value(self) -> (r: u32)
        ensures
            r == self.spec_value(),
    {
        match self {
            CharacterRaceBit::Human => 1u32,
            CharacterRaceBit::Orc => 2u32,
            CharacterRaceBit::Dwarf => 4u32,
            CharacterRaceBit::NightElf => 8u32,
            CharacterRaceBit::UndeadPlayer => 16u32,
            CharacterRaceBit::Tauren => 32u32,
            CharacterRaceBit::Gnome => 64u32,
            CharacterRaceBit::Troll => 128u32,
            CharacterRaceBit::BloodElf => 512u32,
            CharacterRaceBit::Draenei => 1024u32,
        }
    }

    /// The value that `v` stands for, if any.
    pub fn n(v: u32) -> (r: Option<Self>)
        ensures
            r matches Some(e) ==> e.spec_value() == v,
            r is None ==> forall|e: Self| e.spec_value() != v,
    {
        match v {
            1u32 => Some(CharacterRaceBit::Human),
            2u32 => Some(CharacterRaceBit::Orc),
            4u32 => Some(CharacterRaceBit::Dwarf),
            8u32 => Some(CharacterRaceBit::NightElf),
            16u32 => Some(CharacterRaceBit::UndeadPlayer),
            32u32 => Some(CharacterRaceBit::Tauren),
            64u32 => Some(CharacterRaceBit::Gnome),
            128u32 => Some(CharacterRaceBit::Troll),
            512u32 => Some(CharacterRaceBit::BloodElf),
            1024u32 => Some(CharacterRaceBit::Draenei),
            _ => None,
        }
    }

    /// Distinct values stand for distinct numbers, so reading back the number of
    /// a value gives that value.
    pub proof fn lemma_value_injective(a: Self, b: Self)
        ensures
            a.spec_value() == b.spec_value() ==> a == b,
    {
        match a {
            CharacterRaceBit::Human => {},
            CharacterRaceBit::Orc => {},
            CharacterRaceBit::Dwarf => {},
            CharacterRaceBit::NightElf => {},
            CharacterRaceBit::UndeadPlayer => {},
            CharacterRaceBit::Tauren => {},
            CharacterRaceBit::Gnome => {},
            CharacterRaceBit::Troll => {},
            CharacterRaceBit::BloodElf => {},
            CharacterRaceBit::Draenei => {},
        }
    }
}

#[derive(Clone, Copy, Debug, PartialEq, Eq, Structural)]
pub enum CharacterClass {
    Nil,
    Warrior,
    Paladin,
    Hunter,
    Rogue,
    Priest,
    Shaman,
    Mage,
    Warlock,
    Druid,
}

impl CharacterClass {
    /// The number that stands for this value on the wire and in the database.
    pub open spec fn spec_value(self) -> i64 {
        match self {
            CharacterClass::Nil => 0i64,
            CharacterClass::Warrior => 1i64,
            CharacterClass::Paladin => 2i64,
            CharacterClass::Hunter => 3i64,
            CharacterClass::Rogue => 4i64,
            CharacterClass::Priest => 5i64,
            CharacterClass::Shaman => 7i64,
            CharacterClass::Mage => 8i64,
            CharacterClass::Warlock => 9i64,
            CharacterClass::Druid => 11i64,
        }
    }

    /// The number that stands for this value.
    pub fn value(self) -> (r: i64)
        ensures
            r == self.spec_value(),
    {
        match self {
            CharacterClass::Nil => 0i64,
            CharacterClass::Warrior => 1i64,
            CharacterClass::Paladin => 2i64,
            CharacterClass::Hunter => 3i64,
            CharacterClass::Rogue => 4i64,
            CharacterClass::Priest => 5i64,
            CharacterClass::Shaman => 7i64,
            CharacterClass::Mage => 8i64,
            CharacterClass::Warlock => 9i64,
            CharacterClass::Druid => 11i64,
        }
    }

    /// The value that `v` stands for, if any.
    pub fn n(v: i64) -> (r: Option<Self>)
        ensures
            r matches Some(e) ==> e.spec_value() == v,
            r is None ==> forall|e: Self| e.spec_value() != v,
    {
        match v {
            0i64 => Some(CharacterClass::Nil),
            1i64 => Some(CharacterClass::Warrior),
            2i64 => Some(CharacterClass::Paladin),
            3i64 => Some(CharacterClass::Hunter),
            4i64 => Some(CharacterClass::Rogue),
            5i64 => Some(CharacterClass::Priest),
            7i64 => Some(CharacterClass::Shaman),
            8i64 => Some(CharacterClass::Mage),
            9i64 => Some(CharacterClass::Warlock),
            11i64 => Some(CharacterClass::Druid),
            _ => None,
        }
    }

    /// Distinct values stand for distinct numbers, so reading back the number of
    /// a value gives that value.
    pub proof fn lemma_value_injective(a: Self, b: Self)
        ensures
            a.spec_value() == b.spec_value() ==> a == b,
    {
        match a {
            CharacterClass::Nil => {},
            CharacterClass::Warrior => {},
            CharacterClass::Paladin => {},
            CharacterClass::Hunter => {},
            CharacterClass::Rogue => {},
            CharacterClass::Priest => {},
            CharacterClass::Shaman => {},
            CharacterClass::Mage => {},
            CharacterClass::Warlock => {},
            CharacterClass::Druid => {},
        }
    }
}

#[derive(Clone, Copy, Debug, PartialEq, Eq, Structural)]
pub enum CharacterClassBit {
    Warrior,
    Paladin,
    Hunter,
    Rogue,
    Priest,
    Shaman,
    Mage,
    Warlock,
    Druid,
}

impl CharacterClassBit {
    /// The number that stands for this value on the wire and in the database.
    pub open spec fn spec_value(self) -> u32 {
        match self {
            CharacterClassBit::Warrior => 1u32,
            CharacterClassBit::Paladin => 2u32,
            CharacterClassBit::Hunter => 4u32,
            CharacterClassBit::Rogue => 8u32,
            CharacterClassBit::Priest => 16u32,
            CharacterClassBit::Shaman => 64u32,
            CharacterClassBit::Mage => 128u32,
            CharacterClassBit::Warlock => 256u32,
            CharacterClassBit::Druid => 1024u32,
        }
    }

    /// The number that stands for this value.
    pub fn value(self) -> (r: u32)
        ensures
            r == self.spec_value(),
    {
        match self {
            CharacterClassBit::Warrior => 1u32,
            CharacterClassBit::Paladin => 2u32,
            CharacterClassBit::Hunter => 4u32,
            CharacterClassBit::Rogue => 8u32,
            CharacterClassBit::Priest => 16u32,
            CharacterClassBit::Shaman => 64u32,
            CharacterClassBit::Mage => 128u32,
            CharacterClassBit::Warlock => 256u32,
            CharacterClassBit::Druid => 1024u32,
        }
    }

    /// The value that `v` stands for, if any.
    pub fn n(v: u32) -> (r: Option<Self>)
        ensures
            r matches Some(e) ==> e.spec_value() == v,
            r is None ==> forall|e: Self| e.spec_value() != v,
    {
        match v {
            1u32 => Some(CharacterClassBit::Warrior),
            2u32 => Some(CharacterClassBit::Paladin),
            4u32 => Some(CharacterClassBit::Hunter),
            8u32 => Some(CharacterClassBit::Rogue),
            16u32 => Some(CharacterClassBit::Priest),
            64u32 => Some(CharacterClassBit::Shaman),
            128u32 => Some(CharacterClassBit::Mage),
            256u32 => Some(CharacterClassBit::Warlock),
            1024u32 => Some(CharacterClassBit::Druid),
            _ => None,
        }
    }

    /// Distinct values stand for distinct numbers, so reading back the number of
    /// a value gives that value.
    pub proof fn lemma_value_injective(a: Self, b: Self)
        ensures
            a.spec_value() == b.spec_value() ==> a == b,
    {
        match a {
            CharacterClassBit::Warrior => {},
            CharacterClassBit::Paladin => {},
            CharacterClassBit::Hunter => {},
            CharacterClassBit::Rogue => {},
            CharacterClassBit::Priest => {},
            CharacterClassBit::Shaman => {},
            CharacterClassBit::Mage => {},
            CharacterClassBit::Warlock => {},
            CharacterClassBit::Druid => {},
        }
    }
}

#[derive(Clone, Copy, Debug, PartialEq, Eq, Structural)]
pub enum PowerType {
    Health,
    Mana,
    Rage,
    Focus,
    Energy,
    PetHappiness,
}

impl PowerType {
    /// The number that stands for this value on the wire and in the database.
    pub open spec fn spec_value(self) -> i64 {
        match self {
            PowerType::Health => -2i64,
            PowerType::Mana => 0i64,
            PowerType::Rage => 1i64,
            PowerType::Focus => 2i64,
            PowerType::Energy => 3i64,
            PowerType::PetHappiness => 4i64,
        }
    }

    /// The number that stands for this value.
    pub fn value(self) -> (r: i64)
        ensures
            r == self.spec_value(),
    {
        match self {
            PowerType::Health => -2i64,
            PowerType::Mana => 0i64,
            PowerType::Rage => 1i64,
            PowerType::Focus => 2i64,
            PowerType::Energy => 3i64,
            PowerType::PetHappiness => 4i64,
        }
    }

    /// The value that `v` stands for, if any.
    pub fn n(v: i64) -> (r: Option<Self>)
        ensures
            r matches Some(e) ==> e.spec_value() == v,
            r is None ==> forall|e: Self| e.spec_value() != v,
    {
        match v {
            -2i64 => Some(PowerType::Health),
            0i64 => Some(PowerType::Mana),
            1i64 => Some(PowerType::Rage),
            2i64 => Some(PowerType::Focus),
            3i64 => Some(PowerType::Energy),
            4i64 => Some(PowerType::PetHappiness),
            _ => None,
        }
    }

    /// Distinct values stand for distinct numbers, so reading back the number of
    /// a value gives that value.
    pub proof fn lemma_value_injective(a: Self, b: Self)
        ensures
            a.spec_value() == b.spec_value() ==> a == b,
    {
        match a {
            PowerType::Health => {},
            PowerType::Mana => {},
            PowerType::Rage => {},
            PowerType::Focus => {},
            PowerType::Energy => {},
            PowerType::PetHappiness => {},
        }
    }
}

#[derive(Clone, Copy, Debug, PartialEq, Eq, Structural, Hash)]
pub enum InventoryType {
    NonEquip,
    Head,
    Neck,
    Shoulders,
    Body,
    Chest,
    Waist,
    Legs,
    Feet,
    Wrists,
    Hands,
    Finger,
    Trinket,
    Weapon,
    Shield,
    Ranged,
    Cloak,
    TwoHandWeapon,
    Bag,
    Tabard,
    Robe,
    WeaponMainHand,
    WeaponOffHand,
    Holdable,
    Ammo,
    Thrown,
    RangedRight,
    Quiver,
    Relic,
}

impl InventoryType {
    /// The number that stands for this value on the wire and in the database.
    pub open spec fn spec_value(self) -> i64 {
        match self {
            InventoryType::NonEquip => 0i64,
            InventoryType::Head => 1i64,
            InventoryType::Neck => 2i64,
            InventoryType::Shoulders => 3i64,
            InventoryType::Body => 4i64,
            InventoryType::Chest => 5i64,
            InventoryType::Waist => 6i64,
            InventoryType::Legs => 7i64,
            InventoryType::Feet => 8i64,
            InventoryType::Wrists => 9i64,
            InventoryType::Hands => 10i64,
            InventoryType::Finger => 11i64,
            InventoryType::Trinket => 12i64,
            InventoryType::Weapon => 13i64,
            InventoryType::Shield => 14i64,
            InventoryType::Ranged => 15i64,
            InventoryType::Cloak => 16i64,
            InventoryType::TwoHandWeapon => 17i64,
            InventoryType::Bag => 18i64,
            InventoryType::Tabard => 19i64,
            InventoryType::Robe => 20i64,
            InventoryType::WeaponMainHand => 21i64,
            InventoryType::WeaponOffHand => 22i64,
            InventoryType::Holdable => 23i64,
            InventoryType::Ammo => 24i64,
            InventoryType::Thrown => 25i64,
            InventoryType::RangedRight => 26i64,
            InventoryType::Quiver => 27i64,
            InventoryType::Relic => 28i64,
        }
    }

    /// The number that stands for this value.
    pub fn value(self) -> (r: i64)
        ensures
            r == self.spec_value(),
    {
        match self {
            InventoryType::NonEquip => 0i64,
            InventoryType::Head => 1i64,
            InventoryType::Neck => 2i64,
            InventoryType::Shoulders => 3i64,
            InventoryType::Body => 4i64,
            InventoryType::Chest => 5i64,
            InventoryType::Waist => 6i64,
            InventoryType::Legs => 7i64,
            InventoryType::Feet => 8i64,
            InventoryType::Wrists => 9i64,
            InventoryType::Hands => 10i64,
            InventoryType::Finger => 11i64,
            InventoryType::Trinket => 12i64,
            InventoryType::Weapon => 13i64,
            InventoryType::Shield => 14i64,
            InventoryType::Ranged => 15i64,
            InventoryType::Cloak => 16i64,
            InventoryType::TwoHandWeapon => 17i64,
            InventoryType::Bag => 18i64,
            InventoryType::Tabard => 19i64,
            InventoryType::Robe => 20i64,
            InventoryType::WeaponMainHand => 21i64,
            InventoryType::WeaponOffHand => 22i64,
            InventoryType::Holdable => 23i64,
            InventoryType::Ammo => 24i64,
            InventoryType::Thrown => 25i64,
            InventoryType::RangedRight => 26i64,
            InventoryType::Quiver => 27i64,
            InventoryType::Relic => 28i64,
        }
    }

    /// The value that `v` stands for, if any.
    pub fn n(v: i64) -> (r: Option<Self>)
        ensures
            r matches Some(e) ==> e.spec_value() == v,
            r is None ==> forall|e: Self| e.spec_value() != v,
    {
        match v {
            0i64 => Some(InventoryType::NonEquip),
            1i64 => Some(InventoryType::Head),
            2i64 => Some(InventoryType::Neck),
            3i64 => Some(InventoryType::Shoulders),
            4i64 => Some(InventoryType::Body),
            5i64 => Some(InventoryType::Chest),
            6i64 => Some(InventoryType::Waist),
            7i64 => Some(InventoryType::Legs),
            8i64 => Some(InventoryType::Feet),
            9i64 => Some(InventoryType::Wrists),
            10i64 => Some(InventoryType::Hands),
            11i64 => Some(InventoryType::Finger),
            12i64 => Some(InventoryType::Trinket),
            13i64 => Some(InventoryType::Weapon),
            14i64 => Some(InventoryType::Shield),
            15i64 => Some(InventoryType::Ranged),
            16i64 => Some(InventoryType::Cloak),
            17i64 => Some(InventoryType::TwoHandWeapon),
            18i64 => Some(InventoryType::Bag),
            19i64 => Some(InventoryType::Tabard),
            20i64 => Some(InventoryType::Robe),
            21i64 => Some(InventoryType::WeaponMainHand),
            22i64 => Some(InventoryType::WeaponOffHand),
            23i64 => Some(InventoryType::Holdable),
            24i64 => Some(InventoryType::Ammo),
            25i64 => Some(InventoryType::Thrown),
            26i64 => Some(InventoryType::RangedRight),
            27i64 => Some(InventoryType::Quiver),
            28i64 => Some(InventoryType::Relic),
            _ => None,
        }
    }

    /// Distinct values stand for distinct numbers, so reading back the number of
    /// a value gives that value.
    pub proof fn lemma_value_injective(a: Self, b: Self)
        ensures
            a.spec_value() == b.spec_value() ==> a == b,
    {
        match a {
            InventoryType::NonEquip => {},
            InventoryType::Head => {},
            InventoryType::Neck => {},
            InventoryType::Shoulders => {},
            InventoryType::Body => {},
            InventoryType::Chest => {},
            InventoryType::Waist => {},
            InventoryType::Legs => {},
            InventoryType::Feet => {},
            InventoryType::Wrists => {},
            InventoryType::Hands => {},
            InventoryType::Finger => {},
            InventoryType::Trinket => {},
            InventoryType::Weapon => {},
            InventoryType::Shield => {},
            InventoryType::Ranged => {},
            InventoryType::Cloak => {},
            InventoryType::TwoHandWeapon => {},
            InventoryType::Bag => {},
            InventoryType::Tabard => {},
            InventoryType::Robe => {},
            InventoryType::WeaponMainHand => {},
            InventoryType::WeaponOffHand => {},
            InventoryType::Holdable => {},
            InventoryType::Ammo => {},
            InventoryType::Thrown => {},
            InventoryType::RangedRight => {},
            InventoryType::Quiver => {},
            InventoryType::Relic => {},
        }
    }
}

#[derive(Clone, Copy, Debug)]
pub enum InventorySlot {
    EquipmentHead,
    EquipmentNeck,
    EquipmentShoulders,
    EquipmentBody,
    EquipmentChest,
    EquipmentWaist,
    EquipmentLegs,
    EquipmentFeet,
    EquipmentWrists,
    EquipmentHands,
    EquipmentFinger1,
    EquipmentFinger2,
    EquipmentTrinket1,
    EquipmentTrinket2,
    EquipmentBack,
    EquipmentMainHand,
    EquipmentOffHand,
    EquipmentRanged,
    EquipmentTabard,
}

impl InventorySlot {
    /// The number that stands for this value on the wire and in the database.
    pub open spec fn spec_value(self) -> i64 {
        match self {
            InventorySlot::EquipmentHead => 0i64,
            InventorySlot::EquipmentNeck => 1i64,
            InventorySlot::EquipmentShoulders => 2i64,
            InventorySlot::EquipmentBody => 3i64,
            InventorySlot::EquipmentChest => 4i64,
            InventorySlot::EquipmentWaist => 5i64,
            InventorySlot::EquipmentLegs => 6i64,
            InventorySlot::EquipmentFeet => 7i64,
            InventorySlot::EquipmentWrists => 8i64,
            InventorySlot::EquipmentHands => 9i64,
            InventorySlot::EquipmentFinger1 => 10i64,
            InventorySlot::EquipmentFinger2 => 11i64,
            InventorySlot::EquipmentTrinket1 => 12i64,
            InventorySlot::EquipmentTrinket2 => 13i64,
            InventorySlot::EquipmentBack => 14i64,
            InventorySlot::EquipmentMainHand => 15i64,
            InventorySlot::EquipmentOffHand => 16i64,
            InventorySlot::EquipmentRanged => 17i64,
            InventorySlot::EquipmentTabard => 18i64,
        }
    }

    /// The number that stands for this value.
    pub fn value(self) -> (r: i64)
        ensures
            r == self.spec_value(),
    {
        match self {
            InventorySlot::EquipmentHead => 0i64,
            InventorySlot::EquipmentNeck => 1i64,
            InventorySlot::EquipmentShoulders => 2i64,
            InventorySlot::EquipmentBody => 3i64,
            InventorySlot::EquipmentChest => 4i64,
            InventorySlot::EquipmentWaist => 5i64,
            InventorySlot::EquipmentLegs => 6i64,
            InventorySlot::EquipmentFeet => 7i64,
            InventorySlot::EquipmentWrists => 8i64,
            InventorySlot::EquipmentHands => 9i64,
            InventorySlot::EquipmentFinger1 => 10i64,
            InventorySlot::EquipmentFinger2 => 11i64,
            InventorySlot::EquipmentTrinket1 => 12i64,
            InventorySlot::EquipmentTrinket2 => 13i64,
            InventorySlot::EquipmentBack => 14i64,
            InventorySlot::EquipmentMainHand => 15i64,
            InventorySlot::EquipmentOffHand => 16i64,
            InventorySlot::EquipmentRanged => 17i64,
            InventorySlot::EquipmentTabard => 18i64,
        }
    }

    /// The value that `v` stands for, if any.
    pub fn n(v: i64) -> (r: Option<Self>)
        ensures
            r matches Some(e) ==> e.spec_value() == v,
            r is None ==> forall|e: Self| e.spec_value() != v,
    {
        match v {
            0i64 => Some(InventorySlot::EquipmentHead),
            1i64 => Some(InventorySlot::EquipmentNeck),
            2i64 => Some(InventorySlot::EquipmentShoulders),
            3i64 => Some(InventorySlot::EquipmentBody),
            4i64 => Some(InventorySlot::EquipmentChest),
            5i64 => Some(InventorySlot::EquipmentWaist),
            6i64 => Some(InventorySlot::EquipmentLegs),
            7i64 => Some(InventorySlot::EquipmentFeet),
            8i64 => Some(InventorySlot::EquipmentWrists),
            9i64 => Some(InventorySlot::EquipmentHands),
            10i64 => Some(InventorySlot::EquipmentFinger1),
            11i64 => Some(InventorySlot::EquipmentFinger2),
            12i64 => Some(InventorySlot::EquipmentTrinket1),
            13i64 => Some(InventorySlot::EquipmentTrinket2),
            14i64 => Some(InventorySlot::EquipmentBack),
            15i64 => Some(InventorySlot::EquipmentMainHand),
            16i64 => Some(InventorySlot::EquipmentOffHand),
            17i64 => Some(InventorySlot::EquipmentRanged),
            18i64 => Some(InventorySlot::EquipmentTabard),
            _ => None,
        }
    }

    /// Distinct values stand for distinct numbers, so reading back the number of
    /// a value gives that value.
    pub proof fn lemma_value_injective(a: Self, b: Self)
        ensures
            a.spec_value() == b.spec_value() ==> a == b,
    {
        match a {
            InventorySlot::EquipmentHead => {},
            InventorySlot::EquipmentNeck => {},
            InventorySlot::EquipmentShoulders => {},
            InventorySlot::EquipmentBody => {},
            InventorySlot::EquipmentChest => {},
            InventorySlot::EquipmentWaist => {},
            InventorySlot::EquipmentLegs => {},
            InventorySlot::EquipmentFeet => {},
            InventorySlot::EquipmentWrists => {},
            InventorySlot::EquipmentHands => {},
            InventorySlot::EquipmentFinger1 => {},
            InventorySlot::EquipmentFinger2 => {},
            InventorySlot::EquipmentTrinket1 => {},
            InventorySlot::EquipmentTrinket2 => {},
            InventorySlot::EquipmentBack => {},
            InventorySlot::EquipmentMainHand => {},
            InventorySlot::EquipmentOffHand => {},
            InventorySlot::EquipmentRanged => {},
            InventorySlot::EquipmentTabard => {},
        }
    }
}

#[derive(Clone, Copy, Debug, PartialEq, Eq, Structural)]
pub enum HighGuidType {
    ItemOrContainer,
    Player,
    Gameobject,
    /// for GAMEOBJECT_TYPE_TRANSPORT
    Transport,
    Unit,
    Pet,
    Dynamicobject,
    Corpse,
    /// for GAMEOBJECT_TYPE_MO_TRANSPORT
    MoTransport,
    Group,
}

impl HighGuidType {
    /// The number that stands for this value on the wire and in the database.
    pub open spec fn spec_value(self) -> i64 {
        match self {
            HighGuidType::ItemOrContainer => 16384i64,
            HighGuidType::Player => 0i64,
            HighGuidType::Gameobject => 61712i64,
            HighGuidType::Transport => 61728i64,
            HighGuidType::Unit => 61744i64,
            HighGuidType::Pet => 61760i64,
            HighGuidType::Dynamicobject => 61696i64,
            HighGuidType::Corpse => 61697i64,
            HighGuidType::MoTransport => 8128i64,
            HighGuidType::Group => 8016i64,
        }
    }

    /// The number that stands for this value.
    pub fn value(self) -> (r: i64)
        ensures
            r == self.spec_value(),
    {
        match self {
            HighGuidType::ItemOrContainer => 16384i64,
            HighGuidType::Player => 0i64,
            HighGuidType::Gameobject => 61712i64,
            HighGuidType::Transport => 61728i64,
            HighGuidType::Unit => 61744i64,
            HighGuidType::Pet => 61760i64,
            HighGuidType::Dynamicobject => 61696i64,
            HighGuidType::Corpse => 61697i64,
            HighGuidType::MoTransport => 8128i64,
            HighGuidType::Group => 8016i64,
        }
    }

    /// The value that `v` stands for, if any.
    pub fn n(v: i64) -> (r: Option<Self>)
        ensures
            r matches Some(e) ==> e.spec_value() == v,
            r is None ==> forall|e: Self| e.spec_value() != v,
    {
        match v {
            16384i64 => Some(HighGuidType::ItemOrContainer),
            0i64 => Some(HighGuidType::Player),
            61712i64 => Some(HighGuidType::Gameobject),
            61728i64 => Some(HighGuidType::Transport),
            61744i64 => Some(HighGuidType::Unit),
            61760i64 => Some(HighGuidType::Pet),
            61696i64 => Some(HighGuidType::Dynamicobject),
            61697i64 => Some(HighGuidType::Corpse),
            8128i64 => Some(HighGuidType::MoTransport),
            8016i64 => Some(HighGuidType::Group),
            _ => None,
        }
    }

    /// Distinct values stand for distinct numbers, so reading back the number of
    /// a value gives that value.
    pub proof fn lemma_value_injective(a: Self, b: Self)
        ensures
            a.spec_value() == b.spec_value() ==> a == b,
    {
        match a {
            HighGuidType::ItemOrContainer => {},
            HighGuidType::Player => {},
            HighGuidType::Gameobject => {},
            HighGuidType::Transport => {},
            HighGuidType::Unit => {},
            HighGuidType::Pet => {},
            HighGuidType::Dynamicobject => {},
            HighGuidType::Corpse => {},
            HighGuidType::MoTransport => {},
            HighGuidType::Group => {},
        }
    }
}

#[derive(Clone, Copy, Debug, PartialEq, Eq, Structural)]
pub enum ObjectTypeId {
    Object,
    Item,
    Container,
    Unit,
    Player,
    GameObject,
    DynamicObject,
    Corpse,
}

impl ObjectTypeId {
    /// The number that stands for this value on the wire and in the database.
    pub open spec fn spec_value(self) -> i64 {
        match self {
            ObjectTypeId::Object => 0i64,
            ObjectTypeId::Item => 1i64,
            ObjectTypeId::Container => 2i64,
            ObjectTypeId::Unit => 3i64,
            ObjectTypeId::Player => 4i64,
            ObjectTypeId::GameObject => 5i64,
            ObjectTypeId::DynamicObject => 6i64,
            ObjectTypeId::Corpse => 7i64,
        }
    }

    /// The number that stands for this value.
    pub fn value(self) -> (r: i64)
        ensures
            r == self.spec_value(),
    {
        match self {
            ObjectTypeId::Object => 0i64,
            ObjectTypeId::Item => 1i64,
            ObjectTypeId::Container => 2i64,
            ObjectTypeId::Unit => 3i64,
            ObjectTypeId::Player => 4i64,
            ObjectTypeId::GameObject => 5i64,
            ObjectTypeId::DynamicObject => 6i64,
            ObjectTypeId::Corpse => 7i64,
        }
    }

    /// The value that `v` stands for, if any.
    pub fn n(v: i64) -> (r: Option<Self>)
        ensures
            r matches Some(e) ==> e.spec_value() == v,
            r is None ==> forall|e: Self| e.spec_value() != v,
    {
        match v {
            0i64 => Some(ObjectTypeId::Object),
            1i64 => Some(ObjectTypeId::Item),
            2i64 => Some(ObjectTypeId::Container),
            3i64 => Some(ObjectTypeId::Unit),
            4i64 => Some(ObjectTypeId::Player),
            5i64 => Some(ObjectTypeId::GameObject),
            6i64 => Some(ObjectTypeId::DynamicObject),
            7i64 => Some(ObjectTypeId::Corpse),
            _ => None,
        }
    }

    /// Distinct values stand for distinct numbers, so reading back the number of
    /// a value gives that value.
    pub proof fn lemma_value_injective(a: Self, b: Self)
        ensures
            a.spec_value() == b.spec_value() ==> a == b,
    {
        match a {
            ObjectTypeId::Object => {},
            ObjectTypeId::Item => {},
            ObjectTypeId::Container => {},
            ObjectTypeId::Unit => {},
            ObjectTypeId::Player => {},
            ObjectTypeId::GameObject => {},
            ObjectTypeId::DynamicObject => {},
            ObjectTypeId::Corpse => {},
        }
    }
}

#[derive(Clone, Copy, Debug, PartialEq, Eq, Structural)]
pub enum ObjectTypeMask {
    Object,
    Item,
    Container,
    Unit,
    Player,
    Gameobject,
    Dynamicobject,
    Corpse,
}

impl ObjectTypeMask {
    /// The number that stands for this value on the wire and in the database.
    pub open spec fn spec_value(self) -> u32 {
        match self {
            ObjectTypeMask::Object => 1u32,
            ObjectTypeMask::Item => 2u32,
            ObjectTypeMask::Container => 4u32,
            ObjectTypeMask::Unit => 8u32,
            ObjectTypeMask::Player => 16u32,
            ObjectTypeMask::Gameobject => 32u32,
            ObjectTypeMask::Dynamicobject => 64u32,
            ObjectTypeMask::Corpse => 128u32,
        }
    }

    /// The number that stands for this value.
    pub fn value(self) -> (r: u32)
        ensures
            r == self.spec_value(),
    {
        match self {
            ObjectTypeMask::Object => 1u32,
            ObjectTypeMask::Item => 2u32,
            ObjectTypeMask::Container => 4u32,
            ObjectTypeMask::Unit => 8u32,
            ObjectTypeMask::Player => 16u32,
            ObjectTypeMask::Gameobject => 32u32,
            ObjectTypeMask::Dynamicobject => 64u32,
            ObjectTypeMask::Corpse => 128u32,
        }
    }

    /// The value that `v` stands for, if any.
    pub fn n(v: u32) -> (r: Option<Self>)
        ensures
            r matches Some(e) ==> e.spec_value() == v,
            r is None ==> forall|e: Self| e.spec_value() != v,
    {
        match v {
            1u32 => Some(ObjectTypeMask::Object),
            2u32 => Some(ObjectTypeMask::Item),
            4u32 => Some(ObjectTypeMask::Container),
            8u32 => Some(ObjectTypeMask::Unit),
            16u32 => Some(ObjectTypeMask::Player),
            32u32 => Some(ObjectTypeMask::Gameobject),
            64u32 => Some(ObjectTypeMask::Dynamicobject),
            128u32 => Some(ObjectTypeMask::Corpse),
            _ => None,
        }
    }

    /// Distinct values stand for distinct numbers, so reading back the number of
    /// a value gives that value.
    pub proof fn lemma_value_injective(a: Self, b: Self)
        ensures
            a.spec_value() == b.spec_value() ==> a == b,
    {
        match a {
            ObjectTypeMask::Object => {},
            ObjectTypeMask::Item => {},
            ObjectTypeMask::Container => {},
            ObjectTypeMask::Unit => {},
            ObjectTypeMask::Player => {},
            ObjectTypeMask::Gameobject => {},
            ObjectTypeMask::Dynamicobject => {},
            ObjectTypeMask::Corpse => {},
        }
    }
}

#[derive(Clone, Copy, Debug, PartialEq, Eq, Structural)]
pub enum ItemClass {
    Consumable,
    Container,
    Weapon,
    Gem,
    Armor,
    Reagent,
    Projectile,
    TradeGoods,
    Generic,
    Recipe,
    Money,
    Quiver,
    Quest,
    Key,
    Permanent,
    Misc,
}

impl ItemClass {
    /// The number that stands for this value on the wire and in the database.
    pub open spec fn spec_value(self) -> i64 {
        match self {
            ItemClass::Consumable => 0i64,
            ItemClass::Container => 1i64,
            ItemClass::Weapon => 2i64,
            ItemClass::Gem => 3i64,
            ItemClass::Armor => 4i64,
            ItemClass::Reagent => 5i64,
            ItemClass::Projectile => 6i64,
            ItemClass::TradeGoods => 7i64,
            ItemClass::Generic => 8i64,
            ItemClass::Recipe => 9i64,
            ItemClass::Money => 10i64,
            ItemClass::Quiver => 11i64,
            ItemClass::Quest => 12i64,
            ItemClass::Key => 13i64,
            ItemClass::Permanent => 14i64,
            ItemClass::Misc => 15i64,
        }
    }

    /// The number that stands for this value.
    pub fn value(self) -> (r: i64)
        ensures
            r == self.spec_value(),
    {
        match self {
            ItemClass::Consumable => 0i64,
            ItemClass::Container => 1i64,
            ItemClass::Weapon => 2i64,
            ItemClass::Gem => 3i64,
            ItemClass::Armor => 4i64,
            ItemClass::Reagent => 5i64,
            ItemClass::Projectile => 6i64,
            ItemClass::TradeGoods => 7i64,
            ItemClass::Generic => 8i64,
            ItemClass::Recipe => 9i64,
            ItemClass::Money => 10i64,
            ItemClass::Quiver => 11i64,
            ItemClass::Quest => 12i64,
            ItemClass::Key => 13i64,
            ItemClass::Permanent => 14i64,
            ItemClass::Misc => 15i64,
        }
    }

    /// The value that `v` stands for, if any.
    pub fn n(v: i64) -> (r: Option<Self>)
        ensures
            r matches Some(e) ==> e.spec_value() == v,
            r is None ==> forall|e: Self| e.spec_value() != v,
    {
        match v {
            0i64 => Some(ItemClass::Consumable),
            1i64 => Some(ItemClass::Container),
            2i64 => Some(ItemClass::Weapon),
            3i64 => Some(ItemClass::Gem),
            4i64 => Some(ItemClass::Armor),
            5i64 => Some(ItemClass::Reagent),
            6i64 => Some(ItemClass::Projectile),
            7i64 => Some(ItemClass::TradeGoods),
            8i64 => Some(ItemClass::Generic),
            9i64 => Some(ItemClass::Recipe),
            10i64 => Some(ItemClass::Money),
            11i64 => Some(ItemClass::Quiver),
            12i64 => Some(ItemClass::Quest),
            13i64 => Some(ItemClass::Key),
            14i64 => Some(ItemClass::Permanent),
            15i64 => Some(ItemClass::Misc),
            _ => None,
        }
    }

    /// Distinct values stand for distinct numbers, so reading back the number of
    /// a value gives that value.
    pub proof fn lemma_value_injective(a: Self, b: Self)
        ensures
            a.spec_value() == b.spec_value() ==> a == b,
    {
        match a {
            ItemClass::Consumable => {},
            ItemClass::Container => {},
            ItemClass::Weapon => {},
            ItemClass::Gem => {},
            ItemClass::Armor => {},
            ItemClass::Reagent => {},
            ItemClass::Projectile => {},
            ItemClass::TradeGoods => {},
            ItemClass::Generic => {},
            ItemClass::Recipe => {},
            ItemClass::Money => {},
            ItemClass::Quiver => {},
            ItemClass::Quest => {},
            ItemClass::Key => {},
            ItemClass::Permanent => {},
            ItemClass::Misc => {},
        }
    }
}

#[derive(Clone, Copy, Debug, PartialEq, Eq, Structural)]
pub enum ItemSubclassConsumable {
    Consumable,
    Potion,
    Elixir,
    Flask,
    Scroll,
    Food,
    ItemEnhancement,
    Bandage,
    ConsumableOther,
}

impl ItemSubclassConsumable {
    /// The number that stands for this value on the wire and in the database.
    pub open spec fn spec_value(self) -> i64 {
        match self {
            ItemSubclassConsumable::Consumable => 0i64,
            ItemSubclassConsumable::Potion => 1i64,
            ItemSubclassConsumable::Elixir => 2i64,
            ItemSubclassConsumable::Flask => 3i64,
            ItemSubclassConsumable::Scroll => 4i64,
            ItemSubclassConsumable::Food => 5i64,
            ItemSubclassConsumable::ItemEnhancement => 6i64,
            ItemSubclassConsumable::Bandage => 7i64,
            ItemSubclassConsumable::ConsumableOther => 8i64,
        }
    }

    /// The number that stands for this value.
    pub fn value(self) -> (r: i64)
        ensures
            r == self.spec_value(),
    {
        match self {
            ItemSubclassConsumable::Consumable => 0i64,
            ItemSubclassConsumable::Potion => 1i64,
            ItemSubclassConsumable::Elixir => 2i64,
            ItemSubclassConsumable::Flask => 3i64,
            ItemSubclassConsumable::Scroll => 4i64,
            ItemSubclassConsumable::Food => 5i64,
            ItemSubclassConsumable::ItemEnhancement => 6i64,
            ItemSubclassConsumable::Bandage => 7i64,
            ItemSubclassConsumable::ConsumableOther => 8i64,
        }
    }

    /// The value that `v` stands for, if any.
    pub fn n(v: i64) -> (r: Option<Self>)
        ensures
            r matches Some(e) ==> e.spec_value() == v,
            r is None ==> forall|e: Self| e.spec_value() != v,
    {
        match v {
            0i64 => Some(ItemSubclassConsumable::Consumable),
            1i64 => Some(ItemSubclassConsumable::Potion),
            2i64 => Some(ItemSubclassConsumable::Elixir),
            3i64 => Some(ItemSubclassConsumable::Flask),
            4i64 => Some(ItemSubclassConsumable::Scroll),
            5i64 => Some(ItemSubclassConsumable::Food),
            6i64 => Some(ItemSubclassConsumable::ItemEnhancement),
            7i64 => Some(ItemSubclassConsumable::Bandage),
            8i64 => Some(ItemSubclassConsumable::ConsumableOther),
            _ => None,
        }
    }

    /// Distinct values stand for distinct numbers, so reading back the number of
    /// a value gives that value.
    pub proof fn lemma_value_injective(a: Self, b: Self)
        ensures
            a.spec_value() == b.spec_value() ==> a == b,
    {
        match a {
            ItemSubclassConsumable::Consumable => {},
            ItemSubclassConsumable::Potion => {},
            ItemSubclassConsumable::Elixir => {},
            ItemSubclassConsumable::Flask => {},
            ItemSubclassConsumable::Scroll => {},
            ItemSubclassConsumable::Food => {},
            ItemSubclassConsumable::ItemEnhancement => {},
            ItemSubclassConsumable::Bandage => {},
            ItemSubclassConsumable::ConsumableOther => {},
        }
    }
}

#[derive(Clone, Copy, Debug, PartialEq, Eq, Structural)]
pub enum ItemSubclassContainer {
    Container,
    SoulContainer,
    HerbContainer,
    EnchantingContainer,
    EngineeringContainer,
    GemContainer,
    MiningContainer,
    LeatherworkingContainer,
}

impl ItemSubclassContainer {
    /// The number that stands for this value on the wire and in the database.
    pub open spec fn spec_value(self) -> i64 {
        match self {
            ItemSubclassContainer::Container => 0i64,
            ItemSubclassContainer::SoulContainer => 1i64,
            ItemSubclassContainer::HerbContainer => 2i64,
            ItemSubclassContainer::EnchantingContainer => 3i64,
            ItemSubclassContainer::EngineeringContainer => 4i64,
            ItemSubclassContainer::GemContainer => 5i64,
            ItemSubclassContainer::MiningContainer => 6i64,
            ItemSubclassContainer::LeatherworkingContainer => 7i64,
        }
    }

    /// The number that stands for this value.
    pub fn value(self) -> (r: i64)
        ensures
            r == self.spec_value(),
    {
        match self {
            ItemSubclassContainer::Container => 0i64,
            ItemSubclassContainer::SoulContainer => 1i64,
            ItemSubclassContainer::HerbContainer => 2i64,
            ItemSubclassContainer::EnchantingContainer => 3i64,
            ItemSubclassContainer::EngineeringContainer => 4i64,
            ItemSubclassContainer::GemContainer => 5i64,
            ItemSubclassContainer::MiningContainer => 6i64,
            ItemSubclassContainer::LeatherworkingContainer => 7i64,
        }
    }

    /// The value that `v` stands for, if any.
    pub fn n(v: i64) -> (r: Option<Self>)
        ensures
            r matches Some(e) ==> e.spec_value() == v,
            r is None ==> forall|e: Self| e.spec_value() != v,
    {
        match v {
            0i64 => Some(ItemSubclassContainer::Container),
            1i64 => Some(ItemSubclassContainer::SoulContainer),
            2i64 => Some(ItemSubclassContainer::HerbContainer),
            3i64 => Some(ItemSubclassContainer::EnchantingContainer),
            4i64 => Some(ItemSubclassContainer::EngineeringContainer),
            5i64 => Some(ItemSubclassContainer::GemContainer),
            6i64 => Some(ItemSubclassContainer::MiningContainer),
            7i64 => Some(ItemSubclassContainer::LeatherworkingContainer),
            _ => None,
        }
    }

    /// Distinct values stand for distinct numbers, so reading back the number of
    /// a value gives that value.
    pub proof fn lemma_value_injective(a: Self, b: Self)
        ensures
            a.spec_value() == b.spec_value() ==> a == b,
    {
        match a {
            ItemSubclassContainer::Container => {},
            ItemSubclassContainer::SoulContainer => {},
            ItemSubclassContainer::HerbContainer => {},
            ItemSubclassContainer::EnchantingContainer => {},
            ItemSubclassContainer::EngineeringContainer => {},
            ItemSubclassContainer::GemContainer => {},
            ItemSubclassContainer::MiningContainer => {},
            ItemSubclassContainer::LeatherworkingContainer => {},
        }
    }
}

#[derive(Clone, Copy, Debug, PartialEq, Eq, Structural)]
pub enum ItemSubclassWeapon {
    Axe,
    Axe2,
    Bow,
    Gun,
    Mace,
    Mace2,
    Polearm,
    Sword,
    Sword2,
    Obsolete,
    Staff,
    Exotic,
    Exotic2,
    Fist,
    Misc,
    Dagger,
    Thrown,
    Spear,
    Crossbow,
    Wand,
    FishingPole,
}

impl ItemSubclassWeapon {
    /// The number that stands for this value on the wire and in the database.
    pub open spec fn spec_value(self) -> i64 {
        match self {
            ItemSubclassWeapon::Axe => 0i64,
            ItemSubclassWeapon::Axe2 => 1i64,
            ItemSubclassWeapon::Bow => 2i64,
            ItemSubclassWeapon::Gun => 3i64,
            ItemSubclassWeapon::Mace => 4i64,
            ItemSubclassWeapon::Mace2 => 5i64,
            ItemSubclassWeapon::Polearm => 6i64,
            ItemSubclassWeapon::Sword => 7i64,
            ItemSubclassWeapon::Sword2 => 8i64,
            ItemSubclassWeapon::Obsolete => 9i64,
            ItemSubclassWeapon::Staff => 10i64,
            ItemSubclassWeapon::Exotic => 11i64,
            ItemSubclassWeapon::Exotic2 => 12i64,
            ItemSubclassWeapon::Fist => 13i64,
            ItemSubclassWeapon::Misc => 14i64,
            ItemSubclassWeapon::Dagger => 15i64,
            ItemSubclassWeapon::Thrown => 16i64,
            ItemSubclassWeapon::Spear => 17i64,
            ItemSubclassWeapon::Crossbow => 18i64,
            ItemSubclassWeapon::Wand => 19i64,
            ItemSubclassWeapon::FishingPole => 20i64,
        }
    }

    /// The number that stands for this value.
    pub fn value(self) -> (r: i64)
        ensures
            r == self.spec_value(),
    {
        match self {
            ItemSubclassWeapon::Axe => 0i64,
            ItemSubclassWeapon::Axe2 => 1i64,
            ItemSubclassWeapon::Bow => 2i64,
            ItemSubclassWeapon::Gun => 3i64,
            ItemSubclassWeapon::Mace => 4i64,
            ItemSubclassWeapon::Mace2 => 5i64,
            ItemSubclassWeapon::Polearm => 6i64,
            ItemSubclassWeapon::Sword => 7i64,
            ItemSubclassWeapon::Sword2 => 8i64,
            ItemSubclassWeapon::Obsolete => 9i64,
            ItemSubclassWeapon::Staff => 10i64,
            ItemSubclassWeapon::Exotic => 11i64,
            ItemSubclassWeapon::Exotic2 => 12i64,
            ItemSubclassWeapon::Fist => 13i64,
            ItemSubclassWeapon::Misc => 14i64,
            ItemSubclassWeapon::Dagger => 15i64,
            ItemSubclassWeapon::Thrown => 16i64,
            ItemSubclassWeapon::Spear => 17i64,
            ItemSubclassWeapon::Crossbow => 18i64,
            ItemSubclassWeapon::Wand => 19i64,
            ItemSubclassWeapon::FishingPole => 20i64,
        }
    }

    /// The value that `v` stands for, if any.
    pub fn n(v: i64) -> (r: Option<Self>)
        ensures
            r matches Some(e) ==> e.spec_value() == v,
            r is None ==> forall|e: Self| e.spec_value() != v,
    {
        match v {
            0i64 => Some(ItemSubclassWeapon::Axe),
            1i64 => Some(ItemSubclassWeapon::Axe2),
            2i64 => Some(ItemSubclassWeapon::Bow),
            3i64 => Some(ItemSubclassWeapon::Gun),
            4i64 => Some(ItemSubclassWeapon::Mace),
            5i64 => Some(ItemSubclassWeapon::Mace2),
            6i64 => Some(ItemSubclassWeapon::Polearm),
            7i64 => Some(ItemSubclassWeapon::Sword),
            8i64 => Some(ItemSubclassWeapon::Sword2),
            9i64 => Some(ItemSubclassWeapon::Obsolete),
            10i64 => Some(ItemSubclassWeapon::Staff),
            11i64 => Some(ItemSubclassWeapon::Exotic),
            12i64 => Some(ItemSubclassWeapon::Exotic2),
            13i64 => Some(ItemSubclassWeapon::Fist),
            14i64 => Some(ItemSubclassWeapon::Misc),
            15i64 => Some(ItemSubclassWeapon::Dagger),
            16i64 => Some(ItemSubclassWeapon::Thrown),
            17i64 => Some(ItemSubclassWeapon::Spear),
            18i64 => Some(ItemSubclassWeapon::Crossbow),
            19i64 => Some(ItemSubclassWeapon::Wand),
            20i64 => Some(ItemSubclassWeapon::FishingPole),
            _ => None,
        }
    }

    /// Distinct values stand for distinct numbers, so reading back the number of
    /// a value gives that value.
    pub proof fn lemma_value_injective(a: Self, b: Self)
        ensures
            a.spec_value() == b.spec_value() ==> a == b,
    {
        match a {
            ItemSubclassWeapon::Axe => {},
            ItemSubclassWeapon::Axe2 => {},
            ItemSubclassWeapon::Bow => {},
            ItemSubclassWeapon::Gun => {},
            ItemSubclassWeapon::Mace => {},
            ItemSubclassWeapon::Mace2 => {},
            ItemSubclassWeapon::Polearm => {},
            ItemSubclassWeapon::Sword => {},
            ItemSubclassWeapon::Sword2 => {},
            ItemSubclassWeapon::Obsolete => {},
            ItemSubclassWeapon::Staff => {},
            ItemSubclassWeapon::Exotic => {},
            ItemSubclassWeapon::Exotic2 => {},
            ItemSubclassWeapon::Fist => {},
            ItemSubclassWeapon::Misc => {},
            ItemSubclassWeapon::Dagger => {},
            ItemSubclassWeapon::Thrown => {},
            ItemSubclassWeapon::Spear => {},
            ItemSubclassWeapon::Crossbow => {},
            ItemSubclassWeapon::Wand => {},
            ItemSubclassWeapon::FishingPole => {},
        }
    }
}

#[derive(Clone, Copy, Debug, PartialEq, Eq, Structural)]
pub enum ItemSubclassGem {
    Red,
    Blue,
    Yellow,
    Purple,
    Green,
    Orange,
    Meta,
    Simple,
    Prismatic,
}

impl ItemSubclassGem {
    /// The number that stands for this value on the wire and in the database.
    pub open spec fn spec_value(self) -> i64 {
        match self {
            ItemSubclassGem::Red => 0i64,
            ItemSubclassGem::Blue => 1i64,
            ItemSubclassGem::Yellow => 2i64,
            ItemSubclassGem::Purple => 3i64,
            ItemSubclassGem::Green => 4i64,
            ItemSubclassGem::Orange => 5i64,
            ItemSubclassGem::Meta => 6i64,
            ItemSubclassGem::Simple => 7i64,
            ItemSubclassGem::Prismatic => 8i64,
        }
    }

    /// The number that stands for this value.
    pub fn value(self) -> (r: i64)
        ensures
            r == self.spec_value(),
    {
        match self {
            ItemSubclassGem::Red => 0i64,
            ItemSubclassGem::Blue => 1i64,
            ItemSubclassGem::Yellow => 2i64,
            ItemSubclassGem::Purple => 3i64,
            ItemSubclassGem::Green => 4i64,
            ItemSubclassGem::Orange => 5i64,
            ItemSubclassGem::Meta => 6i64,
            ItemSubclassGem::Simple => 7i64,
            ItemSubclassGem::Prismatic => 8i64,
        }
    }

    /// The value that `v` stands for, if any.
    pub fn n(v: i64) -> (r: Option<Self>)
        ensures
            r matches Some(e) ==> e.spec_value() == v,
            r is None ==> forall|e: Self| e.spec_value() != v,
    {
        match v {
            0i64 => Some(ItemSubclassGem::Red),
            1i64 => Some(ItemSubclassGem::Blue),
            2i64 => Some(ItemSubclassGem::Yellow),
            3i64 => Some(ItemSubclassGem::Purple),
            4i64 => Some(ItemSubclassGem::Green),
            5i64 => Some(ItemSubclassGem::Orange),
            6i64 => Some(ItemSubclassGem::Meta),
            7i64 => Some(ItemSubclassGem::Simple),
            8i64 => Some(ItemSubclassGem::Prismatic),
            _ => None,
        }
    }

    /// Distinct values stand for distinct numbers, so reading back the number of
    /// a value gives that value.
    pub proof fn lemma_value_injective(a: Self, b: Self)
        ensures
            a.spec_value() == b.spec_value() ==> a == b,
    {
        match a {
            ItemSubclassGem::Red => {},
            ItemSubclassGem::Blue => {},
            ItemSubclassGem::Yellow => {},
            ItemSubclassGem::Purple => {},
            ItemSubclassGem::Green => {},
            ItemSubclassGem::Orange => {},
            ItemSubclassGem::Meta => {},
            ItemSubclassGem::Simple => {},
            ItemSubclassGem::Prismatic => {},
        }
    }
}

#[derive(Clone, Copy, Debug, PartialEq, Eq, Structural)]
pub enum ItemSubclassArmor {
    Misc,
    Cloth,
    Leather,
    Mail,
    Plate,
    Buckler,
    Shield,
    Libram,
    Idol,
    Totem,
}

impl ItemSubclassArmor {
    /// The number that stands for this value on the wire and in the database.
    pub open spec fn spec_value(self) -> i64 {
        match self {
            ItemSubclassArmor::Misc => 0i64,
            ItemSubclassArmor::Cloth => 1i64,
            ItemSubclassArmor::Leather => 2i64,
            ItemSubclassArmor::Mail => 3i64,
            ItemSubclassArmor::Plate => 4i64,
            ItemSubclassArmor::Buckler => 5i64,
            ItemSubclassArmor::Shield => 6i64,
            ItemSubclassArmor::Libram => 7i64,
            ItemSubclassArmor::Idol => 8i64,
            ItemSubclassArmor::Totem => 9i64,
        }
    }

    /// The number that stands for this value.
    pub fn value(self) -> (r: i64)
        ensures
            r == self.spec_value(),
    {
        match self {
            ItemSubclassArmor::Misc => 0i64,
            ItemSubclassArmor::Cloth => 1i64,
            ItemSubclassArmor::Leather => 2i64,
            ItemSubclassArmor::Mail => 3i64,
            ItemSubclassArmor::Plate => 4i64,
            ItemSubclassArmor::Buckler => 5i64,
            ItemSubclassArmor::Shield => 6i64,
            ItemSubclassArmor::Libram => 7i64,
            ItemSubclassArmor::Idol => 8i64,
            ItemSubclassArmor::Totem => 9i64,
        }
    }

    /// The value that `v` stands for, if any.
    pub fn n(v: i64) -> (r: Option<Self>)
        ensures
            r matches Some(e) ==> e.spec_value() == v,
            r is None ==> forall|e: Self| e.spec_value() != v,
    {
        match v {
            0i64 => Some(ItemSubclassArmor::Misc),
            1i64 => Some(ItemSubclassArmor::Cloth),
            2i64 => Some(ItemSubclassArmor::Leather),
            3i64 => Some(ItemSubclassArmor::Mail),
            4i64 => Some(ItemSubclassArmor::Plate),
            5i64 => Some(ItemSubclassArmor::Buckler),
            6i64 => Some(ItemSubclassArmor::Shield),
            7i64 => Some(ItemSubclassArmor::Libram),
            8i64 => Some(ItemSubclassArmor::Idol),
            9i64 => Some(ItemSubclassArmor::Totem),
            _ => None,
        }
    }

    /// Distinct values stand for distinct numbers, so reading back the number of
    /// a value gives that value.
    pub proof fn lemma_value_injective(a: Self, b: Self)
        ensures
            a.spec_value() == b.spec_value() ==> a == b,
    {
        match a {
            ItemSubclassArmor::Misc => {},
            ItemSubclassArmor::Cloth => {},
            ItemSubclassArmor::Leather => {},
            ItemSubclassArmor::Mail => {},
            ItemSubclassArmor::Plate => {},
            ItemSubclassArmor::Buckler => {},
            ItemSubclassArmor::Shield => {},
            ItemSubclassArmor::Libram => {},
            ItemSubclassArmor::Idol => {},
            ItemSubclassArmor::Totem => {},
        }
    }
}

#[derive(Clone, Copy, Debug, PartialEq, Eq, Structural)]
pub enum ItemSubclassReagent {
    Reagent,
}

impl ItemSubclassReagent {
    /// The number that stands for this value on the wire and in the database.
    pub open spec fn spec_value(self) -> i64 {
        match self {
            ItemSubclassReagent::Reagent => 0i64,
        }
    }

    /// The number that stands for this value.
    pub fn value(self) -> (r: i64)
        ensures
            r == self.spec_value(),
    {
        match self {
            ItemSubclassReagent::Reagent => 0i64,
        }
    }

    /// The value that `v` stands for, if any.
    pub fn n(v: i64) -> (r: Option<Self>)
        ensures
            r matches Some(e) ==> e.spec_value() == v,
            r is None ==> forall|e: Self| e.spec_value() != v,
    {
        match v {
            0i64 => Some(ItemSubclassReagent::Reagent),
            _ => None,
        }
    }

    /// Distinct values stand for distinct numbers, so reading back the number of
    /// a value gives that value.
    pub proof fn lemma_value_injective(a: Self, b: Self)
        ensures
            a.spec_value() == b.spec_value() ==> a == b,
    {
        match a {
            ItemSubclassReagent::Reagent => {},
        }
    }
}

#[derive(Clone, Copy, Debug, PartialEq, Eq, Structural)]
pub enum ItemSubclassProjectile {
    Wand,
    Bolt,
    Arrow,
    Bullet,
    Thrown,
}

impl ItemSubclassProjectile {
    /// The number that stands for this value on the wire and in the database.
    pub open spec fn spec_value(self) -> i64 {
        match self {
            ItemSubclassProjectile::Wand => 0i64,
            ItemSubclassProjectile::Bolt => 1i64,
            ItemSubclassProjectile::Arrow => 2i64,
            ItemSubclassProjectile::Bullet => 3i64,
            ItemSubclassProjectile::Thrown => 4i64,
        }
    }

    /// The number that stands for this value.
    pub fn value(self) -> (r: i64)
        ensures
            r == self.spec_value(),
    {
        match self {
            ItemSubclassProjectile::Wand => 0i64,
            ItemSubclassProjectile::Bolt => 1i64,
            ItemSubclassProjectile::Arrow => 2i64,
            ItemSubclassProjectile::Bullet => 3i64,
            ItemSubclassProjectile::Thrown => 4i64,
        }
    }

    /// The value that `v` stands for, if any.
    pub fn n(v: i64) -> (r: Option<Self>)
        ensures
            r matches Some(e) ==> e.spec_value() == v,
            r is None ==> forall|e: Self| e.spec_value() != v,
    {
        match v {
            0i64 => Some(ItemSubclassProjectile::Wand),
            1i64 => Some(ItemSubclassProjectile::Bolt),
            2i64 => Some(ItemSubclassProjectile::Arrow),
            3i64 => Some(ItemSubclassProjectile::Bullet),
            4i64 => Some(ItemSubclassProjectile::Thrown),
            _ => None,
        }
    }

    /// Distinct values stand for distinct numbers, so reading back the number of
    /// a value gives that value.
    pub proof fn lemma_value_injective(a: Self, b: Self)
        ensures
            a.spec_value() == b.spec_value() ==> a == b,
    {
        match a {
            ItemSubclassProjectile::Wand => {},
            ItemSubclassProjectile::Bolt => {},
            ItemSubclassProjectile::Arrow => {},
            ItemSubclassProjectile::Bullet => {},
            ItemSubclassProjectile::Thrown => {},
        }
    }
}

#[derive(Clone, Copy, Debug, PartialEq, Eq, Structural)]
pub enum ItemSubclassTradeGoods {
    TradeGoods,
    Parts,
    Explosives,
    Devices,
    Jewelcrafting,
    Cloth,
    Leather,
    MetalStone,
    Meat,
    Herb,
    Elemental,
    TradeGoodsOther,
    Enchanting,
    Material,
}

impl ItemSubclassTradeGoods {
    /// The number that stands for this value on the wire and in the database.
    pub open spec fn spec_value(self) -> i64 {
        match self {
            ItemSubclassTradeGoods::TradeGoods => 0i64,
            ItemSubclassTradeGoods::Parts => 1i64,
            ItemSubclassTradeGoods::Explosives => 2i64,
            ItemSubclassTradeGoods::Devices => 3i64,
            ItemSubclassTradeGoods::Jewelcrafting => 4i64,
            ItemSubclassTradeGoods::Cloth => 5i64,
            ItemSubclassTradeGoods::Leather => 6i64,
            ItemSubclassTradeGoods::MetalStone => 7i64,
            ItemSubclassTradeGoods::Meat => 8i64,
            ItemSubclassTradeGoods::Herb => 9i64,
            ItemSubclassTradeGoods::Elemental => 10i64,
            ItemSubclassTradeGoods::TradeGoodsOther => 11i64,
            ItemSubclassTradeGoods::Enchanting => 12i64,
            ItemSubclassTradeGoods::Material => 13i64,
        }
    }

    /// The number that stands for this value.
    pub fn value(self) -> (r: i64)
        ensures
            r == self.spec_value(),
    {
        match self {
            ItemSubclassTradeGoods::TradeGoods => 0i64,
            ItemSubclassTradeGoods::Parts => 1i64,
            ItemSubclassTradeGoods::Explosives => 2i64,
            ItemSubclassTradeGoods::Devices => 3i64,
            ItemSubclassTradeGoods::Jewelcrafting => 4i64,
            ItemSubclassTradeGoods::Cloth => 5i64,
            ItemSubclassTradeGoods::Leather => 6i64,
            ItemSubclassTradeGoods::MetalStone => 7i64,
            ItemSubclassTradeGoods::Meat => 8i64,
            ItemSubclassTradeGoods::Herb => 9i64,
            ItemSubclassTradeGoods::Elemental => 10i64,
            ItemSubclassTradeGoods::TradeGoodsOther => 11i64,
            ItemSubclassTradeGoods::Enchanting => 12i64,
            ItemSubclassTradeGoods::Material => 13i64,
        }
    }

    /// The value that `v` stands for, if any.
    pub fn n(v: i64) -> (r: Option<Self>)
        ensures
            r matches Some(e) ==> e.spec_value() == v,
            r is None ==> forall|e: Self| e.spec_value() != v,
    {
        match v {
            0i64 => Some(ItemSubclassTradeGoods::TradeGoods),
            1i64 => Some(ItemSubclassTradeGoods::Parts),
            2i64 => Some(ItemSubclassTradeGoods::Explosives),
            3i64 => Some(ItemSubclassTradeGoods::Devices),
            4i64 => Some(ItemSubclassTradeGoods::Jewelcrafting),
            5i64 => Some(ItemSubclassTradeGoods::Cloth),
            6i64 => Some(ItemSubclassTradeGoods::Leather),
            7i64 => Some(ItemSubclassTradeGoods::MetalStone),
            8i64 => Some(ItemSubclassTradeGoods::Meat),
            9i64 => Some(ItemSubclassTradeGoods::Herb),
            10i64 => Some(ItemSubclassTradeGoods::Elemental),
            11i64 => Some(ItemSubclassTradeGoods::TradeGoodsOther),
            12i64 => Some(ItemSubclassTradeGoods::Enchanting),
            13i64 => Some(ItemSubclassTradeGoods::Material),
            _ => None,
        }
    }

    /// Distinct values stand for distinct numbers, so reading back the number of
    /// a value gives that value.
    pub proof fn lemma_value_injective(a: Self, b: Self)
        ensures
            a.spec_value() == b.spec_value() ==> a == b,
    {
        match a {
            ItemSubclassTradeGoods::TradeGoods => {},
            ItemSubclassTradeGoods::Parts => {},
            ItemSubclassTradeGoods::Explosives => {},
            ItemSubclassTradeGoods::Devices => {},
            ItemSubclassTradeGoods::Jewelcrafting => {},
            ItemSubclassTradeGoods::Cloth => {},
            ItemSubclassTradeGoods::Leather => {},
            ItemSubclassTradeGoods::MetalStone => {},
            ItemSubclassTradeGoods::Meat => {},
            ItemSubclassTradeGoods::Herb => {},
            ItemSubclassTradeGoods::Elemental => {},
            ItemSubclassTradeGoods::TradeGoodsOther => {},
            ItemSubclassTradeGoods::Enchanting => {},
            ItemSubclassTradeGoods::Material => {},
        }
    }
}

#[derive(Clone, Copy, Debug, PartialEq, Eq, Structural)]
pub enum ItemSubclassGeneric {
    Generic,
}

impl ItemSubclassGeneric {
    /// The number that stands for this value on the wire and in the database.
    pub open spec fn spec_value(self) -> i64 {
        match self {
            ItemSubclassGeneric::Generic => 0i64,
        }
    }

    /// The number that stands for this value.
    pub fn value(self) -> (r: i64)
        ensures
            r == self.spec_value(),
    {
        match self {
            ItemSubclassGeneric::Generic => 0i64,
        }
    }

    /// The value that `v` stands for, if any.
    pub fn n(v: i64) -> (r: Option<Self>)
        ensures
            r matches Some(e) ==> e.spec_value() == v,
            r is None ==> forall|e: Self| e.spec_value() != v,
    {
        match v {
            0i64 => Some(ItemSubclassGeneric::Generic),
            _ => None,
        }
    }

    /// Distinct values stand for distinct numbers, so reading back the number of
    /// a value gives that value.
    pub proof fn lemma_value_injective(a: Self, b: Self)
        ensures
            a.spec_value() == b.spec_value() ==> a == b,
    {
        match a {
            ItemSubclassGeneric::Generic => {},
        }
    }
}

#[derive(Clone, Copy, Debug, PartialEq, Eq, Structural)]
pub enum ItemSubclassRecipe {
    Book,
    LeatherworkingPattern,
    TailoringPattern,
    EngineeringSchematic,
    Blacksmithing,
    CookingRecipe,
    AlchemyRecipe,
    FirstAidManual,
    EnchantingFormula,
    FishingManual,
    JewelcraftingRecipe,
}

impl ItemSubclassRecipe {
    /// The number that stands for this value on the wire and in the database.
    pub open spec fn spec_value(self) -> i64 {
        match self {
            ItemSubclassRecipe::Book => 0i64,
            ItemSubclassRecipe::LeatherworkingPattern => 1i64,
            ItemSubclassRecipe::TailoringPattern => 2i64,
            ItemSubclassRecipe::EngineeringSchematic => 3i64,
            ItemSubclassRecipe::Blacksmithing => 4i64,
            ItemSubclassRecipe::CookingRecipe => 5i64,
            ItemSubclassRecipe::AlchemyRecipe => 6i64,
            ItemSubclassRecipe::FirstAidManual => 7i64,
            ItemSubclassRecipe::EnchantingFormula => 8i64,
            ItemSubclassRecipe::FishingManual => 9i64,
            ItemSubclassRecipe::JewelcraftingRecipe => 10i64,
        }
    }

    /// The number that stands for this value.
    pub fn value(self) -> (r: i64)
        ensures
            r == self.spec_value(),
    {
        match self {
            ItemSubclassRecipe::Book => 0i64,
            ItemSubclassRecipe::LeatherworkingPattern => 1i64,
            ItemSubclassRecipe::TailoringPattern => 2i64,
            ItemSubclassRecipe::EngineeringSchematic => 3i64,
            ItemSubclassRecipe::Blacksmithing => 4i64,
            ItemSubclassRecipe::CookingRecipe => 5i64,
            ItemSubclassRecipe::AlchemyRecipe => 6i64,
            ItemSubclassRecipe::FirstAidManual => 7i64,
            ItemSubclassRecipe::EnchantingFormula => 8i64,
            ItemSubclassRecipe::FishingManual => 9i64,
            ItemSubclassRecipe::JewelcraftingRecipe => 10i64,
        }
    }

    /// The value that `v` stands for, if any.
    pub fn n(v: i64) -> (r: Option<Self>)
        ensures
            r matches Some(e) ==> e.spec_value() == v,
            r is None ==> forall|e: Self| e.spec_value() != v,
    {
        match v {
            0i64 => Some(ItemSubclassRecipe::Book),
            1i64 => Some(ItemSubclassRecipe::LeatherworkingPattern),
            2i64 => Some(ItemSubclassRecipe::TailoringPattern),
            3i64 => Some(ItemSubclassRecipe::EngineeringSchematic),
            4i64 => Some(ItemSubclassRecipe::Blacksmithing),
            5i64 => Some(ItemSubclassRecipe::CookingRecipe),
            6i64 => Some(ItemSubclassRecipe::AlchemyRecipe),
            7i64 => Some(ItemSubclassRecipe::FirstAidManual),
            8i64 => Some(ItemSubclassRecipe::EnchantingFormula),
            9i64 => Some(ItemSubclassRecipe::FishingManual),
            10i64 => Some(ItemSubclassRecipe::JewelcraftingRecipe),
            _ => None,
        }
    }

    /// Distinct values stand for distinct numbers, so reading back the number of
    /// a value gives that value.
    pub proof fn lemma_value_injective(a: Self, b: Self)
        ensures
            a.spec_value() == b.spec_value() ==> a == b,
    {
        match a {
            ItemSubclassRecipe::Book => {},
            ItemSubclassRecipe::LeatherworkingPattern => {},
            ItemSubclassRecipe::TailoringPattern => {},
            ItemSubclassRecipe::EngineeringSchematic => {},
            ItemSubclassRecipe::Blacksmithing => {},
            ItemSubclassRecipe::CookingRecipe => {},
            ItemSubclassRecipe::AlchemyRecipe => {},
            ItemSubclassRecipe::FirstAidManual => {},
            ItemSubclassRecipe::EnchantingFormula => {},
            ItemSubclassRecipe::FishingManual => {},
            ItemSubclassRecipe::JewelcraftingRecipe => {},
        }
    }
}

#[derive(Clone, Copy, Debug, PartialEq, Eq, Structural)]
pub enum ItemSubclassMoney {
    Money,
}

impl ItemSubclassMoney {
    /// The number that stands for this value on the wire and in the database.
    pub open spec fn spec_value(self) -> i64 {
        match self {
            ItemSubclassMoney::Money => 0i64,
        }
    }

    /// The number that stands for this value.
    pub fn value(self) -> (r: i64)
        ensures
            r == self.spec_value(),
    {
        match self {
            ItemSubclassMoney::Money => 0i64,
        }
    }

    /// The value that `v` stands for, if any.
    pub fn n(v: i64) -> (r: Option<Self>)
        ensures
            r matches Some(e) ==> e.spec_value() == v,
            r is None ==> forall|e: Self| e.spec_value() != v,
    {
        match v {
            0i64 => Some(ItemSubclassMoney::Money),
            _ => None,
        }
    }

    /// Distinct values stand for distinct numbers, so reading back the number of
    /// a value gives that value.
    pub proof fn lemma_value_injective(a: Self, b: Self)
        ensures
            a.spec_value() == b.spec_value() ==> a == b,
    {
        match a {
            ItemSubclassMoney::Money => {},
        }
    }
}

#[derive(Clone, Copy, Debug, PartialEq, Eq, Structural)]
pub enum ItemSubclassQuiver {
    Quiver0,
    Quiver1,
    Quiver,
    AmmoPouch,
}

impl ItemSubclassQuiver {
    /// The number that stands for this value on the wire and in the database.
    pub open spec fn spec_value(self) -> i64 {
        match self {
            ItemSubclassQuiver::Quiver0 => 0i64,
            ItemSubclassQuiver::Quiver1 => 1i64,
            ItemSubclassQuiver::Quiver => 2i64,
            ItemSubclassQuiver::AmmoPouch => 3i64,
        }
    }

    /// The number that stands for this value.
    pub fn value(self) -> (r: i64)
        ensures
            r == self.spec_value(),
    {
        match self {
            ItemSubclassQuiver::Quiver0 => 0i64,
            ItemSubclassQuiver::Quiver1 => 1i64,
            ItemSubclassQuiver::Quiver => 2i64,
            ItemSubclassQuiver::AmmoPouch => 3i64,
        }
    }

    /// The value that `v` stands for, if any.
    pub fn n(v: i64) -> (r: Option<Self>)
        ensures
            r matches Some(e) ==> e.spec_value() == v,
            r is None ==> forall|e: Self| e.spec_value() != v,
    {
        match v {
            0i64 => Some(ItemSubclassQuiver::Quiver0),
            1i64 => Some(ItemSubclassQuiver::Quiver1),
            2i64 => Some(ItemSubclassQuiver::Quiver),
            3i64 => Some(ItemSubclassQuiver::AmmoPouch),
            _ => None,
        }
    }

    /// Distinct values stand for distinct numbers, so reading back the number of
    /// a value gives that value.
    pub proof fn lemma_value_injective(a: Self, b: Self)
        ensures
            a.spec_value() == b.spec_value() ==> a == b,
    {
        match a {
            ItemSubclassQuiver::Quiver0 => {},
            ItemSubclassQuiver::Quiver1 => {},
            ItemSubclassQuiver::Quiver => {},
            ItemSubclassQuiver::AmmoPouch => {},
        }
    }
}

#[derive(Clone, Copy, Debug, PartialEq, Eq, Structural)]
pub enum ItemSubclassQuest {
    Quest,
}

impl ItemSubclassQuest {
    /// The number that stands for this value on the wire and in the database.
    pub open spec fn spec_value(self) -> i64 {
        match self {
            ItemSubclassQuest::Quest => 0i64,
        }
    }

    /// The number that stands for this value.
    pub fn value(self) -> (r: i64)
        ensures
            r == self.spec_value(),
    {
        match self {
            ItemSubclassQuest::Quest => 0i64,
        }
    }

    /// The value that `v` stands for, if any.
    pub fn n(v: i64) -> (r: Option<Self>)
        ensures
            r matches Some(e) ==> e.spec_value() == v,
            r is None ==> forall|e: Self| e.spec_value() != v,
    {
        match v {
            0i64 => Some(ItemSubclassQuest::Quest),
            _ => None,
        }
    }

    /// Distinct values stand for distinct numbers, so reading back the number of
    /// a value gives that value.
    pub proof fn lemma_value_injective(a: Self, b: Self)
        ensures
            a.spec_value() == b.spec_value() ==> a == b,
    {
        match a {
            ItemSubclassQuest::Quest => {},
        }
    }
}

#[derive(Clone, Copy, Debug, PartialEq, Eq, Structural)]
pub enum ItemSubclassKey {
    Key,
    Lockpick,
}

impl ItemSubclassKey {
    /// The number that stands for this value on the wire and in the database.
    pub open spec fn spec_value(self) -> i64 {
        match self {
            ItemSubclassKey::Key => 0i64,
            ItemSubclassKey::Lockpick => 1i64,
        }
    }

    /// The number that stands for this value.
    pub fn value(self) -> (r: i64)
        ensures
            r == self.spec_value(),
    {
        match self {
            ItemSubclassKey::Key => 0i64,
            ItemSubclassKey::Lockpick => 1i64,
        }
    }

    /// The value that `v` stands for, if any.
    pub fn n(v: i64) -> (r: Option<Self>)
        ensures
            r matches Some(e) ==> e.spec_value() == v,
            r is None ==> forall|e: Self| e.spec_value() != v,
    {
        match v {
            0i64 => Some(ItemSubclassKey::Key),
            1i64 => Some(ItemSubclassKey::Lockpick),
            _ => None,
        }
    }

    /// Distinct values stand for distinct numbers, so reading back the number of
    /// a value gives that value.
    pub proof fn lemma_value_injective(a: Self, b: Self)
        ensures
            a.spec_value() == b.spec_value() ==> a == b,
    {
        match a {
            ItemSubclassKey::Key => {},
            ItemSubclassKey::Lockpick => {},
        }
    }
}

#[derive(Clone, Copy, Debug, PartialEq, Eq, Structural)]
pub enum ItemSubclassPermanent {
    Permanent,
}

impl ItemSubclassPermanent {
    /// The number that stands for this value on the wire and in the database.
    pub open spec fn spec_value(self) -> i64 {
        match self {
            ItemSubclassPermanent::Permanent => 0i64,
        }
    }

    /// The number that stands for this value.
    pub fn value(self) -> (r: i64)
        ensures
            r == self.spec_value(),
    {
        match self {
            ItemSubclassPermanent::Permanent => 0i64,
        }
    }

    /// The value that `v` stands for, if any.
    pub fn n(v: i64) -> (r: Option<Self>)
        ensures
            r matches Some(e) ==> e.spec_value() == v,
            r is None ==> forall|e: Self| e.spec_value() != v,
    {
        match v {
            0i64 => Some(ItemSubclassPermanent::Permanent),
            _ => None,
        }
    }

    /// Distinct values stand for distinct numbers, so reading back the number of
    /// a value gives that value.
    pub proof fn lemma_value_injective(a: Self, b: Self)
        ensures
            a.spec_value() == b.spec_value() ==> a == b,
    {
        match a {
            ItemSubclassPermanent::Permanent => {},
        }
    }
}

#[derive(Clone, Copy, Debug, PartialEq, Eq, Structural)]
pub enum ItemSubclassJunk {
    Junk,
    JunkReagent,
    JunkPet,
    JunkHoliday,
    JunkOther,
    JunkMount,
}

impl ItemSubclassJunk {
    /// The number that stands for this value on the wire and in the database.
    pub open spec fn spec_value(self) -> i64 {
        match self {
            ItemSubclassJunk::Junk => 0i64,
            ItemSubclassJunk::JunkReagent => 1i64,
            ItemSubclassJunk::JunkPet => 2i64,
            ItemSubclassJunk::JunkHoliday => 3i64,
            ItemSubclassJunk::JunkOther => 4i64,
            ItemSubclassJunk::JunkMount => 5i64,
        }
    }

    /// The number that stands for this value.
    pub fn value(self) -> (r: i64)
        ensures
            r == self.spec_value(),
    {
        match self {
            ItemSubclassJunk::Junk => 0i64,
            ItemSubclassJunk::JunkReagent => 1i64,
            ItemSubclassJunk::JunkPet => 2i64,
            ItemSubclassJunk::JunkHoliday => 3i64,
            ItemSubclassJunk::JunkOther => 4i64,
            ItemSubclassJunk::JunkMount => 5i64,
        }
    }

    /// The value that `v` stands for, if any.
    pub fn n(v: i64) -> (r: Option<Self>)
        ensures
            r matches Some(e) ==> e.spec_value() == v,
            r is None ==> forall|e: Self| e.spec_value() != v,
    {
        match v {
            0i64 => Some(ItemSubclassJunk::Junk),
            1i64 => Some(ItemSubclassJunk::JunkReagent),
            2i64 => Some(ItemSubclassJunk::JunkPet),
            3i64 => Some(ItemSubclassJunk::JunkHoliday),
            4i64 => Some(ItemSubclassJunk::JunkOther),
            5i64 => Some(ItemSubclassJunk::JunkMount),
            _ => None,
        }
    }

    /// Distinct values stand for distinct numbers, so reading back the number of
    /// a value gives that value.
    pub proof fn lemma_value_injective(a: Self, b: Self)
        ensures
            a.spec_value() == b.spec_value() ==> a == b,
    {
        match a {
            ItemSubclassJunk::Junk => {},
            ItemSubclassJunk::JunkReagent => {},
            ItemSubclassJunk::JunkPet => {},
            ItemSubclassJunk::JunkHoliday => {},
            ItemSubclassJunk::JunkOther => {},
            ItemSubclassJunk::JunkMount => {},
        }
    }
}

#[derive(Clone, Copy, Debug, PartialEq, Eq, Structural)]
pub enum InventoryResult {
    Okay,
    CantEquipLevelI,
    CantEquipSkill,
    ItemDoesntGoToSlot,
    BagFull,
    NonemptyBagOverOtherBag,
    CantTradeEquipBags,
    OnlyAmmoCanGoHere,
    NoRequiredProficiency,
    NoEquipmentSlotAvailable,
    YouCanNeverUseThatItem,
    YouCanNeverUseThatItem2,
    NoEquipmentSlotAvailable2,
    CantEquipWithTwohanded,
    CantDualWield,
    ItemDoesntGoIntoBag,
    ItemDoesntGoIntoBag2,
    CantCarryMoreOfThis,
    NoEquipmentSlotAvailable3,
    ItemCantStack,
    ItemCantBeEquipped,
    ItemsCantBeSwapped,
    SlotIsEmpty,
    ItemNotFound,
    CantDropSoulbound,
    OutOfRange,
    TriedToSplitMoreThanCount,
    CouldntSplitItems,
    MissingReagent,
    NotEnoughMoney,
    NotABag,
    CanOnlyDoWithEmptyBags,
    DontOwnThatItem,
    CanEquipOnly1Quiver,
    MustPurchaseThatBagSlot,
    TooFarAwayFromBank,
    ItemLocked,
    YouAreStunned,
    YouAreDead,
    CantDoRightNow,
    IntBagError,
    CanEquipOnly1Bolt,
    CanEquipOnly1Ammopouch,
    StackableCantBeWrapped,
    EquippedCantBeWrapped,
    WrappedCantBeWrapped,
    BoundCantBeWrapped,
    UniqueCantBeWrapped,
    BagsCantBeWrapped,
    AlreadyLooted,
    InventoryFull,
    BankFull,
    ItemIsCurrentlySoldOut,
    BagFull3,
    ItemNotFound2,
    ItemCantStack2,
    BagFull4,
    ItemSoldOut,
    ObjectIsBusy,
    Nil,
    NotInCombat,
    NotWhileDisarmed,
    BagFull6,
    CantEquipRank,
    CantEquipReputation,
    TooManySpecialBags,
    LootCantLootThatNow,
    ItemUniqueEquipable,
    VendorMissingTurnins,
    NotEnoughHonorPoints,
    NotEnoughArenaPoints,
    ItemMaxCountSocketed,
    MailBoundItem,
    NoSplitWhileProspecting,
    BagFull7,
    ItemMaxCountEquippedSocketed,
    ItemUniqueEquippableSocketed,
    TooMuchGold,
    NotDuringArenaMatch,
    CannotTradeThat,
    PersonalArenaRatingTooLow,
}

impl InventoryResult {
    /// The number that stands for this value on the wire and in the database.
    pub open spec fn spec_value(self) -> i64 {
        match self {
            InventoryResult::Okay => 0i64,
            InventoryResult::CantEquipLevelI => 1i64,
            InventoryResult::CantEquipSkill => 2i64,
            InventoryResult::ItemDoesntGoToSlot => 3i64,
            InventoryResult::BagFull => 4i64,
            InventoryResult::NonemptyBagOverOtherBag => 5i64,
            InventoryResult::CantTradeEquipBags => 6i64,
            InventoryResult::OnlyAmmoCanGoHere => 7i64,
            InventoryResult::NoRequiredProficiency => 8i64,
            InventoryResult::NoEquipmentSlotAvailable => 9i64,
            InventoryResult::YouCanNeverUseThatItem => 10i64,
            InventoryResult::YouCanNeverUseThatItem2 => 11i64,
            InventoryResult::NoEquipmentSlotAvailable2 => 12i64,
            InventoryResult::CantEquipWithTwohanded => 13i64,
            InventoryResult::CantDualWield => 14i64,
            InventoryResult::ItemDoesntGoIntoBag => 15i64,
            InventoryResult::ItemDoesntGoIntoBag2 => 16i64,
            InventoryResult::CantCarryMoreOfThis => 17i64,
            InventoryResult::NoEquipmentSlotAvailable3 => 18i64,
            InventoryResult::ItemCantStack => 19i64,
            InventoryResult::ItemCantBeEquipped => 20i64,
            InventoryResult::ItemsCantBeSwapped => 21i64,
            InventoryResult::SlotIsEmpty => 22i64,
            InventoryResult::ItemNotFound => 23i64,
            InventoryResult::CantDropSoulbound => 24i64,
            InventoryResult::OutOfRange => 25i64,
            InventoryResult::TriedToSplitMoreThanCount => 26i64,
            InventoryResult::CouldntSplitItems => 27i64,
            InventoryResult::MissingReagent => 28i64,
            InventoryResult::NotEnoughMoney => 29i64,
            InventoryResult::NotABag => 30i64,
            InventoryResult::CanOnlyDoWithEmptyBags => 31i64,
            InventoryResult::DontOwnThatItem => 32i64,
            InventoryResult::CanEquipOnly1Quiver => 33i64,
            InventoryResult::MustPurchaseThatBagSlot => 34i64,
            InventoryResult::TooFarAwayFromBank => 35i64,
            InventoryResult::ItemLocked => 36i64,
            InventoryResult::YouAreStunned => 37i64,
            InventoryResult::YouAreDead => 38i64,
            InventoryResult::CantDoRightNow => 39i64,
            InventoryResult::IntBagError => 40i64,
            InventoryResult::CanEquipOnly1Bolt => 41i64,
            InventoryResult::CanEquipOnly1Ammopouch => 42i64,
            InventoryResult::StackableCantBeWrapped => 43i64,
            InventoryResult::EquippedCantBeWrapped => 44i64,
            InventoryResult::WrappedCantBeWrapped => 45i64,
            InventoryResult::BoundCantBeWrapped => 46i64,
            InventoryResult::UniqueCantBeWrapped => 47i64,
            InventoryResult::BagsCantBeWrapped => 48i64,
            InventoryResult::AlreadyLooted => 49i64,
            InventoryResult::InventoryFull => 50i64,
            InventoryResult::BankFull => 51i64,
            InventoryResult::ItemIsCurrentlySoldOut => 52i64,
            InventoryResult::BagFull3 => 53i64,
            InventoryResult::ItemNotFound2 => 54i64,
            InventoryResult::ItemCantStack2 => 55i64,
            InventoryResult::BagFull4 => 56i64,
            InventoryResult::ItemSoldOut => 57i64,
            InventoryResult::ObjectIsBusy => 58i64,
            InventoryResult::Nil => 59i64,
            InventoryResult::NotInCombat => 60i64,
            InventoryResult::NotWhileDisarmed => 61i64,
            InventoryResult::BagFull6 => 62i64,
            InventoryResult::CantEquipRank => 63i64,
            InventoryResult::CantEquipReputation => 64i64,
            InventoryResult::TooManySpecialBags => 65i64,
            InventoryResult::LootCantLootThatNow => 66i64,
            InventoryResult::ItemUniqueEquipable => 67i64,
            InventoryResult::VendorMissingTurnins => 68i64,
            InventoryResult::NotEnoughHonorPoints => 69i64,
            InventoryResult::NotEnoughArenaPoints => 70i64,
            InventoryResult::ItemMaxCountSocketed => 71i64,
            InventoryResult::MailBoundItem => 72i64,
            InventoryResult::NoSplitWhileProspecting => 73i64,
            InventoryResult::BagFull7 => 74i64,
            InventoryResult::ItemMaxCountEquippedSocketed => 75i64,
            InventoryResult::ItemUniqueEquippableSocketed => 76i64,
            InventoryResult::TooMuchGold => 77i64,
            InventoryResult::NotDuringArenaMatch => 78i64,
            InventoryResult::CannotTradeThat => 79i64,
            InventoryResult::PersonalArenaRatingTooLow => 80i64,
        }
    }

    /// The number that stands for this value.
    pub fn value(self) -> (r: i64)
        ensures
            r == self.spec_value(),
    {
        match self {
            InventoryResult::Okay => 0i64,
            InventoryResult::CantEquipLevelI => 1i64,
            InventoryResult::CantEquipSkill => 2i64,
            InventoryResult::ItemDoesntGoToSlot => 3i64,
            InventoryResult::BagFull => 4i64,
            InventoryResult::NonemptyBagOverOtherBag => 5i64,
            InventoryResult::CantTradeEquipBags => 6i64,
            InventoryResult::OnlyAmmoCanGoHere => 7i64,
            InventoryResult::NoRequiredProficiency => 8i64,
            InventoryResult::NoEquipmentSlotAvailable => 9i64,
            InventoryResult::YouCanNeverUseThatItem => 10i64,
            InventoryResult::YouCanNeverUseThatItem2 => 11i64,
            InventoryResult::NoEquipmentSlotAvailable2 => 12i64,
            InventoryResult::CantEquipWithTwohanded => 13i64,
            InventoryResult::CantDualWield => 14i64,
            InventoryResult::ItemDoesntGoIntoBag => 15i64,
            InventoryResult::ItemDoesntGoIntoBag2 => 16i64,
            InventoryResult::CantCarryMoreOfThis => 17i64,
            InventoryResult::NoEquipmentSlotAvailable3 => 18i64,
            InventoryResult::ItemCantStack => 19i64,
            InventoryResult::ItemCantBeEquipped => 20i64,
            InventoryResult::ItemsCantBeSwapped => 21i64,
            InventoryResult::SlotIsEmpty => 22i64,
            InventoryResult::ItemNotFound => 23i64,
            InventoryResult::CantDropSoulbound => 24i64,
            InventoryResult::OutOfRange => 25i64,
            InventoryResult::TriedToSplitMoreThanCount => 26i64,
            InventoryResult::CouldntSplitItems => 27i64,
            InventoryResult::MissingReagent => 28i64,
            InventoryResult::NotEnoughMoney => 29i64,
            InventoryResult::NotABag => 30i64,
            InventoryResult::CanOnlyDoWithEmptyBags => 31i64,
            InventoryResult::DontOwnThatItem => 32i64,
            InventoryResult::CanEquipOnly1Quiver => 33i64,
            InventoryResult::MustPurchaseThatBagSlot => 34i64,
            InventoryResult::TooFarAwayFromBank => 35i64,
            InventoryResult::ItemLocked => 36i64,
            InventoryResult::YouAreStunned => 37i64,
            InventoryResult::YouAreDead => 38i64,
            InventoryResult::CantDoRightNow => 39i64,
            InventoryResult::IntBagError => 40i64,
            InventoryResult::CanEquipOnly1Bolt => 41i64,
            InventoryResult::CanEquipOnly1Ammopouch => 42i64,
            InventoryResult::StackableCantBeWrapped => 43i64,
            InventoryResult::EquippedCantBeWrapped => 44i64,
            InventoryResult::WrappedCantBeWrapped => 45i64,
            InventoryResult::BoundCantBeWrapped => 46i64,
            InventoryResult::UniqueCantBeWrapped => 47i64,
            InventoryResult::BagsCantBeWrapped => 48i64,
            InventoryResult::AlreadyLooted => 49i64,
            InventoryResult::InventoryFull => 50i64,
            InventoryResult::BankFull => 51i64,
            InventoryResult::ItemIsCurrentlySoldOut => 52i64,
            InventoryResult::BagFull3 => 53i64,
            InventoryResult::ItemNotFound2 => 54i64,
            InventoryResult::ItemCantStack2 => 55i64,
            InventoryResult::BagFull4 => 56i64,
            InventoryResult::ItemSoldOut => 57i64,
            InventoryResult::ObjectIsBusy => 58i64,
            InventoryResult::Nil => 59i64,
            InventoryResult::NotInCombat => 60i64,
            InventoryResult::NotWhileDisarmed => 61i64,
            InventoryResult::BagFull6 => 62i64,
            InventoryResult::CantEquipRank => 63i64,
            InventoryResult::CantEquipReputation => 64i64,
            InventoryResult::TooManySpecialBags => 65i64,
            InventoryResult::LootCantLootThatNow => 66i64,
            InventoryResult::ItemUniqueEquipable => 67i64,
            InventoryResult::VendorMissingTurnins => 68i64,
            InventoryResult::NotEnoughHonorPoints => 69i64,
            InventoryResult::NotEnoughArenaPoints => 70i64,
            InventoryResult::ItemMaxCountSocketed => 71i64,
            InventoryResult::MailBoundItem => 72i64,
            InventoryResult::NoSplitWhileProspecting => 73i64,
            InventoryResult::BagFull7 => 74i64,
            InventoryResult::ItemMaxCountEquippedSocketed => 75i64,
            InventoryResult::ItemUniqueEquippableSocketed => 76i64,
            InventoryResult::TooMuchGold => 77i64,
            InventoryResult::NotDuringArenaMatch => 78i64,
            InventoryResult::CannotTradeThat => 79i64,
            InventoryResult::PersonalArenaRatingTooLow => 80i64,
        }
    }

    /// The value that `v` stands for, if any.
    pub fn n(v: i64) -> (r: Option<Self>)
        ensures
            r matches Some(e) ==> e.spec_value() == v,
            r is None ==> forall|e: Self| e.spec_value() != v,
    {
        match v {
            0i64 => Some(InventoryResult::Okay),
            1i64 => Some(InventoryResult::CantEquipLevelI),
            2i64 => Some(InventoryResult::CantEquipSkill),
            3i64 => Some(InventoryResult::ItemDoesntGoToSlot),
            4i64 => Some(InventoryResult::BagFull),
            5i64 => Some(InventoryResult::NonemptyBagOverOtherBag),
            6i64 => Some(InventoryResult::CantTradeEquipBags),
            7i64 => Some(InventoryResult::OnlyAmmoCanGoHere),
            8i64 => Some(InventoryResult::NoRequiredProficiency),
            9i64 => Some(InventoryResult::NoEquipmentSlotAvailable),
            10i64 => Some(InventoryResult::YouCanNeverUseThatItem),
            11i64 => Some(InventoryResult::YouCanNeverUseThatItem2),
            12i64 => Some(InventoryResult::NoEquipmentSlotAvailable2),
            13i64 => Some(InventoryResult::CantEquipWithTwohanded),
            14i64 => Some(InventoryResult::CantDualWield),
            15i64 => Some(InventoryResult::ItemDoesntGoIntoBag),
            16i64 => Some(InventoryResult::ItemDoesntGoIntoBag2),
            17i64 => Some(InventoryResult::CantCarryMoreOfThis),
            18i64 => Some(InventoryResult::NoEquipmentSlotAvailable3),
            19i64 => Some(InventoryResult::ItemCantStack),
            20i64 => Some(InventoryResult::ItemCantBeEquipped),
            21i64 => Some(InventoryResult::ItemsCantBeSwapped),
            22i64 => Some(InventoryResult::SlotIsEmpty),
            23i64 => Some(InventoryResult::ItemNotFound),
            24i64 => Some(InventoryResult::CantDropSoulbound),
            25i64 => Some(InventoryResult::OutOfRange),
            26i64 => Some(InventoryResult::TriedToSplitMoreThanCount),
            27i64 => Some(InventoryResult::CouldntSplitItems),
            28i64 => Some(InventoryResult::MissingReagent),
            29i64 => Some(InventoryResult::NotEnoughMoney),
            30i64 => Some(InventoryResult::NotABag),
            31i64 => Some(InventoryResult::CanOnlyDoWithEmptyBags),
            32i64 => Some(InventoryResult::DontOwnThatItem),
            33i64 => Some(InventoryResult::CanEquipOnly1Quiver),
            34i64 => Some(InventoryResult::MustPurchaseThatBagSlot),
            35i64 => Some(InventoryResult::TooFarAwayFromBank),
            36i64 => Some(InventoryResult::ItemLocked),
            37i64 => Some(InventoryResult::YouAreStunned),
            38i64 => Some(InventoryResult::YouAreDead),
            39i64 => Some(InventoryResult::CantDoRightNow),
            40i64 => Some(InventoryResult::IntBagError),
            41i64 => Some(InventoryResult::CanEquipOnly1Bolt),
            42i64 => Some(InventoryResult::CanEquipOnly1Ammopouch),
            43i64 => Some(InventoryResult::StackableCantBeWrapped),
            44i64 => Some(InventoryResult::EquippedCantBeWrapped),
            45i64 => Some(InventoryResult::WrappedCantBeWrapped),
            46i64 => Some(InventoryResult::BoundCantBeWrapped),
            47i64 => Some(InventoryResult::UniqueCantBeWrapped),
            48i64 => Some(InventoryResult::BagsCantBeWrapped),
            49i64 => Some(InventoryResult::AlreadyLooted),
            50i64 => Some(InventoryResult::InventoryFull),
            51i64 => Some(InventoryResult::BankFull),
            52i64 => Some(InventoryResult::ItemIsCurrentlySoldOut),
            53i64 => Some(InventoryResult::BagFull3),
            54i64 => Some(InventoryResult::ItemNotFound2),
            55i64 => Some(InventoryResult::ItemCantStack2),
            56i64 => Some(InventoryResult::BagFull4),
            57i64 => Some(InventoryResult::ItemSoldOut),
            58i64 => Some(InventoryResult::ObjectIsBusy),
            59i64 => Some(InventoryResult::Nil),
            60i64 => Some(InventoryResult::NotInCombat),
            61i64 => Some(InventoryResult::NotWhileDisarmed),
            62i64 => Some(InventoryResult::BagFull6),
            63i64 => Some(InventoryResult::CantEquipRank),
            64i64 => Some(InventoryResult::CantEquipReputation),
            65i64 => Some(InventoryResult::TooManySpecialBags),
            66i64 => Some(InventoryResult::LootCantLootThatNow),
            67i64 => Some(InventoryResult::ItemUniqueEquipable),
            68i64 => Some(InventoryResult::VendorMissingTurnins),
            69i64 => Some(InventoryResult::NotEnoughHonorPoints),
            70i64 => Some(InventoryResult::NotEnoughArenaPoints),
            71i64 => Some(InventoryResult::ItemMaxCountSocketed),
            72i64 => Some(InventoryResult::MailBoundItem),
            73i64 => Some(InventoryResult::NoSplitWhileProspecting),
            74i64 => Some(InventoryResult::BagFull7),
            75i64 => Some(InventoryResult::ItemMaxCountEquippedSocketed),
            76i64 => Some(InventoryResult::ItemUniqueEquippableSocketed),
            77i64 => Some(InventoryResult::TooMuchGold),
            78i64 => Some(InventoryResult::NotDuringArenaMatch),
            79i64 => Some(InventoryResult::CannotTradeThat),
            80i64 => Some(InventoryResult::PersonalArenaRatingTooLow),
            _ => None,
        }
    }

    /// Distinct values stand for distinct numbers, so reading back the number of
    /// a value gives that value.
    pub proof fn lemma_value_injective(a: Self, b: Self)
        ensures
            a.spec_value() == b.spec_value() ==> a == b,
    {
        match a {
            InventoryResult::Okay => {},
            InventoryResult::CantEquipLevelI => {},
            InventoryResult::CantEquipSkill => {},
            InventoryResult::ItemDoesntGoToSlot => {},
            InventoryResult::BagFull => {},
            InventoryResult::NonemptyBagOverOtherBag => {},
            InventoryResult::CantTradeEquipBags => {},
            InventoryResult::OnlyAmmoCanGoHere => {},
            InventoryResult::NoRequiredProficiency => {},
            InventoryResult::NoEquipmentSlotAvailable => {},
            InventoryResult::YouCanNeverUseThatItem => {},
            InventoryResult::YouCanNeverUseThatItem2 => {},
            InventoryResult::NoEquipmentSlotAvailable2 => {},
            InventoryResult::CantEquipWithTwohanded => {},
            InventoryResult::CantDualWield => {},
            InventoryResult::ItemDoesntGoIntoBag => {},
            InventoryResult::ItemDoesntGoIntoBag2 => {},
            InventoryResult::CantCarryMoreOfThis => {},
            InventoryResult::NoEquipmentSlotAvailable3 => {},
            InventoryResult::ItemCantStack => {},
            InventoryResult::ItemCantBeEquipped => {},
            InventoryResult::ItemsCantBeSwapped => {},
            InventoryResult::SlotIsEmpty => {},
            InventoryResult::ItemNotFound => {},
            InventoryResult::CantDropSoulbound => {},
            InventoryResult::OutOfRange => {},
            InventoryResult::TriedToSplitMoreThanCount => {},
            InventoryResult::CouldntSplitItems => {},
            InventoryResult::MissingReagent => {},
            InventoryResult::NotEnoughMoney => {},
            InventoryResult::NotABag => {},
            InventoryResult::CanOnlyDoWithEmptyBags => {},
            InventoryResult::DontOwnThatItem => {},
            InventoryResult::CanEquipOnly1Quiver => {},
            InventoryResult::MustPurchaseThatBagSlot => {},
            InventoryResult::TooFarAwayFromBank => {},
            InventoryResult::ItemLocked => {},
            InventoryResult::YouAreStunned => {},
            InventoryResult::YouAreDead => {},
            InventoryResult::CantDoRightNow => {},
            InventoryResult::IntBagError => {},
            InventoryResult::CanEquipOnly1Bolt => {},
            InventoryResult::CanEquipOnly1Ammopouch => {},
            InventoryResult::StackableCantBeWrapped => {},
            InventoryResult::EquippedCantBeWrapped => {},
            InventoryResult::WrappedCantBeWrapped => {},
            InventoryResult::BoundCantBeWrapped => {},
            InventoryResult::UniqueCantBeWrapped => {},
            InventoryResult::BagsCantBeWrapped => {},
            InventoryResult::AlreadyLooted => {},
            InventoryResult::InventoryFull => {},
            InventoryResult::BankFull => {},
            InventoryResult::ItemIsCurrentlySoldOut => {},
            InventoryResult::BagFull3 => {},
            InventoryResult::ItemNotFound2 => {},
            InventoryResult::ItemCantStack2 => {},
            InventoryResult::BagFull4 => {},
            InventoryResult::ItemSoldOut => {},
            InventoryResult::ObjectIsBusy => {},
            InventoryResult::Nil => {},
            InventoryResult::NotInCombat => {},
            InventoryResult::NotWhileDisarmed => {},
            InventoryResult::BagFull6 => {},
            InventoryResult::CantEquipRank => {},
            InventoryResult::CantEquipReputation => {},
            InventoryResult::TooManySpecialBags => {},
            InventoryResult::LootCantLootThatNow => {},
            InventoryResult::ItemUniqueEquipable => {},
            InventoryResult::VendorMissingTurnins => {},
            InventoryResult::NotEnoughHonorPoints => {},
            InventoryResult::NotEnoughArenaPoints => {},
            InventoryResult::ItemMaxCountSocketed => {},
            InventoryResult::MailBoundItem => {},
            InventoryResult::NoSplitWhileProspecting => {},
            InventoryResult::BagFull7 => {},
            InventoryResult::ItemMaxCountEquippedSocketed => {},
            InventoryResult::ItemUniqueEquippableSocketed => {},
            InventoryResult::TooMuchGold => {},
            InventoryResult::NotDuringArenaMatch => {},
            InventoryResult::CannotTradeThat => {},
            InventoryResult::PersonalArenaRatingTooLow => {},
        }
    }
}

#[derive(Clone, Copy, Debug, PartialEq, Eq, Structural)]
pub enum UnitStandState {
    Stand,
    Sit,
    SitChair,
    Sleep,
    SitLowChair,
    SitMediumChair,
    SitHighChair,
    Dead,
    Kneel,
    /// Depends on model animation. Submerge, freeze, hide, hibernate, rest
    Custom,
}

impl UnitStandState {
    /// The number that stands for this value on the wire and in the database.
    pub open spec fn spec_value(self) -> i64 {
        match self {
            UnitStandState::Stand => 0i64,
            UnitStandState::Sit => 1i64,
            UnitStandState::SitChair => 2i64,
            UnitStandState::Sleep => 3i64,
            UnitStandState::SitLowChair => 4i64,
            UnitStandState::SitMediumChair => 5i64,
            UnitStandState::SitHighChair => 6i64,
            UnitStandState::Dead => 7i64,
            UnitStandState::Kneel => 8i64,
            UnitStandState::Custom => 9i64,
        }
    }

    /// The number that stands for this value.
    pub fn value(self) -> (r: i64)
        ensures
            r == self.spec_value(),
    {
        match self {
            UnitStandState::Stand => 0i64,
            UnitStandState::Sit => 1i64,
            UnitStandState::SitChair => 2i64,
            UnitStandState::Sleep => 3i64,
            UnitStandState::SitLowChair => 4i64,
            UnitStandState::SitMediumChair => 5i64,
            UnitStandState::SitHighChair => 6i64,
            UnitStandState::Dead => 7i64,
            UnitStandState::Kneel => 8i64,
            UnitStandState::Custom => 9i64,
        }
    }

    /// The value that `v` stands for, if any.
    pub fn n(v: i64) -> (r: Option<Self>)
        ensures
            r matches Some(e) ==> e.spec_value() == v,
            r is None ==> forall|e: Self| e.spec_value() != v,
    {
        match v {
            0i64 => Some(UnitStandState::Stand),
            1i64 => Some(UnitStandState::Sit),
            2i64 => Some(UnitStandState::SitChair),
            3i64 => Some(UnitStandState::Sleep),
            4i64 => Some(UnitStandState::SitLowChair),
            5i64 => Some(UnitStandState::SitMediumChair),
            6i64 => Some(UnitStandState::SitHighChair),
            7i64 => Some(UnitStandState::Dead),
            8i64 => Some(UnitStandState::Kneel),
            9i64 => Some(UnitStandState::Custom),
            _ => None,
        }
    }

    /// Distinct values stand for distinct numbers, so reading back the number of
    /// a value gives that value.
    pub proof fn lemma_value_injective(a: Self, b: Self)
        ensures
            a.spec_value() == b.spec_value() ==> a == b,
    {
        match a {
            UnitStandState::Stand => {},
            UnitStandState::Sit => {},
            UnitStandState::SitChair => {},
            UnitStandState::Sleep => {},
            UnitStandState::SitLowChair => {},
            UnitStandState::SitMediumChair => {},
            UnitStandState::SitHighChair => {},
            UnitStandState::Dead => {},
            UnitStandState::Kneel => {},
            UnitStandState::Custom => {},
        }
    }
}

#[derive(Clone, Copy, Debug, PartialEq, Eq, Structural)]
pub enum SheathState {
    Unarmed,
    Melee,
    Ranged,
}

impl SheathState {
    /// The number that stands for this value on the wire and in the database.
    pub open spec fn spec_value(self) -> i64 {
        match self {
            SheathState::Unarmed => 0i64,
            SheathState::Melee => 1i64,
            SheathState::Ranged => 2i64,
        }
    }

    /// The number that stands for this value.
    pub fn value(self) -> (r: i64)
        ensures
            r == self.spec_value(),
    {
        match self {
            SheathState::Unarmed => 0i64,
            SheathState::Melee => 1i64,
            SheathState::Ranged => 2i64,
        }
    }

    /// The value that `v` stands for, if any.
    pub fn n(v: i64) -> (r: Option<Self>)
        ensures
            r matches Some(e) ==> e.spec_value() == v,
            r is None ==> forall|e: Self| e.spec_value() != v,
    {
        match v {
            0i64 => Some(SheathState::Unarmed),
            1i64 => Some(SheathState::Melee),
            2i64 => Some(SheathState::Ranged),
            _ => None,
        }
    }

    /// Distinct values stand for distinct numbers, so reading back the number of
    /// a value gives that value.
    pub proof fn lemma_value_injective(a: Self, b: Self)
        ensures
            a.spec_value() == b.spec_value() ==> a == b,
    {
        match a {
            SheathState::Unarmed => {},
            SheathState::Melee => {},
            SheathState::Ranged => {},
        }
    }
}

#[derive(Clone, Copy, Debug, PartialEq, Eq, Structural)]
pub enum MapType {
    Common,
    Instance,
    Raid,
    Battleground,
    Arena,
}

impl MapType {
    /// The number that stands for this value on the wire and in the database.
    pub open spec fn spec_value(self) -> i64 {
        match self {
            MapType::Common => 0i64,
            MapType::Instance => 1i64,
            MapType::Raid => 2i64,
            MapType::Battleground => 3i64,
            MapType::Arena => 4i64,
        }
    }

    /// The number that stands for this value.
    pub fn value(self) -> (r: i64)
        ensures
            r == self.spec_value(),
    {
        match self {
            MapType::Common => 0i64,
            MapType::Instance => 1i64,
            MapType::Raid => 2i64,
            MapType::Battleground => 3i64,
            MapType::Arena => 4i64,
        }
    }

    /// The value that `v` stands for, if any.
    pub fn n(v: i64) -> (r: Option<Self>)
        ensures
            r matches Some(e) ==> e.spec_value() == v,
            r is None ==> forall|e: Self| e.spec_value() != v,
    {
        match v {
            0i64 => Some(MapType::Common),
            1i64 => Some(MapType::Instance),
            2i64 => Some(MapType::Raid),
            3i64 => Some(MapType::Battleground),
            4i64 => Some(MapType::Arena),
            _ => None,
        }
    }

    /// Distinct values stand for distinct numbers, so reading back the number of
    /// a value gives that value.
    pub proof fn lemma_value_injective(a: Self, b: Self)
        ensures
            a.spec_value() == b.spec_value() ==> a == b,
    {
        match a {
            MapType::Common => {},
            MapType::Instance => {},
            MapType::Raid => {},
            MapType::Battleground => {},
            MapType::Arena => {},
        }
    }
}

#[derive(Clone, Copy, Debug, PartialEq, Eq, Structural)]
pub enum ChatMessageType {
    Addon,
    System,
    Say,
    Party,
    Raid,
    Guild,
    Officer,
    Yell,
    Whisper,
    WhisperInform,
    Reply,
    Emote,
    TextEmote,
    MonsterSay,
    MonsterParty,
    MonsterYell,
    MonsterWhisper,
    MonsterEmote,
    Channel,
    ChannelJoin,
    ChannelLeave,
    ChannelList,
    ChannelNotice,
    ChannelNoticeUser,
    Afk,
    Dnd,
    Ignored,
    Skill,
    Loot,
    Money,
    Opening,
    Tradeskills,
    PetInfo,
    CombatMiscInfo,
    CombatXpGain,
    CombatHonorGain,
    CombatFactionChange,
    BgSystemNeutral,
    BgSystemAlliance,
    BgSystemHorde,
    RaidLeader,
    RaidWarning,
    RaidBossWhisper,
    RaidBossEmote,
    Filtered,
    Battleground,
    BattlegroundLeader,
    Restricted,
}

impl ChatMessageType {
    /// The number that stands for this value on the wire and in the database.
    pub open spec fn spec_value(self) -> i64 {
        match self {
            ChatMessageType::Addon => 4294967295i64,
            ChatMessageType::System => 0i64,
            ChatMessageType::Say => 1i64,
            ChatMessageType::Party => 2i64,
            ChatMessageType::Raid => 3i64,
            ChatMessageType::Guild => 4i64,
            ChatMessageType::Officer => 5i64,
            ChatMessageType::Yell => 6i64,
            ChatMessageType::Whisper => 7i64,
            ChatMessageType::WhisperInform => 8i64,
            ChatMessageType::Reply => 9i64,
            ChatMessageType::Emote => 10i64,
            ChatMessageType::TextEmote => 11i64,
            ChatMessageType::MonsterSay => 12i64,
            ChatMessageType::MonsterParty => 13i64,
            ChatMessageType::MonsterYell => 14i64,
            ChatMessageType::MonsterWhisper => 15i64,
            ChatMessageType::MonsterEmote => 16i64,
            ChatMessageType::Channel => 17i64,
            ChatMessageType::ChannelJoin => 18i64,
            ChatMessageType::ChannelLeave => 19i64,
            ChatMessageType::ChannelList => 20i64,
            ChatMessageType::ChannelNotice => 21i64,
            ChatMessageType::ChannelNoticeUser => 22i64,
            ChatMessageType::Afk => 23i64,
            ChatMessageType::Dnd => 24i64,
            ChatMessageType::Ignored => 25i64,
            ChatMessageType::Skill => 26i64,
            ChatMessageType::Loot => 27i64,
            ChatMessageType::Money => 28i64,
            ChatMessageType::Opening => 29i64,
            ChatMessageType::Tradeskills => 30i64,
            ChatMessageType::PetInfo => 31i64,
            ChatMessageType::CombatMiscInfo => 32i64,
            ChatMessageType::CombatXpGain => 33i64,
            ChatMessageType::CombatHonorGain => 34i64,
            ChatMessageType::CombatFactionChange => 35i64,
            ChatMessageType::BgSystemNeutral => 36i64,
            ChatMessageType::BgSystemAlliance => 37i64,
            ChatMessageType::BgSystemHorde => 38i64,
            ChatMessageType::RaidLeader => 39i64,
            ChatMessageType::RaidWarning => 40i64,
            ChatMessageType::RaidBossWhisper => 41i64,
            ChatMessageType::RaidBossEmote => 42i64,
            ChatMessageType::Filtered => 43i64,
            ChatMessageType::Battleground => 44i64,
            ChatMessageType::BattlegroundLeader => 45i64,
            ChatMessageType::Restricted => 46i64,
        }
    }

    /// The number that stands for this value.
    pub fn value(self) -> (r: i64)
        ensures
            r == self.spec_value(),
    {
        match self {
            ChatMessageType::Addon => 4294967295i64,
            ChatMessageType::System => 0i64,
            ChatMessageType::Say => 1i64,
            ChatMessageType::Party => 2i64,
            ChatMessageType::Raid => 3i64,
            ChatMessageType::Guild => 4i64,
            ChatMessageType::Officer => 5i64,
            ChatMessageType::Yell => 6i64,
            ChatMessageType::Whisper => 7i64,
            ChatMessageType::WhisperInform => 8i64,
            ChatMessageType::Reply => 9i64,
            ChatMessageType::Emote => 10i64,
            ChatMessageType::TextEmote => 11i64,
            ChatMessageType::MonsterSay => 12i64,
            ChatMessageType::MonsterParty => 13i64,
            ChatMessageType::MonsterYell => 14i64,
            ChatMessageType::MonsterWhisper => 15i64,
            ChatMessageType::MonsterEmote => 16i64,
            ChatMessageType::Channel => 17i64,
            ChatMessageType::ChannelJoin => 18i64,
            ChatMessageType::ChannelLeave => 19i64,
            ChatMessageType::ChannelList => 20i64,
            ChatMessageType::ChannelNotice => 21i64,
            ChatMessageType::ChannelNoticeUser => 22i64,
            ChatMessageType::Afk => 23i64,
            ChatMessageType::Dnd => 24i64,
            ChatMessageType::Ignored => 25i64,
            ChatMessageType::Skill => 26i64,
            ChatMessageType::Loot => 27i64,
            ChatMessageType::Money => 28i64,
            ChatMessageType::Opening => 29i64,
            ChatMessageType::Tradeskills => 30i64,
            ChatMessageType::PetInfo => 31i64,
            ChatMessageType::CombatMiscInfo => 32i64,
            ChatMessageType::CombatXpGain => 33i64,
            ChatMessageType::CombatHonorGain => 34i64,
            ChatMessageType::CombatFactionChange => 35i64,
            ChatMessageType::BgSystemNeutral => 36i64,
            ChatMessageType::BgSystemAlliance => 37i64,
            ChatMessageType::BgSystemHorde => 38i64,
            ChatMessageType::RaidLeader => 39i64,
            ChatMessageType::RaidWarning => 40i64,
            ChatMessageType::RaidBossWhisper => 41i64,
            ChatMessageType::RaidBossEmote => 42i64,
            ChatMessageType::Filtered => 43i64,
            ChatMessageType::Battleground => 44i64,
            ChatMessageType::BattlegroundLeader => 45i64,
            ChatMessageType::Restricted => 46i64,
        }
    }

    /// The value that `v` stands for, if any.
    pub fn n(v: i64) -> (r: Option<Self>)
        ensures
            r matches Some(e) ==> e.spec_value() == v,
            r is None ==> forall|e: Self| e.spec_value() != v,
    {
        match v {
            4294967295i64 => Some(ChatMessageType::Addon),
            0i64 => Some(ChatMessageType::System),
            1i64 => Some(ChatMessageType::Say),
            2i64 => Some(ChatMessageType::Party),
            3i64 => Some(ChatMessageType::Raid),
            4i64 => Some(ChatMessageType::Guild),
            5i64 => Some(ChatMessageType::Officer),
            6i64 => Some(ChatMessageType::Yell),
            7i64 => Some(ChatMessageType::Whisper),
            8i64 => Some(ChatMessageType::WhisperInform),
            9i64 => Some(ChatMessageType::Reply),
            10i64 => Some(ChatMessageType::Emote),
            11i64 => Some(ChatMessageType::TextEmote),
            12i64 => Some(ChatMessageType::MonsterSay),
            13i64 => Some(ChatMessageType::MonsterParty),
            14i64 => Some(ChatMessageType::MonsterYell),
            15i64 => Some(ChatMessageType::MonsterWhisper),
            16i64 => Some(ChatMessageType::MonsterEmote),
            17i64 => Some(ChatMessageType::Channel),
            18i64 => Some(ChatMessageType::ChannelJoin),
            19i64 => Some(ChatMessageType::ChannelLeave),
            20i64 => Some(ChatMessageType::ChannelList),
            21i64 => Some(ChatMessageType::ChannelNotice),
            22i64 => Some(ChatMessageType::ChannelNoticeUser),
            23i64 => Some(ChatMessageType::Afk),
            24i64 => Some(ChatMessageType::Dnd),
            25i64 => Some(ChatMessageType::Ignored),
            26i64 => Some(ChatMessageType::Skill),
            27i64 => Some(ChatMessageType::Loot),
            28i64 => Some(ChatMessageType::Money),
            29i64 => Some(ChatMessageType::Opening),
            30i64 => Some(ChatMessageType::Tradeskills),
            31i64 => Some(ChatMessageType::PetInfo),
            32i64 => Some(ChatMessageType::CombatMiscInfo),
            33i64 => Some(ChatMessageType::CombatXpGain),
            34i64 => Some(ChatMessageType::CombatHonorGain),
            35i64 => Some(ChatMessageType::CombatFactionChange),
            36i64 => Some(ChatMessageType::BgSystemNeutral),
            37i64 => Some(ChatMessageType::BgSystemAlliance),
            38i64 => Some(ChatMessageType::BgSystemHorde),
            39i64 => Some(ChatMessageType::RaidLeader),
            40i64 => Some(ChatMessageType::RaidWarning),
            41i64 => Some(ChatMessageType::RaidBossWhisper),
            42i64 => Some(ChatMessageType::RaidBossEmote),
            43i64 => Some(ChatMessageType::Filtered),
            44i64 => Some(ChatMessageType::Battleground),
            45i64 => Some(ChatMessageType::BattlegroundLeader),
            46i64 => Some(ChatMessageType::Restricted),
            _ => None,
        }
    }

    /// Distinct values stand for distinct numbers, so reading back the number of
    /// a value gives that value.
    pub proof fn lemma_value_injective(a: Self, b: Self)
        ensures
            a.spec_value() == b.spec_value() ==> a == b,
    {
        match a {
            ChatMessageType::Addon => {},
            ChatMessageType::System => {},
            ChatMessageType::Say => {},
            ChatMessageType::Party => {},
            ChatMessageType::Raid => {},
            ChatMessageType::Guild => {},
            ChatMessageType::Officer => {},
            ChatMessageType::Yell => {},
            ChatMessageType::Whisper => {},
            ChatMessageType::WhisperInform => {},
            ChatMessageType::Reply => {},
            ChatMessageType::Emote => {},
            ChatMessageType::TextEmote => {},
            ChatMessageType::MonsterSay => {},
            ChatMessageType::MonsterParty => {},
            ChatMessageType::MonsterYell => {},
            ChatMessageType::MonsterWhisper => {},
            ChatMessageType::MonsterEmote => {},
            ChatMessageType::Channel => {},
            ChatMessageType::ChannelJoin => {},
            ChatMessageType::ChannelLeave => {},
            ChatMessageType::ChannelList => {},
            ChatMessageType::ChannelNotice => {},
            ChatMessageType::ChannelNoticeUser => {},
            ChatMessageType::Afk => {},
            ChatMessageType::Dnd => {},
            ChatMessageType::Ignored => {},
            ChatMessageType::Skill => {},
            ChatMessageType::Loot => {},
            ChatMessageType::Money => {},
            ChatMessageType::Opening => {},
            ChatMessageType::Tradeskills => {},
            ChatMessageType::PetInfo => {},
            ChatMessageType::CombatMiscInfo => {},
            ChatMessageType::CombatXpGain => {},
            ChatMessageType::CombatHonorGain => {},
            ChatMessageType::CombatFactionChange => {},
            ChatMessageType::BgSystemNeutral => {},
            ChatMessageType::BgSystemAlliance => {},
            ChatMessageType::BgSystemHorde => {},
            ChatMessageType::RaidLeader => {},
            ChatMessageType::RaidWarning => {},
            ChatMessageType::RaidBossWhisper => {},
            ChatMessageType::RaidBossEmote => {},
            ChatMessageType::Filtered => {},
            ChatMessageType::Battleground => {},
            ChatMessageType::BattlegroundLeader => {},
            ChatMessageType::Restricted => {},
        }
    }
}

#[derive(Clone, Copy, Debug, PartialEq, Eq, Structural)]
pub enum Language {
    Universal,
    Orcish,
    Darnassian,
    Taurahe,
    Dwarvish,
    Common,
    Demonic,
    Titan,
    Thalassian,
    Draconic,
    Kalimag,
    Gnomish,
    Troll,
    Gutterspeak,
    Draenei,
    Zombie,
    GnomishBinary,
    GoblinBinary,
}

impl Language {
    /// The number that stands for this value on the wire and in the database.
    pub open spec fn spec_value(self) -> i64 {
        match self {
            Language::Universal => 0i64,
            Language::Orcish => 1i64,
            Language::Darnassian => 2i64,
            Language::Taurahe => 3i64,
            Language::Dwarvish => 6i64,
            Language::Common => 7i64,
            Language::Demonic => 8i64,
            Language::Titan => 9i64,
            Language::Thalassian => 10i64,
            Language::Draconic => 11i64,
            Language::Kalimag => 12i64,
            Language::Gnomish => 13i64,
            Language::Troll => 14i64,
            Language::Gutterspeak => 33i64,
            Language::Draenei => 35i64,
            Language::Zombie => 36i64,
            Language::GnomishBinary => 37i64,
            Language::GoblinBinary => 38i64,
        }
    }

    /// The number that stands for this value.
    pub fn value(self) -> (r: i64)
        ensures
            r == self.spec_value(),
    {
        match self {
            Language::Universal => 0i64,
            Language::Orcish => 1i64,
            Language::Darnassian => 2i64,
            Language::Taurahe => 3i64,
            Language::Dwarvish => 6i64,
            Language::Common => 7i64,
            Language::Demonic => 8i64,
            Language::Titan => 9i64,
            Language::Thalassian => 10i64,
            Language::Draconic => 11i64,
            Language::Kalimag => 12i64,
            Language::Gnomish => 13i64,
            Language::Troll => 14i64,
            Language::Gutterspeak => 33i64,
            Language::Draenei => 35i64,
            Language::Zombie => 36i64,
            Language::GnomishBinary => 37i64,
            Language::GoblinBinary => 38i64,
        }
    }

    /// The value that `v` stands for, if any.
    pub fn n(v: i64) -> (r: Option<Self>)
        ensures
            r matches Some(e) ==> e.spec_value() == v,
            r is None ==> forall|e: Self| e.spec_value() != v,
    {
        match v {
            0i64 => Some(Language::Universal),
            1i64 => Some(Language::Orcish),
            2i64 => Some(Language::Darnassian),
            3i64 => Some(Language::Taurahe),
            6i64 => Some(Language::Dwarvish),
            7i64 => Some(Language::Common),
            8i64 => Some(Language::Demonic),
            9i64 => Some(Language::Titan),
            10i64 => Some(Language::Thalassian),
            11i64 => Some(Language::Draconic),
            12i64 => Some(Language::Kalimag),
            13i64 => Some(Language::Gnomish),
            14i64 => Some(Language::Troll),
            33i64 => Some(Language::Gutterspeak),
            35i64 => Some(Language::Draenei),
            36i64 => Some(Language::Zombie),
            37i64 => Some(Language::GnomishBinary),
            38i64 => Some(Language::GoblinBinary),
            _ => None,
        }
    }

    /// Distinct values stand for distinct numbers, so reading back the number of
    /// a value gives that value.
    pub proof fn lemma_value_injective(a: Self, b: Self)
        ensures
            a.spec_value() == b.spec_value() ==> a == b,
    {
        match a {
            Language::Universal => {},
            Language::Orcish => {},
            Language::Darnassian => {},
            Language::Taurahe => {},
            Language::Dwarvish => {},
            Language::Common => {},
            Language::Demonic => {},
            Language::Titan => {},
            Language::Thalassian => {},
            Language::Draconic => {},
            Language::Kalimag => {},
            Language::Gnomish => {},
            Language::Troll => {},
            Language::Gutterspeak => {},
            Language::Draenei => {},
            Language::Zombie => {},
            Language::GnomishBinary => {},
            Language::GoblinBinary => {},
        }
    }
}

#[derive(Clone, Copy, Debug, PartialEq, Eq, Structural)]
pub enum Emote {
    OneshotNone,
    OneshotTalk,
    OneshotBow,
    OneshotWave,
    OneshotCheer,
    OneshotExclamation,
    OneshotQuestion,
    OneshotEat,
    StateDance,
    OneshotLaugh,
    StateSleep,
    StateSit,
    OneshotRude,
    OneshotRoar,
    OneshotKneel,
    OneshotKiss,
    OneshotCry,
    OneshotChicken,
    OneshotBeg,
    OneshotApplaud,
    OneshotShout,
    OneshotFlex,
    OneshotShy,
    OneshotPoint,
    StateStand,
    StateReadyunarmed,
    StateWorkSheathed,
    StatePoint,
    StateNone,
    OneshotWound,
    OneshotWoundcritical,
    OneshotAttackunarmed,
    OneshotAttack1H,
    OneshotAttack2Htight,
    OneshotAttack2Hloose,
    OneshotParryunarmed,
    OneshotParryshield,
    OneshotReadyunarmed,
    OneshotReady1H,
    OneshotReadybow,
    OneshotSpellprecast,
    OneshotSpellcast,
    OneshotBattleroar,
    OneshotSpecialattack1H,
    OneshotKick,
    OneshotAttackthrown,
    StateStun,
    StateDead,
    OneshotSalute,
    StateKneel,
    StateUsestanding,
    OneshotWaveNosheathe,
    OneshotCheerNosheathe,
    OneshotEatNosheathe,
    StateStunNosheathe,
    OneshotDance,
    OneshotSaluteNosheath,
    StateUsestandingNosheathe,
    OneshotLaughNosheathe,
    StateWork,
    StateSpellprecast,
    OneshotReadyrifle,
    StateReadyrifle,
    StateWorkMining,
    StateWorkChopwood,
    StateApplaud,
    OneshotLiftoff,
    OneshotYes,
    OneshotNo,
    OneshotTrain,
    OneshotLand,
    StateAtEase,
    StateReady1H,
    StateSpellkneelstart,
    StateSubmerged,
    OneshotSubmerge,
    StateReady2H,
    StateReadybow,
    OneshotMountspecial,
    StateTalk,
    StateFishing,
    OneshotFishing,
    OneshotLoot,
    StateWhirlwind,
    StateDrowned,
    StateHoldBow,
    StateHoldRifle,
    StateHoldThrown,
    OneshotDrown,
    OneshotStomp,
    OneshotAttackoff,
    OneshotAttackoffpierce,
    StateRoar,
    StateLaugh,
    OneshotCreatureSpecial,
    OneshotJumplandrun,
    OneshotJumpend,
    OneshotTalkNosheathe,
    OneshotPointNosheathe,
    StateCannibalize,
    OneshotJumpstart,
    StateDancespecial,
    OneshotDancespecial,
    OneshotCustomspell01,
    OneshotCustomspell02,
    OneshotCustomspell03,
    OneshotCustomspell04,
    OneshotCustomspell05,
    OneshotCustomspell06,
    OneshotCustomspell07,
    OneshotCustomspell08,
    OneshotCustomspell09,
    OneshotCustomspell10,
    StateExclaim,
    StateSitChairMed,
    StateSpelleffectHold,
    StateEatNoSheathe,
}

impl Emote {
    /// The number that stands for this value on the wire and in the database.
    pub open spec fn spec_value(self) -> i64 {
        match self {
            Emote::OneshotNone => 0i64,
            Emote::OneshotTalk => 1i64,
            Emote::OneshotBow => 2i64,
            Emote::OneshotWave => 3i64,
            Emote::OneshotCheer => 4i64,
            Emote::OneshotExclamation => 5i64,
            Emote::OneshotQuestion => 6i64,
            Emote::OneshotEat => 7i64,
            Emote::StateDance => 10i64,
            Emote::OneshotLaugh => 11i64,
            Emote::StateSleep => 12i64,
            Emote::StateSit => 13i64,
            Emote::OneshotRude => 14i64,
            Emote::OneshotRoar => 15i64,
            Emote::OneshotKneel => 16i64,
            Emote::OneshotKiss => 17i64,
            Emote::OneshotCry => 18i64,
            Emote::OneshotChicken => 19i64,
            Emote::OneshotBeg => 20i64,
            Emote::OneshotApplaud => 21i64,
            Emote::OneshotShout => 22i64,
            Emote::OneshotFlex => 23i64,
            Emote::OneshotShy => 24i64,
            Emote::OneshotPoint => 25i64,
            Emote::StateStand => 26i64,
            Emote::StateReadyunarmed => 27i64,
            Emote::StateWorkSheathed => 28i64,
            Emote::StatePoint => 29i64,
            Emote::StateNone => 30i64,
            Emote::OneshotWound => 33i64,
            Emote::OneshotWoundcritical => 34i64,
            Emote::OneshotAttackunarmed => 35i64,
            Emote::OneshotAttack1H => 36i64,
            Emote::OneshotAttack2Htight => 37i64,
            Emote::OneshotAttack2Hloose => 38i64,
            Emote::OneshotParryunarmed => 39i64,
            Emote::OneshotParryshield => 43i64,
            Emote::OneshotReadyunarmed => 44i64,
            Emote::OneshotReady1H => 45i64,
            Emote::OneshotReadybow => 48i64,
            Emote::OneshotSpellprecast => 50i64,
            Emote::OneshotSpellcast => 51i64,
            Emote::OneshotBattleroar => 53i64,
            Emote::OneshotSpecialattack1H => 54i64,
            Emote::OneshotKick => 60i64,
            Emote::OneshotAttackthrown => 61i64,
            Emote::StateStun => 64i64,
            Emote::StateDead => 65i64,
            Emote::OneshotSalute => 66i64,
            Emote::StateKneel => 68i64,
            Emote::StateUsestanding => 69i64,
            Emote::OneshotWaveNosheathe => 70i64,
            Emote::OneshotCheerNosheathe => 71i64,
            Emote::OneshotEatNosheathe => 92i64,
            Emote::StateStunNosheathe => 93i64,
            Emote::OneshotDance => 94i64,
            Emote::OneshotSaluteNosheath => 113i64,
            Emote::StateUsestandingNosheathe => 133i64,
            Emote::OneshotLaughNosheathe => 153i64,
            Emote::StateWork => 173i64,
            Emote::StateSpellprecast => 193i64,
            Emote::OneshotReadyrifle => 213i64,
            Emote::StateReadyrifle => 214i64,
            Emote::StateWorkMining => 233i64,
            Emote::StateWorkChopwood => 234i64,
            Emote::StateApplaud => 253i64,
            Emote::OneshotLiftoff => 254i64,
            Emote::OneshotYes => 273i64,
            Emote::OneshotNo => 274i64,
            Emote::OneshotTrain => 275i64,
            Emote::OneshotLand => 293i64,
            Emote::StateAtEase => 313i64,
            Emote::StateReady1H => 333i64,
            Emote::StateSpellkneelstart => 353i64,
            Emote::StateSubmerged => 373i64,
            Emote::OneshotSubmerge => 374i64,
            Emote::StateReady2H => 375i64,
            Emote::StateReadybow => 376i64,
            Emote::OneshotMountspecial => 377i64,
            Emote::StateTalk => 378i64,
            Emote::StateFishing => 379i64,
            Emote::OneshotFishing => 380i64,
            Emote::OneshotLoot => 381i64,
            Emote::StateWhirlwind => 382i64,
            Emote::StateDrowned => 383i64,
            Emote::StateHoldBow => 384i64,
            Emote::StateHoldRifle => 385i64,
            Emote::StateHoldThrown => 386i64,
            Emote::OneshotDrown => 387i64,
            Emote::OneshotStomp => 388i64,
            Emote::OneshotAttackoff => 389i64,
            Emote::OneshotAttackoffpierce => 390i64,
            Emote::StateRoar => 391i64,
            Emote::StateLaugh => 392i64,
            Emote::OneshotCreatureSpecial => 393i64,
            Emote::OneshotJumplandrun => 394i64,
            Emote::OneshotJumpend => 395i64,
            Emote::OneshotTalkNosheathe => 396i64,
            Emote::OneshotPointNosheathe => 397i64,
            Emote::StateCannibalize => 398i64,
            Emote::OneshotJumpstart => 399i64,
            Emote::StateDancespecial => 400i64,
            Emote::OneshotDancespecial => 401i64,
            Emote::OneshotCustomspell01 => 402i64,
            Emote::OneshotCustomspell02 => 403i64,
            Emote::OneshotCustomspell03 => 404i64,
            Emote::OneshotCustomspell04 => 405i64,
            Emote::OneshotCustomspell05 => 406i64,
            Emote::OneshotCustomspell06 => 407i64,
            Emote::OneshotCustomspell07 => 408i64,
            Emote::OneshotCustomspell08 => 409i64,
            Emote::OneshotCustomspell09 => 410i64,
            Emote::OneshotCustomspell10 => 411i64,
            Emote::StateExclaim => 412i64,
            Emote::StateSitChairMed => 415i64,
            Emote::StateSpelleffectHold => 422i64,
            Emote::StateEatNoSheathe => 423i64,
        }
    }

    /// The number that stands for this value.
    pub fn value(self) -> (r: i64)
        ensures
            r == self.spec_value(),
    {
        match self {
            Emote::OneshotNone => 0i64,
            Emote::OneshotTalk => 1i64,
            Emote::OneshotBow => 2i64,
            Emote::OneshotWave => 3i64,
            Emote::OneshotCheer => 4i64,
            Emote::OneshotExclamation => 5i64,
            Emote::OneshotQuestion => 6i64,
            Emote::OneshotEat => 7i64,
            Emote::StateDance => 10i64,
            Emote::OneshotLaugh => 11i64,
            Emote::StateSleep => 12i64,
            Emote::StateSit => 13i64,
            Emote::OneshotRude => 14i64,
            Emote::OneshotRoar => 15i64,
            Emote::OneshotKneel => 16i64,
            Emote::OneshotKiss => 17i64,
            Emote::OneshotCry => 18i64,
            Emote::OneshotChicken => 19i64,
            Emote::OneshotBeg => 20i64,
            Emote::OneshotApplaud => 21i64,
            Emote::OneshotShout => 22i64,
            Emote::OneshotFlex => 23i64,
            Emote::OneshotShy => 24i64,
            Emote::OneshotPoint => 25i64,
            Emote::StateStand => 26i64,
            Emote::StateReadyunarmed => 27i64,
            Emote::StateWorkSheathed => 28i64,
            Emote::StatePoint => 29i64,
            Emote::StateNone => 30i64,
            Emote::OneshotWound => 33i64,
            Emote::OneshotWoundcritical => 34i64,
            Emote::OneshotAttackunarmed => 35i64,
            Emote::OneshotAttack1H => 36i64,
            Emote::OneshotAttack2Htight => 37i64,
            Emote::OneshotAttack2Hloose => 38i64,
            Emote::OneshotParryunarmed => 39i64,
            Emote::OneshotParryshield => 43i64,
            Emote::OneshotReadyunarmed => 44i64,
            Emote::OneshotReady1H => 45i64,
            Emote::OneshotReadybow => 48i64,
            Emote::OneshotSpellprecast => 50i64,
            Emote::OneshotSpellcast => 51i64,
            Emote::OneshotBattleroar => 53i64,
            Emote::OneshotSpecialattack1H => 54i64,
            Emote::OneshotKick => 60i64,
            Emote::OneshotAttackthrown => 61i64,
            Emote::StateStun => 64i64,
            Emote::StateDead => 65i64,
            Emote::OneshotSalute => 66i64,
            Emote::StateKneel => 68i64,
            Emote::StateUsestanding => 69i64,
            Emote::OneshotWaveNosheathe => 70i64,
            Emote::OneshotCheerNosheathe => 71i64,
            Emote::OneshotEatNosheathe => 92i64,
            Emote::StateStunNosheathe => 93i64,
            Emote::OneshotDance => 94i64,
            Emote::OneshotSaluteNosheath => 113i64,
            Emote::StateUsestandingNosheathe => 133i64,
            Emote::OneshotLaughNosheathe => 153i64,
            Emote::StateWork => 173i64,
            Emote::StateSpellprecast => 193i64,
            Emote::OneshotReadyrifle => 213i64,
            Emote::StateReadyrifle => 214i64,
            Emote::StateWorkMining => 233i64,
            Emote::StateWorkChopwood => 234i64,
            Emote::StateApplaud => 253i64,
            Emote::OneshotLiftoff => 254i64,
            Emote::OneshotYes => 273i64,
            Emote::OneshotNo => 274i64,
            Emote::OneshotTrain => 275i64,
            Emote::OneshotLand => 293i64,
            Emote::StateAtEase => 313i64,
            Emote::StateReady1H => 333i64,
            Emote::StateSpellkneelstart => 353i64,
            Emote::StateSubmerged => 373i64,
            Emote::OneshotSubmerge => 374i64,
            Emote::StateReady2H => 375i64,
            Emote::StateReadybow => 376i64,
            Emote::OneshotMountspecial => 377i64,
            Emote::StateTalk => 378i64,
            Emote::StateFishing => 379i64,
            Emote::OneshotFishing => 380i64,
            Emote::OneshotLoot => 381i64,
            Emote::StateWhirlwind => 382i64,
            Emote::StateDrowned => 383i64,
            Emote::StateHoldBow => 384i64,
            Emote::StateHoldRifle => 385i64,
            Emote::StateHoldThrown => 386i64,
            Emote::OneshotDrown => 387i64,
            Emote::OneshotStomp => 388i64,
            Emote::OneshotAttackoff => 389i64,
            Emote::OneshotAttackoffpierce => 390i64,
            Emote::StateRoar => 391i64,
            Emote::StateLaugh => 392i64,
            Emote::OneshotCreatureSpecial => 393i64,
            Emote::OneshotJumplandrun => 394i64,
            Emote::OneshotJumpend => 395i64,
            Emote::OneshotTalkNosheathe => 396i64,
            Emote::OneshotPointNosheathe => 397i64,
            Emote::StateCannibalize => 398i64,
            Emote::OneshotJumpstart => 399i64,
            Emote::StateDancespecial => 400i64,
            Emote::OneshotDancespecial => 401i64,
            Emote::OneshotCustomspell01 => 402i64,
            Emote::OneshotCustomspell02 => 403i64,
            Emote::OneshotCustomspell03 => 404i64,
            Emote::OneshotCustomspell04 => 405i64,
            Emote::OneshotCustomspell05 => 406i64,
            Emote::OneshotCustomspell06 => 407i64,
            Emote::OneshotCustomspell07 => 408i64,
            Emote::OneshotCustomspell08 => 409i64,
            Emote::OneshotCustomspell09 => 410i64,
            Emote::OneshotCustomspell10 => 411i64,
            Emote::StateExclaim => 412i64,
            Emote::StateSitChairMed => 415i64,
            Emote::StateSpelleffectHold => 422i64,
            Emote::StateEatNoSheathe => 423i64,
        }
    }

    /// The value that `v` stands for, if any.
    pub fn n(v: i64) -> (r: Option<Self>)
        ensures
            r matches Some(e) ==> e.spec_value() == v,
            r is None ==> forall|e: Self| e.spec_value() != v,
    {
        match v {
            0i64 => Some(Emote::OneshotNone),
            1i64 => Some(Emote::OneshotTalk),
            2i64 => Some(Emote::OneshotBow),
            3i64 => Some(Emote::OneshotWave),
            4i64 => Some(Emote::OneshotCheer),
            5i64 => Some(Emote::OneshotExclamation),
            6i64 => Some(Emote::OneshotQuestion),
            7i64 => Some(Emote::OneshotEat),
            10i64 => Some(Emote::StateDance),
            11i64 => Some(Emote::OneshotLaugh),
            12i64 => Some(Emote::StateSleep),
            13i64 => Some(Emote::StateSit),
            14i64 => Some(Emote::OneshotRude),
            15i64 => Some(Emote::OneshotRoar),
            16i64 => Some(Emote::OneshotKneel),
            17i64 => Some(Emote::OneshotKiss),
            18i64 => Some(Emote::OneshotCry),
            19i64 => Some(Emote::OneshotChicken),
            20i64 => Some(Emote::OneshotBeg),
            21i64 => Some(Emote::OneshotApplaud),
            22i64 => Some(Emote::OneshotShout),
            23i64 => Some(Emote::OneshotFlex),
            24i64 => Some(Emote::OneshotShy),
            25i64 => Some(Emote::OneshotPoint),
            26i64 => Some(Emote::StateStand),
            27i64 => Some(Emote::StateReadyunarmed),
            28i64 => Some(Emote::StateWorkSheathed),
            29i64 => Some(Emote::StatePoint),
            30i64 => Some(Emote::StateNone),
            33i64 => Some(Emote::OneshotWound),
            34i64 => Some(Emote::OneshotWoundcritical),
            35i64 => Some(Emote::OneshotAttackunarmed),
            36i64 => Some(Emote::OneshotAttack1H),
            37i64 => Some(Emote::OneshotAttack2Htight),
            38i64 => Some(Emote::OneshotAttack2Hloose),
            39i64 => Some(Emote::OneshotParryunarmed),
            43i64 => Some(Emote::OneshotParryshield),
            44i64 => Some(Emote::OneshotReadyunarmed),
            45i64 => Some(Emote::OneshotReady1H),
            48i64 => Some(Emote::OneshotReadybow),
            50i64 => Some(Emote::OneshotSpellprecast),
            51i64 => Some(Emote::OneshotSpellcast),
            53i64 => Some(Emote::OneshotBattleroar),
            54i64 => Some(Emote::OneshotSpecialattack1H),
            60i64 => Some(Emote::OneshotKick),
            61i64 => Some(Emote::OneshotAttackthrown),
            64i64 => Some(Emote::StateStun),
            65i64 => Some(Emote::StateDead),
            66i64 => Some(Emote::OneshotSalute),
            68i64 => Some(Emote::StateKneel),
            69i64 => Some(Emote::StateUsestanding),
            70i64 => Some(Emote::OneshotWaveNosheathe),
            71i64 => Some(Emote::OneshotCheerNosheathe),
            92i64 => Some(Emote::OneshotEatNosheathe),
            93i64 => Some(Emote::StateStunNosheathe),
            94i64 => Some(Emote::OneshotDance),
            113i64 => Some(Emote::OneshotSaluteNosheath),
            133i64 => Some(Emote::StateUsestandingNosheathe),
            153i64 => Some(Emote::OneshotLaughNosheathe),
            173i64 => Some(Emote::StateWork),
            193i64 => Some(Emote::StateSpellprecast),
            213i64 => Some(Emote::OneshotReadyrifle),
            214i64 => Some(Emote::StateReadyrifle),
            233i64 => Some(Emote::StateWorkMining),
            234i64 => Some(Emote::StateWorkChopwood),
            253i64 => Some(Emote::StateApplaud),
            254i64 => Some(Emote::OneshotLiftoff),
            273i64 => Some(Emote::OneshotYes),
            274i64 => Some(Emote::OneshotNo),
            275i64 => Some(Emote::OneshotTrain),
            293i64 => Some(Emote::OneshotLand),
            313i64 => Some(Emote::StateAtEase),
            333i64 => Some(Emote::StateReady1H),
            353i64 => Some(Emote::StateSpellkneelstart),
            373i64 => Some(Emote::StateSubmerged),
            374i64 => Some(Emote::OneshotSubmerge),
            375i64 => Some(Emote::StateReady2H),
            376i64 => Some(Emote::StateReadybow),
            377i64 => Some(Emote::OneshotMountspecial),
            378i64 => Some(Emote::StateTalk),
            379i64 => Some(Emote::StateFishing),
            380i64 => Some(Emote::OneshotFishing),
            381i64 => Some(Emote::OneshotLoot),
            382i64 => Some(Emote::StateWhirlwind),
            383i64 => Some(Emote::StateDrowned),
            384i64 => Some(Emote::StateHoldBow),
            385i64 => Some(Emote::StateHoldRifle),
            386i64 => Some(Emote::StateHoldThrown),
            387i64 => Some(Emote::OneshotDrown),
            388i64 => Some(Emote::OneshotStomp),
            389i64 => Some(Emote::OneshotAttackoff),
            390i64 => Some(Emote::OneshotAttackoffpierce),
            391i64 => Some(Emote::StateRoar),
            392i64 => Some(Emote::StateLaugh),
            393i64 => Some(Emote::OneshotCreatureSpecial),
            394i64 => Some(Emote::OneshotJumplandrun),
            395i64 => Some(Emote::OneshotJumpend),
            396i64 => Some(Emote::OneshotTalkNosheathe),
            397i64 => Some(Emote::OneshotPointNosheathe),
            398i64 => Some(Emote::StateCannibalize),
            399i64 => Some(Emote::OneshotJumpstart),
            400i64 => Some(Emote::StateDancespecial),
            401i64 => Some(Emote::OneshotDancespecial),
            402i64 => Some(Emote::OneshotCustomspell01),
            403i64 => Some(Emote::OneshotCustomspell02),
            404i64 => Some(Emote::OneshotCustomspell03),
            405i64 => Some(Emote::OneshotCustomspell04),
            406i64 => Some(Emote::OneshotCustomspell05),
            407i64 => Some(Emote::OneshotCustomspell06),
            408i64 => Some(Emote::OneshotCustomspell07),
            409i64 => Some(Emote::OneshotCustomspell08),
            410i64 => Some(Emote::OneshotCustomspell09),
            411i64 => Some(Emote::OneshotCustomspell10),
            412i64 => Some(Emote::StateExclaim),
            415i64 => Some(Emote::StateSitChairMed),
            422i64 => Some(Emote::StateSpelleffectHold),
            423i64 => Some(Emote::StateEatNoSheathe),
            _ => None,
        }
    }

    /// Distinct values stand for distinct numbers, so reading back the number of
    /// a value gives that value.
    pub proof fn lemma_value_injective(a: Self, b: Self)
        ensures
            a.spec_value() == b.spec_value() ==> a == b,
    {
        match a {
            Emote::OneshotNone => {},
            Emote::OneshotTalk => {},
            Emote::OneshotBow => {},
            Emote::OneshotWave => {},
            Emote::OneshotCheer => {},
            Emote::OneshotExclamation => {},
            Emote::OneshotQuestion => {},
            Emote::OneshotEat => {},
            Emote::StateDance => {},
            Emote::OneshotLaugh => {},
            Emote::StateSleep => {},
            Emote::StateSit => {},
            Emote::OneshotRude => {},
            Emote::OneshotRoar => {},
            Emote::OneshotKneel => {},
            Emote::OneshotKiss => {},
            Emote::OneshotCry => {},
            Emote::OneshotChicken => {},
            Emote::OneshotBeg => {},
            Emote::OneshotApplaud => {},
            Emote::OneshotShout => {},
            Emote::OneshotFlex => {},
            Emote::OneshotShy => {},
            Emote::OneshotPoint => {},
            Emote::StateStand => {},
            Emote::StateReadyunarmed => {},
            Emote::StateWorkSheathed => {},
            Emote::StatePoint => {},
            Emote::StateNone => {},
            Emote::OneshotWound => {},
            Emote::OneshotWoundcritical => {},
            Emote::OneshotAttackunarmed => {},
            Emote::OneshotAttack1H => {},
            Emote::OneshotAttack2Htight => {},
            Emote::OneshotAttack2Hloose => {},
            Emote::OneshotParryunarmed => {},
            Emote::OneshotParryshield => {},
            Emote::OneshotReadyunarmed => {},
            Emote::OneshotReady1H => {},
            Emote::OneshotReadybow => {},
            Emote::OneshotSpellprecast => {},
            Emote::OneshotSpellcast => {},
            Emote::OneshotBattleroar => {},
            Emote::OneshotSpecialattack1H => {},
            Emote::OneshotKick => {},
            Emote::OneshotAttackthrown => {},
            Emote::StateStun => {},
            Emote::StateDead => {},
            Emote::OneshotSalute => {},
            Emote::StateKneel => {},
            Emote::StateUsestanding => {},
            Emote::OneshotWaveNosheathe => {},
            Emote::OneshotCheerNosheathe => {},
            Emote::OneshotEatNosheathe => {},
            Emote::StateStunNosheathe => {},
            Emote::OneshotDance => {},
            Emote::OneshotSaluteNosheath => {},
            Emote::StateUsestandingNosheathe => {},
            Emote::OneshotLaughNosheathe => {},
            Emote::StateWork => {},
            Emote::StateSpellprecast => {},
            Emote::OneshotReadyrifle => {},
            Emote::StateReadyrifle => {},
            Emote::StateWorkMining => {},
            Emote::StateWorkChopwood => {},
            Emote::StateApplaud => {},
            Emote::OneshotLiftoff => {},
            Emote::OneshotYes => {},
            Emote::OneshotNo => {},
            Emote::OneshotTrain => {},
            Emote::OneshotLand => {},
            Emote::StateAtEase => {},
            Emote::StateReady1H => {},
            Emote::StateSpellkneelstart => {},
            Emote::StateSubmerged => {},
            Emote::OneshotSubmerge => {},
            Emote::StateReady2H => {},
            Emote::StateReadybow => {},
            Emote::OneshotMountspecial => {},
            Emote::StateTalk => {},
            Emote::StateFishing => {},
            Emote::OneshotFishing => {},
            Emote::OneshotLoot => {},
            Emote::StateWhirlwind => {},
            Emote::StateDrowned => {},
            Emote::StateHoldBow => {},
            Emote::StateHoldRifle => {},
            Emote::StateHoldThrown => {},
            Emote::OneshotDrown => {},
            Emote::OneshotStomp => {},
            Emote::OneshotAttackoff => {},
            Emote::OneshotAttackoffpierce => {},
            Emote::StateRoar => {},
            Emote::StateLaugh => {},
            Emote::OneshotCreatureSpecial => {},
            Emote::OneshotJumplandrun => {},
            Emote::OneshotJumpend => {},
            Emote::OneshotTalkNosheathe => {},
            Emote::OneshotPointNosheathe => {},
            Emote::StateCannibalize => {},
            Emote::OneshotJumpstart => {},
            Emote::StateDancespecial => {},
            Emote::OneshotDancespecial => {},
            Emote::OneshotCustomspell01 => {},
            Emote::OneshotCustomspell02 => {},
            Emote::OneshotCustomspell03 => {},
            Emote::OneshotCustomspell04 => {},
            Emote::OneshotCustomspell05 => {},
            Emote::OneshotCustomspell06 => {},
            Emote::OneshotCustomspell07 => {},
            Emote::OneshotCustomspell08 => {},
            Emote::OneshotCustomspell09 => {},
            Emote::OneshotCustomspell10 => {},
            Emote::StateExclaim => {},
            Emote::StateSitChairMed => {},
            Emote::StateSpelleffectHold => {},
            Emote::StateEatNoSheathe => {},
        }
    }
}

#[derive(Clone, Copy, Debug, PartialEq, Eq, Structural, Hash)]
pub enum SpellEffect {
    Nil,
    Instakill,
    SchoolDamage,
    Dummy,
    PortalTeleport,
    TeleportUnits,
    ApplyAura,
    EnvironmentalDamage,
    PowerDrain,
    HealthLeech,
    Heal,
    Bind,
    Portal,
    RitualBase,
    RitualSpecialize,
    RitualActivatePortal,
    QuestComplete,
    WeaponDamageNoSchool,
    Resurrect,
    AddExtraAttacks,
    Dodge,
    Evade,
    Parry,
    Block,
    CreateItem,
    Weapon,
    Defense,
    PersistentAreaAura,
    Summon,
    Leap,
    Energize,
    WeaponPercentDamage,
    TriggerMissile,
    OpenLock,
    SummonChangeItem,
    ApplyAreaAuraParty,
    LearnSpell,
    SpellDefense,
    Dispel,
    Language,
    DualWield,
    Jump,
    JumpDest,
    TeleportUnitsFaceCaster,
    SkillStep,
    AddHonor,
    Spawn,
    TradeSkill,
    Stealth,
    Detect,
    TransDoor,
    ForceCriticalHit,
    GuaranteeHit,
    EnchantItem,
    EnchantItemTemporary,
    TameCreature,
    SummonPet,
    LearnPetSpell,
    WeaponDamage,
    OpenLockItem,
    Proficiency,
    SendEvent,
    PowerBurn,
    Threat,
    TriggerSpell,
    HealthFunnel,
    PowerFunnel,
    HealMaxHealth,
    InterruptCast,
    Distract,
    Pull,
    Pickpocket,
    AddFarsight,
    Unused73,
    Unused74,
    HealMechanical,
    SummonObjectWild,
    ScriptEffect,
    Attack,
    Sanctuary,
    AddComboPoints,
    CreateHouse,
    BindSight,
    Duel,
    Stuck,
    SummonPlayer,
    ActivateObject,
    Unused87,
    Unused88,
    Unused89,
    Unused90,
    ThreatAll,
    EnchantHeldItem,
    Unused93,
    SelfResurrect,
    Skinning,
    Charge,
    Unused97,
    KnockBack,
    Disenchant,
    Inebriate,
    FeedPet,
    DismissPet,
    Reputation,
    SummonObjectSlot1,
    SummonObjectSlot2,
    SummonObjectSlot3,
    SummonObjectSlot4,
    DispelMechanic,
    SummonDeadPet,
    DestroyAllTotems,
    DurabilityDamage,
    Unused112,
    ResurrectNew,
    AttackMe,
    DurabilityDamagePct,
    SkinPlayerCorpse,
    SpiritHeal,
    Skill,
    ApplyAreaAuraPet,
    TeleportGraveyard,
    NormalizedWeaponDmg,
    Unused122,
    SendTaxi,
    PlayerPull,
    ModifyThreatPercent,
    StealBeneficialBuff,
    Prospecting,
    ApplyAreaAuraFriend,
    ApplyAreaAuraEnemy,
    RedirectThreat,
    PlaySound,
    PlayMusic,
    UnlearnSpecialization,
    KillCreditGroup,
    CallPet,
    HealPct,
    EnergizePct,
    LeapBack,
    ClearQuest,
    ForceCast,
    ForceCastWithValue,
    TriggerSpellWithValue,
    ApplyAreaAuraOwner,
    KnockbackFromPosition,
    PlayerPullTowardsDest,
    Unused146,
    QuestFail,
    Unused148,
    ChargeDest,
    Unused150,
    TriggerSpell2,
    SummonReferAFriend,
    CreateTamedPet,
}

impl SpellEffect {
    /// The number that stands for this value on the wire and in the database.
    pub open spec fn spec_value(self) -> i64 {
        match self {
            SpellEffect::Nil => 0i64,
            SpellEffect::Instakill => 1i64,
            SpellEffect::SchoolDamage => 2i64,
            SpellEffect::Dummy => 3i64,
            SpellEffect::PortalTeleport => 4i64,
            SpellEffect::TeleportUnits => 5i64,
            SpellEffect::ApplyAura => 6i64,
            SpellEffect::EnvironmentalDamage => 7i64,
            SpellEffect::PowerDrain => 8i64,
            SpellEffect::HealthLeech => 9i64,
            SpellEffect::Heal => 10i64,
            SpellEffect::Bind => 11i64,
            SpellEffect::Portal => 12i64,
            SpellEffect::RitualBase => 13i64,
            SpellEffect::RitualSpecialize => 14i64,
            SpellEffect::RitualActivatePortal => 15i64,
            SpellEffect::QuestComplete => 16i64,
            SpellEffect::WeaponDamageNoSchool => 17i64,
            SpellEffect::Resurrect => 18i64,
            SpellEffect::AddExtraAttacks => 19i64,
            SpellEffect::Dodge => 20i64,
            SpellEffect::Evade => 21i64,
            SpellEffect::Parry => 22i64,
            SpellEffect::Block => 23i64,
            SpellEffect::CreateItem => 24i64,
            SpellEffect::Weapon => 25i64,
            SpellEffect::Defense => 26i64,
            SpellEffect::PersistentAreaAura => 27i64,
            SpellEffect::Summon => 28i64,
            SpellEffect::Leap => 29i64,
            SpellEffect::Energize => 30i64,
            SpellEffect::WeaponPercentDamage => 31i64,
            SpellEffect::TriggerMissile => 32i64,
            SpellEffect::OpenLock => 33i64,
            SpellEffect::SummonChangeItem => 34i64,
            SpellEffect::ApplyAreaAuraParty => 35i64,
            SpellEffect::LearnSpell => 36i64,
            SpellEffect::SpellDefense => 37i64,
            SpellEffect::Dispel => 38i64,
            SpellEffect::Language => 39i64,
            SpellEffect::DualWield => 40i64,
            SpellEffect::Jump => 41i64,
            SpellEffect::JumpDest => 42i64,
            SpellEffect::TeleportUnitsFaceCaster => 43i64,
            SpellEffect::SkillStep => 44i64,
            SpellEffect::AddHonor => 45i64,
            SpellEffect::Spawn => 46i64,
            SpellEffect::TradeSkill => 47i64,
            SpellEffect::Stealth => 48i64,
            SpellEffect::Detect => 49i64,
            SpellEffect::TransDoor => 50i64,
            SpellEffect::ForceCriticalHit => 51i64,
            SpellEffect::GuaranteeHit => 52i64,
            SpellEffect::EnchantItem => 53i64,
            SpellEffect::EnchantItemTemporary => 54i64,
            SpellEffect::TameCreature => 55i64,
            SpellEffect::SummonPet => 56i64,
            SpellEffect::LearnPetSpell => 57i64,
            SpellEffect::WeaponDamage => 58i64,
            SpellEffect::OpenLockItem => 59i64,
            SpellEffect::Proficiency => 60i64,
            SpellEffect::SendEvent => 61i64,
            SpellEffect::PowerBurn => 62i64,
            SpellEffect::Threat => 63i64,
            SpellEffect::TriggerSpell => 64i64,
            SpellEffect::HealthFunnel => 65i64,
            SpellEffect::PowerFunnel => 66i64,
            SpellEffect::HealMaxHealth => 67i64,
            SpellEffect::InterruptCast => 68i64,
            SpellEffect::Distract => 69i64,
            SpellEffect::Pull => 70i64,
            SpellEffect::Pickpocket => 71i64,
            SpellEffect::AddFarsight => 72i64,
            SpellEffect::Unused73 => 73i64,
            SpellEffect::Unused74 => 74i64,
            SpellEffect::HealMechanical => 75i64,
            SpellEffect::SummonObjectWild => 76i64,
            SpellEffect::ScriptEffect => 77i64,
            SpellEffect::Attack => 78i64,
            SpellEffect::Sanctuary => 79i64,
            SpellEffect::AddComboPoints => 80i64,
            SpellEffect::CreateHouse => 81i64,
            SpellEffect::BindSight => 82i64,
            SpellEffect::Duel => 83i64,
            SpellEffect::Stuck => 84i64,
            SpellEffect::SummonPlayer => 85i64,
            SpellEffect::ActivateObject => 86i64,
            SpellEffect::Unused87 => 87i64,
            SpellEffect::Unused88 => 88i64,
            SpellEffect::Unused89 => 89i64,
            SpellEffect::Unused90 => 90i64,
            SpellEffect::ThreatAll => 91i64,
            SpellEffect::EnchantHeldItem => 92i64,
            SpellEffect::Unused93 => 93i64,
            SpellEffect::SelfResurrect => 94i64,
            SpellEffect::Skinning => 95i64,
            SpellEffect::Charge => 96i64,
            SpellEffect::Unused97 => 97i64,
            SpellEffect::KnockBack => 98i64,
            SpellEffect::Disenchant => 99i64,
            SpellEffect::Inebriate => 100i64,
            SpellEffect::FeedPet => 101i64,
            SpellEffect::DismissPet => 102i64,
            SpellEffect::Reputation => 103i64,
            SpellEffect::SummonObjectSlot1 => 104i64,
            SpellEffect::SummonObjectSlot2 => 105i64,
            SpellEffect::SummonObjectSlot3 => 106i64,
            SpellEffect::SummonObjectSlot4 => 107i64,
            SpellEffect::DispelMechanic => 108i64,
            SpellEffect::SummonDeadPet => 109i64,
            SpellEffect::DestroyAllTotems => 110i64,
            SpellEffect::DurabilityDamage => 111i64,
            SpellEffect::Unused112 => 112i64,
            SpellEffect::ResurrectNew => 113i64,
            SpellEffect::AttackMe => 114i64,
            SpellEffect::DurabilityDamagePct => 115i64,
            SpellEffect::SkinPlayerCorpse => 116i64,
            SpellEffect::SpiritHeal => 117i64,
            SpellEffect::Skill => 118i64,
            SpellEffect::ApplyAreaAuraPet => 119i64,
            SpellEffect::TeleportGraveyard => 120i64,
            SpellEffect::NormalizedWeaponDmg => 121i64,
            SpellEffect::Unused122 => 122i64,
            SpellEffect::SendTaxi => 123i64,
            SpellEffect::PlayerPull => 124i64,
            SpellEffect::ModifyThreatPercent => 125i64,
            SpellEffect::StealBeneficialBuff => 126i64,
            SpellEffect::Prospecting => 127i64,
            SpellEffect::ApplyAreaAuraFriend => 128i64,
            SpellEffect::ApplyAreaAuraEnemy => 129i64,
            SpellEffect::RedirectThreat => 130i64,
            SpellEffect::PlaySound => 131i64,
            SpellEffect::PlayMusic => 132i64,
            SpellEffect::UnlearnSpecialization => 133i64,
            SpellEffect::KillCreditGroup => 134i64,
            SpellEffect::CallPet => 135i64,
            SpellEffect::HealPct => 136i64,
            SpellEffect::EnergizePct => 137i64,
            SpellEffect::LeapBack => 138i64,
            SpellEffect::ClearQuest => 139i64,
            SpellEffect::ForceCast => 140i64,
            SpellEffect::ForceCastWithValue => 141i64,
            SpellEffect::TriggerSpellWithValue => 142i64,
            SpellEffect::ApplyAreaAuraOwner => 143i64,
            SpellEffect::KnockbackFromPosition => 144i64,
            SpellEffect::PlayerPullTowardsDest => 145i64,
            SpellEffect::Unused146 => 146i64,
            SpellEffect::QuestFail => 147i64,
            SpellEffect::Unused148 => 148i64,
            SpellEffect::ChargeDest => 149i64,
            SpellEffect::Unused150 => 150i64,
            SpellEffect::TriggerSpell2 => 151i64,
            SpellEffect::SummonReferAFriend => 152i64,
            SpellEffect::CreateTamedPet => 153i64,
        }
    }

    /// The number that stands for this value.
    pub fn value(self) -> (r: i64)
        ensures
            r == self.spec_value(),
    {
        match self {
            SpellEffect::Nil => 0i64,
            SpellEffect::Instakill => 1i64,
            SpellEffect::SchoolDamage => 2i64,
            SpellEffect::Dummy => 3i64,
            SpellEffect::PortalTeleport => 4i64,
            SpellEffect::TeleportUnits => 5i64,
            SpellEffect::ApplyAura => 6i64,
            SpellEffect::EnvironmentalDamage => 7i64,
            SpellEffect::PowerDrain => 8i64,
            SpellEffect::HealthLeech => 9i64,
            SpellEffect::Heal => 10i64,
            SpellEffect::Bind => 11i64,
            SpellEffect::Portal => 12i64,
            SpellEffect::RitualBase => 13i64,
            SpellEffect::RitualSpecialize => 14i64,
            SpellEffect::RitualActivatePortal => 15i64,
            SpellEffect::QuestComplete => 16i64,
            SpellEffect::WeaponDamageNoSchool => 17i64,
            SpellEffect::Resurrect => 18i64,
            SpellEffect::AddExtraAttacks => 19i64,
            SpellEffect::Dodge => 20i64,
            SpellEffect::Evade => 21i64,
            SpellEffect::Parry => 22i64,
            SpellEffect::Block => 23i64,
            SpellEffect::CreateItem => 24i64,
            SpellEffect::Weapon => 25i64,
            SpellEffect::Defense => 26i64,
            SpellEffect::PersistentAreaAura => 27i64,
            SpellEffect::Summon => 28i64,
            SpellEffect::Leap => 29i64,
            SpellEffect::Energize => 30i64,
            SpellEffect::WeaponPercentDamage => 31i64,
            SpellEffect::TriggerMissile => 32i64,
            SpellEffect::OpenLock => 33i64,
            SpellEffect::SummonChangeItem => 34i64,
            SpellEffect::ApplyAreaAuraParty => 35i64,
            SpellEffect::LearnSpell => 36i64,
            SpellEffect::SpellDefense => 37i64,
            SpellEffect::Dispel => 38i64,
            SpellEffect::Language => 39i64,
            SpellEffect::DualWield => 40i64,
            SpellEffect::Jump => 41i64,
            SpellEffect::JumpDest => 42i64,
            SpellEffect::TeleportUnitsFaceCaster => 43i64,
            SpellEffect::SkillStep => 44i64,
            SpellEffect::AddHonor => 45i64,
            SpellEffect::Spawn => 46i64,
            SpellEffect::TradeSkill => 47i64,
            SpellEffect::Stealth => 48i64,
            SpellEffect::Detect => 49i64,
            SpellEffect::TransDoor => 50i64,
            SpellEffect::ForceCriticalHit => 51i64,
            SpellEffect::GuaranteeHit => 52i64,
            SpellEffect::EnchantItem => 53i64,
            SpellEffect::EnchantItemTemporary => 54i64,
            SpellEffect::TameCreature => 55i64,
            SpellEffect::SummonPet => 56i64,
            SpellEffect::LearnPetSpell => 57i64,
            SpellEffect::WeaponDamage => 58i64,
            SpellEffect::OpenLockItem => 59i64,
            SpellEffect::Proficiency => 60i64,
            SpellEffect::SendEvent => 61i64,
            SpellEffect::PowerBurn => 62i64,
            SpellEffect::Threat => 63i64,
            SpellEffect::TriggerSpell => 64i64,
            SpellEffect::HealthFunnel => 65i64,
            SpellEffect::PowerFunnel => 66i64,
            SpellEffect::HealMaxHealth => 67i64,
            SpellEffect::InterruptCast => 68i64,
            SpellEffect::Distract => 69i64,
            SpellEffect::Pull => 70i64,
            SpellEffect::Pickpocket => 71i64,
            SpellEffect::AddFarsight => 72i64,
            SpellEffect::Unused73 => 73i64,
            SpellEffect::Unused74 => 74i64,
            SpellEffect::HealMechanical => 75i64,
            SpellEffect::SummonObjectWild => 76i64,
            SpellEffect::ScriptEffect => 77i64,
            SpellEffect::Attack => 78i64,
            SpellEffect::Sanctuary => 79i64,
            SpellEffect::AddComboPoints => 80i64,
            SpellEffect::CreateHouse => 81i64,
            SpellEffect::BindSight => 82i64,
            SpellEffect::Duel => 83i64,
            SpellEffect::Stuck => 84i64,
            SpellEffect::SummonPlayer => 85i64,
            SpellEffect::ActivateObject => 86i64,
            SpellEffect::Unused87 => 87i64,
            SpellEffect::Unused88 => 88i64,
            SpellEffect::Unused89 => 89i64,
            SpellEffect::Unused90 => 90i64,
            SpellEffect::ThreatAll => 91i64,
            SpellEffect::EnchantHeldItem => 92i64,
            SpellEffect::Unused93 => 93i64,
            SpellEffect::SelfResurrect => 94i64,
            SpellEffect::Skinning => 95i64,
            SpellEffect::Charge => 96i64,
            SpellEffect::Unused97 => 97i64,
            SpellEffect::KnockBack => 98i64,
            SpellEffect::Disenchant => 99i64,
            SpellEffect::Inebriate => 100i64,
            SpellEffect::FeedPet => 101i64,
            SpellEffect::DismissPet => 102i64,
            SpellEffect::Reputation => 103i64,
            SpellEffect::SummonObjectSlot1 => 104i64,
            SpellEffect::SummonObjectSlot2 => 105i64,
            SpellEffect::SummonObjectSlot3 => 106i64,
            SpellEffect::SummonObjectSlot4 => 107i64,
            SpellEffect::DispelMechanic => 108i64,
            SpellEffect::SummonDeadPet => 109i64,
            SpellEffect::DestroyAllTotems => 110i64,
            SpellEffect::DurabilityDamage => 111i64,
            SpellEffect::Unused112 => 112i64,
            SpellEffect::ResurrectNew => 113i64,
            SpellEffect::AttackMe => 114i64,
            SpellEffect::DurabilityDamagePct => 115i64,
            SpellEffect::SkinPlayerCorpse => 116i64,
            SpellEffect::SpiritHeal => 117i64,
            SpellEffect::Skill => 118i64,
            SpellEffect::ApplyAreaAuraPet => 119i64,
            SpellEffect::TeleportGraveyard => 120i64,
            SpellEffect::NormalizedWeaponDmg => 121i64,
            SpellEffect::Unused122 => 122i64,
            SpellEffect::SendTaxi => 123i64,
            SpellEffect::PlayerPull => 124i64,
            SpellEffect::ModifyThreatPercent => 125i64,
            SpellEffect::StealBeneficialBuff => 126i64,
            SpellEffect::Prospecting => 127i64,
            SpellEffect::ApplyAreaAuraFriend => 128i64,
            SpellEffect::ApplyAreaAuraEnemy => 129i64,
            SpellEffect::RedirectThreat => 130i64,
            SpellEffect::PlaySound => 131i64,
            SpellEffect::PlayMusic => 132i64,
            SpellEffect::UnlearnSpecialization => 133i64,
            SpellEffect::KillCreditGroup => 134i64,
            SpellEffect::CallPet => 135i64,
            SpellEffect::HealPct => 136i64,
            SpellEffect::EnergizePct => 137i64,
            SpellEffect::LeapBack => 138i64,
            SpellEffect::ClearQuest => 139i64,
            SpellEffect::ForceCast => 140i64,
            SpellEffect::ForceCastWithValue => 141i64,
            SpellEffect::TriggerSpellWithValue => 142i64,
            SpellEffect::ApplyAreaAuraOwner => 143i64,
            SpellEffect::KnockbackFromPosition => 144i64,
            SpellEffect::PlayerPullTowardsDest => 145i64,
            SpellEffect::Unused146 => 146i64,
            SpellEffect::QuestFail => 147i64,
            SpellEffect::Unused148 => 148i64,
            SpellEffect::ChargeDest => 149i64,
            SpellEffect::Unused150 => 150i64,
            SpellEffect::TriggerSpell2 => 151i64,
            SpellEffect::SummonReferAFriend => 152i64,
            SpellEffect::CreateTamedPet => 153i64,
        }
    }

    /// The value that `v` stands for, if any.
    pub fn n(v: i64) -> (r: Option<Self>)
        ensures
            r matches Some(e) ==> e.spec_value() == v,
            r is None ==> forall|e: Self| e.spec_value() != v,
    {
        match v {
            0i64 => Some(SpellEffect::Nil),
            1i64 => Some(SpellEffect::Instakill),
            2i64 => Some(SpellEffect::SchoolDamage),
            3i64 => Some(SpellEffect::Dummy),
            4i64 => Some(SpellEffect::PortalTeleport),
            5i64 => Some(SpellEffect::TeleportUnits),
            6i64 => Some(SpellEffect::ApplyAura),
            7i64 => Some(SpellEffect::EnvironmentalDamage),
            8i64 => Some(SpellEffect::PowerDrain),
            9i64 => Some(SpellEffect::HealthLeech),
            10i64 => Some(SpellEffect::Heal),
            11i64 => Some(SpellEffect::Bind),
            12i64 => Some(SpellEffect::Portal),
            13i64 => Some(SpellEffect::RitualBase),
            14i64 => Some(SpellEffect::RitualSpecialize),
            15i64 => Some(SpellEffect::RitualActivatePortal),
            16i64 => Some(SpellEffect::QuestComplete),
            17i64 => Some(SpellEffect::WeaponDamageNoSchool),
            18i64 => Some(SpellEffect::Resurrect),
            19i64 => Some(SpellEffect::AddExtraAttacks),
            20i64 => Some(SpellEffect::Dodge),
            21i64 => Some(SpellEffect::Evade),
            22i64 => Some(SpellEffect::Parry),
            23i64 => Some(SpellEffect::Block),
            24i64 => Some(SpellEffect::CreateItem),
            25i64 => Some(SpellEffect::Weapon),
            26i64 => Some(SpellEffect::Defense),
            27i64 => Some(SpellEffect::PersistentAreaAura),
            28i64 => Some(SpellEffect::Summon),
            29i64 => Some(SpellEffect::Leap),
            30i64 => Some(SpellEffect::Energize),
            31i64 => Some(SpellEffect::WeaponPercentDamage),
            32i64 => Some(SpellEffect::TriggerMissile),
            33i64 => Some(SpellEffect::OpenLock),
            34i64 => Some(SpellEffect::SummonChangeItem),
            35i64 => Some(SpellEffect::ApplyAreaAuraParty),
            36i64 => Some(SpellEffect::LearnSpell),
            37i64 => Some(SpellEffect::SpellDefense),
            38i64 => Some(SpellEffect::Dispel),
            39i64 => Some(SpellEffect::Language),
            40i64 => Some(SpellEffect::DualWield),
            41i64 => Some(SpellEffect::Jump),
            42i64 => Some(SpellEffect::JumpDest),
            43i64 => Some(SpellEffect::TeleportUnitsFaceCaster),
            44i64 => Some(SpellEffect::SkillStep),
            45i64 => Some(SpellEffect::AddHonor),
            46i64 => Some(SpellEffect::Spawn),
            47i64 => Some(SpellEffect::TradeSkill),
            48i64 => Some(SpellEffect::Stealth),
            49i64 => Some(SpellEffect::Detect),
            50i64 => Some(SpellEffect::TransDoor),
            51i64 => Some(SpellEffect::ForceCriticalHit),
            52i64 => Some(SpellEffect::GuaranteeHit),
            53i64 => Some(SpellEffect::EnchantItem),
            54i64 => Some(SpellEffect::EnchantItemTemporary),
            55i64 => Some(SpellEffect::TameCreature),
            56i64 => Some(SpellEffect::SummonPet),
            57i64 => Some(SpellEffect::LearnPetSpell),
            58i64 => Some(SpellEffect::WeaponDamage),
            59i64 => Some(SpellEffect::OpenLockItem),
            60i64 => Some(SpellEffect::Proficiency),
            61i64 => Some(SpellEffect::SendEvent),
            62i64 => Some(SpellEffect::PowerBurn),
            63i64 => Some(SpellEffect::Threat),
            64i64 => Some(SpellEffect::TriggerSpell),
            65i64 => Some(SpellEffect::HealthFunnel),
            66i64 => Some(SpellEffect::PowerFunnel),
            67i64 => Some(SpellEffect::HealMaxHealth),
            68i64 => Some(SpellEffect::InterruptCast),
            69i64 => Some(SpellEffect::Distract),
            70i64 => Some(SpellEffect::Pull),
            71i64 => Some(SpellEffect::Pickpocket),
            72i64 => Some(SpellEffect::AddFarsight),
            73i64 => Some(SpellEffect::Unused73),
            74i64 => Some(SpellEffect::Unused74),
            75i64 => Some(SpellEffect::HealMechanical),
            76i64 => Some(SpellEffect::SummonObjectWild),
            77i64 => Some(SpellEffect::ScriptEffect),
            78i64 => Some(SpellEffect::Attack),
            79i64 => Some(SpellEffect::Sanctuary),
            80i64 => Some(SpellEffect::AddComboPoints),
            81i64 => Some(SpellEffect::CreateHouse),
            82i64 => Some(SpellEffect::BindSight),
            83i64 => Some(SpellEffect::Duel),
            84i64 => Some(SpellEffect::Stuck),
            85i64 => Some(SpellEffect::SummonPlayer),
            86i64 => Some(SpellEffect::ActivateObject),
            87i64 => Some(SpellEffect::Unused87),
            88i64 => Some(SpellEffect::Unused88),
            89i64 => Some(SpellEffect::Unused89),
            90i64 => Some(SpellEffect::Unused90),
            91i64 => Some(SpellEffect::ThreatAll),
            92i64 => Some(SpellEffect::EnchantHeldItem),
            93i64 => Some(SpellEffect::Unused93),
            94i64 => Some(SpellEffect::SelfResurrect),
            95i64 => Some(SpellEffect::Skinning),
            96i64 => Some(SpellEffect::Charge),
            97i64 => Some(SpellEffect::Unused97),
            98i64 => Some(SpellEffect::KnockBack),
            99i64 => Some(SpellEffect::Disenchant),
            100i64 => Some(SpellEffect::Inebriate),
            101i64 => Some(SpellEffect::FeedPet),
            102i64 => Some(SpellEffect::DismissPet),
            103i64 => Some(SpellEffect::Reputation),
            104i64 => Some(SpellEffect::SummonObjectSlot1),
            105i64 => Some(SpellEffect::SummonObjectSlot2),
            106i64 => Some(SpellEffect::SummonObjectSlot3),
            107i64 => Some(SpellEffect::SummonObjectSlot4),
            108i64 => Some(SpellEffect::DispelMechanic),
            109i64 => Some(SpellEffect::SummonDeadPet),
            110i64 => Some(SpellEffect::DestroyAllTotems),
            111i64 => Some(SpellEffect::DurabilityDamage),
            112i64 => Some(SpellEffect::Unused112),
            113i64 => Some(SpellEffect::ResurrectNew),
            114i64 => Some(SpellEffect::AttackMe),
            115i64 => Some(SpellEffect::DurabilityDamagePct),
            116i64 => Some(SpellEffect::SkinPlayerCorpse),
            117i64 => Some(SpellEffect::SpiritHeal),
            118i64 => Some(SpellEffect::Skill),
            119i64 => Some(SpellEffect::ApplyAreaAuraPet),
            120i64 => Some(SpellEffect::TeleportGraveyard),
            121i64 => Some(SpellEffect::NormalizedWeaponDmg),
            122i64 => Some(SpellEffect::Unused122),
            123i64 => Some(SpellEffect::SendTaxi),
            124i64 => Some(SpellEffect::PlayerPull),
            125i64 => Some(SpellEffect::ModifyThreatPercent),
            126i64 => Some(SpellEffect::StealBeneficialBuff),
            127i64 => Some(SpellEffect::Prospecting),
            128i64 => Some(SpellEffect::ApplyAreaAuraFriend),
            129i64 => Some(SpellEffect::ApplyAreaAuraEnemy),
            130i64 => Some(SpellEffect::RedirectThreat),
            131i64 => Some(SpellEffect::PlaySound),
            132i64 => Some(SpellEffect::PlayMusic),
            133i64 => Some(SpellEffect::UnlearnSpecialization),
            134i64 => Some(SpellEffect::KillCreditGroup),
            135i64 => Some(SpellEffect::CallPet),
            136i64 => Some(SpellEffect::HealPct),
            137i64 => Some(SpellEffect::EnergizePct),
            138i64 => Some(SpellEffect::LeapBack),
            139i64 => Some(SpellEffect::ClearQuest),
            140i64 => Some(SpellEffect::ForceCast),
            141i64 => Some(SpellEffect::ForceCastWithValue),
            142i64 => Some(SpellEffect::TriggerSpellWithValue),
            143i64 => Some(SpellEffect::ApplyAreaAuraOwner),
            144i64 => Some(SpellEffect::KnockbackFromPosition),
            145i64 => Some(SpellEffect::PlayerPullTowardsDest),
            146i64 => Some(SpellEffect::Unused146),
            147i64 => Some(SpellEffect::QuestFail),
            148i64 => Some(SpellEffect::Unused148),
            149i64 => Some(SpellEffect::ChargeDest),
            150i64 => Some(SpellEffect::Unused150),
            151i64 => Some(SpellEffect::TriggerSpell2),
            152i64 => Some(SpellEffect::SummonReferAFriend),
            153i64 => Some(SpellEffect::CreateTamedPet),
            _ => None,
        }
    }

    /// Distinct values stand for distinct numbers, so reading back the number of
    /// a value gives that value.
    pub proof fn lemma_value_injective(a: Self, b: Self)
        ensures
            a.spec_value() == b.spec_value() ==> a == b,
    {
        match a {
            SpellEffect::Nil => {},
            SpellEffect::Instakill => {},
            SpellEffect::SchoolDamage => {},
            SpellEffect::Dummy => {},
            SpellEffect::PortalTeleport => {},
            SpellEffect::TeleportUnits => {},
            SpellEffect::ApplyAura => {},
            SpellEffect::EnvironmentalDamage => {},
            SpellEffect::PowerDrain => {},
            SpellEffect::HealthLeech => {},
            SpellEffect::Heal => {},
            SpellEffect::Bind => {},
            SpellEffect::Portal => {},
            SpellEffect::RitualBase => {},
            SpellEffect::RitualSpecialize => {},
            SpellEffect::RitualActivatePortal => {},
            SpellEffect::QuestComplete => {},
            SpellEffect::WeaponDamageNoSchool => {},
            SpellEffect::Resurrect => {},
            SpellEffect::AddExtraAttacks => {},
            SpellEffect::Dodge => {},
            SpellEffect::Evade => {},
            SpellEffect::Parry => {},
            SpellEffect::Block => {},
            SpellEffect::CreateItem => {},
            SpellEffect::Weapon => {},
            SpellEffect::Defense => {},
            SpellEffect::PersistentAreaAura => {},
            SpellEffect::Summon => {},
            SpellEffect::Leap => {},
            SpellEffect::Energize => {},
            SpellEffect::WeaponPercentDamage => {},
            SpellEffect::TriggerMissile => {},
            SpellEffect::OpenLock => {},
            SpellEffect::SummonChangeItem => {},
            SpellEffect::ApplyAreaAuraParty => {},
            SpellEffect::LearnSpell => {},
            SpellEffect::SpellDefense => {},
            SpellEffect::Dispel => {},
            SpellEffect::Language => {},
            SpellEffect::DualWield => {},
            SpellEffect::Jump => {},
            SpellEffect::JumpDest => {},
            SpellEffect::TeleportUnitsFaceCaster => {},
            SpellEffect::SkillStep => {},
            SpellEffect::AddHonor => {},
            SpellEffect::Spawn => {},
            SpellEffect::TradeSkill => {},
            SpellEffect::Stealth => {},
            SpellEffect::Detect => {},
            SpellEffect::TransDoor => {},
            SpellEffect::ForceCriticalHit => {},
            SpellEffect::GuaranteeHit => {},
            SpellEffect::EnchantItem => {},
            SpellEffect::EnchantItemTemporary => {},
            SpellEffect::TameCreature => {},
            SpellEffect::SummonPet => {},
            SpellEffect::LearnPetSpell => {},
            SpellEffect::WeaponDamage => {},
            SpellEffect::OpenLockItem => {},
            SpellEffect::Proficiency => {},
            SpellEffect::SendEvent => {},
            SpellEffect::PowerBurn => {},
            SpellEffect::Threat => {},
            SpellEffect::TriggerSpell => {},
            SpellEffect::HealthFunnel => {},
            SpellEffect::PowerFunnel => {},
            SpellEffect::HealMaxHealth => {},
            SpellEffect::InterruptCast => {},
            SpellEffect::Distract => {},
            SpellEffect::Pull => {},
            SpellEffect::Pickpocket => {},
            SpellEffect::AddFarsight => {},
            SpellEffect::Unused73 => {},
            SpellEffect::Unused74 => {},
            SpellEffect::HealMechanical => {},
            SpellEffect::SummonObjectWild => {},
            SpellEffect::ScriptEffect => {},
            SpellEffect::Attack => {},
            SpellEffect::Sanctuary => {},
            SpellEffect::AddComboPoints => {},
            SpellEffect::CreateHouse => {},
            SpellEffect::BindSight => {},
            SpellEffect::Duel => {},
            SpellEffect::Stuck => {},
            SpellEffect::SummonPlayer => {},
            SpellEffect::ActivateObject => {},
            SpellEffect::Unused87 => {},
            SpellEffect::Unused88 => {},
            SpellEffect::Unused89 => {},
            SpellEffect::Unused90 => {},
            SpellEffect::ThreatAll => {},
            SpellEffect::EnchantHeldItem => {},
            SpellEffect::Unused93 => {},
            SpellEffect::SelfResurrect => {},
            SpellEffect::Skinning => {},
            SpellEffect::Charge => {},
            SpellEffect::Unused97 => {},
            SpellEffect::KnockBack => {},
            SpellEffect::Disenchant => {},
            SpellEffect::Inebriate => {},
            SpellEffect::FeedPet => {},
            SpellEffect::DismissPet => {},
            SpellEffect::Reputation => {},
            SpellEffect::SummonObjectSlot1 => {},
            SpellEffect::SummonObjectSlot2 => {},
            SpellEffect::SummonObjectSlot3 => {},
            SpellEffect::SummonObjectSlot4 => {},
            SpellEffect::DispelMechanic => {},
            SpellEffect::SummonDeadPet => {},
            SpellEffect::DestroyAllTotems => {},
            SpellEffect::DurabilityDamage => {},
            SpellEffect::Unused112 => {},
            SpellEffect::ResurrectNew => {},
            SpellEffect::AttackMe => {},
            SpellEffect::DurabilityDamagePct => {},
            SpellEffect::SkinPlayerCorpse => {},
            SpellEffect::SpiritHeal => {},
            SpellEffect::Skill => {},
            SpellEffect::ApplyAreaAuraPet => {},
            SpellEffect::TeleportGraveyard => {},
            SpellEffect::NormalizedWeaponDmg => {},
            SpellEffect::Unused122 => {},
            SpellEffect::SendTaxi => {},
            SpellEffect::PlayerPull => {},
            SpellEffect::ModifyThreatPercent => {},
            SpellEffect::StealBeneficialBuff => {},
            SpellEffect::Prospecting => {},
            SpellEffect::ApplyAreaAuraFriend => {},
            SpellEffect::ApplyAreaAuraEnemy => {},
            SpellEffect::RedirectThreat => {},
            SpellEffect::PlaySound => {},
            SpellEffect::PlayMusic => {},
            SpellEffect::UnlearnSpecialization => {},
            SpellEffect::KillCreditGroup => {},
            SpellEffect::CallPet => {},
            SpellEffect::HealPct => {},
            SpellEffect::EnergizePct => {},
            SpellEffect::LeapBack => {},
            SpellEffect::ClearQuest => {},
            SpellEffect::ForceCast => {},
            SpellEffect::ForceCastWithValue => {},
            SpellEffect::TriggerSpellWithValue => {},
            SpellEffect::ApplyAreaAuraOwner => {},
            SpellEffect::KnockbackFromPosition => {},
            SpellEffect::PlayerPullTowardsDest => {},
            SpellEffect::Unused146 => {},
            SpellEffect::QuestFail => {},
            SpellEffect::Unused148 => {},
            SpellEffect::ChargeDest => {},
            SpellEffect::Unused150 => {},
            SpellEffect::TriggerSpell2 => {},
            SpellEffect::SummonReferAFriend => {},
            SpellEffect::CreateTamedPet => {},
        }
    }
}

#[derive(Clone, Copy, Debug, PartialEq, Eq, Structural)]
pub enum SpellTargetType {
    Nil,
    TargetSelf,
    /// only one spell has that, but regardless, it's a target type after all
    RandomEnemyChainInArea,
    RandomFriendChainInArea,
    /// some plague spells that are infectious - maybe targets not-infected friends inrange
    RandomUnitChainInArea,
    Pet,
    ChainDamage,
    /// targets around provided destination point
    AreaeffectInstant,
    AreaeffectCustom,
    /// uses in teleport to innkeeper spells
    InnkeeperCoordinates,
    /// used by spell 4 'Word of Recall Other'
    Unk11,
    AllEnemyInArea,
    AllEnemyInAreaInstant,
    /// uses in teleport spells and some other
    TableXYZCoordinates,
    /// highly depends on the spell effect
    EffectSelect,
    AllPartyAroundCaster,
    SingleFriend,
    /// used only in TargetA, target selection dependent from TargetB
    CasterCoordinates,
    Gameobject,
    InFrontOfCaster,
    Duelvsplayer,
    GameobjectItem,
    Master,
    AllEnemyInAreaChanneled,
    Unk29,
    /// select friendly for caster object faction (in different original caster faction) in TargetB used only with TARGET_ALL_AROUND_CASTER and in self casting range in TargetA
    AllFriendlyUnitsAroundCaster,
    AllFriendlyUnitsInArea,
    Minion,
    AllParty,
    /// used in Tranquility
    AllPartyAroundCaster2,
    SingleParty,
    AllHostileUnitsAroundCaster,
    AreaeffectParty,
    Script,
    SelfFishing,
    FocusOrScriptedGameobject,
    TotemEarth,
    TotemWater,
    TotemAir,
    TotemFire,
    ChainHeal,
    ScriptCoordinates,
    DynamicObjectFront,
    DynamicObjectBehind,
    DynamicObjectLeftSide,
    DynamicObjectRightSide,
    AreaeffectGoAroundSource,
    /// gameobject around destination, select by spell_script_target
    AreaeffectGoAroundDest,
    /// set unit coordinates as dest, only 16 target B imlemented
    CurrentEnemyCoordinates,
    LargeFrontalCone,
    Unk55,
    AllRaidAroundCaster,
    SingleFriend2,
    Unk58,
    Unk59,
    NarrowFrontalCone,
    AreaeffectPartyAndClass,
    Unk62,
    DuelvsplayerCoordinates,
    InfrontOfVictim,
    /// used in teleport behind spells, caster/target dependent from spell effect
    BehindVictim,
    RightFromVictim,
    LeftFromVictim,
    Unk70,
    /// used in teleport onto nearby locations
    RandomNearbyLoc,
    RandomCircumferencePoint,
    Unk74,
    Unk75,
    DynamicObjectCoordinates,
    SingleEnemy,
    /// 78-85 possible _COORDINATES at radius with pi/4 step around target in unknown order, N?
    PointAtNorth,
    /// S?
    PointAtSouth,
    /// 80/81 must be symmetric from line caster->target, E (base at 82/83, 84/85 order) ?
    PointAtEast,
    /// 80/81 must be symmetric from line caster->target, W (base at 82/83, 84/85 order) ?
    PointAtWest,
    /// from spell desc: "(NE)
    PointAtNe,
    /// from spell desc: "(NW)
    PointAtNw,
    /// from spell desc: "(SE)
    PointAtSe,
    /// from spell desc: "(SW)
    PointAtSw,
    /// Test Nearby Dest Random" - random around selected destination
    RandomNearbyDest,
    Self2,
    /// Smoke Flare(s) and Hurricane
    Unk88,
    NoncombatPet,
    Unk93,
}

impl SpellTargetType {
    /// The number that stands for this value on the wire and in the database.
    pub open spec fn spec_value(self) -> i64 {
        match self {
            SpellTargetType::Nil => 0i64,
            SpellTargetType::TargetSelf => 1i64,
            SpellTargetType::RandomEnemyChainInArea => 2i64,
            SpellTargetType::RandomFriendChainInArea => 3i64,
            SpellTargetType::RandomUnitChainInArea => 4i64,
            SpellTargetType::Pet => 5i64,
            SpellTargetType::ChainDamage => 6i64,
            SpellTargetType::AreaeffectInstant => 7i64,
            SpellTargetType::AreaeffectCustom => 8i64,
            SpellTargetType::InnkeeperCoordinates => 9i64,
            SpellTargetType::Unk11 => 11i64,
            SpellTargetType::AllEnemyInArea => 15i64,
            SpellTargetType::AllEnemyInAreaInstant => 16i64,
            SpellTargetType::TableXYZCoordinates => 17i64,
            SpellTargetType::EffectSelect => 18i64,
            SpellTargetType::AllPartyAroundCaster => 20i64,
            SpellTargetType::SingleFriend => 21i64,
            SpellTargetType::CasterCoordinates => 22i64,
            SpellTargetType::Gameobject => 23i64,
            SpellTargetType::InFrontOfCaster => 24i64,
            SpellTargetType::Duelvsplayer => 25i64,
            SpellTargetType::GameobjectItem => 26i64,
            SpellTargetType::Master => 27i64,
            SpellTargetType::AllEnemyInAreaChanneled => 28i64,
            SpellTargetType::Unk29 => 29i64,
            SpellTargetType::AllFriendlyUnitsAroundCaster => 30i64,
            SpellTargetType::AllFriendlyUnitsInArea => 31i64,
            SpellTargetType::Minion => 32i64,
            SpellTargetType::AllParty => 33i64,
            SpellTargetType::AllPartyAroundCaster2 => 34i64,
            SpellTargetType::SingleParty => 35i64,
            SpellTargetType::AllHostileUnitsAroundCaster => 36i64,
            SpellTargetType::AreaeffectParty => 37i64,
            SpellTargetType::Script => 38i64,
            SpellTargetType::SelfFishing => 39i64,
            SpellTargetType::FocusOrScriptedGameobject => 40i64,
            SpellTargetType::TotemEarth => 41i64,
            SpellTargetType::TotemWater => 42i64,
            SpellTargetType::TotemAir => 43i64,
            SpellTargetType::TotemFire => 44i64,
            SpellTargetType::ChainHeal => 45i64,
            SpellTargetType::ScriptCoordinates => 46i64,
            SpellTargetType::DynamicObjectFront => 47i64,
            SpellTargetType::DynamicObjectBehind => 48i64,
            SpellTargetType::DynamicObjectLeftSide => 49i64,
            SpellTargetType::DynamicObjectRightSide => 50i64,
            SpellTargetType::AreaeffectGoAroundSource => 51i64,
            SpellTargetType::AreaeffectGoAroundDest => 52i64,
            SpellTargetType::CurrentEnemyCoordinates => 53i64,
            SpellTargetType::LargeFrontalCone => 54i64,
            SpellTargetType::Unk55 => 55i64,
            SpellTargetType::AllRaidAroundCaster => 56i64,
            SpellTargetType::SingleFriend2 => 57i64,
            SpellTargetType::Unk58 => 58i64,
            SpellTargetType::Unk59 => 59i64,
            SpellTargetType::NarrowFrontalCone => 60i64,
            SpellTargetType::AreaeffectPartyAndClass => 61i64,
            SpellTargetType::Unk62 => 62i64,
            SpellTargetType::DuelvsplayerCoordinates => 63i64,
            SpellTargetType::InfrontOfVictim => 64i64,
            SpellTargetType::BehindVictim => 65i64,
            SpellTargetType::RightFromVictim => 66i64,
            SpellTargetType::LeftFromVictim => 67i64,
            SpellTargetType::Unk70 => 70i64,
            SpellTargetType::RandomNearbyLoc => 72i64,
            SpellTargetType::RandomCircumferencePoint => 73i64,
            SpellTargetType::Unk74 => 74i64,
            SpellTargetType::Unk75 => 75i64,
            SpellTargetType::DynamicObjectCoordinates => 76i64,
            SpellTargetType::SingleEnemy => 77i64,
            SpellTargetType::PointAtNorth => 78i64,
            SpellTargetType::PointAtSouth => 79i64,
            SpellTargetType::PointAtEast => 80i64,
            SpellTargetType::PointAtWest => 81i64,
            SpellTargetType::PointAtNe => 82i64,
            SpellTargetType::PointAtNw => 83i64,
            SpellTargetType::PointAtSe => 84i64,
            SpellTargetType::PointAtSw => 85i64,
            SpellTargetType::RandomNearbyDest => 86i64,
            SpellTargetType::Self2 => 87i64,
            SpellTargetType::Unk88 => 88i64,
            SpellTargetType::NoncombatPet => 90i64,
            SpellTargetType::Unk93 => 93i64,
        }
    }

    /// The number that stands for this value.
    pub fn value(self) -> (r: i64)
        ensures
            r == self.spec_value(),
    {
        match self {
            SpellTargetType::Nil => 0i64,
            SpellTargetType::TargetSelf => 1i64,
            SpellTargetType::RandomEnemyChainInArea => 2i64,
            SpellTargetType::RandomFriendChainInArea => 3i64,
            SpellTargetType::RandomUnitChainInArea => 4i64,
            SpellTargetType::Pet => 5i64,
            SpellTargetType::ChainDamage => 6i64,
            SpellTargetType::AreaeffectInstant => 7i64,
            SpellTargetType::AreaeffectCustom => 8i64,
            SpellTargetType::InnkeeperCoordinates => 9i64,
            SpellTargetType::Unk11 => 11i64,
            SpellTargetType::AllEnemyInArea => 15i64,
            SpellTargetType::AllEnemyInAreaInstant => 16i64,
            SpellTargetType::TableXYZCoordinates => 17i64,
            SpellTargetType::EffectSelect => 18i64,
            SpellTargetType::AllPartyAroundCaster => 20i64,
            SpellTargetType::SingleFriend => 21i64,
            SpellTargetType::CasterCoordinates => 22i64,
            SpellTargetType::Gameobject => 23i64,
            SpellTargetType::InFrontOfCaster => 24i64,
            SpellTargetType::Duelvsplayer => 25i64,
            SpellTargetType::GameobjectItem => 26i64,
            SpellTargetType::Master => 27i64,
            SpellTargetType::AllEnemyInAreaChanneled => 28i64,
            SpellTargetType::Unk29 => 29i64,
            SpellTargetType::AllFriendlyUnitsAroundCaster => 30i64,
            SpellTargetType::AllFriendlyUnitsInArea => 31i64,
            SpellTargetType::Minion => 32i64,
            SpellTargetType::AllParty => 33i64,
            SpellTargetType::AllPartyAroundCaster2 => 34i64,
            SpellTargetType::SingleParty => 35i64,
            SpellTargetType::AllHostileUnitsAroundCaster => 36i64,
            SpellTargetType::AreaeffectParty => 37i64,
            SpellTargetType::Script => 38i64,
            SpellTargetType::SelfFishing => 39i64,
            SpellTargetType::FocusOrScriptedGameobject => 40i64,
            SpellTargetType::TotemEarth => 41i64,
            SpellTargetType::TotemWater => 42i64,
            SpellTargetType::TotemAir => 43i64,
            SpellTargetType::TotemFire => 44i64,
            SpellTargetType::ChainHeal => 45i64,
            SpellTargetType::ScriptCoordinates => 46i64,
            SpellTargetType::DynamicObjectFront => 47i64,
            SpellTargetType::DynamicObjectBehind => 48i64,
            SpellTargetType::DynamicObjectLeftSide => 49i64,
            SpellTargetType::DynamicObjectRightSide => 50i64,
            SpellTargetType::AreaeffectGoAroundSource => 51i64,
            SpellTargetType::AreaeffectGoAroundDest => 52i64,
            SpellTargetType::CurrentEnemyCoordinates => 53i64,
            SpellTargetType::LargeFrontalCone => 54i64,
            SpellTargetType::Unk55 => 55i64,
            SpellTargetType::AllRaidAroundCaster => 56i64,
            SpellTargetType::SingleFriend2 => 57i64,
            SpellTargetType::Unk58 => 58i64,
            SpellTargetType::Unk59 => 59i64,
            SpellTargetType::NarrowFrontalCone => 60i64,
            SpellTargetType::AreaeffectPartyAndClass => 61i64,
            SpellTargetType::Unk62 => 62i64,
            SpellTargetType::DuelvsplayerCoordinates => 63i64,
            SpellTargetType::InfrontOfVictim => 64i64,
            SpellTargetType::BehindVictim => 65i64,
            SpellTargetType::RightFromVictim => 66i64,
            SpellTargetType::LeftFromVictim => 67i64,
            SpellTargetType::Unk70 => 70i64,
            SpellTargetType::RandomNearbyLoc => 72i64,
            SpellTargetType::RandomCircumferencePoint => 73i64,
            SpellTargetType::Unk74 => 74i64,
            SpellTargetType::Unk75 => 75i64,
            SpellTargetType::DynamicObjectCoordinates => 76i64,
            SpellTargetType::SingleEnemy => 77i64,
            SpellTargetType::PointAtNorth => 78i64,
            SpellTargetType::PointAtSouth => 79i64,
            SpellTargetType::PointAtEast => 80i64,
            SpellTargetType::PointAtWest => 81i64,
            SpellTargetType::PointAtNe => 82i64,
            SpellTargetType::PointAtNw => 83i64,
            SpellTargetType::PointAtSe => 84i64,
            SpellTargetType::PointAtSw => 85i64,
            SpellTargetType::RandomNearbyDest => 86i64,
            SpellTargetType::Self2 => 87i64,
            SpellTargetType::Unk88 => 88i64,
            SpellTargetType::NoncombatPet => 90i64,
            SpellTargetType::Unk93 => 93i64,
        }
    }

    /// The value that `v` stands for, if any.
    pub fn n(v: i64) -> (r: Option<Self>)
        ensures
            r matches Some(e) ==> e.spec_value() == v,
            r is None ==> forall|e: Self| e.spec_value() != v,
    {
        match v {
            0i64 => Some(SpellTargetType::Nil),
            1i64 => Some(SpellTargetType::TargetSelf),
            2i64 => Some(SpellTargetType::RandomEnemyChainInArea),
            3i64 => Some(SpellTargetType::RandomFriendChainInArea),
            4i64 => Some(SpellTargetType::RandomUnitChainInArea),
            5i64 => Some(SpellTargetType::Pet),
            6i64 => Some(SpellTargetType::ChainDamage),
            7i64 => Some(SpellTargetType::AreaeffectInstant),
            8i64 => Some(SpellTargetType::AreaeffectCustom),
            9i64 => Some(SpellTargetType::InnkeeperCoordinates),
            11i64 => Some(SpellTargetType::Unk11),
            15i64 => Some(SpellTargetType::AllEnemyInArea),
            16i64 => Some(SpellTargetType::AllEnemyInAreaInstant),
            17i64 => Some(SpellTargetType::TableXYZCoordinates),
            18i64 => Some(SpellTargetType::EffectSelect),
            20i64 => Some(SpellTargetType::AllPartyAroundCaster),
            21i64 => Some(SpellTargetType::SingleFriend),
            22i64 => Some(SpellTargetType::CasterCoordinates),
            23i64 => Some(SpellTargetType::Gameobject),
            24i64 => Some(SpellTargetType::InFrontOfCaster),
            25i64 => Some(SpellTargetType::Duelvsplayer),
            26i64 => Some(SpellTargetType::GameobjectItem),
            27i64 => Some(SpellTargetType::Master),
            28i64 => Some(SpellTargetType::AllEnemyInAreaChanneled),
            29i64 => Some(SpellTargetType::Unk29),
            30i64 => Some(SpellTargetType::AllFriendlyUnitsAroundCaster),
            31i64 => Some(SpellTargetType::AllFriendlyUnitsInArea),
            32i64 => Some(SpellTargetType::Minion),
            33i64 => Some(SpellTargetType::AllParty),
            34i64 => Some(SpellTargetType::AllPartyAroundCaster2),
            35i64 => Some(SpellTargetType::SingleParty),
            36i64 => Some(SpellTargetType::AllHostileUnitsAroundCaster),
            37i64 => Some(SpellTargetType::AreaeffectParty),
            38i64 => Some(SpellTargetType::Script),
            39i64 => Some(SpellTargetType::SelfFishing),
            40i64 => Some(SpellTargetType::FocusOrScriptedGameobject),
            41i64 => Some(SpellTargetType::TotemEarth),
            42i64 => Some(SpellTargetType::TotemWater),
            43i64 => Some(SpellTargetType::TotemAir),
            44i64 => Some(SpellTargetType::TotemFire),
            45i64 => Some(SpellTargetType::ChainHeal),
            46i64 => Some(SpellTargetType::ScriptCoordinates),
            47i64 => Some(SpellTargetType::DynamicObjectFront),
            48i64 => Some(SpellTargetType::DynamicObjectBehind),
            49i64 => Some(SpellTargetType::DynamicObjectLeftSide),
            50i64 => Some(SpellTargetType::DynamicObjectRightSide),
            51i64 => Some(SpellTargetType::AreaeffectGoAroundSource),
            52i64 => Some(SpellTargetType::AreaeffectGoAroundDest),
            53i64 => Some(SpellTargetType::CurrentEnemyCoordinates),
            54i64 => Some(SpellTargetType::LargeFrontalCone),
            55i64 => Some(SpellTargetType::Unk55),
            56i64 => Some(SpellTargetType::AllRaidAroundCaster),
            57i64 => Some(SpellTargetType::SingleFriend2),
            58i64 => Some(SpellTargetType::Unk58),
            59i64 => Some(SpellTargetType::Unk59),
            60i64 => Some(SpellTargetType::NarrowFrontalCone),
            61i64 => Some(SpellTargetType::AreaeffectPartyAndClass),
            62i64 => Some(SpellTargetType::Unk62),
            63i64 => Some(SpellTargetType::DuelvsplayerCoordinates),
            64i64 => Some(SpellTargetType::InfrontOfVictim),
            65i64 => Some(SpellTargetType::BehindVictim),
            66i64 => Some(SpellTargetType::RightFromVictim),
            67i64 => Some(SpellTargetType::LeftFromVictim),
            70i64 => Some(SpellTargetType::Unk70),
            72i64 => Some(SpellTargetType::RandomNearbyLoc),
            73i64 => Some(SpellTargetType::RandomCircumferencePoint),
            74i64 => Some(SpellTargetType::Unk74),
            75i64 => Some(SpellTargetType::Unk75),
            76i64 => Some(SpellTargetType::DynamicObjectCoordinates),
            77i64 => Some(SpellTargetType::SingleEnemy),
            78i64 => Some(SpellTargetType::PointAtNorth),
            79i64 => Some(SpellTargetType::PointAtSouth),
            80i64 => Some(SpellTargetType::PointAtEast),
            81i64 => Some(SpellTargetType::PointAtWest),
            82i64 => Some(SpellTargetType::PointAtNe),
            83i64 => Some(SpellTargetType::PointAtNw),
            84i64 => Some(SpellTargetType::PointAtSe),
            85i64 => Some(SpellTargetType::PointAtSw),
            86i64 => Some(SpellTargetType::RandomNearbyDest),
            87i64 => Some(SpellTargetType::Self2),
            88i64 => Some(SpellTargetType::Unk88),
            90i64 => Some(SpellTargetType::NoncombatPet),
            93i64 => Some(SpellTargetType::Unk93),
            _ => None,
        }
    }

    /// Distinct values stand for distinct numbers, so reading back the number of
    /// a value gives that value.
    pub proof fn lemma_value_injective(a: Self, b: Self)
        ensures
            a.spec_value() == b.spec_value() ==> a == b,
    {
        match a {
            SpellTargetType::Nil => {},
            SpellTargetType::TargetSelf => {},
            SpellTargetType::RandomEnemyChainInArea => {},
            SpellTargetType::RandomFriendChainInArea => {},
            SpellTargetType::RandomUnitChainInArea => {},
            SpellTargetType::Pet => {},
            SpellTargetType::ChainDamage => {},
            SpellTargetType::AreaeffectInstant => {},
            SpellTargetType::AreaeffectCustom => {},
            SpellTargetType::InnkeeperCoordinates => {},
            SpellTargetType::Unk11 => {},
            SpellTargetType::AllEnemyInArea => {},
            SpellTargetType::AllEnemyInAreaInstant => {},
            SpellTargetType::TableXYZCoordinates => {},
            SpellTargetType::EffectSelect => {},
            SpellTargetType::AllPartyAroundCaster => {},
            SpellTargetType::SingleFriend => {},
            SpellTargetType::CasterCoordinates => {},
            SpellTargetType::Gameobject => {},
            SpellTargetType::InFrontOfCaster => {},
            SpellTargetType::Duelvsplayer => {},
            SpellTargetType::GameobjectItem => {},
            SpellTargetType::Master => {},
            SpellTargetType::AllEnemyInAreaChanneled => {},
            SpellTargetType::Unk29 => {},
            SpellTargetType::AllFriendlyUnitsAroundCaster => {},
            SpellTargetType::AllFriendlyUnitsInArea => {},
            SpellTargetType::Minion => {},
            SpellTargetType::AllParty => {},
            SpellTargetType::AllPartyAroundCaster2 => {},
            SpellTargetType::SingleParty => {},
            SpellTargetType::AllHostileUnitsAroundCaster => {},
            SpellTargetType::AreaeffectParty => {},
            SpellTargetType::Script => {},
            SpellTargetType::SelfFishing => {},
            SpellTargetType::FocusOrScriptedGameobject => {},
            SpellTargetType::TotemEarth => {},
            SpellTargetType::TotemWater => {},
            SpellTargetType::TotemAir => {},
            SpellTargetType::TotemFire => {},
            SpellTargetType::ChainHeal => {},
            SpellTargetType::ScriptCoordinates => {},
            SpellTargetType::DynamicObjectFront => {},
            SpellTargetType::DynamicObjectBehind => {},
            SpellTargetType::DynamicObjectLeftSide => {},
            SpellTargetType::DynamicObjectRightSide => {},
            SpellTargetType::AreaeffectGoAroundSource => {},
            SpellTargetType::AreaeffectGoAroundDest => {},
            SpellTargetType::CurrentEnemyCoordinates => {},
            SpellTargetType::LargeFrontalCone => {},
            SpellTargetType::Unk55 => {},
            SpellTargetType::AllRaidAroundCaster => {},
            SpellTargetType::SingleFriend2 => {},
            SpellTargetType::Unk58 => {},
            SpellTargetType::Unk59 => {},
            SpellTargetType::NarrowFrontalCone => {},
            SpellTargetType::AreaeffectPartyAndClass => {},
            SpellTargetType::Unk62 => {},
            SpellTargetType::DuelvsplayerCoordinates => {},
            SpellTargetType::InfrontOfVictim => {},
            SpellTargetType::BehindVictim => {},
            SpellTargetType::RightFromVictim => {},
            SpellTargetType::LeftFromVictim => {},
            SpellTargetType::Unk70 => {},
            SpellTargetType::RandomNearbyLoc => {},
            SpellTargetType::RandomCircumferencePoint => {},
            SpellTargetType::Unk74 => {},
            SpellTargetType::Unk75 => {},
            SpellTargetType::DynamicObjectCoordinates => {},
            SpellTargetType::SingleEnemy => {},
            SpellTargetType::PointAtNorth => {},
            SpellTargetType::PointAtSouth => {},
            SpellTargetType::PointAtEast => {},
            SpellTargetType::PointAtWest => {},
            SpellTargetType::PointAtNe => {},
            SpellTargetType::PointAtNw => {},
            SpellTargetType::PointAtSe => {},
            SpellTargetType::PointAtSw => {},
            SpellTargetType::RandomNearbyDest => {},
            SpellTargetType::Self2 => {},
            SpellTargetType::Unk88 => {},
            SpellTargetType::NoncombatPet => {},
            SpellTargetType::Unk93 => {},
        }
    }
}

#[derive(Clone, Copy, Debug, PartialEq, Eq, Structural)]
pub enum SkillType {
    Nil,
    Frost,
    Fire,
    Arms,
    Combat,
    Subtlety,
    Poisons,
    Swords,
    Axes,
    Bows,
    Guns,
    BeastMastery,
    Survival,
    Maces,
    TwoHandSwords,
    Holy,
    Shadow,
    Defense,
    LangCommon,
    RacialDwarven,
    LangOrcish,
    LangDwarven,
    LangDarnassian,
    LangTaurahe,
    DualWield,
    RacialTauren,
    OrcRacial,
    RacialNightElf,
    FirstAid,
    FeralCombat,
    Staves,
    LangThalassian,
    LangDraconic,
    LangDemonTongue,
    LangTitan,
    LangOldTongue,
    Survival2,
    RidingHorse,
    RidingWolf,
    RidingTiger,
    RidingRam,
    Swiming,
    TwoHandMaces,
    Unarmed,
    Marksmanship,
    Blacksmithing,
    Leatherworking,
    Alchemy,
    TwoHandAxes,
    Daggers,
    Thrown,
    Herbalism,
    GenericDnd,
    Retribution,
    Cooking,
    Mining,
    PetImp,
    PetFelhunter,
    Tailoring,
    Engineering,
    PetSpider,
    PetVoidwalker,
    PetSuccubus,
    PetInfernal,
    PetDoomguard,
    PetWolf,
    PetCat,
    PetBear,
    PetBoar,
    PetCrocilisk,
    PetCarrionBird,
    PetCrab,
    PetGorilla,
    PetRaptor,
    PetTallstrider,
    RacialUnded,
    WeaponTalents,
    Crossbows,
    Spears,
    Wands,
    Polearms,
    PetScorpid,
    Arcane,
    OpenLock,
    PetTurtle,
    Assassination,
    Fury,
    Protection,
    BeastTraining,
    Protection2,
    PetTalents,
    PlateMail,
    LangGnomish,
    LangTroll,
    Enchanting,
    Demonology,
    Affliction,
    Fishing,
    Enhancement,
    Restoration,
    ElementalCombat,
    Skinning,
    Mail,
    Leather,
    Cloth,
    Shield,
    FistWeapons,
    RidingRaptor,
    RidingMechanostrider,
    RidingUndeadHorse,
    Restoration2,
    Balance,
    Destruction,
    Holy2,
    Discipline,
    Lockpicking,
    PetBat,
    PetHyena,
    PetOwl,
    PetWindSerpent,
    LangGutterspeak,
    RidingKodo,
    RacialTroll,
    RacialGnome,
    RacialHuman,
    Jewelcrafting,
    RacialBloodelf,
    PetEventRc,
    LangDraenei,
    RacialDraenei,
    PetFelguard,
    Riding,
    PetDragonhawk,
    PetNetherRay,
    PetSporebat,
    PetWarpStalker,
    PetRavager,
    PetSerpent,
    Internal,
}

impl SkillType {
    /// The number that stands for this value on the wire and in the database.
    pub open spec fn spec_value(self) -> i64 {
        match self {
            SkillType::Nil => 0i64,
            SkillType::Frost => 6i64,
            SkillType::Fire => 8i64,
            SkillType::Arms => 26i64,
            SkillType::Combat => 38i64,
            SkillType::Subtlety => 39i64,
            SkillType::Poisons => 40i64,
            SkillType::Swords => 43i64,
            SkillType::Axes => 44i64,
            SkillType::Bows => 45i64,
            SkillType::Guns => 46i64,
            SkillType::BeastMastery => 50i64,
            SkillType::Survival => 51i64,
            SkillType::Maces => 54i64,
            SkillType::TwoHandSwords => 55i64,
            SkillType::Holy => 56i64,
            SkillType::Shadow => 78i64,
            SkillType::Defense => 95i64,
            SkillType::LangCommon => 98i64,
            SkillType::RacialDwarven => 101i64,
            SkillType::LangOrcish => 109i64,
            SkillType::LangDwarven => 111i64,
            SkillType::LangDarnassian => 113i64,
            SkillType::LangTaurahe => 115i64,
            SkillType::DualWield => 118i64,
            SkillType::RacialTauren => 124i64,
            SkillType::OrcRacial => 125i64,
            SkillType::RacialNightElf => 126i64,
            SkillType::FirstAid => 129i64,
            SkillType::FeralCombat => 134i64,
            SkillType::Staves => 136i64,
            SkillType::LangThalassian => 137i64,
            SkillType::LangDraconic => 138i64,
            SkillType::LangDemonTongue => 139i64,
            SkillType::LangTitan => 140i64,
            SkillType::LangOldTongue => 141i64,
            SkillType::Survival2 => 142i64,
            SkillType::RidingHorse => 148i64,
            SkillType::RidingWolf => 149i64,
            SkillType::RidingTiger => 150i64,
            SkillType::RidingRam => 152i64,
            SkillType::Swiming => 155i64,
            SkillType::TwoHandMaces => 160i64,
            SkillType::Unarmed => 162i64,
            SkillType::Marksmanship => 163i64,
            SkillType::Blacksmithing => 164i64,
            SkillType::Leatherworking => 165i64,
            SkillType::Alchemy => 171i64,
            SkillType::TwoHandAxes => 172i64,
            SkillType::Daggers => 173i64,
            SkillType::Thrown => 176i64,
            SkillType::Herbalism => 182i64,
            SkillType::GenericDnd => 183i64,
            SkillType::Retribution => 184i64,
            SkillType::Cooking => 185i64,
            SkillType::Mining => 186i64,
            SkillType::PetImp => 188i64,
            SkillType::PetFelhunter => 189i64,
            SkillType::Tailoring => 197i64,
            SkillType::Engineering => 202i64,
            SkillType::PetSpider => 203i64,
            SkillType::PetVoidwalker => 204i64,
            SkillType::PetSuccubus => 205i64,
            SkillType::PetInfernal => 206i64,
            SkillType::PetDoomguard => 207i64,
            SkillType::PetWolf => 208i64,
            SkillType::PetCat => 209i64,
            SkillType::PetBear => 210i64,
            SkillType::PetBoar => 211i64,
            SkillType::PetCrocilisk => 212i64,
            SkillType::PetCarrionBird => 213i64,
            SkillType::PetCrab => 214i64,
            SkillType::PetGorilla => 215i64,
            SkillType::PetRaptor => 217i64,
            SkillType::PetTallstrider => 218i64,
            SkillType::RacialUnded => 220i64,
            SkillType::WeaponTalents => 222i64,
            SkillType::Crossbows => 226i64,
            SkillType::Spears => 227i64,
            SkillType::Wands => 228i64,
            SkillType::Polearms => 229i64,
            SkillType::PetScorpid => 236i64,
            SkillType::Arcane => 237i64,
            SkillType::OpenLock => 242i64,
            SkillType::PetTurtle => 251i64,
            SkillType::Assassination => 253i64,
            SkillType::Fury => 256i64,
            SkillType::Protection => 257i64,
            SkillType::BeastTraining => 261i64,
            SkillType::Protection2 => 267i64,
            SkillType::PetTalents => 270i64,
            SkillType::PlateMail => 293i64,
            SkillType::LangGnomish => 313i64,
            SkillType::LangTroll => 315i64,
            SkillType::Enchanting => 333i64,
            SkillType::Demonology => 354i64,
            SkillType::Affliction => 355i64,
            SkillType::Fishing => 356i64,
            SkillType::Enhancement => 373i64,
            SkillType::Restoration => 374i64,
            SkillType::ElementalCombat => 375i64,
            SkillType::Skinning => 393i64,
            SkillType::Mail => 413i64,
            SkillType::Leather => 414i64,
            SkillType::Cloth => 415i64,
            SkillType::Shield => 433i64,
            SkillType::FistWeapons => 473i64,
            SkillType::RidingRaptor => 533i64,
            SkillType::RidingMechanostrider => 553i64,
            SkillType::RidingUndeadHorse => 554i64,
            SkillType::Restoration2 => 573i64,
            SkillType::Balance => 574i64,
            SkillType::Destruction => 593i64,
            SkillType::Holy2 => 594i64,
            SkillType::Discipline => 613i64,
            SkillType::Lockpicking => 633i64,
            SkillType::PetBat => 653i64,
            SkillType::PetHyena => 654i64,
            SkillType::PetOwl => 655i64,
            SkillType::PetWindSerpent => 656i64,
            SkillType::LangGutterspeak => 673i64,
            SkillType::RidingKodo => 713i64,
            SkillType::RacialTroll => 733i64,
            SkillType::RacialGnome => 753i64,
            SkillType::RacialHuman => 754i64,
            SkillType::Jewelcrafting => 755i64,
            SkillType::RacialBloodelf => 756i64,
            SkillType::PetEventRc => 758i64,
            SkillType::LangDraenei => 759i64,
            SkillType::RacialDraenei => 760i64,
            SkillType::PetFelguard => 761i64,
            SkillType::Riding => 762i64,
            SkillType::PetDragonhawk => 763i64,
            SkillType::PetNetherRay => 764i64,
            SkillType::PetSporebat => 765i64,
            SkillType::PetWarpStalker => 766i64,
            SkillType::PetRavager => 767i64,
            SkillType::PetSerpent => 768i64,
            SkillType::Internal => 769i64,
        }
    }

    /// The number that stands for this value.
    pub fn value(self) -> (r: i64)
        ensures
            r == self.spec_value(),
    {
        match self {
            SkillType::Nil => 0i64,
            SkillType::Frost => 6i64,
            SkillType::Fire => 8i64,
            SkillType::Arms => 26i64,
            SkillType::Combat => 38i64,
            SkillType::Subtlety => 39i64,
            SkillType::Poisons => 40i64,
            SkillType::Swords => 43i64,
            SkillType::Axes => 44i64,
            SkillType::Bows => 45i64,
            SkillType::Guns => 46i64,
            SkillType::BeastMastery => 50i64,
            SkillType::Survival => 51i64,
            SkillType::Maces => 54i64,
            SkillType::TwoHandSwords => 55i64,
            SkillType::Holy => 56i64,
            SkillType::Shadow => 78i64,
            SkillType::Defense => 95i64,
            SkillType::LangCommon => 98i64,
            SkillType::RacialDwarven => 101i64,
            SkillType::LangOrcish => 109i64,
            SkillType::LangDwarven => 111i64,
            SkillType::LangDarnassian => 113i64,
            SkillType::LangTaurahe => 115i64,
            SkillType::DualWield => 118i64,
            SkillType::RacialTauren => 124i64,
            SkillType::OrcRacial => 125i64,
            SkillType::RacialNightElf => 126i64,
            SkillType::FirstAid => 129i64,
            SkillType::FeralCombat => 134i64,
            SkillType::Staves => 136i64,
            SkillType::LangThalassian => 137i64,
            SkillType::LangDraconic => 138i64,
            SkillType::LangDemonTongue => 139i64,
            SkillType::LangTitan => 140i64,
            SkillType::LangOldTongue => 141i64,
            SkillType::Survival2 => 142i64,
            SkillType::RidingHorse => 148i64,
            SkillType::RidingWolf => 149i64,
            SkillType::RidingTiger => 150i64,
            SkillType::RidingRam => 152i64,
            SkillType::Swiming => 155i64,
            SkillType::TwoHandMaces => 160i64,
            SkillType::Unarmed => 162i64,
            SkillType::Marksmanship => 163i64,
            SkillType::Blacksmithing => 164i64,
            SkillType::Leatherworking => 165i64,
            SkillType::Alchemy => 171i64,
            SkillType::TwoHandAxes => 172i64,
            SkillType::Daggers => 173i64,
            SkillType::Thrown => 176i64,
            SkillType::Herbalism => 182i64,
            SkillType::GenericDnd => 183i64,
            SkillType::Retribution => 184i64,
            SkillType::Cooking => 185i64,
            SkillType::Mining => 186i64,
            SkillType::PetImp => 188i64,
            SkillType::PetFelhunter => 189i64,
            SkillType::Tailoring => 197i64,
            SkillType::Engineering => 202i64,
            SkillType::PetSpider => 203i64,
            SkillType::PetVoidwalker => 204i64,
            SkillType::PetSuccubus => 205i64,
            SkillType::PetInfernal => 206i64,
            SkillType::PetDoomguard => 207i64,
            SkillType::PetWolf => 208i64,
            SkillType::PetCat => 209i64,
            SkillType::PetBear => 210i64,
            SkillType::PetBoar => 211i64,
            SkillType::PetCrocilisk => 212i64,
            SkillType::PetCarrionBird => 213i64,
            SkillType::PetCrab => 214i64,
            SkillType::PetGorilla => 215i64,
            SkillType::PetRaptor => 217i64,
            SkillType::PetTallstrider => 218i64,
            SkillType::RacialUnded => 220i64,
            SkillType::WeaponTalents => 222i64,
            SkillType::Crossbows => 226i64,
            SkillType::Spears => 227i64,
            SkillType::Wands => 228i64,
            SkillType::Polearms => 229i64,
            SkillType::PetScorpid => 236i64,
            SkillType::Arcane => 237i64,
            SkillType::OpenLock => 242i64,
            SkillType::PetTurtle => 251i64,
            SkillType::Assassination => 253i64,
            SkillType::Fury => 256i64,
            SkillType::Protection => 257i64,
            SkillType::BeastTraining => 261i64,
            SkillType::Protection2 => 267i64,
            SkillType::PetTalents => 270i64,
            SkillType::PlateMail => 293i64,
            SkillType::LangGnomish => 313i64,
            SkillType::LangTroll => 315i64,
            SkillType::Enchanting => 333i64,
            SkillType::Demonology => 354i64,
            SkillType::Affliction => 355i64,
            SkillType::Fishing => 356i64,
            SkillType::Enhancement => 373i64,
            SkillType::Restoration => 374i64,
            SkillType::ElementalCombat => 375i64,
            SkillType::Skinning => 393i64,
            SkillType::Mail => 413i64,
            SkillType::Leather => 414i64,
            SkillType::Cloth => 415i64,
            SkillType::Shield => 433i64,
            SkillType::FistWeapons => 473i64,
            SkillType::RidingRaptor => 533i64,
            SkillType::RidingMechanostrider => 553i64,
            SkillType::RidingUndeadHorse => 554i64,
            SkillType::Restoration2 => 573i64,
            SkillType::Balance => 574i64,
            SkillType::Destruction => 593i64,
            SkillType::Holy2 => 594i64,
            SkillType::Discipline => 613i64,
            SkillType::Lockpicking => 633i64,
            SkillType::PetBat => 653i64,
            SkillType::PetHyena => 654i64,
            SkillType::PetOwl => 655i64,
            SkillType::PetWindSerpent => 656i64,
            SkillType::LangGutterspeak => 673i64,
            SkillType::RidingKodo => 713i64,
            SkillType::RacialTroll => 733i64,
            SkillType::RacialGnome => 753i64,
            SkillType::RacialHuman => 754i64,
            SkillType::Jewelcrafting => 755i64,
            SkillType::RacialBloodelf => 756i64,
            SkillType::PetEventRc => 758i64,
            SkillType::LangDraenei => 759i64,
            SkillType::RacialDraenei => 760i64,
            SkillType::PetFelguard => 761i64,
            SkillType::Riding => 762i64,
            SkillType::PetDragonhawk => 763i64,
            SkillType::PetNetherRay => 764i64,
            SkillType::PetSporebat => 765i64,
            SkillType::PetWarpStalker => 766i64,
            SkillType::PetRavager => 767i64,
            SkillType::PetSerpent => 768i64,
            SkillType::Internal => 769i64,
        }
    }

    /// The value that `v` stands for, if any.
    pub fn n(v: i64) -> (r: Option<Self>)
        ensures
            r matches Some(e) ==> e.spec_value() == v,
            r is None ==> forall|e: Self| e.spec_value() != v,
    {
        match v {
            0i64 => Some(SkillType::Nil),
            6i64 => Some(SkillType::Frost),
            8i64 => Some(SkillType::Fire),
            26i64 => Some(SkillType::Arms),
            38i64 => Some(SkillType::Combat),
            39i64 => Some(SkillType::Subtlety),
            40i64 => Some(SkillType::Poisons),
            43i64 => Some(SkillType::Swords),
            44i64 => Some(SkillType::Axes),
            45i64 => Some(SkillType::Bows),
            46i64 => Some(SkillType::Guns),
            50i64 => Some(SkillType::BeastMastery),
            51i64 => Some(SkillType::Survival),
            54i64 => Some(SkillType::Maces),
            55i64 => Some(SkillType::TwoHandSwords),
            56i64 => Some(SkillType::Holy),
            78i64 => Some(SkillType::Shadow),
            95i64 => Some(SkillType::Defense),
            98i64 => Some(SkillType::LangCommon),
            101i64 => Some(SkillType::RacialDwarven),
            109i64 => Some(SkillType::LangOrcish),
            111i64 => Some(SkillType::LangDwarven),
            113i64 => Some(SkillType::LangDarnassian),
            115i64 => Some(SkillType::LangTaurahe),
            118i64 => Some(SkillType::DualWield),
            124i64 => Some(SkillType::RacialTauren),
            125i64 => Some(SkillType::OrcRacial),
            126i64 => Some(SkillType::RacialNightElf),
            129i64 => Some(SkillType::FirstAid),
            134i64 => Some(SkillType::FeralCombat),
            136i64 => Some(SkillType::Staves),
            137i64 => Some(SkillType::LangThalassian),
            138i64 => Some(SkillType::LangDraconic),
            139i64 => Some(SkillType::LangDemonTongue),
            140i64 => Some(SkillType::LangTitan),
            141i64 => Some(SkillType::LangOldTongue),
            142i64 => Some(SkillType::Survival2),
            148i64 => Some(SkillType::RidingHorse),
            149i64 => Some(SkillType::RidingWolf),
            150i64 => Some(SkillType::RidingTiger),
            152i64 => Some(SkillType::RidingRam),
            155i64 => Some(SkillType::Swiming),
            160i64 => Some(SkillType::TwoHandMaces),
            162i64 => Some(SkillType::Unarmed),
            163i64 => Some(SkillType::Marksmanship),
            164i64 => Some(SkillType::Blacksmithing),
            165i64 => Some(SkillType::Leatherworking),
            171i64 => Some(SkillType::Alchemy),
            172i64 => Some(SkillType::TwoHandAxes),
            173i64 => Some(SkillType::Daggers),
            176i64 => Some(SkillType::Thrown),
            182i64 => Some(SkillType::Herbalism),
            183i64 => Some(SkillType::GenericDnd),
            184i64 => Some(SkillType::Retribution),
            185i64 => Some(SkillType::Cooking),
            186i64 => Some(SkillType::Mining),
            188i64 => Some(SkillType::PetImp),
            189i64 => Some(SkillType::PetFelhunter),
            197i64 => Some(SkillType::Tailoring),
            202i64 => Some(SkillType::Engineering),
            203i64 => Some(SkillType::PetSpider),
            204i64 => Some(SkillType::PetVoidwalker),
            205i64 => Some(SkillType::PetSuccubus),
            206i64 => Some(SkillType::PetInfernal),
            207i64 => Some(SkillType::PetDoomguard),
            208i64 => Some(SkillType::PetWolf),
            209i64 => Some(SkillType::PetCat),
            210i64 => Some(SkillType::PetBear),
            211i64 => Some(SkillType::PetBoar),
            212i64 => Some(SkillType::PetCrocilisk),
            213i64 => Some(SkillType::PetCarrionBird),
            214i64 => Some(SkillType::PetCrab),
            215i64 => Some(SkillType::PetGorilla),
            217i64 => Some(SkillType::PetRaptor),
            218i64 => Some(SkillType::PetTallstrider),
            220i64 => Some(SkillType::RacialUnded),
            222i64 => Some(SkillType::WeaponTalents),
            226i64 => Some(SkillType::Crossbows),
            227i64 => Some(SkillType::Spears),
            228i64 => Some(SkillType::Wands),
            229i64 => Some(SkillType::Polearms),
            236i64 => Some(SkillType::PetScorpid),
            237i64 => Some(SkillType::Arcane),
            242i64 => Some(SkillType::OpenLock),
            251i64 => Some(SkillType::PetTurtle),
            253i64 => Some(SkillType::Assassination),
            256i64 => Some(SkillType::Fury),
            257i64 => Some(SkillType::Protection),
            261i64 => Some(SkillType::BeastTraining),
            267i64 => Some(SkillType::Protection2),
            270i64 => Some(SkillType::PetTalents),
            293i64 => Some(SkillType::PlateMail),
            313i64 => Some(SkillType::LangGnomish),
            315i64 => Some(SkillType::LangTroll),
            333i64 => Some(SkillType::Enchanting),
            354i64 => Some(SkillType::Demonology),
            355i64 => Some(SkillType::Affliction),
            356i64 => Some(SkillType::Fishing),
            373i64 => Some(SkillType::Enhancement),
            374i64 => Some(SkillType::Restoration),
            375i64 => Some(SkillType::ElementalCombat),
            393i64 => Some(SkillType::Skinning),
            413i64 => Some(SkillType::Mail),
            414i64 => Some(SkillType::Leather),
            415i64 => Some(SkillType::Cloth),
            433i64 => Some(SkillType::Shield),
            473i64 => Some(SkillType::FistWeapons),
            533i64 => Some(SkillType::RidingRaptor),
            553i64 => Some(SkillType::RidingMechanostrider),
            554i64 => Some(SkillType::RidingUndeadHorse),
            573i64 => Some(SkillType::Restoration2),
            574i64 => Some(SkillType::Balance),
            593i64 => Some(SkillType::Destruction),
            594i64 => Some(SkillType::Holy2),
            613i64 => Some(SkillType::Discipline),
            633i64 => Some(SkillType::Lockpicking),
            653i64 => Some(SkillType::PetBat),
            654i64 => Some(SkillType::PetHyena),
            655i64 => Some(SkillType::PetOwl),
            656i64 => Some(SkillType::PetWindSerpent),
            673i64 => Some(SkillType::LangGutterspeak),
            713i64 => Some(SkillType::RidingKodo),
            733i64 => Some(SkillType::RacialTroll),
            753i64 => Some(SkillType::RacialGnome),
            754i64 => Some(SkillType::RacialHuman),
            755i64 => Some(SkillType::Jewelcrafting),
            756i64 => Some(SkillType::RacialBloodelf),
            758i64 => Some(SkillType::PetEventRc),
            759i64 => Some(SkillType::LangDraenei),
            760i64 => Some(SkillType::RacialDraenei),
            761i64 => Some(SkillType::PetFelguard),
            762i64 => Some(SkillType::Riding),
            763i64 => Some(SkillType::PetDragonhawk),
            764i64 => Some(SkillType::PetNetherRay),
            765i64 => Some(SkillType::PetSporebat),
            766i64 => Some(SkillType::PetWarpStalker),
            767i64 => Some(SkillType::PetRavager),
            768i64 => Some(SkillType::PetSerpent),
            769i64 => Some(SkillType::Internal),
            _ => None,
        }
    }

    /// Distinct values stand for distinct numbers, so reading back the number of
    /// a value gives that value.
    pub proof fn lemma_value_injective(a: Self, b: Self)
        ensures
            a.spec_value() == b.spec_value() ==> a == b,
    {
        match a {
            SkillType::Nil => {},
            SkillType::Frost => {},
            SkillType::Fire => {},
            SkillType::Arms => {},
            SkillType::Combat => {},
            SkillType::Subtlety => {},
            SkillType::Poisons => {},
            SkillType::Swords => {},
            SkillType::Axes => {},
            SkillType::Bows => {},
            SkillType::Guns => {},
            SkillType::BeastMastery => {},
            SkillType::Survival => {},
            SkillType::Maces => {},
            SkillType::TwoHandSwords => {},
            SkillType::Holy => {},
            SkillType::Shadow => {},
            SkillType::Defense => {},
            SkillType::LangCommon => {},
            SkillType::RacialDwarven => {},
            SkillType::LangOrcish => {},
            SkillType::LangDwarven => {},
            SkillType::LangDarnassian => {},
            SkillType::LangTaurahe => {},
            SkillType::DualWield => {},
            SkillType::RacialTauren => {},
            SkillType::OrcRacial => {},
            SkillType::RacialNightElf => {},
            SkillType::FirstAid => {},
            SkillType::FeralCombat => {},
            SkillType::Staves => {},
            SkillType::LangThalassian => {},
            SkillType::LangDraconic => {},
            SkillType::LangDemonTongue => {},
            SkillType::LangTitan => {},
            SkillType::LangOldTongue => {},
            SkillType::Survival2 => {},
            SkillType::RidingHorse => {},
            SkillType::RidingWolf => {},
            SkillType::RidingTiger => {},
            SkillType::RidingRam => {},
            SkillType::Swiming => {},
            SkillType::TwoHandMaces => {},
            SkillType::Unarmed => {},
            SkillType::Marksmanship => {},
            SkillType::Blacksmithing => {},
            SkillType::Leatherworking => {},
            SkillType::Alchemy => {},
            SkillType::TwoHandAxes => {},
            SkillType::Daggers => {},
            SkillType::Thrown => {},
            SkillType::Herbalism => {},
            SkillType::GenericDnd => {},
            SkillType::Retribution => {},
            SkillType::Cooking => {},
            SkillType::Mining => {},
            SkillType::PetImp => {},
            SkillType::PetFelhunter => {},
            SkillType::Tailoring => {},
            SkillType::Engineering => {},
            SkillType::PetSpider => {},
            SkillType::PetVoidwalker => {},
            SkillType::PetSuccubus => {},
            SkillType::PetInfernal => {},
            SkillType::PetDoomguard => {},
            SkillType::PetWolf => {},
            SkillType::PetCat => {},
            SkillType::PetBear => {},
            SkillType::PetBoar => {},
            SkillType::PetCrocilisk => {},
            SkillType::PetCarrionBird => {},
            SkillType::PetCrab => {},
            SkillType::PetGorilla => {},
            SkillType::PetRaptor => {},
            SkillType::PetTallstrider => {},
            SkillType::RacialUnded => {},
            SkillType::WeaponTalents => {},
            SkillType::Crossbows => {},
            SkillType::Spears => {},
            SkillType::Wands => {},
            SkillType::Polearms => {},
            SkillType::PetScorpid => {},
            SkillType::Arcane => {},
            SkillType::OpenLock => {},
            SkillType::PetTurtle => {},
            SkillType::Assassination => {},
            SkillType::Fury => {},
            SkillType::Protection => {},
            SkillType::BeastTraining => {},
            SkillType::Protection2 => {},
            SkillType::PetTalents => {},
            SkillType::PlateMail => {},
            SkillType::LangGnomish => {},
            SkillType::LangTroll => {},
            SkillType::Enchanting => {},
            SkillType::Demonology => {},
            SkillType::Affliction => {},
            SkillType::Fishing => {},
            SkillType::Enhancement => {},
            SkillType::Restoration => {},
            SkillType::ElementalCombat => {},
            SkillType::Skinning => {},
            SkillType::Mail => {},
            SkillType::Leather => {},
            SkillType::Cloth => {},
            SkillType::Shield => {},
            SkillType::FistWeapons => {},
            SkillType::RidingRaptor => {},
            SkillType::RidingMechanostrider => {},
            SkillType::RidingUndeadHorse => {},
            SkillType::Restoration2 => {},
            SkillType::Balance => {},
            SkillType::Destruction => {},
            SkillType::Holy2 => {},
            SkillType::Discipline => {},
            SkillType::Lockpicking => {},
            SkillType::PetBat => {},
            SkillType::PetHyena => {},
            SkillType::PetOwl => {},
            SkillType::PetWindSerpent => {},
            SkillType::LangGutterspeak => {},
            SkillType::RidingKodo => {},
            SkillType::RacialTroll => {},
            SkillType::RacialGnome => {},
            SkillType::RacialHuman => {},
            SkillType::Jewelcrafting => {},
            SkillType::RacialBloodelf => {},
            SkillType::PetEventRc => {},
            SkillType::LangDraenei => {},
            SkillType::RacialDraenei => {},
            SkillType::PetFelguard => {},
            SkillType::Riding => {},
            SkillType::PetDragonhawk => {},
            SkillType::PetNetherRay => {},
            SkillType::PetSporebat => {},
            SkillType::PetWarpStalker => {},
            SkillType::PetRavager => {},
            SkillType::PetSerpent => {},
            SkillType::Internal => {},
        }
    }
}

#[derive(Clone, Copy, Debug, PartialEq, Eq, Structural)]
pub enum AbilityLearnType {
    Nil,
    LearnedOnGetProfessionSkill,
    LearnedOnGetRaceOrClassSkill,
}

impl AbilityLearnType {
    /// The number that stands for this value on the wire and in the database.
    pub open spec fn spec_value(self) -> i64 {
        match self {
            AbilityLearnType::Nil => 0i64,
            AbilityLearnType::LearnedOnGetProfessionSkill => 1i64,
            AbilityLearnType::LearnedOnGetRaceOrClassSkill => 2i64,
        }
    }

    /// The number that stands for this value.
    pub fn value(self) -> (r: i64)
        ensures
            r == self.spec_value(),
    {
        match self {
            AbilityLearnType::Nil => 0i64,
            AbilityLearnType::LearnedOnGetProfessionSkill => 1i64,
            AbilityLearnType::LearnedOnGetRaceOrClassSkill => 2i64,
        }
    }

    /// The value that `v` stands for, if any.
    pub fn n(v: i64) -> (r: Option<Self>)
        ensures
            r matches Some(e) ==> e.spec_value() == v,
            r is None ==> forall|e: Self| e.spec_value() != v,
    {
        match v {
            0i64 => Some(AbilityLearnType::Nil),
            1i64 => Some(AbilityLearnType::LearnedOnGetProfessionSkill),
            2i64 => Some(AbilityLearnType::LearnedOnGetRaceOrClassSkill),
            _ => None,
        }
    }

    /// Distinct values stand for distinct numbers, so reading back the number of
    /// a value gives that value.
    pub proof fn lemma_value_injective(a: Self, b: Self)
        ensures
            a.spec_value() == b.spec_value() ==> a == b,
    {
        match a {
            AbilityLearnType::Nil => {},
            AbilityLearnType::LearnedOnGetProfessionSkill => {},
            AbilityLearnType::LearnedOnGetRaceOrClassSkill => {},
        }
    }
}

#[derive(Clone, Copy, Debug, PartialEq, Eq, Structural)]
pub enum SkillRangeType {
    /// 300..300
    Language,
    /// 1..max skill for level
    Level,
    /// 1..1, grey monolite bar
    Mono,
    /// 1..skill for known rank
    Rank,
    /// 0..0 always
    Nil,
}

impl SkillRangeType {
    /// The number that stands for this value on the wire and in the database.
    pub open spec fn spec_value(self) -> i64 {
        match self {
            SkillRangeType::Language => 0i64,
            SkillRangeType::Level => 1i64,
            SkillRangeType::Mono => 2i64,
            SkillRangeType::Rank => 3i64,
            SkillRangeType::Nil => 4i64,
        }
    }

    /// The number that stands for this value.
    pub fn value(self) -> (r: i64)
        ensures
            r == self.spec_value(),
    {
        match self {
            SkillRangeType::Language => 0i64,
            SkillRangeType::Level => 1i64,
            SkillRangeType::Mono => 2i64,
            SkillRangeType::Rank => 3i64,
            SkillRangeType::Nil => 4i64,
        }
    }

    /// The value that `v` stands for, if any.
    pub fn n(v: i64) -> (r: Option<Self>)
        ensures
            r matches Some(e) ==> e.spec_value() == v,
            r is None ==> forall|e: Self| e.spec_value() != v,
    {
        match v {
            0i64 => Some(SkillRangeType::Language),
            1i64 => Some(SkillRangeType::Level),
            2i64 => Some(SkillRangeType::Mono),
            3i64 => Some(SkillRangeType::Rank),
            4i64 => Some(SkillRangeType::Nil),
            _ => None,
        }
    }

    /// Distinct values stand for distinct numbers, so reading back the number of
    /// a value gives that value.
    pub proof fn lemma_value_injective(a: Self, b: Self)
        ensures
            a.spec_value() == b.spec_value() ==> a == b,
    {
        match a {
            SkillRangeType::Language => {},
            SkillRangeType::Level => {},
            SkillRangeType::Mono => {},
            SkillRangeType::Rank => {},
            SkillRangeType::Nil => {},
        }
    }
}

#[derive(Clone, Copy, Debug, PartialEq, Eq, Structural)]
pub enum SkillCategory {
    Nil,
    Attributes,
    Weapon,
    Class,
    Armor,
    SecondaryProfession,
    Languages,
    PrimaryProfession,
    Generic,
}

impl SkillCategory {
    /// The number that stands for this value on the wire and in the database.
    pub open spec fn spec_value(self) -> i64 {
        match self {
            SkillCategory::Nil => -1i64,
            SkillCategory::Attributes => 5i64,
            SkillCategory::Weapon => 6i64,
            SkillCategory::Class => 7i64,
            SkillCategory::Armor => 8i64,
            SkillCategory::SecondaryProfession => 9i64,
            SkillCategory::Languages => 10i64,
            SkillCategory::PrimaryProfession => 11i64,
            SkillCategory::Generic => 12i64,
        }
    }

    /// The number that stands for this value.
    pub fn value(self) -> (r: i64)
        ensures
            r == self.spec_value(),
    {
        match self {
            SkillCategory::Nil => -1i64,
            SkillCategory::Attributes => 5i64,
            SkillCategory::Weapon => 6i64,
            SkillCategory::Class => 7i64,
            SkillCategory::Armor => 8i64,
            SkillCategory::SecondaryProfession => 9i64,
            SkillCategory::Languages => 10i64,
            SkillCategory::PrimaryProfession => 11i64,
            SkillCategory::Generic => 12i64,
        }
    }

    /// The value that `v` stands for, if any.
    pub fn n(v: i64) -> (r: Option<Self>)
        ensures
            r matches Some(e) ==> e.spec_value() == v,
            r is None ==> forall|e: Self| e.spec_value() != v,
    {
        match v {
            -1i64 => Some(SkillCategory::Nil),
            5i64 => Some(SkillCategory::Attributes),
            6i64 => Some(SkillCategory::Weapon),
            7i64 => Some(SkillCategory::Class),
            8i64 => Some(SkillCategory::Armor),
            9i64 => Some(SkillCategory::SecondaryProfession),
            10i64 => Some(SkillCategory::Languages),
            11i64 => Some(SkillCategory::PrimaryProfession),
            12i64 => Some(SkillCategory::Generic),
            _ => None,
        }
    }

    /// Distinct values stand for distinct numbers, so reading back the number of
    /// a value gives that value.
    pub proof fn lemma_value_injective(a: Self, b: Self)
        ensures
            a.spec_value() == b.spec_value() ==> a == b,
    {
        match a {
            SkillCategory::Nil => {},
            SkillCategory::Attributes => {},
            SkillCategory::Weapon => {},
            SkillCategory::Class => {},
            SkillCategory::Armor => {},
            SkillCategory::SecondaryProfession => {},
            SkillCategory::Languages => {},
            SkillCategory::PrimaryProfession => {},
            SkillCategory::Generic => {},
        }
    }
}

#[derive(Clone, Copy, Debug, PartialEq, Eq, Structural)]
pub enum AbilitySkillFlags {
    NonTrainable,
}

impl AbilitySkillFlags {
    /// The number that stands for this value on the wire and in the database.
    pub open spec fn spec_value(self) -> i64 {
        match self {
            AbilitySkillFlags::NonTrainable => 256i64,
        }
    }

    /// The number that stands for this value.
    pub fn value(self) -> (r: i64)
        ensures
            r == self.spec_value(),
    {
        match self {
            AbilitySkillFlags::NonTrainable => 256i64,
        }
    }

    /// The value that `v` stands for, if any.
    pub fn n(v: i64) -> (r: Option<Self>)
        ensures
            r matches Some(e) ==> e.spec_value() == v,
            r is None ==> forall|e: Self| e.spec_value() != v,
    {
        match v {
            256i64 => Some(AbilitySkillFlags::NonTrainable),
            _ => None,
        }
    }

    /// Distinct values stand for distinct numbers, so reading back the number of
    /// a value gives that value.
    pub proof fn lemma_value_injective(a: Self, b: Self)
        ensures
            a.spec_value() == b.spec_value() ==> a == b,
    {
        match a {
            AbilitySkillFlags::NonTrainable => {},
        }
    }
}

#[derive(Clone, Copy, Debug, PartialEq, Eq, Structural)]
pub enum ActionButtonType {
    Spell,
    /// Click?
    C,
    Macro,
    Cmacro,
    Item,
}

impl ActionButtonType {
    /// The number that stands for this value on the wire and in the database.
    pub open spec fn spec_value(self) -> i64 {
        match self {
            ActionButtonType::Spell => 0i64,
            ActionButtonType::C => 1i64,
            ActionButtonType::Macro => 64i64,
            ActionButtonType::Cmacro => 65i64,
            ActionButtonType::Item => 128i64,
        }
    }

    /// The number that stands for this value.
    pub fn value(self) -> (r: i64)
        ensures
            r == self.spec_value(),
    {
        match self {
            ActionButtonType::Spell => 0i64,
            ActionButtonType::C => 1i64,
            ActionButtonType::Macro => 64i64,
            ActionButtonType::Cmacro => 65i64,
            ActionButtonType::Item => 128i64,
        }
    }

    /// The value that `v` stands for, if any.
    pub fn n(v: i64) -> (r: Option<Self>)
        ensures
            r matches Some(e) ==> e.spec_value() == v,
            r is None ==> forall|e: Self| e.spec_value() != v,
    {
        match v {
            0i64 => Some(ActionButtonType::Spell),
            1i64 => Some(ActionButtonType::C),
            64i64 => Some(ActionButtonType::Macro),
            65i64 => Some(ActionButtonType::Cmacro),
            128i64 => Some(ActionButtonType::Item),
            _ => None,
        }
    }

    /// Distinct values stand for distinct numbers, so reading back the number of
    /// a value gives that value.
    pub proof fn lemma_value_injective(a: Self, b: Self)
        ensures
            a.spec_value() == b.spec_value() ==> a == b,
    {
        match a {
            ActionButtonType::Spell => {},
            ActionButtonType::C => {},
            ActionButtonType::Macro => {},
            ActionButtonType::Cmacro => {},
            ActionButtonType::Item => {},
        }
    }
}

#[derive(Clone, Copy, Debug, PartialEq, Eq, Structural)]
pub enum UnitFlags {
    Nil,
    ServerControlled,
    NonAttackable,
    RemoveClientControl,
    /// Was PVP_ATTACKABLE
    PlayerControlled,
    Rename,
    Preparation,
    Unk6,
    NotAttackable1,
    OocNotAttackable,
    Passive,
    Looting,
    PetInCombat,
    Pvp,
    Silenced,
    CantSwim,
    CanSwim,
    NonAttackable2,
    Pacified,
    Stunned,
    InCombat,
    OnTaxi,
    Disarmed,
    Confused,
    Fleeing,
    Possessed,
    NotSelectable,
    Skinnable,
    Mount,
    Unk28,
    PreventEmotesFromChatText,
    Sheathe,
    Immune,
}

impl UnitFlags {
    /// The number that stands for this value on the wire and in the database.
    pub open spec fn spec_value(self) -> u32 {
        match self {
            UnitFlags::Nil => 0u32,
            UnitFlags::ServerControlled => 1u32,
            UnitFlags::NonAttackable => 2u32,
            UnitFlags::RemoveClientControl => 4u32,
            UnitFlags::PlayerControlled => 8u32,
            UnitFlags::Rename => 16u32,
            UnitFlags::Preparation => 32u32,
            UnitFlags::Unk6 => 64u32,
            UnitFlags::NotAttackable1 => 128u32,
            UnitFlags::OocNotAttackable => 256u32,
            UnitFlags::Passive => 512u32,
            UnitFlags::Looting => 1024u32,
            UnitFlags::PetInCombat => 2048u32,
            UnitFlags::Pvp => 4096u32,
            UnitFlags::Silenced => 8192u32,
            UnitFlags::CantSwim => 16384u32,
            UnitFlags::CanSwim => 32768u32,
            UnitFlags::NonAttackable2 => 65536u32,
            UnitFlags::Pacified => 131072u32,
            UnitFlags::Stunned => 262144u32,
            UnitFlags::InCombat => 524288u32,
            UnitFlags::OnTaxi => 1048576u32,
            UnitFlags::Disarmed => 2097152u32,
            UnitFlags::Confused => 4194304u32,
            UnitFlags::Fleeing => 8388608u32,
            UnitFlags::Possessed => 16777216u32,
            UnitFlags::NotSelectable => 33554432u32,
            UnitFlags::Skinnable => 67108864u32,
            UnitFlags::Mount => 134217728u32,
            UnitFlags::Unk28 => 268435456u32,
            UnitFlags::PreventEmotesFromChatText => 536870912u32,
            UnitFlags::Sheathe => 1073741824u32,
            UnitFlags::Immune => 2147483648u32,
        }
    }

    /// The number that stands for this value.
    pub fn value(self) -> (r: u32)
        ensures
            r == self.spec_value(),
    {
        match self {
            UnitFlags::Nil => 0u32,
            UnitFlags::ServerControlled => 1u32,
            UnitFlags::NonAttackable => 2u32,
            UnitFlags::RemoveClientControl => 4u32,
            UnitFlags::PlayerControlled => 8u32,
            UnitFlags::Rename => 16u32,
            UnitFlags::Preparation => 32u32,
            UnitFlags::Unk6 => 64u32,
            UnitFlags::NotAttackable1 => 128u32,
            UnitFlags::OocNotAttackable => 256u32,
            UnitFlags::Passive => 512u32,
            UnitFlags::Looting => 1024u32,
            UnitFlags::PetInCombat => 2048u32,
            UnitFlags::Pvp => 4096u32,
            UnitFlags::Silenced => 8192u32,
            UnitFlags::CantSwim => 16384u32,
            UnitFlags::CanSwim => 32768u32,
            UnitFlags::NonAttackable2 => 65536u32,
            UnitFlags::Pacified => 131072u32,
            UnitFlags::Stunned => 262144u32,
            UnitFlags::InCombat => 524288u32,
            UnitFlags::OnTaxi => 1048576u32,
            UnitFlags::Disarmed => 2097152u32,
            UnitFlags::Confused => 4194304u32,
            UnitFlags::Fleeing => 8388608u32,
            UnitFlags::Possessed => 16777216u32,
            UnitFlags::NotSelectable => 33554432u32,
            UnitFlags::Skinnable => 67108864u32,
            UnitFlags::Mount => 134217728u32,
            UnitFlags::Unk28 => 268435456u32,
            UnitFlags::PreventEmotesFromChatText => 536870912u32,
            UnitFlags::Sheathe => 1073741824u32,
            UnitFlags::Immune => 2147483648u32,
        }
    }

    /// The value that `v` stands for, if any.
    pub fn n(v: u32) -> (r: Option<Self>)
        ensures
            r matches Some(e) ==> e.spec_value() == v,
            r is None ==> forall|e: Self| e.spec_value() != v,
    {
        match v {
            0u32 => Some(UnitFlags::Nil),
            1u32 => Some(UnitFlags::ServerControlled),
            2u32 => Some(UnitFlags::NonAttackable),
            4u32 => Some(UnitFlags::RemoveClientControl),
            8u32 => Some(UnitFlags::PlayerControlled),
            16u32 => Some(UnitFlags::Rename),
            32u32 => Some(UnitFlags::Preparation),
            64u32 => Some(UnitFlags::Unk6),
            128u32 => Some(UnitFlags::NotAttackable1),
            256u32 => Some(UnitFlags::OocNotAttackable),
            512u32 => Some(UnitFlags::Passive),
            1024u32 => Some(UnitFlags::Looting),
            2048u32 => Some(UnitFlags::PetInCombat),
            4096u32 => Some(UnitFlags::Pvp),
            8192u32 => Some(UnitFlags::Silenced),
            16384u32 => Some(UnitFlags::CantSwim),
            32768u32 => Some(UnitFlags::CanSwim),
            65536u32 => Some(UnitFlags::NonAttackable2),
            131072u32 => Some(UnitFlags::Pacified),
            262144u32 => Some(UnitFlags::Stunned),
            524288u32 => Some(UnitFlags::InCombat),
            1048576u32 => Some(UnitFlags::OnTaxi),
            2097152u32 => Some(UnitFlags::Disarmed),
            4194304u32 => Some(UnitFlags::Confused),
            8388608u32 => Some(UnitFlags::Fleeing),
            16777216u32 => Some(UnitFlags::Possessed),
            33554432u32 => Some(UnitFlags::NotSelectable),
            67108864u32 => Some(UnitFlags::Skinnable),
            134217728u32 => Some(UnitFlags::Mount),
            268435456u32 => Some(UnitFlags::Unk28),
            536870912u32 => Some(UnitFlags::PreventEmotesFromChatText),
            1073741824u32 => Some(UnitFlags::Sheathe),
            2147483648u32 => Some(UnitFlags::Immune),
            _ => None,
        }
    }

    /// Distinct values stand for distinct numbers, so reading back the number of
    /// a value gives that value.
    pub proof fn lemma_value_injective(a: Self, b: Self)
        ensures
            a.spec_value() == b.spec_value() ==> a == b,
    {
        match a {
            UnitFlags::Nil => {},
            UnitFlags::ServerControlled => {},
            UnitFlags::NonAttackable => {},
            UnitFlags::RemoveClientControl => {},
            UnitFlags::PlayerControlled => {},
            UnitFlags::Rename => {},
            UnitFlags::Preparation => {},
            UnitFlags::Unk6 => {},
            UnitFlags::NotAttackable1 => {},
            UnitFlags::OocNotAttackable => {},
            UnitFlags::Passive => {},
            UnitFlags::Looting => {},
            UnitFlags::PetInCombat => {},
            UnitFlags::Pvp => {},
            UnitFlags::Silenced => {},
            UnitFlags::CantSwim => {},
            UnitFlags::CanSwim => {},
            UnitFlags::NonAttackable2 => {},
            UnitFlags::Pacified => {},
            UnitFlags::Stunned => {},
            UnitFlags::InCombat => {},
            UnitFlags::OnTaxi => {},
            UnitFlags::Disarmed => {},
            UnitFlags::Confused => {},
            UnitFlags::Fleeing => {},
            UnitFlags::Possessed => {},
            UnitFlags::NotSelectable => {},
            UnitFlags::Skinnable => {},
            UnitFlags::Mount => {},
            UnitFlags::Unk28 => {},
            UnitFlags::PreventEmotesFromChatText => {},
            UnitFlags::Sheathe => {},
            UnitFlags::Immune => {},
        }
    }
}

#[derive(Clone, Copy, Debug, PartialEq, Eq, Structural)]
pub enum UnitFlags2 {
    FeignDeath,
    HideBody,
    IgnoreReputation,
    ComprehendLang,
    MirrorImage,
    /// Model appears instantly
    DontFadeIn,
    ForceMove,
}

impl UnitFlags2 {
    /// The number that stands for this value on the wire and in the database.
    pub open spec fn spec_value(self) -> u32 {
        match self {
            UnitFlags2::FeignDeath => 1u32,
            UnitFlags2::HideBody => 2u32,
            UnitFlags2::IgnoreReputation => 4u32,
            UnitFlags2::ComprehendLang => 8u32,
            UnitFlags2::MirrorImage => 16u32,
            UnitFlags2::DontFadeIn => 32u32,
            UnitFlags2::ForceMove => 64u32,
        }
    }

    /// The number that stands for this value.
    pub fn value(self) -> (r: u32)
        ensures
            r == self.spec_value(),
    {
        match self {
            UnitFlags2::FeignDeath => 1u32,
            UnitFlags2::HideBody => 2u32,
            UnitFlags2::IgnoreReputation => 4u32,
            UnitFlags2::ComprehendLang => 8u32,
            UnitFlags2::MirrorImage => 16u32,
            UnitFlags2::DontFadeIn => 32u32,
            UnitFlags2::ForceMove => 64u32,
        }
    }

    /// The value that `v` stands for, if any.
    pub fn n(v: u32) -> (r: Option<Self>)
        ensures
            r matches Some(e) ==> e.spec_value() == v,
            r is None ==> forall|e: Self| e.spec_value() != v,
    {
        match v {
            1u32 => Some(UnitFlags2::FeignDeath),
            2u32 => Some(UnitFlags2::HideBody),
            4u32 => Some(UnitFlags2::IgnoreReputation),
            8u32 => Some(UnitFlags2::ComprehendLang),
            16u32 => Some(UnitFlags2::MirrorImage),
            32u32 => Some(UnitFlags2::DontFadeIn),
            64u32 => Some(UnitFlags2::ForceMove),
            _ => None,
        }
    }

    /// Distinct values stand for distinct numbers, so reading back the number of
    /// a value gives that value.
    pub proof fn lemma_value_injective(a: Self, b: Self)
        ensures
            a.spec_value() == b.spec_value() ==> a == b,
    {
        match a {
            UnitFlags2::FeignDeath => {},
            UnitFlags2::HideBody => {},
            UnitFlags2::IgnoreReputation => {},
            UnitFlags2::ComprehendLang => {},
            UnitFlags2::MirrorImage => {},
            UnitFlags2::DontFadeIn => {},
            UnitFlags2::ForceMove => {},
        }
    }
}

#[derive(Clone, Copy, Debug, PartialEq, Eq, Structural)]
pub enum NpcFlags {
    Gossip,
    QuestGiver,
    Unk1,
    Unk2,
    Trainer,
    TrainerClass,
    TrainerProfession,
    Vendor,
    VendorAmmo,
    VendorFood,
    VendorPoison,
    VendorReagent,
    Repair,
    FlightMaster,
    SpiritHealer,
    SpiritGuide,
    Innkeeper,
    Banker,
    Petitioner,
    TabardDesigner,
    BattleMaster,
    Auctioneer,
    StableMaster,
    GuildBanker,
    SpellClick,
}

impl NpcFlags {
    /// The number that stands for this value on the wire and in the database.
    pub open spec fn spec_value(self) -> u32 {
        match self {
            NpcFlags::Gossip => 1u32,
            NpcFlags::QuestGiver => 2u32,
            NpcFlags::Unk1 => 4u32,
            NpcFlags::Unk2 => 8u32,
            NpcFlags::Trainer => 16u32,
            NpcFlags::TrainerClass => 32u32,
            NpcFlags::TrainerProfession => 64u32,
            NpcFlags::Vendor => 128u32,
            NpcFlags::VendorAmmo => 256u32,
            NpcFlags::VendorFood => 512u32,
            NpcFlags::VendorPoison => 1024u32,
            NpcFlags::VendorReagent => 2048u32,
            NpcFlags::Repair => 4096u32,
            NpcFlags::FlightMaster => 8192u32,
            NpcFlags::SpiritHealer => 16384u32,
            NpcFlags::SpiritGuide => 32768u32,
            NpcFlags::Innkeeper => 65536u32,
            NpcFlags::Banker => 131072u32,
            NpcFlags::Petitioner => 262144u32,
            NpcFlags::TabardDesigner => 524288u32,
            NpcFlags::BattleMaster => 1048576u32,
            NpcFlags::Auctioneer => 2097152u32,
            NpcFlags::StableMaster => 4194304u32,
            NpcFlags::GuildBanker => 8388608u32,
            NpcFlags::SpellClick => 16777216u32,
        }
    }

    /// The number that stands for this value.
    pub fn value(self) -> (r: u32)
        ensures
            r == self.spec_value(),
    {
        match self {
            NpcFlags::Gossip => 1u32,
            NpcFlags::QuestGiver => 2u32,
            NpcFlags::Unk1 => 4u32,
            NpcFlags::Unk2 => 8u32,
            NpcFlags::Trainer => 16u32,
            NpcFlags::TrainerClass => 32u32,
            NpcFlags::TrainerProfession => 64u32,
            NpcFlags::Vendor => 128u32,
            NpcFlags::VendorAmmo => 256u32,
            NpcFlags::VendorFood => 512u32,
            NpcFlags::VendorPoison => 1024u32,
            NpcFlags::VendorReagent => 2048u32,
            NpcFlags::Repair => 4096u32,
            NpcFlags::FlightMaster => 8192u32,
            NpcFlags::SpiritHealer => 16384u32,
            NpcFlags::SpiritGuide => 32768u32,
            NpcFlags::Innkeeper => 65536u32,
            NpcFlags::Banker => 131072u32,
            NpcFlags::Petitioner => 262144u32,
            NpcFlags::TabardDesigner => 524288u32,
            NpcFlags::BattleMaster => 1048576u32,
            NpcFlags::Auctioneer => 2097152u32,
            NpcFlags::StableMaster => 4194304u32,
            NpcFlags::GuildBanker => 8388608u32,
            NpcFlags::SpellClick => 16777216u32,
        }
    }

    /// The value that `v` stands for, if any.
    pub fn n(v: u32) -> (r: Option<Self>)
        ensures
            r matches Some(e) ==> e.spec_value() == v,
            r is None ==> forall|e: Self| e.spec_value() != v,
    {
        match v {
            1u32 => Some(NpcFlags::Gossip),
            2u32 => Some(NpcFlags::QuestGiver),
            4u32 => Some(NpcFlags::Unk1),
            8u32 => Some(NpcFlags::Unk2),
            16u32 => Some(NpcFlags::Trainer),
            32u32 => Some(NpcFlags::TrainerClass),
            64u32 => Some(NpcFlags::TrainerProfession),
            128u32 => Some(NpcFlags::Vendor),
            256u32 => Some(NpcFlags::VendorAmmo),
            512u32 => Some(NpcFlags::VendorFood),
            1024u32 => Some(NpcFlags::VendorPoison),
            2048u32 => Some(NpcFlags::VendorReagent),
            4096u32 => Some(NpcFlags::Repair),
            8192u32 => Some(NpcFlags::FlightMaster),
            16384u32 => Some(NpcFlags::SpiritHealer),
            32768u32 => Some(NpcFlags::SpiritGuide),
            65536u32 => Some(NpcFlags::Innkeeper),
            131072u32 => Some(NpcFlags::Banker),
            262144u32 => Some(NpcFlags::Petitioner),
            524288u32 => Some(NpcFlags::TabardDesigner),
            1048576u32 => Some(NpcFlags::BattleMaster),
            2097152u32 => Some(NpcFlags::Auctioneer),
            4194304u32 => Some(NpcFlags::StableMaster),
            8388608u32 => Some(NpcFlags::GuildBanker),
            16777216u32 => Some(NpcFlags::SpellClick),
            _ => None,
        }
    }

    /// Distinct values stand for distinct numbers, so reading back the number of
    /// a value gives that value.
    pub proof fn lemma_value_injective(a: Self, b: Self)
        ensures
            a.spec_value() == b.spec_value() ==> a == b,
    {
        match a {
            NpcFlags::Gossip => {},
            NpcFlags::QuestGiver => {},
            NpcFlags::Unk1 => {},
            NpcFlags::Unk2 => {},
            NpcFlags::Trainer => {},
            NpcFlags::TrainerClass => {},
            NpcFlags::TrainerProfession => {},
            NpcFlags::Vendor => {},
            NpcFlags::VendorAmmo => {},
            NpcFlags::VendorFood => {},
            NpcFlags::VendorPoison => {},
            NpcFlags::VendorReagent => {},
            NpcFlags::Repair => {},
            NpcFlags::FlightMaster => {},
            NpcFlags::SpiritHealer => {},
            NpcFlags::SpiritGuide => {},
            NpcFlags::Innkeeper => {},
            NpcFlags::Banker => {},
            NpcFlags::Petitioner => {},
            NpcFlags::TabardDesigner => {},
            NpcFlags::BattleMaster => {},
            NpcFlags::Auctioneer => {},
            NpcFlags::StableMaster => {},
            NpcFlags::GuildBanker => {},
            NpcFlags::SpellClick => {},
        }
    }
}

#[derive(Clone, Copy, Debug, PartialEq, Eq, Structural)]
pub enum GossipMenuItemIcon {
    /// white chat bubble
    Chat,
    /// brown bag
    Vendor,
    /// flight
    Taxi,
    /// book
    Trainer,
    /// interaction wheel
    Interact1,
    /// interaction wheel
    Interact2,
    /// brown bag with yellow dot
    MoneyBag,
    /// white chat bubble with black dots
    Talk,
    /// tabard
    Tabard,
    /// two swords
    Battle,
    /// yellow dot
    Dot,
    /// This and below are most the same visual as GOSSIP_ICON_CHAT
    Chat11,
    /// but are still used for unknown reasons.
    Chat12,
    Dot13,
    /// probably invalid
    Dot14,
    /// probably invalid
    Dot15,
    Dot16,
    Dot17,
    Dot18,
    Dot19,
    Dot20,
}

impl GossipMenuItemIcon {
    /// The number that stands for this value on the wire and in the database.
    pub open spec fn spec_value(self) -> i64 {
        match self {
            GossipMenuItemIcon::Chat => 0i64,
            GossipMenuItemIcon::Vendor => 1i64,
            GossipMenuItemIcon::Taxi => 2i64,
            GossipMenuItemIcon::Trainer => 3i64,
            GossipMenuItemIcon::Interact1 => 4i64,
            GossipMenuItemIcon::Interact2 => 5i64,
            GossipMenuItemIcon::MoneyBag => 6i64,
            GossipMenuItemIcon::Talk => 7i64,
            GossipMenuItemIcon::Tabard => 8i64,
            GossipMenuItemIcon::Battle => 9i64,
            GossipMenuItemIcon::Dot => 10i64,
            GossipMenuItemIcon::Chat11 => 11i64,
            GossipMenuItemIcon::Chat12 => 12i64,
            GossipMenuItemIcon::Dot13 => 13i64,
            GossipMenuItemIcon::Dot14 => 14i64,
            GossipMenuItemIcon::Dot15 => 15i64,
            GossipMenuItemIcon::Dot16 => 16i64,
            GossipMenuItemIcon::Dot17 => 17i64,
            GossipMenuItemIcon::Dot18 => 18i64,
            GossipMenuItemIcon::Dot19 => 19i64,
            GossipMenuItemIcon::Dot20 => 20i64,
        }
    }

    /// The number that stands for this value.
    pub fn value(self) -> (r: i64)
        ensures
            r == self.spec_value(),
    {
        match self {
            GossipMenuItemIcon::Chat => 0i64,
            GossipMenuItemIcon::Vendor => 1i64,
            GossipMenuItemIcon::Taxi => 2i64,
            GossipMenuItemIcon::Trainer => 3i64,
            GossipMenuItemIcon::Interact1 => 4i64,
            GossipMenuItemIcon::Interact2 => 5i64,
            GossipMenuItemIcon::MoneyBag => 6i64,
            GossipMenuItemIcon::Talk => 7i64,
            GossipMenuItemIcon::Tabard => 8i64,
            GossipMenuItemIcon::Battle => 9i64,
            GossipMenuItemIcon::Dot => 10i64,
            GossipMenuItemIcon::Chat11 => 11i64,
            GossipMenuItemIcon::Chat12 => 12i64,
            GossipMenuItemIcon::Dot13 => 13i64,
            GossipMenuItemIcon::Dot14 => 14i64,
            GossipMenuItemIcon::Dot15 => 15i64,
            GossipMenuItemIcon::Dot16 => 16i64,
            GossipMenuItemIcon::Dot17 => 17i64,
            GossipMenuItemIcon::Dot18 => 18i64,
            GossipMenuItemIcon::Dot19 => 19i64,
            GossipMenuItemIcon::Dot20 => 20i64,
        }
    }

    /// The value that `v` stands for, if any.
    pub fn n(v: i64) -> (r: Option<Self>)
        ensures
            r matches Some(e) ==> e.spec_value() == v,
            r is None ==> forall|e: Self| e.spec_value() != v,
    {
        match v {
            0i64 => Some(GossipMenuItemIcon::Chat),
            1i64 => Some(GossipMenuItemIcon::Vendor),
            2i64 => Some(GossipMenuItemIcon::Taxi),
            3i64 => Some(GossipMenuItemIcon::Trainer),
            4i64 => Some(GossipMenuItemIcon::Interact1),
            5i64 => Some(GossipMenuItemIcon::Interact2),
            6i64 => Some(GossipMenuItemIcon::MoneyBag),
            7i64 => Some(GossipMenuItemIcon::Talk),
            8i64 => Some(GossipMenuItemIcon::Tabard),
            9i64 => Some(GossipMenuItemIcon::Battle),
            10i64 => Some(GossipMenuItemIcon::Dot),
            11i64 => Some(GossipMenuItemIcon::Chat11),
            12i64 => Some(GossipMenuItemIcon::Chat12),
            13i64 => Some(GossipMenuItemIcon::Dot13),
            14i64 => Some(GossipMenuItemIcon::Dot14),
            15i64 => Some(GossipMenuItemIcon::Dot15),
            16i64 => Some(GossipMenuItemIcon::Dot16),
            17i64 => Some(GossipMenuItemIcon::Dot17),
            18i64 => Some(GossipMenuItemIcon::Dot18),
            19i64 => Some(GossipMenuItemIcon::Dot19),
            20i64 => Some(GossipMenuItemIcon::Dot20),
            _ => None,
        }
    }

    /// Distinct values stand for distinct numbers, so reading back the number of
    /// a value gives that value.
    pub proof fn lemma_value_injective(a: Self, b: Self)
        ensures
            a.spec_value() == b.spec_value() ==> a == b,
    {
        match a {
            GossipMenuItemIcon::Chat => {},
            GossipMenuItemIcon::Vendor => {},
            GossipMenuItemIcon::Taxi => {},
            GossipMenuItemIcon::Trainer => {},
            GossipMenuItemIcon::Interact1 => {},
            GossipMenuItemIcon::Interact2 => {},
            GossipMenuItemIcon::MoneyBag => {},
            GossipMenuItemIcon::Talk => {},
            GossipMenuItemIcon::Tabard => {},
            GossipMenuItemIcon::Battle => {},
            GossipMenuItemIcon::Dot => {},
            GossipMenuItemIcon::Chat11 => {},
            GossipMenuItemIcon::Chat12 => {},
            GossipMenuItemIcon::Dot13 => {},
            GossipMenuItemIcon::Dot14 => {},
            GossipMenuItemIcon::Dot15 => {},
            GossipMenuItemIcon::Dot16 => {},
            GossipMenuItemIcon::Dot17 => {},
            GossipMenuItemIcon::Dot18 => {},
            GossipMenuItemIcon::Dot19 => {},
            GossipMenuItemIcon::Dot20 => {},
        }
    }
}

#[derive(Clone, Copy, Debug, PartialEq, Eq, Structural)]
pub enum GossipMenuOptionType {
    /// UNIT_NPC_FLAG_NONE                (0)
    Nil,
    /// UNIT_NPC_FLAG_GOSSIP              (1)
    Gossip,
    /// UNIT_NPC_FLAG_QUESTGIVER          (2)
    QuestGiver,
    /// UNIT_NPC_FLAG_VENDOR              (128)
    Vendor,
    /// UNIT_NPC_FLAG_TAXIVENDOR          (8192)
    TaxiVendor,
    /// UNIT_NPC_FLAG_TRAINER             (16)
    Trainer,
    /// UNIT_NPC_FLAG_SPIRITHEALER        (16384)
    SpiritHealer,
    /// UNIT_NPC_FLAG_SPIRITGUIDE         (32768)
    SpiritGuide,
    /// UNIT_NPC_FLAG_INNKEEPER           (65536)
    Innkeeper,
    /// UNIT_NPC_FLAG_BANKER              (131072)
    Banker,
    /// UNIT_NPC_FLAG_PETITIONER          (262144)
    Petitioner,
    /// UNIT_NPC_FLAG_TABARDDESIGNER      (524288)
    TabardDesigner,
    /// UNIT_NPC_FLAG_BATTLEFIELDPERSON   (1048576)
    Battlefield,
    /// UNIT_NPC_FLAG_AUCTIONEER          (2097152)
    Auctioneer,
    /// UNIT_NPC_FLAG_STABLE              (4194304)
    Stablepet,
    /// UNIT_NPC_FLAG_ARMORER             (4096)
    Armorer,
    /// UNIT_NPC_FLAG_TRAINER             (16) (bonus option for GOSSIP_OPTION_TRAINER)
    UnlearnTalents,
    /// UNIT_NPC_FLAG_TRAINER             (16) (bonus option for GOSSIP_OPTION_TRAINER)
    UnlearnPetSkills,
}

impl GossipMenuOptionType {
    /// The number that stands for this value on the wire and in the database.
    pub open spec fn spec_value(self) -> i64 {
        match self {
            GossipMenuOptionType::Nil => 0i64,
            GossipMenuOptionType::Gossip => 1i64,
            GossipMenuOptionType::QuestGiver => 2i64,
            GossipMenuOptionType::Vendor => 3i64,
            GossipMenuOptionType::TaxiVendor => 4i64,
            GossipMenuOptionType::Trainer => 5i64,
            GossipMenuOptionType::SpiritHealer => 6i64,
            GossipMenuOptionType::SpiritGuide => 7i64,
            GossipMenuOptionType::Innkeeper => 8i64,
            GossipMenuOptionType::Banker => 9i64,
            GossipMenuOptionType::Petitioner => 10i64,
            GossipMenuOptionType::TabardDesigner => 11i64,
            GossipMenuOptionType::Battlefield => 12i64,
            GossipMenuOptionType::Auctioneer => 13i64,
            GossipMenuOptionType::Stablepet => 14i64,
            GossipMenuOptionType::Armorer => 15i64,
            GossipMenuOptionType::UnlearnTalents => 16i64,
            GossipMenuOptionType::UnlearnPetSkills => 17i64,
        }
    }

    /// The number that stands for this value.
    pub fn value(self) -> (r: i64)
        ensures
            r == self.spec_value(),
    {
        match self {
            GossipMenuOptionType::Nil => 0i64,
            GossipMenuOptionType::Gossip => 1i64,
            GossipMenuOptionType::QuestGiver => 2i64,
            GossipMenuOptionType::Vendor => 3i64,
            GossipMenuOptionType::TaxiVendor => 4i64,
            GossipMenuOptionType::Trainer => 5i64,
            GossipMenuOptionType::SpiritHealer => 6i64,
            GossipMenuOptionType::SpiritGuide => 7i64,
            GossipMenuOptionType::Innkeeper => 8i64,
            GossipMenuOptionType::Banker => 9i64,
            GossipMenuOptionType::Petitioner => 10i64,
            GossipMenuOptionType::TabardDesigner => 11i64,
            GossipMenuOptionType::Battlefield => 12i64,
            GossipMenuOptionType::Auctioneer => 13i64,
            GossipMenuOptionType::Stablepet => 14i64,
            GossipMenuOptionType::Armorer => 15i64,
            GossipMenuOptionType::UnlearnTalents => 16i64,
            GossipMenuOptionType::UnlearnPetSkills => 17i64,
        }
    }

    /// The value that `v` stands for, if any.
    pub fn n(v: i64) -> (r: Option<Self>)
        ensures
            r matches Some(e) ==> e.spec_value() == v,
            r is None ==> forall|e: Self| e.spec_value() != v,
    {
        match v {
            0i64 => Some(GossipMenuOptionType::Nil),
            1i64 => Some(GossipMenuOptionType::Gossip),
            2i64 => Some(GossipMenuOptionType::QuestGiver),
            3i64 => Some(GossipMenuOptionType::Vendor),
            4i64 => Some(GossipMenuOptionType::TaxiVendor),
            5i64 => Some(GossipMenuOptionType::Trainer),
            6i64 => Some(GossipMenuOptionType::SpiritHealer),
            7i64 => Some(GossipMenuOptionType::SpiritGuide),
            8i64 => Some(GossipMenuOptionType::Innkeeper),
            9i64 => Some(GossipMenuOptionType::Banker),
            10i64 => Some(GossipMenuOptionType::Petitioner),
            11i64 => Some(GossipMenuOptionType::TabardDesigner),
            12i64 => Some(GossipMenuOptionType::Battlefield),
            13i64 => Some(GossipMenuOptionType::Auctioneer),
            14i64 => Some(GossipMenuOptionType::Stablepet),
            15i64 => Some(GossipMenuOptionType::Armorer),
            16i64 => Some(GossipMenuOptionType::UnlearnTalents),
            17i64 => Some(GossipMenuOptionType::UnlearnPetSkills),
            _ => None,
        }
    }

    /// Distinct values stand for distinct numbers, so reading back the number of
    /// a value gives that value.
    pub proof fn lemma_value_injective(a: Self, b: Self)
        ensures
            a.spec_value() == b.spec_value() ==> a == b,
    {
        match a {
            GossipMenuOptionType::Nil => {},
            GossipMenuOptionType::Gossip => {},
            GossipMenuOptionType::QuestGiver => {},
            GossipMenuOptionType::Vendor => {},
            GossipMenuOptionType::TaxiVendor => {},
            GossipMenuOptionType::Trainer => {},
            GossipMenuOptionType::SpiritHealer => {},
            GossipMenuOptionType::SpiritGuide => {},
            GossipMenuOptionType::Innkeeper => {},
            GossipMenuOptionType::Banker => {},
            GossipMenuOptionType::Petitioner => {},
            GossipMenuOptionType::TabardDesigner => {},
            GossipMenuOptionType::Battlefield => {},
            GossipMenuOptionType::Auctioneer => {},
            GossipMenuOptionType::Stablepet => {},
            GossipMenuOptionType::Armorer => {},
            GossipMenuOptionType::UnlearnTalents => {},
            GossipMenuOptionType::UnlearnPetSkills => {},
        }
    }
}

#[derive(Clone, Copy, Debug, PartialEq, Eq, Structural)]
pub enum WeaponAttackType {
    MainHand,
    OffHand,
    Ranged,
}

impl WeaponAttackType {
    /// The number that stands for this value on the wire and in the database.
    pub open spec fn spec_value(self) -> i64 {
        match self {
            WeaponAttackType::MainHand => 0i64,
            WeaponAttackType::OffHand => 1i64,
            WeaponAttackType::Ranged => 2i64,
        }
    }

    /// The number that stands for this value.
    pub fn value(self) -> (r: i64)
        ensures
            r == self.spec_value(),
    {
        match self {
            WeaponAttackType::MainHand => 0i64,
            WeaponAttackType::OffHand => 1i64,
            WeaponAttackType::Ranged => 2i64,
        }
    }

    /// The value that `v` stands for, if any.
    pub fn n(v: i64) -> (r: Option<Self>)
        ensures
            r matches Some(e) ==> e.spec_value() == v,
            r is None ==> forall|e: Self| e.spec_value() != v,
    {
        match v {
            0i64 => Some(WeaponAttackType::MainHand),
            1i64 => Some(WeaponAttackType::OffHand),
            2i64 => Some(WeaponAttackType::Ranged),
            _ => None,
        }
    }

    /// Distinct values stand for distinct numbers, so reading back the number of
    /// a value gives that value.
    pub proof fn lemma_value_injective(a: Self, b: Self)
        ensures
            a.spec_value() == b.spec_value() ==> a == b,
    {
        match a {
            WeaponAttackType::MainHand => {},
            WeaponAttackType::OffHand => {},
            WeaponAttackType::Ranged => {},
        }
    }
}

#[derive(Clone, Copy, Debug, PartialEq, Eq, Structural)]
pub enum LifeCycleStage {
    Alive,
    Dead,
}

impl LifeCycleStage {
    /// The number that stands for this value on the wire and in the database.
    pub open spec fn spec_value(self) -> i64 {
        match self {
            LifeCycleStage::Alive => 0i64,
            LifeCycleStage::Dead => 1i64,
        }
    }

    /// The number that stands for this value.
    pub fn value(self) -> (r: i64)
        ensures
            r == self.spec_value(),
    {
        match self {
            LifeCycleStage::Alive => 0i64,
            LifeCycleStage::Dead => 1i64,
        }
    }

    /// The value that `v` stands for, if any.
    pub fn n(v: i64) -> (r: Option<Self>)
        ensures
            r matches Some(e) ==> e.spec_value() == v,
            r is None ==> forall|e: Self| e.spec_value() != v,
    {
        match v {
            0i64 => Some(LifeCycleStage::Alive),
            1i64 => Some(LifeCycleStage::Dead),
            _ => None,
        }
    }

    /// Distinct values stand for distinct numbers, so reading back the number of
    /// a value gives that value.
    pub proof fn lemma_value_injective(a: Self, b: Self)
        ensures
            a.spec_value() == b.spec_value() ==> a == b,
    {
        match a {
            LifeCycleStage::Alive => {},
            LifeCycleStage::Dead => {},
        }
    }
}

#[derive(Clone, Copy, Debug, PartialEq, Eq, Structural)]
pub enum UnitDynamicFlag {
    Nil,
    Lootable,
    TrackUnit,
    /// Indicates the target as grey for the client
    Tapped,
    Rooted,
    Specialinfo,
    Dead,
}

impl UnitDynamicFlag {
    /// The number that stands for this value on the wire and in the database.
    pub open spec fn spec_value(self) -> i64 {
        match self {
            UnitDynamicFlag::Nil => 0i64,
            UnitDynamicFlag::Lootable => 1i64,
            UnitDynamicFlag::TrackUnit => 2i64,
            UnitDynamicFlag::Tapped => 4i64,
            UnitDynamicFlag::Rooted => 8i64,
            UnitDynamicFlag::Specialinfo => 16i64,
            UnitDynamicFlag::Dead => 32i64,
        }
    }

    /// The number that stands for this value.
    pub fn value(self) -> (r: i64)
        ensures
            r == self.spec_value(),
    {
        match self {
            UnitDynamicFlag::Nil => 0i64,
            UnitDynamicFlag::Lootable => 1i64,
            UnitDynamicFlag::TrackUnit => 2i64,
            UnitDynamicFlag::Tapped => 4i64,
            UnitDynamicFlag::Rooted => 8i64,
            UnitDynamicFlag::Specialinfo => 16i64,
            UnitDynamicFlag::Dead => 32i64,
        }
    }

    /// The value that `v` stands for, if any.
    pub fn n(v: i64) -> (r: Option<Self>)
        ensures
            r matches Some(e) ==> e.spec_value() == v,
            r is None ==> forall|e: Self| e.spec_value() != v,
    {
        match v {
            0i64 => Some(UnitDynamicFlag::Nil),
            1i64 => Some(UnitDynamicFlag::Lootable),
            2i64 => Some(UnitDynamicFlag::TrackUnit),
            4i64 => Some(UnitDynamicFlag::Tapped),
            8i64 => Some(UnitDynamicFlag::Rooted),
            16i64 => Some(UnitDynamicFlag::Specialinfo),
            32i64 => Some(UnitDynamicFlag::Dead),
            _ => None,
        }
    }

    /// Distinct values stand for distinct numbers, so reading back the number of
    /// a value gives that value.
    pub proof fn lemma_value_injective(a: Self, b: Self)
        ensures
            a.spec_value() == b.spec_value() ==> a == b,
    {
        match a {
            UnitDynamicFlag::Nil => {},
            UnitDynamicFlag::Lootable => {},
            UnitDynamicFlag::TrackUnit => {},
            UnitDynamicFlag::Tapped => {},
            UnitDynamicFlag::Rooted => {},
            UnitDynamicFlag::Specialinfo => {},
            UnitDynamicFlag::Dead => {},
        }
    }
}

#[derive(Clone, Copy, Debug, PartialEq, Eq, Structural)]
pub enum MeleeAttackError {
    Nil,
    NotInRange,
    NotFacingTarget,
}

impl MeleeAttackError {
    /// The number that stands for this value on the wire and in the database.
    pub open spec fn spec_value(self) -> i64 {
        match self {
            MeleeAttackError::Nil => 0i64,
            MeleeAttackError::NotInRange => 1i64,
            MeleeAttackError::NotFacingTarget => 2i64,
        }
    }

    /// The number that stands for this value.
    pub fn value(self) -> (r: i64)
        ensures
            r == self.spec_value(),
    {
        match self {
            MeleeAttackError::Nil => 0i64,
            MeleeAttackError::NotInRange => 1i64,
            MeleeAttackError::NotFacingTarget => 2i64,
        }
    }

    /// The value that `v` stands for, if any.
    pub fn n(v: i64) -> (r: Option<Self>)
        ensures
            r matches Some(e) ==> e.spec_value() == v,
            r is None ==> forall|e: Self| e.spec_value() != v,
    {
        match v {
            0i64 => Some(MeleeAttackError::Nil),
            1i64 => Some(MeleeAttackError::NotInRange),
            2i64 => Some(MeleeAttackError::NotFacingTarget),
            _ => None,
        }
    }

    /// Distinct values stand for distinct numbers, so reading back the number of
    /// a value gives that value.
    pub proof fn lemma_value_injective(a: Self, b: Self)
        ensures
            a.spec_value() == b.spec_value() ==> a == b,
    {
        match a {
            MeleeAttackError::Nil => {},
            MeleeAttackError::NotInRange => {},
            MeleeAttackError::NotFacingTarget => {},
        }
    }
}

#[derive(Clone, Copy, Debug, PartialEq, Eq, Structural)]
pub enum SpellFailReason {
    AffectingCombat,
    AlreadyAtFullHealth,
    AlreadyAtFullMana,
    AlreadyAtFullPower,
    AlreadyBeingTamed,
    AlreadyHaveCharm,
    AlreadyHaveSummon,
    AlreadyOpen,
    AuraBounced,
    AutotrackInterrupted,
    BadImplicitTargets,
    BadTargets,
    CantBeCharmed,
    CantBeDisenchanted,
    CantBeDisenchantedSkill,
    CantBeProspected,
    CantCastOnTapped,
    CantDuelWhileInvisible,
    CantDuelWhileStealthed,
    CantStealth,
    CasterAurastate,
    CasterDead,
    Charmed,
    ChestInUse,
    Confused,
    DontReport,
    EquippedItem,
    EquippedItemClass,
    EquippedItemClassMainhand,
    EquippedItemClassOffhand,
    Error,
    Fizzle,
    Fleeing,
    FoodLowlevel,
    Highlevel,
    HungerSatiated,
    Immune,
    Interrupted,
    InterruptedCombat,
    ItemAlreadyEnchanted,
    ItemGone,
    ItemNotFound,
    ItemNotReady,
    LevelRequirement,
    LineOfSight,
    Lowlevel,
    LowCastlevel,
    MainhandEmpty,
    Moving,
    NeedAmmo,
    NeedAmmoPouch,
    NeedExoticAmmo,
    Nopath,
    NotBehind,
    NotFishable,
    NotFlying,
    NotHere,
    NotInfront,
    NotInControl,
    NotKnown,
    NotMounted,
    NotOnTaxi,
    NotOnTransport,
    NotReady,
    NotShapeshift,
    NotStanding,
    NotTradeable,
    NotTrading,
    NotUnsheathed,
    NotWhileGhost,
    NoAmmo,
    NoChargesRemain,
    NoChampion,
    NoComboPoints,
    NoDueling,
    NoEndurance,
    NoFish,
    NoItemsWhileShapeshifted,
    NoMountsAllowed,
    NoPet,
    NoPower,
    NothingToDispel,
    NothingToSteal,
    OnlyAbovewater,
    OnlyDaytime,
    OnlyIndoors,
    OnlyMounted,
    OnlyNighttime,
    OnlyOutdoors,
    OnlyShapeshift,
    OnlyStealthed,
    OnlyUnderwater,
    OutOfRange,
    Pacified,
    Possessed,
    Reagents,
    RequiresArea,
    RequiresSpellFocus,
    Rooted,
    Silenced,
    SpellInProgress,
    SpellLearned,
    SpellUnavailable,
    Stunned,
    TargetsDead,
    TargetAffectingCombat,
    TargetAurastate,
    TargetDueling,
    TargetEnemy,
    TargetEnraged,
    TargetFriendly,
    TargetInCombat,
    TargetIsPlayer,
    TargetIsPlayerControlled,
    TargetNotDead,
    TargetNotInParty,
    TargetNotLooted,
    TargetNotPlayer,
    TargetNoPockets,
    TargetNoWeapons,
    TargetUnskinnable,
    ThirstSatiated,
    TooClose,
    TooManyOfItem,
    TotemCategory,
    Totems,
    TrainingPoints,
    TryAgain,
    UnitNotBehind,
    UnitNotInfront,
    WrongPetFood,
    NotWhileFatigued,
    TargetNotInInstance,
    NotWhileTrading,
    TargetNotInRaid,
    DisenchantWhileLooting,
    ProspectWhileLooting,
    ProspectNeedMore,
    TargetFreeforall,
    NoEdibleCorpses,
    OnlyBattlegrounds,
    TargetNotGhost,
    TooManySkills,
    TransformUnusable,
    WrongWeather,
    DamageImmune,
    PreventedByMechanic,
    PlayTime,
    Reputation,
    MinSkill,
    NotInArena,
    NotOnShapeshift,
    NotOnStealthed,
    NotOnDamageImmune,
    NotOnMounted,
    TooShallow,
    TargetNotInSanctuary,
    TargetIsTrivial,
    BmOrInvisgod,
    ExpertRidingRequirement,
    ArtisanRidingRequirement,
    NotIdle,
    NotInactive,
    PartialPlaytime,
    NoPlaytime,
    NotInBattleground,
    OnlyInArena,
    TargetLockedToRaidInstance,
    Unknown,
}

impl SpellFailReason {
    /// The number that stands for this value on the wire and in the database.
    pub open spec fn spec_value(self) -> i64 {
        match self {
            SpellFailReason::AffectingCombat => 0i64,
            SpellFailReason::AlreadyAtFullHealth => 1i64,
            SpellFailReason::AlreadyAtFullMana => 2i64,
            SpellFailReason::AlreadyAtFullPower => 3i64,
            SpellFailReason::AlreadyBeingTamed => 4i64,
            SpellFailReason::AlreadyHaveCharm => 5i64,
            SpellFailReason::AlreadyHaveSummon => 6i64,
            SpellFailReason::AlreadyOpen => 7i64,
            SpellFailReason::AuraBounced => 8i64,
            SpellFailReason::AutotrackInterrupted => 9i64,
            SpellFailReason::BadImplicitTargets => 10i64,
            SpellFailReason::BadTargets => 11i64,
            SpellFailReason::CantBeCharmed => 12i64,
            SpellFailReason::CantBeDisenchanted => 13i64,
            SpellFailReason::CantBeDisenchantedSkill => 14i64,
            SpellFailReason::CantBeProspected => 15i64,
            SpellFailReason::CantCastOnTapped => 16i64,
            SpellFailReason::CantDuelWhileInvisible => 17i64,
            SpellFailReason::CantDuelWhileStealthed => 18i64,
            SpellFailReason::CantStealth => 19i64,
            SpellFailReason::CasterAurastate => 20i64,
            SpellFailReason::CasterDead => 21i64,
            SpellFailReason::Charmed => 22i64,
            SpellFailReason::ChestInUse => 23i64,
            SpellFailReason::Confused => 24i64,
            SpellFailReason::DontReport => 25i64,
            SpellFailReason::EquippedItem => 26i64,
            SpellFailReason::EquippedItemClass => 27i64,
            SpellFailReason::EquippedItemClassMainhand => 28i64,
            SpellFailReason::EquippedItemClassOffhand => 29i64,
            SpellFailReason::Error => 30i64,
            SpellFailReason::Fizzle => 31i64,
            SpellFailReason::Fleeing => 32i64,
            SpellFailReason::FoodLowlevel => 33i64,
            SpellFailReason::Highlevel => 34i64,
            SpellFailReason::HungerSatiated => 35i64,
            SpellFailReason::Immune => 36i64,
            SpellFailReason::Interrupted => 37i64,
            SpellFailReason::InterruptedCombat => 38i64,
            SpellFailReason::ItemAlreadyEnchanted => 39i64,
            SpellFailReason::ItemGone => 40i64,
            SpellFailReason::ItemNotFound => 41i64,
            SpellFailReason::ItemNotReady => 42i64,
            SpellFailReason::LevelRequirement => 43i64,
            SpellFailReason::LineOfSight => 44i64,
            SpellFailReason::Lowlevel => 45i64,
            SpellFailReason::LowCastlevel => 46i64,
            SpellFailReason::MainhandEmpty => 47i64,
            SpellFailReason::Moving => 48i64,
            SpellFailReason::NeedAmmo => 49i64,
            SpellFailReason::NeedAmmoPouch => 50i64,
            SpellFailReason::NeedExoticAmmo => 51i64,
            SpellFailReason::Nopath => 52i64,
            SpellFailReason::NotBehind => 53i64,
            SpellFailReason::NotFishable => 54i64,
            SpellFailReason::NotFlying => 55i64,
            SpellFailReason::NotHere => 56i64,
            SpellFailReason::NotInfront => 57i64,
            SpellFailReason::NotInControl => 58i64,
            SpellFailReason::NotKnown => 59i64,
            SpellFailReason::NotMounted => 60i64,
            SpellFailReason::NotOnTaxi => 61i64,
            SpellFailReason::NotOnTransport => 62i64,
            SpellFailReason::NotReady => 63i64,
            SpellFailReason::NotShapeshift => 64i64,
            SpellFailReason::NotStanding => 65i64,
            SpellFailReason::NotTradeable => 66i64,
            SpellFailReason::NotTrading => 67i64,
            SpellFailReason::NotUnsheathed => 68i64,
            SpellFailReason::NotWhileGhost => 69i64,
            SpellFailReason::NoAmmo => 70i64,
            SpellFailReason::NoChargesRemain => 71i64,
            SpellFailReason::NoChampion => 72i64,
            SpellFailReason::NoComboPoints => 73i64,
            SpellFailReason::NoDueling => 74i64,
            SpellFailReason::NoEndurance => 75i64,
            SpellFailReason::NoFish => 76i64,
            SpellFailReason::NoItemsWhileShapeshifted => 77i64,
            SpellFailReason::NoMountsAllowed => 78i64,
            SpellFailReason::NoPet => 79i64,
            SpellFailReason::NoPower => 80i64,
            SpellFailReason::NothingToDispel => 81i64,
            SpellFailReason::NothingToSteal => 82i64,
            SpellFailReason::OnlyAbovewater => 83i64,
            SpellFailReason::OnlyDaytime => 84i64,
            SpellFailReason::OnlyIndoors => 85i64,
            SpellFailReason::OnlyMounted => 86i64,
            SpellFailReason::OnlyNighttime => 87i64,
            SpellFailReason::OnlyOutdoors => 88i64,
            SpellFailReason::OnlyShapeshift => 89i64,
            SpellFailReason::OnlyStealthed => 90i64,
            SpellFailReason::OnlyUnderwater => 91i64,
            SpellFailReason::OutOfRange => 92i64,
            SpellFailReason::Pacified => 93i64,
            SpellFailReason::Possessed => 94i64,
            SpellFailReason::Reagents => 95i64,
            SpellFailReason::RequiresArea => 96i64,
            SpellFailReason::RequiresSpellFocus => 97i64,
            SpellFailReason::Rooted => 98i64,
            SpellFailReason::Silenced => 99i64,
            SpellFailReason::SpellInProgress => 100i64,
            SpellFailReason::SpellLearned => 101i64,
            SpellFailReason::SpellUnavailable => 102i64,
            SpellFailReason::Stunned => 103i64,
            SpellFailReason::TargetsDead => 104i64,
            SpellFailReason::TargetAffectingCombat => 105i64,
            SpellFailReason::TargetAurastate => 106i64,
            SpellFailReason::TargetDueling => 107i64,
            SpellFailReason::TargetEnemy => 108i64,
            SpellFailReason::TargetEnraged => 109i64,
            SpellFailReason::TargetFriendly => 110i64,
            SpellFailReason::TargetInCombat => 111i64,
            SpellFailReason::TargetIsPlayer => 112i64,
            SpellFailReason::TargetIsPlayerControlled => 113i64,
            SpellFailReason::TargetNotDead => 114i64,
            SpellFailReason::TargetNotInParty => 115i64,
            SpellFailReason::TargetNotLooted => 116i64,
            SpellFailReason::TargetNotPlayer => 117i64,
            SpellFailReason::TargetNoPockets => 118i64,
            SpellFailReason::TargetNoWeapons => 119i64,
            SpellFailReason::TargetUnskinnable => 120i64,
            SpellFailReason::ThirstSatiated => 121i64,
            SpellFailReason::TooClose => 122i64,
            SpellFailReason::TooManyOfItem => 123i64,
            SpellFailReason::TotemCategory => 124i64,
            SpellFailReason::Totems => 125i64,
            SpellFailReason::TrainingPoints => 126i64,
            SpellFailReason::TryAgain => 127i64,
            SpellFailReason::UnitNotBehind => 128i64,
            SpellFailReason::UnitNotInfront => 129i64,
            SpellFailReason::WrongPetFood => 130i64,
            SpellFailReason::NotWhileFatigued => 131i64,
            SpellFailReason::TargetNotInInstance => 132i64,
            SpellFailReason::NotWhileTrading => 133i64,
            SpellFailReason::TargetNotInRaid => 134i64,
            SpellFailReason::DisenchantWhileLooting => 135i64,
            SpellFailReason::ProspectWhileLooting => 136i64,
            SpellFailReason::ProspectNeedMore => 137i64,
            SpellFailReason::TargetFreeforall => 138i64,
            SpellFailReason::NoEdibleCorpses => 139i64,
            SpellFailReason::OnlyBattlegrounds => 140i64,
            SpellFailReason::TargetNotGhost => 141i64,
            SpellFailReason::TooManySkills => 142i64,
            SpellFailReason::TransformUnusable => 143i64,
            SpellFailReason::WrongWeather => 144i64,
            SpellFailReason::DamageImmune => 145i64,
            SpellFailReason::PreventedByMechanic => 146i64,
            SpellFailReason::PlayTime => 147i64,
            SpellFailReason::Reputation => 148i64,
            SpellFailReason::MinSkill => 149i64,
            SpellFailReason::NotInArena => 150i64,
            SpellFailReason::NotOnShapeshift => 151i64,
            SpellFailReason::NotOnStealthed => 152i64,
            SpellFailReason::NotOnDamageImmune => 153i64,
            SpellFailReason::NotOnMounted => 154i64,
            SpellFailReason::TooShallow => 155i64,
            SpellFailReason::TargetNotInSanctuary => 156i64,
            SpellFailReason::TargetIsTrivial => 157i64,
            SpellFailReason::BmOrInvisgod => 158i64,
            SpellFailReason::ExpertRidingRequirement => 159i64,
            SpellFailReason::ArtisanRidingRequirement => 160i64,
            SpellFailReason::NotIdle => 161i64,
            SpellFailReason::NotInactive => 162i64,
            SpellFailReason::PartialPlaytime => 163i64,
            SpellFailReason::NoPlaytime => 164i64,
            SpellFailReason::NotInBattleground => 165i64,
            SpellFailReason::OnlyInArena => 166i64,
            SpellFailReason::TargetLockedToRaidInstance => 167i64,
            SpellFailReason::Unknown => 168i64,
        }
    }

    /// The number that stands for this value.
    pub fn value(self) -> (r: i64)
        ensures
            r == self.spec_value(),
    {
        match self {
            SpellFailReason::AffectingCombat => 0i64,
            SpellFailReason::AlreadyAtFullHealth => 1i64,
            SpellFailReason::AlreadyAtFullMana => 2i64,
            SpellFailReason::AlreadyAtFullPower => 3i64,
            SpellFailReason::AlreadyBeingTamed => 4i64,
            SpellFailReason::AlreadyHaveCharm => 5i64,
            SpellFailReason::AlreadyHaveSummon => 6i64,
            SpellFailReason::AlreadyOpen => 7i64,
            SpellFailReason::AuraBounced => 8i64,
            SpellFailReason::AutotrackInterrupted => 9i64,
            SpellFailReason::BadImplicitTargets => 10i64,
            SpellFailReason::BadTargets => 11i64,
            SpellFailReason::CantBeCharmed => 12i64,
            SpellFailReason::CantBeDisenchanted => 13i64,
            SpellFailReason::CantBeDisenchantedSkill => 14i64,
            SpellFailReason::CantBeProspected => 15i64,
            SpellFailReason::CantCastOnTapped => 16i64,
            SpellFailReason::CantDuelWhileInvisible => 17i64,
            SpellFailReason::CantDuelWhileStealthed => 18i64,
            SpellFailReason::CantStealth => 19i64,
            SpellFailReason::CasterAurastate => 20i64,
            SpellFailReason::CasterDead => 21i64,
            SpellFailReason::Charmed => 22i64,
            SpellFailReason::ChestInUse => 23i64,
            SpellFailReason::Confused => 24i64,
            SpellFailReason::DontReport => 25i64,
            SpellFailReason::EquippedItem => 26i64,
            SpellFailReason::EquippedItemClass => 27i64,
            SpellFailReason::EquippedItemClassMainhand => 28i64,
            SpellFailReason::EquippedItemClassOffhand => 29i64,
            SpellFailReason::Error => 30i64,
            SpellFailReason::Fizzle => 31i64,
            SpellFailReason::Fleeing => 32i64,
            SpellFailReason::FoodLowlevel => 33i64,
            SpellFailReason::Highlevel => 34i64,
            SpellFailReason::HungerSatiated => 35i64,
            SpellFailReason::Immune => 36i64,
            SpellFailReason::Interrupted => 37i64,
            SpellFailReason::InterruptedCombat => 38i64,
            SpellFailReason::ItemAlreadyEnchanted => 39i64,
            SpellFailReason::ItemGone => 40i64,
            SpellFailReason::ItemNotFound => 41i64,
            SpellFailReason::ItemNotReady => 42i64,
            SpellFailReason::LevelRequirement => 43i64,
            SpellFailReason::LineOfSight => 44i64,
            SpellFailReason::Lowlevel => 45i64,
            SpellFailReason::LowCastlevel => 46i64,
            SpellFailReason::MainhandEmpty => 47i64,
            SpellFailReason::Moving => 48i64,
            SpellFailReason::NeedAmmo => 49i64,
            SpellFailReason::NeedAmmoPouch => 50i64,
            SpellFailReason::NeedExoticAmmo => 51i64,
            SpellFailReason::Nopath => 52i64,
            SpellFailReason::NotBehind => 53i64,
            SpellFailReason::NotFishable => 54i64,
            SpellFailReason::NotFlying => 55i64,
            SpellFailReason::NotHere => 56i64,
            SpellFailReason::NotInfront => 57i64,
            SpellFailReason::NotInControl => 58i64,
            SpellFailReason::NotKnown => 59i64,
            SpellFailReason::NotMounted => 60i64,
            SpellFailReason::NotOnTaxi => 61i64,
            SpellFailReason::NotOnTransport => 62i64,
            SpellFailReason::NotReady => 63i64,
            SpellFailReason::NotShapeshift => 64i64,
            SpellFailReason::NotStanding => 65i64,
            SpellFailReason::NotTradeable => 66i64,
            SpellFailReason::NotTrading => 67i64,
            SpellFailReason::NotUnsheathed => 68i64,
            SpellFailReason::NotWhileGhost => 69i64,
            SpellFailReason::NoAmmo => 70i64,
            SpellFailReason::NoChargesRemain => 71i64,
            SpellFailReason::NoChampion => 72i64,
            SpellFailReason::NoComboPoints => 73i64,
            SpellFailReason::NoDueling => 74i64,
            SpellFailReason::NoEndurance => 75i64,
            SpellFailReason::NoFish => 76i64,
            SpellFailReason::NoItemsWhileShapeshifted => 77i64,
            SpellFailReason::NoMountsAllowed => 78i64,
            SpellFailReason::NoPet => 79i64,
            SpellFailReason::NoPower => 80i64,
            SpellFailReason::NothingToDispel => 81i64,
            SpellFailReason::NothingToSteal => 82i64,
            SpellFailReason::OnlyAbovewater => 83i64,
            SpellFailReason::OnlyDaytime => 84i64,
            SpellFailReason::OnlyIndoors => 85i64,
            SpellFailReason::OnlyMounted => 86i64,
            SpellFailReason::OnlyNighttime => 87i64,
            SpellFailReason::OnlyOutdoors => 88i64,
            SpellFailReason::OnlyShapeshift => 89i64,
            SpellFailReason::OnlyStealthed => 90i64,
            SpellFailReason::OnlyUnderwater => 91i64,
            SpellFailReason::OutOfRange => 92i64,
            SpellFailReason::Pacified => 93i64,
            SpellFailReason::Possessed => 94i64,
            SpellFailReason::Reagents => 95i64,
            SpellFailReason::RequiresArea => 96i64,
            SpellFailReason::RequiresSpellFocus => 97i64,
            SpellFailReason::Rooted => 98i64,
            SpellFailReason::Silenced => 99i64,
            SpellFailReason::SpellInProgress => 100i64,
            SpellFailReason::SpellLearned => 101i64,
            SpellFailReason::SpellUnavailable => 102i64,
            SpellFailReason::Stunned => 103i64,
            SpellFailReason::TargetsDead => 104i64,
            SpellFailReason::TargetAffectingCombat => 105i64,
            SpellFailReason::TargetAurastate => 106i64,
            SpellFailReason::TargetDueling => 107i64,
            SpellFailReason::TargetEnemy => 108i64,
            SpellFailReason::TargetEnraged => 109i64,
            SpellFailReason::TargetFriendly => 110i64,
            SpellFailReason::TargetInCombat => 111i64,
            SpellFailReason::TargetIsPlayer => 112i64,
            SpellFailReason::TargetIsPlayerControlled => 113i64,
            SpellFailReason::TargetNotDead => 114i64,
            SpellFailReason::TargetNotInParty => 115i64,
            SpellFailReason::TargetNotLooted => 116i64,
            SpellFailReason::TargetNotPlayer => 117i64,
            SpellFailReason::TargetNoPockets => 118i64,
            SpellFailReason::TargetNoWeapons => 119i64,
            SpellFailReason::TargetUnskinnable => 120i64,
            SpellFailReason::ThirstSatiated => 121i64,
            SpellFailReason::TooClose => 122i64,
            SpellFailReason::TooManyOfItem => 123i64,
            SpellFailReason::TotemCategory => 124i64,
            SpellFailReason::Totems => 125i64,
            SpellFailReason::TrainingPoints => 126i64,
            SpellFailReason::TryAgain => 127i64,
            SpellFailReason::UnitNotBehind => 128i64,
            SpellFailReason::UnitNotInfront => 129i64,
            SpellFailReason::WrongPetFood => 130i64,
            SpellFailReason::NotWhileFatigued => 131i64,
            SpellFailReason::TargetNotInInstance => 132i64,
            SpellFailReason::NotWhileTrading => 133i64,
            SpellFailReason::TargetNotInRaid => 134i64,
            SpellFailReason::DisenchantWhileLooting => 135i64,
            SpellFailReason::ProspectWhileLooting => 136i64,
            SpellFailReason::ProspectNeedMore => 137i64,
            SpellFailReason::TargetFreeforall => 138i64,
            SpellFailReason::NoEdibleCorpses => 139i64,
            SpellFailReason::OnlyBattlegrounds => 140i64,
            SpellFailReason::TargetNotGhost => 141i64,
            SpellFailReason::TooManySkills => 142i64,
            SpellFailReason::TransformUnusable => 143i64,
            SpellFailReason::WrongWeather => 144i64,
            SpellFailReason::DamageImmune => 145i64,
            SpellFailReason::PreventedByMechanic => 146i64,
            SpellFailReason::PlayTime => 147i64,
            SpellFailReason::Reputation => 148i64,
            SpellFailReason::MinSkill => 149i64,
            SpellFailReason::NotInArena => 150i64,
            SpellFailReason::NotOnShapeshift => 151i64,
            SpellFailReason::NotOnStealthed => 152i64,
            SpellFailReason::NotOnDamageImmune => 153i64,
            SpellFailReason::NotOnMounted => 154i64,
            SpellFailReason::TooShallow => 155i64,
            SpellFailReason::TargetNotInSanctuary => 156i64,
            SpellFailReason::TargetIsTrivial => 157i64,
            SpellFailReason::BmOrInvisgod => 158i64,
            SpellFailReason::ExpertRidingRequirement => 159i64,
            SpellFailReason::ArtisanRidingRequirement => 160i64,
            SpellFailReason::NotIdle => 161i64,
            SpellFailReason::NotInactive => 162i64,
            SpellFailReason::PartialPlaytime => 163i64,
            SpellFailReason::NoPlaytime => 164i64,
            SpellFailReason::NotInBattleground => 165i64,
            SpellFailReason::OnlyInArena => 166i64,
            SpellFailReason::TargetLockedToRaidInstance => 167i64,
            SpellFailReason::Unknown => 168i64,
        }
    }

    /// The value that `v` stands for, if any.
    pub fn n(v: i64) -> (r: Option<Self>)
        ensures
            r matches Some(e) ==> e.spec_value() == v,
            r is None ==> forall|e: Self| e.spec_value() != v,
    {
        match v {
            0i64 => Some(SpellFailReason::AffectingCombat),
            1i64 => Some(SpellFailReason::AlreadyAtFullHealth),
            2i64 => Some(SpellFailReason::AlreadyAtFullMana),
            3i64 => Some(SpellFailReason::AlreadyAtFullPower),
            4i64 => Some(SpellFailReason::AlreadyBeingTamed),
            5i64 => Some(SpellFailReason::AlreadyHaveCharm),
            6i64 => Some(SpellFailReason::AlreadyHaveSummon),
            7i64 => Some(SpellFailReason::AlreadyOpen),
            8i64 => Some(SpellFailReason::AuraBounced),
            9i64 => Some(SpellFailReason::AutotrackInterrupted),
            10i64 => Some(SpellFailReason::BadImplicitTargets),
            11i64 => Some(SpellFailReason::BadTargets),
            12i64 => Some(SpellFailReason::CantBeCharmed),
            13i64 => Some(SpellFailReason::CantBeDisenchanted),
            14i64 => Some(SpellFailReason::CantBeDisenchantedSkill),
            15i64 => Some(SpellFailReason::CantBeProspected),
            16i64 => Some(SpellFailReason::CantCastOnTapped),
            17i64 => Some(SpellFailReason::CantDuelWhileInvisible),
            18i64 => Some(SpellFailReason::CantDuelWhileStealthed),
            19i64 => Some(SpellFailReason::CantStealth),
            20i64 => Some(SpellFailReason::CasterAurastate),
            21i64 => Some(SpellFailReason::CasterDead),
            22i64 => Some(SpellFailReason::Charmed),
            23i64 => Some(SpellFailReason::ChestInUse),
            24i64 => Some(SpellFailReason::Confused),
            25i64 => Some(SpellFailReason::DontReport),
            26i64 => Some(SpellFailReason::EquippedItem),
            27i64 => Some(SpellFailReason::EquippedItemClass),
            28i64 => Some(SpellFailReason::EquippedItemClassMainhand),
            29i64 => Some(SpellFailReason::EquippedItemClassOffhand),
            30i64 => Some(SpellFailReason::Error),
            31i64 => Some(SpellFailReason::Fizzle),
            32i64 => Some(SpellFailReason::Fleeing),
            33i64 => Some(SpellFailReason::FoodLowlevel),
            34i64 => Some(SpellFailReason::Highlevel),
            35i64 => Some(SpellFailReason::HungerSatiated),
            36i64 => Some(SpellFailReason::Immune),
            37i64 => Some(SpellFailReason::Interrupted),
            38i64 => Some(SpellFailReason::InterruptedCombat),
            39i64 => Some(SpellFailReason::ItemAlreadyEnchanted),
            40i64 => Some(SpellFailReason::ItemGone),
            41i64 => Some(SpellFailReason::ItemNotFound),
            42i64 => Some(SpellFailReason::ItemNotReady),
            43i64 => Some(SpellFailReason::LevelRequirement),
            44i64 => Some(SpellFailReason::LineOfSight),
            45i64 => Some(SpellFailReason::Lowlevel),
            46i64 => Some(SpellFailReason::LowCastlevel),
            47i64 => Some(SpellFailReason::MainhandEmpty),
            48i64 => Some(SpellFailReason::Moving),
            49i64 => Some(SpellFailReason::NeedAmmo),
            50i64 => Some(SpellFailReason::NeedAmmoPouch),
            51i64 => Some(SpellFailReason::NeedExoticAmmo),
            52i64 => Some(SpellFailReason::Nopath),
            53i64 => Some(SpellFailReason::NotBehind),
            54i64 => Some(SpellFailReason::NotFishable),
            55i64 => Some(SpellFailReason::NotFlying),
            56i64 => Some(SpellFailReason::NotHere),
            57i64 => Some(SpellFailReason::NotInfront),
            58i64 => Some(SpellFailReason::NotInControl),
            59i64 => Some(SpellFailReason::NotKnown),
            60i64 => Some(SpellFailReason::NotMounted),
            61i64 => Some(SpellFailReason::NotOnTaxi),
            62i64 => Some(SpellFailReason::NotOnTransport),
            63i64 => Some(SpellFailReason::NotReady),
            64i64 => Some(SpellFailReason::NotShapeshift),
            65i64 => Some(SpellFailReason::NotStanding),
            66i64 => Some(SpellFailReason::NotTradeable),
            67i64 => Some(SpellFailReason::NotTrading),
            68i64 => Some(SpellFailReason::NotUnsheathed),
            69i64 => Some(SpellFailReason::NotWhileGhost),
            70i64 => Some(SpellFailReason::NoAmmo),
            71i64 => Some(SpellFailReason::NoChargesRemain),
            72i64 => Some(SpellFailReason::NoChampion),
            73i64 => Some(SpellFailReason::NoComboPoints),
            74i64 => Some(SpellFailReason::NoDueling),
            75i64 => Some(SpellFailReason::NoEndurance),
            76i64 => Some(SpellFailReason::NoFish),
            77i64 => Some(SpellFailReason::NoItemsWhileShapeshifted),
            78i64 => Some(SpellFailReason::NoMountsAllowed),
            79i64 => Some(SpellFailReason::NoPet),
            80i64 => Some(SpellFailReason::NoPower),
            81i64 => Some(SpellFailReason::NothingToDispel),
            82i64 => Some(SpellFailReason::NothingToSteal),
            83i64 => Some(SpellFailReason::OnlyAbovewater),
            84i64 => Some(SpellFailReason::OnlyDaytime),
            85i64 => Some(SpellFailReason::OnlyIndoors),
            86i64 => Some(SpellFailReason::OnlyMounted),
            87i64 => Some(SpellFailReason::OnlyNighttime),
            88i64 => Some(SpellFailReason::OnlyOutdoors),
            89i64 => Some(SpellFailReason::OnlyShapeshift),
            90i64 => Some(SpellFailReason::OnlyStealthed),
            91i64 => Some(SpellFailReason::OnlyUnderwater),
            92i64 => Some(SpellFailReason::OutOfRange),
            93i64 => Some(SpellFailReason::Pacified),
            94i64 => Some(SpellFailReason::Possessed),
            95i64 => Some(SpellFailReason::Reagents),
            96i64 => Some(SpellFailReason::RequiresArea),
            97i64 => Some(SpellFailReason::RequiresSpellFocus),
            98i64 => Some(SpellFailReason::Rooted),
            99i64 => Some(SpellFailReason::Silenced),
            100i64 => Some(SpellFailReason::SpellInProgress),
            101i64 => Some(SpellFailReason::SpellLearned),
            102i64 => Some(SpellFailReason::SpellUnavailable),
            103i64 => Some(SpellFailReason::Stunned),
            104i64 => Some(SpellFailReason::TargetsDead),
            105i64 => Some(SpellFailReason::TargetAffectingCombat),
            106i64 => Some(SpellFailReason::TargetAurastate),
            107i64 => Some(SpellFailReason::TargetDueling),
            108i64 => Some(SpellFailReason::TargetEnemy),
            109i64 => Some(SpellFailReason::TargetEnraged),
            110i64 => Some(SpellFailReason::TargetFriendly),
            111i64 => Some(SpellFailReason::TargetInCombat),
            112i64 => Some(SpellFailReason::TargetIsPlayer),
            113i64 => Some(SpellFailReason::TargetIsPlayerControlled),
            114i64 => Some(SpellFailReason::TargetNotDead),
            115i64 => Some(SpellFailReason::TargetNotInParty),
            116i64 => Some(SpellFailReason::TargetNotLooted),
            117i64 => Some(SpellFailReason::TargetNotPlayer),
            118i64 => Some(SpellFailReason::TargetNoPockets),
            119i64 => Some(SpellFailReason::TargetNoWeapons),
            120i64 => Some(SpellFailReason::TargetUnskinnable),
            121i64 => Some(SpellFailReason::ThirstSatiated),
            122i64 => Some(SpellFailReason::TooClose),
            123i64 => Some(SpellFailReason::TooManyOfItem),
            124i64 => Some(SpellFailReason::TotemCategory),
            125i64 => Some(SpellFailReason::Totems),
            126i64 => Some(SpellFailReason::TrainingPoints),
            127i64 => Some(SpellFailReason::TryAgain),
            128i64 => Some(SpellFailReason::UnitNotBehind),
            129i64 => Some(SpellFailReason::UnitNotInfront),
            130i64 => Some(SpellFailReason::WrongPetFood),
            131i64 => Some(SpellFailReason::NotWhileFatigued),
            132i64 => Some(SpellFailReason::TargetNotInInstance),
            133i64 => Some(SpellFailReason::NotWhileTrading),
            134i64 => Some(SpellFailReason::TargetNotInRaid),
            135i64 => Some(SpellFailReason::DisenchantWhileLooting),
            136i64 => Some(SpellFailReason::ProspectWhileLooting),
            137i64 => Some(SpellFailReason::ProspectNeedMore),
            138i64 => Some(SpellFailReason::TargetFreeforall),
            139i64 => Some(SpellFailReason::NoEdibleCorpses),
            140i64 => Some(SpellFailReason::OnlyBattlegrounds),
            141i64 => Some(SpellFailReason::TargetNotGhost),
            142i64 => Some(SpellFailReason::TooManySkills),
            143i64 => Some(SpellFailReason::TransformUnusable),
            144i64 => Some(SpellFailReason::WrongWeather),
            145i64 => Some(SpellFailReason::DamageImmune),
            146i64 => Some(SpellFailReason::PreventedByMechanic),
            147i64 => Some(SpellFailReason::PlayTime),
            148i64 => Some(SpellFailReason::Reputation),
            149i64 => Some(SpellFailReason::MinSkill),
            150i64 => Some(SpellFailReason::NotInArena),
            151i64 => Some(SpellFailReason::NotOnShapeshift),
            152i64 => Some(SpellFailReason::NotOnStealthed),
            153i64 => Some(SpellFailReason::NotOnDamageImmune),
            154i64 => Some(SpellFailReason::NotOnMounted),
            155i64 => Some(SpellFailReason::TooShallow),
            156i64 => Some(SpellFailReason::TargetNotInSanctuary),
            157i64 => Some(SpellFailReason::TargetIsTrivial),
            158i64 => Some(SpellFailReason::BmOrInvisgod),
            159i64 => Some(SpellFailReason::ExpertRidingRequirement),
            160i64 => Some(SpellFailReason::ArtisanRidingRequirement),
            161i64 => Some(SpellFailReason::NotIdle),
            162i64 => Some(SpellFailReason::NotInactive),
            163i64 => Some(SpellFailReason::PartialPlaytime),
            164i64 => Some(SpellFailReason::NoPlaytime),
            165i64 => Some(SpellFailReason::NotInBattleground),
            166i64 => Some(SpellFailReason::OnlyInArena),
            167i64 => Some(SpellFailReason::TargetLockedToRaidInstance),
            168i64 => Some(SpellFailReason::Unknown),
            _ => None,
        }
    }

    /// Distinct values stand for distinct numbers, so reading back the number of
    /// a value gives that value.
    pub proof fn lemma_value_injective(a: Self, b: Self)
        ensures
            a.spec_value() == b.spec_value() ==> a == b,
    {
        match a {
            SpellFailReason::AffectingCombat => {},
            SpellFailReason::AlreadyAtFullHealth => {},
            SpellFailReason::AlreadyAtFullMana => {},
            SpellFailReason::AlreadyAtFullPower => {},
            SpellFailReason::AlreadyBeingTamed => {},
            SpellFailReason::AlreadyHaveCharm => {},
            SpellFailReason::AlreadyHaveSummon => {},
            SpellFailReason::AlreadyOpen => {},
            SpellFailReason::AuraBounced => {},
            SpellFailReason::AutotrackInterrupted => {},
            SpellFailReason::BadImplicitTargets => {},
            SpellFailReason::BadTargets => {},
            SpellFailReason::CantBeCharmed => {},
            SpellFailReason::CantBeDisenchanted => {},
            SpellFailReason::CantBeDisenchantedSkill => {},
            SpellFailReason::CantBeProspected => {},
            SpellFailReason::CantCastOnTapped => {},
            SpellFailReason::CantDuelWhileInvisible => {},
            SpellFailReason::CantDuelWhileStealthed => {},
            SpellFailReason::CantStealth => {},
            SpellFailReason::CasterAurastate => {},
            SpellFailReason::CasterDead => {},
            SpellFailReason::Charmed => {},
            SpellFailReason::ChestInUse => {},
            SpellFailReason::Confused => {},
            SpellFailReason::DontReport => {},
            SpellFailReason::EquippedItem => {},
            SpellFailReason::EquippedItemClass => {},
            SpellFailReason::EquippedItemClassMainhand => {},
            SpellFailReason::EquippedItemClassOffhand => {},
            SpellFailReason::Error => {},
            SpellFailReason::Fizzle => {},
            SpellFailReason::Fleeing => {},
            SpellFailReason::FoodLowlevel => {},
            SpellFailReason::Highlevel => {},
            SpellFailReason::HungerSatiated => {},
            SpellFailReason::Immune => {},
            SpellFailReason::Interrupted => {},
            SpellFailReason::InterruptedCombat => {},
            SpellFailReason::ItemAlreadyEnchanted => {},
            SpellFailReason::ItemGone => {},
            SpellFailReason::ItemNotFound => {},
            SpellFailReason::ItemNotReady => {},
            SpellFailReason::LevelRequirement => {},
            SpellFailReason::LineOfSight => {},
            SpellFailReason::Lowlevel => {},
            SpellFailReason::LowCastlevel => {},
            SpellFailReason::MainhandEmpty => {},
            SpellFailReason::Moving => {},
            SpellFailReason::NeedAmmo => {},
            SpellFailReason::NeedAmmoPouch => {},
            SpellFailReason::NeedExoticAmmo => {},
            SpellFailReason::Nopath => {},
            SpellFailReason::NotBehind => {},
            SpellFailReason::NotFishable => {},
            SpellFailReason::NotFlying => {},
            SpellFailReason::NotHere => {},
            SpellFailReason::NotInfront => {},
            SpellFailReason::NotInControl => {},
            SpellFailReason::NotKnown => {},
            SpellFailReason::NotMounted => {},
            SpellFailReason::NotOnTaxi => {},
            SpellFailReason::NotOnTransport => {},
            SpellFailReason::NotReady => {},
            SpellFailReason::NotShapeshift => {},
            SpellFailReason::NotStanding => {},
            SpellFailReason::NotTradeable => {},
            SpellFailReason::NotTrading => {},
            SpellFailReason::NotUnsheathed => {},
            SpellFailReason::NotWhileGhost => {},
            SpellFailReason::NoAmmo => {},
            SpellFailReason::NoChargesRemain => {},
            SpellFailReason::NoChampion => {},
            SpellFailReason::NoComboPoints => {},
            SpellFailReason::NoDueling => {},
            SpellFailReason::NoEndurance => {},
            SpellFailReason::NoFish => {},
            SpellFailReason::NoItemsWhileShapeshifted => {},
            SpellFailReason::NoMountsAllowed => {},
            SpellFailReason::NoPet => {},
            SpellFailReason::NoPower => {},
            SpellFailReason::NothingToDispel => {},
            SpellFailReason::NothingToSteal => {},
            SpellFailReason::OnlyAbovewater => {},
            SpellFailReason::OnlyDaytime => {},
            SpellFailReason::OnlyIndoors => {},
            SpellFailReason::OnlyMounted => {},
            SpellFailReason::OnlyNighttime => {},
            SpellFailReason::OnlyOutdoors => {},
            SpellFailReason::OnlyShapeshift => {},
            SpellFailReason::OnlyStealthed => {},
            SpellFailReason::OnlyUnderwater => {},
            SpellFailReason::OutOfRange => {},
            SpellFailReason::Pacified => {},
            SpellFailReason::Possessed => {},
            SpellFailReason::Reagents => {},
            SpellFailReason::RequiresArea => {},
            SpellFailReason::RequiresSpellFocus => {},
            SpellFailReason::Rooted => {},
            SpellFailReason::Silenced => {},
            SpellFailReason::SpellInProgress => {},
            SpellFailReason::SpellLearned => {},
            SpellFailReason::SpellUnavailable => {},
            SpellFailReason::Stunned => {},
            SpellFailReason::TargetsDead => {},
            SpellFailReason::TargetAffectingCombat => {},
            SpellFailReason::TargetAurastate => {},
            SpellFailReason::TargetDueling => {},
            SpellFailReason::TargetEnemy => {},
            SpellFailReason::TargetEnraged => {},
            SpellFailReason::TargetFriendly => {},
            SpellFailReason::TargetInCombat => {},
            SpellFailReason::TargetIsPlayer => {},
            SpellFailReason::TargetIsPlayerControlled => {},
            SpellFailReason::TargetNotDead => {},
            SpellFailReason::TargetNotInParty => {},
            SpellFailReason::TargetNotLooted => {},
            SpellFailReason::TargetNotPlayer => {},
            SpellFailReason::TargetNoPockets => {},
            SpellFailReason::TargetNoWeapons => {},
            SpellFailReason::TargetUnskinnable => {},
            SpellFailReason::ThirstSatiated => {},
            SpellFailReason::TooClose => {},
            SpellFailReason::TooManyOfItem => {},
            SpellFailReason::TotemCategory => {},
            SpellFailReason::Totems => {},
            SpellFailReason::TrainingPoints => {},
            SpellFailReason::TryAgain => {},
            SpellFailReason::UnitNotBehind => {},
            SpellFailReason::UnitNotInfront => {},
            SpellFailReason::WrongPetFood => {},
            SpellFailReason::NotWhileFatigued => {},
            SpellFailReason::TargetNotInInstance => {},
            SpellFailReason::NotWhileTrading => {},
            SpellFailReason::TargetNotInRaid => {},
            SpellFailReason::DisenchantWhileLooting => {},
            SpellFailReason::ProspectWhileLooting => {},
            SpellFailReason::ProspectNeedMore => {},
            SpellFailReason::TargetFreeforall => {},
            SpellFailReason::NoEdibleCorpses => {},
            SpellFailReason::OnlyBattlegrounds => {},
            SpellFailReason::TargetNotGhost => {},
            SpellFailReason::TooManySkills => {},
            SpellFailReason::TransformUnusable => {},
            SpellFailReason::WrongWeather => {},
            SpellFailReason::DamageImmune => {},
            SpellFailReason::PreventedByMechanic => {},
            SpellFailReason::PlayTime => {},
            SpellFailReason::Reputation => {},
            SpellFailReason::MinSkill => {},
            SpellFailReason::NotInArena => {},
            SpellFailReason::NotOnShapeshift => {},
            SpellFailReason::NotOnStealthed => {},
            SpellFailReason::NotOnDamageImmune => {},
            SpellFailReason::NotOnMounted => {},
            SpellFailReason::TooShallow => {},
            SpellFailReason::TargetNotInSanctuary => {},
            SpellFailReason::TargetIsTrivial => {},
            SpellFailReason::BmOrInvisgod => {},
            SpellFailReason::ExpertRidingRequirement => {},
            SpellFailReason::ArtisanRidingRequirement => {},
            SpellFailReason::NotIdle => {},
            SpellFailReason::NotInactive => {},
            SpellFailReason::PartialPlaytime => {},
            SpellFailReason::NoPlaytime => {},
            SpellFailReason::NotInBattleground => {},
            SpellFailReason::OnlyInArena => {},
            SpellFailReason::TargetLockedToRaidInstance => {},
            SpellFailReason::Unknown => {},
        }
    }
}

#[derive(Clone, Copy, Debug, PartialEq, Eq, Structural)]
pub enum QuestFlag {
    /// Not used currently
    StayAlive,
    /// Show confirmation box to party members upon accepting the quest
    PartyAccept,
    /// Not used currently
    Exploration,
    /// Can be shared: Player::CanShareQuest()
    Sharable,
    /// Not used currently
    HasCondition,
    /// Not used currently: Unsure of content
    HideRewardPOI,
    /// Can be completed while in raid group
    Raid,
    /// Not used currently: Available if Tbc expansion enabled only
    Tbc,
    /// Not used currently: Experience is not converted to gold at max level
    NoMoneyFromXp,
    /// Items and money rewarded only sent in SmsgQuestGiverOfferReward
    HiddenRewards,
    /// These quests are automatically rewarded on quest complete and they will never appear in quest log client side.
    Tracking,
    /// Not used currently
    TbcRaces,
    Daily,
}

impl QuestFlag {
    /// The number that stands for this value on the wire and in the database.
    pub open spec fn spec_value(self) -> u32 {
        match self {
            QuestFlag::StayAlive => 1u32,
            QuestFlag::PartyAccept => 2u32,
            QuestFlag::Exploration => 4u32,
            QuestFlag::Sharable => 8u32,
            QuestFlag::HasCondition => 16u32,
            QuestFlag::HideRewardPOI => 32u32,
            QuestFlag::Raid => 64u32,
            QuestFlag::Tbc => 128u32,
            QuestFlag::NoMoneyFromXp => 256u32,
            QuestFlag::HiddenRewards => 512u32,
            QuestFlag::Tracking => 1024u32,
            QuestFlag::TbcRaces => 2048u32,
            QuestFlag::Daily => 4096u32,
        }
    }

    /// The number that stands for this value.
    pub fn value(self) -> (r: u32)
        ensures
            r == self.spec_value(),
    {
        match self {
            QuestFlag::StayAlive => 1u32,
            QuestFlag::PartyAccept => 2u32,
            QuestFlag::Exploration => 4u32,
            QuestFlag::Sharable => 8u32,
            QuestFlag::HasCondition => 16u32,
            QuestFlag::HideRewardPOI => 32u32,
            QuestFlag::Raid => 64u32,
            QuestFlag::Tbc => 128u32,
            QuestFlag::NoMoneyFromXp => 256u32,
            QuestFlag::HiddenRewards => 512u32,
            QuestFlag::Tracking => 1024u32,
            QuestFlag::TbcRaces => 2048u32,
            QuestFlag::Daily => 4096u32,
        }
    }

    /// The value that `v` stands for, if any.
    pub fn n(v: u32) -> (r: Option<Self>)
        ensures
            r matches Some(e) ==> e.spec_value() == v,
            r is None ==> forall|e: Self| e.spec_value() != v,
    {
        match v {
            1u32 => Some(QuestFlag::StayAlive),
            2u32 => Some(QuestFlag::PartyAccept),
            4u32 => Some(QuestFlag::Exploration),
            8u32 => Some(QuestFlag::Sharable),
            16u32 => Some(QuestFlag::HasCondition),
            32u32 => Some(QuestFlag::HideRewardPOI),
            64u32 => Some(QuestFlag::Raid),
            128u32 => Some(QuestFlag::Tbc),
            256u32 => Some(QuestFlag::NoMoneyFromXp),
            512u32 => Some(QuestFlag::HiddenRewards),
            1024u32 => Some(QuestFlag::Tracking),
            2048u32 => Some(QuestFlag::TbcRaces),
            4096u32 => Some(QuestFlag::Daily),
            _ => None,
        }
    }

    /// Distinct values stand for distinct numbers, so reading back the number of
    /// a value gives that value.
    pub proof fn lemma_value_injective(a: Self, b: Self)
        ensures
            a.spec_value() == b.spec_value() ==> a == b,
    {
        match a {
            QuestFlag::StayAlive => {},
            QuestFlag::PartyAccept => {},
            QuestFlag::Exploration => {},
            QuestFlag::Sharable => {},
            QuestFlag::HasCondition => {},
            QuestFlag::HideRewardPOI => {},
            QuestFlag::Raid => {},
            QuestFlag::Tbc => {},
            QuestFlag::NoMoneyFromXp => {},
            QuestFlag::HiddenRewards => {},
            QuestFlag::Tracking => {},
            QuestFlag::TbcRaces => {},
            QuestFlag::Daily => {},
        }
    }
}

#[derive(Clone, Copy, Debug, PartialEq, Eq, Structural)]
pub enum QuestGiverStatus {
    Nil,
    /// Grey exclamation mark
    Unavailable,
    /// Nothing above head but yellow exclamation mark on hover
    Chat,
    /// Grey question mark
    Incomplete,
    /// Blue question mark
    RewardRepeatable,
    /// Blue exclamation mark
    AvailableRepeatable,
    /// Yellow exclamation mark
    Available,
    /// Yellow question mark, no yellow dot on minimap
    RewardHideOnMiniMap,
    /// Yellow question mark, yellow dot on minimap
    Reward,
}

impl QuestGiverStatus {
    /// The number that stands for this value on the wire and in the database.
    pub open spec fn spec_value(self) -> u8 {
        match self {
            QuestGiverStatus::Nil => 0u8,
            QuestGiverStatus::Unavailable => 1u8,
            QuestGiverStatus::Chat => 2u8,
            QuestGiverStatus::Incomplete => 3u8,
            QuestGiverStatus::RewardRepeatable => 4u8,
            QuestGiverStatus::AvailableRepeatable => 5u8,
            QuestGiverStatus::Available => 6u8,
            QuestGiverStatus::RewardHideOnMiniMap => 7u8,
            QuestGiverStatus::Reward => 8u8,
        }
    }

    /// The number that stands for this value.
    pub fn value(self) -> (r: u8)
        ensures
            r == self.spec_value(),
    {
        match self {
            QuestGiverStatus::Nil => 0u8,
            QuestGiverStatus::Unavailable => 1u8,
            QuestGiverStatus::Chat => 2u8,
            QuestGiverStatus::Incomplete => 3u8,
            QuestGiverStatus::RewardRepeatable => 4u8,
            QuestGiverStatus::AvailableRepeatable => 5u8,
            QuestGiverStatus::Available => 6u8,
            QuestGiverStatus::RewardHideOnMiniMap => 7u8,
            QuestGiverStatus::Reward => 8u8,
        }
    }

    /// The value that `v` stands for, if any.
    pub fn n(v: u8) -> (r: Option<Self>)
        ensures
            r matches Some(e) ==> e.spec_value() == v,
            r is None ==> forall|e: Self| e.spec_value() != v,
    {
        match v {
            0u8 => Some(QuestGiverStatus::Nil),
            1u8 => Some(QuestGiverStatus::Unavailable),
            2u8 => Some(QuestGiverStatus::Chat),
            3u8 => Some(QuestGiverStatus::Incomplete),
            4u8 => Some(QuestGiverStatus::RewardRepeatable),
            5u8 => Some(QuestGiverStatus::AvailableRepeatable),
            6u8 => Some(QuestGiverStatus::Available),
            7u8 => Some(QuestGiverStatus::RewardHideOnMiniMap),
            8u8 => Some(QuestGiverStatus::Reward),
            _ => None,
        }
    }

    /// Distinct values stand for distinct numbers, so reading back the number of
    /// a value gives that value.
    pub proof fn lemma_value_injective(a: Self, b: Self)
        ensures
            a.spec_value() == b.spec_value() ==> a == b,
    {
        match a {
            QuestGiverStatus::Nil => {},
            QuestGiverStatus::Unavailable => {},
            QuestGiverStatus::Chat => {},
            QuestGiverStatus::Incomplete => {},
            QuestGiverStatus::RewardRepeatable => {},
            QuestGiverStatus::AvailableRepeatable => {},
            QuestGiverStatus::Available => {},
            QuestGiverStatus::RewardHideOnMiniMap => {},
            QuestGiverStatus::Reward => {},
        }
    }
}

#[derive(Clone, Copy, Debug, PartialEq, Eq, Structural)]
pub enum PlayerQuestStatus {
    InProgress,
    ObjectivesCompleted,
    TurnedIn,
    Failed,
    /// Player has never taken the quest
    NotStarted,
}

impl PlayerQuestStatus {
    /// The number that stands for this value on the wire and in the database.
    pub open spec fn spec_value(self) -> u32 {
        match self {
            PlayerQuestStatus::InProgress => 0u32,
            PlayerQuestStatus::ObjectivesCompleted => 1u32,
            PlayerQuestStatus::TurnedIn => 2u32,
            PlayerQuestStatus::Failed => 3u32,
            PlayerQuestStatus::NotStarted => 4u32,
        }
    }

    /// The number that stands for this value.
    pub fn value(self) -> (r: u32)
        ensures
            r == self.spec_value(),
    {
        match self {
            PlayerQuestStatus::InProgress => 0u32,
            PlayerQuestStatus::ObjectivesCompleted => 1u32,
            PlayerQuestStatus::TurnedIn => 2u32,
            PlayerQuestStatus::Failed => 3u32,
            PlayerQuestStatus::NotStarted => 4u32,
        }
    }

    /// The value that `v` stands for, if any.
    pub fn n(v: u32) -> (r: Option<Self>)
        ensures
            r matches Some(e) ==> e.spec_value() == v,
            r is None ==> forall|e: Self| e.spec_value() != v,
    {
        match v {
            0u32 => Some(PlayerQuestStatus::InProgress),
            1u32 => Some(PlayerQuestStatus::ObjectivesCompleted),
            2u32 => Some(PlayerQuestStatus::TurnedIn),
            3u32 => Some(PlayerQuestStatus::Failed),
            4u32 => Some(PlayerQuestStatus::NotStarted),
            _ => None,
        }
    }

    /// Distinct values stand for distinct numbers, so reading back the number of
    /// a value gives that value.
    pub proof fn lemma_value_injective(a: Self, b: Self)
        ensures
            a.spec_value() == b.spec_value() ==> a == b,
    {
        match a {
            PlayerQuestStatus::InProgress => {},
            PlayerQuestStatus::ObjectivesCompleted => {},
            PlayerQuestStatus::TurnedIn => {},
            PlayerQuestStatus::Failed => {},
            PlayerQuestStatus::NotStarted => {},
        }
    }
}

#[derive(Clone, Copy, Debug, PartialEq, Eq, Structural)]
pub enum QuestSlotState {
    Completed,
    Failed,
}

impl QuestSlotState {
    /// The number that stands for this value on the wire and in the database.
    pub open spec fn spec_value(self) -> u32 {
        match self {
            QuestSlotState::Completed => 1u32,
            QuestSlotState::Failed => 2u32,
        }
    }

    /// The number that stands for this value.
    pub fn value(self) -> (r: u32)
        ensures
            r == self.spec_value(),
    {
        match self {
            QuestSlotState::Completed => 1u32,
            QuestSlotState::Failed => 2u32,
        }
    }

    /// The value that `v` stands for, if any.
    pub fn n(v: u32) -> (r: Option<Self>)
        ensures
            r matches Some(e) ==> e.spec_value() == v,
            r is None ==> forall|e: Self| e.spec_value() != v,
    {
        match v {
            1u32 => Some(QuestSlotState::Completed),
            2u32 => Some(QuestSlotState::Failed),
            _ => None,
        }
    }

    /// Distinct values stand for distinct numbers, so reading back the number of
    /// a value gives that value.
    pub proof fn lemma_value_injective(a: Self, b: Self)
        ensures
            a.spec_value() == b.spec_value() ==> a == b,
    {
        match a {
            QuestSlotState::Completed => {},
            QuestSlotState::Failed => {},
        }
    }
}

#[derive(Clone, Copy, Debug, PartialEq, Eq, Structural)]
pub enum QuestStartError {
    /// this is default case
    FailedRequirement,
    /// You are not high enough level for that quest.
    TooLowLevel,
    /// That quest is not available to your race.
    WrongRace,
    /// You have completed that quest.
    AlreadyDone,
    /// You can only be on one timed quest at a time.
    OnlyOneTimed,
    /// You are already on that quest.
    AlreadyOn,
    /// This quest requires an expansion enabled account.
    Expansion,
    /// You are already on that quest.
    AlreadyOn2,
    /// You don't have the required items with you. Check storage.
    MissingItems,
    /// You don't have enough money for that quest.
    NotEnoughMoney,
    /// You have already completed 10 daily quests today.
    DailyQuestsRemaining,
    /// You cannot complete quests once you have reached tired time.
    Tired,
}

impl QuestStartError {
    /// The number that stands for this value on the wire and in the database.
    pub open spec fn spec_value(self) -> i64 {
        match self {
            QuestStartError::FailedRequirement => 0i64,
            QuestStartError::TooLowLevel => 1i64,
            QuestStartError::WrongRace => 6i64,
            QuestStartError::AlreadyDone => 7i64,
            QuestStartError::OnlyOneTimed => 12i64,
            QuestStartError::AlreadyOn => 13i64,
            QuestStartError::Expansion => 16i64,
            QuestStartError::AlreadyOn2 => 18i64,
            QuestStartError::MissingItems => 21i64,
            QuestStartError::NotEnoughMoney => 23i64,
            QuestStartError::DailyQuestsRemaining => 26i64,
            QuestStartError::Tired => 27i64,
        }
    }

    /// The number that stands for this value.
    pub fn value(self) -> (r: i64)
        ensures
            r == self.spec_value(),
    {
        match self {
            QuestStartError::FailedRequirement => 0i64,
            QuestStartError::TooLowLevel => 1i64,
            QuestStartError::WrongRace => 6i64,
            QuestStartError::AlreadyDone => 7i64,
            QuestStartError::OnlyOneTimed => 12i64,
            QuestStartError::AlreadyOn => 13i64,
            QuestStartError::Expansion => 16i64,
            QuestStartError::AlreadyOn2 => 18i64,
            QuestStartError::MissingItems => 21i64,
            QuestStartError::NotEnoughMoney => 23i64,
            QuestStartError::DailyQuestsRemaining => 26i64,
            QuestStartError::Tired => 27i64,
        }
    }

    /// The value that `v` stands for, if any.
    pub fn n(v: i64) -> (r: Option<Self>)
        ensures
            r matches Some(e) ==> e.spec_value() == v,
            r is None ==> forall|e: Self| e.spec_value() != v,
    {
        match v {
            0i64 => Some(QuestStartError::FailedRequirement),
            1i64 => Some(QuestStartError::TooLowLevel),
            6i64 => Some(QuestStartError::WrongRace),
            7i64 => Some(QuestStartError::AlreadyDone),
            12i64 => Some(QuestStartError::OnlyOneTimed),
            13i64 => Some(QuestStartError::AlreadyOn),
            16i64 => Some(QuestStartError::Expansion),
            18i64 => Some(QuestStartError::AlreadyOn2),
            21i64 => Some(QuestStartError::MissingItems),
            23i64 => Some(QuestStartError::NotEnoughMoney),
            26i64 => Some(QuestStartError::DailyQuestsRemaining),
            27i64 => Some(QuestStartError::Tired),
            _ => None,
        }
    }

    /// Distinct values stand for distinct numbers, so reading back the number of
    /// a value gives that value.
    pub proof fn lemma_value_injective(a: Self, b: Self)
        ensures
            a.spec_value() == b.spec_value() ==> a == b,
    {
        match a {
            QuestStartError::FailedRequirement => {},
            QuestStartError::TooLowLevel => {},
            QuestStartError::WrongRace => {},
            QuestStartError::AlreadyDone => {},
            QuestStartError::OnlyOneTimed => {},
            QuestStartError::AlreadyOn => {},
            QuestStartError::Expansion => {},
            QuestStartError::AlreadyOn2 => {},
            QuestStartError::MissingItems => {},
            QuestStartError::NotEnoughMoney => {},
            QuestStartError::DailyQuestsRemaining => {},
            QuestStartError::Tired => {},
        }
    }
}

#[derive(Clone, Copy, Debug, PartialEq, Eq, Structural)]
pub enum MovementFlag {
    Forward,
    Backward,
    StrafeLeft,
    StrafeRight,
    /// Turning left
    Left,
    /// Turning right
    Right,
    PitchUp,
    PitchDown,
    /// Walking
    Walking,
    /// Used for flying on some creatures
    Ontransport,
    /// Unit appears suspended (swimming in the air) instead of falling
    DisableGravity,
    /// Must not be set along with MovementflagMaskMoving
    Root,
    /// Tc: MovementflagFalling // damage dealt on that type of falling
    JumpingOrFalling,
    /// Falling under the map boundaries (clientside the camera will remain at the boundaries and let see the character fall below)
    FallingFar,
    PendingStop,
    PendingStrafeStop,
    PendingForward,
    PendingBackward,
    PendingStrafeLeft,
    PendingStrafeRight,
    PendingRoot,
    /// appears with fly flag also
    Swimming,
    /// press "space" when flying or swimming
    Ascending,
    Descending,
    /// Player can fly. Seems to work on some degree on creatures.
    CanFly,
    /// Tc MovementflagFlying
    PlayerFlying,
    /// used for flight paths
    SplineElevation,
    /// used for flight paths
    SplineEnabled,
    /// prevent unit from falling through water
    Waterwalking,
    /// active rogue safe fall spell (passive)
    FallingSlow,
    /// hover, cannot jump
    Hover,
}

impl MovementFlag {
    /// The number that stands for this value on the wire and in the database.
    pub open spec fn spec_value(self) -> u32 {
        match self {
            MovementFlag::Forward => 1u32,
            MovementFlag::Backward => 2u32,
            MovementFlag::StrafeLeft => 4u32,
            MovementFlag::StrafeRight => 8u32,
            MovementFlag::Left => 16u32,
            MovementFlag::Right => 32u32,
            MovementFlag::PitchUp => 64u32,
            MovementFlag::PitchDown => 128u32,
            MovementFlag::Walking => 256u32,
            MovementFlag::Ontransport => 512u32,
            MovementFlag::DisableGravity => 1024u32,
            MovementFlag::Root => 2048u32,
            MovementFlag::JumpingOrFalling => 4096u32,
            MovementFlag::FallingFar => 8192u32,
            MovementFlag::PendingStop => 16384u32,
            MovementFlag::PendingStrafeStop => 32768u32,
            MovementFlag::PendingForward => 65536u32,
            MovementFlag::PendingBackward => 131072u32,
            MovementFlag::PendingStrafeLeft => 262144u32,
            MovementFlag::PendingStrafeRight => 524288u32,
            MovementFlag::PendingRoot => 1048576u32,
            MovementFlag::Swimming => 2097152u32,
            MovementFlag::Ascending => 4194304u32,
            MovementFlag::Descending => 8388608u32,
            MovementFlag::CanFly => 16777216u32,
            MovementFlag::PlayerFlying => 33554432u32,
            MovementFlag::SplineElevation => 67108864u32,
            MovementFlag::SplineEnabled => 134217728u32,
            MovementFlag::Waterwalking => 268435456u32,
            MovementFlag::FallingSlow => 536870912u32,
            MovementFlag::Hover => 1073741824u32,
        }
    }

    /// The number that stands for this value.
    pub fn value(self) -> (r: u32)
        ensures
            r == self.spec_value(),
    {
        match self {
            MovementFlag::Forward => 1u32,
            MovementFlag::Backward => 2u32,
            MovementFlag::StrafeLeft => 4u32,
            MovementFlag::StrafeRight => 8u32,
            MovementFlag::Left => 16u32,
            MovementFlag::Right => 32u32,
            MovementFlag::PitchUp => 64u32,
            MovementFlag::PitchDown => 128u32,
            MovementFlag::Walking => 256u32,
            MovementFlag::Ontransport => 512u32,
            MovementFlag::DisableGravity => 1024u32,
            MovementFlag::Root => 2048u32,
            MovementFlag::JumpingOrFalling => 4096u32,
            MovementFlag::FallingFar => 8192u32,
            MovementFlag::PendingStop => 16384u32,
            MovementFlag::PendingStrafeStop => 32768u32,
            MovementFlag::PendingForward => 65536u32,
            MovementFlag::PendingBackward => 131072u32,
            MovementFlag::PendingStrafeLeft => 262144u32,
            MovementFlag::PendingStrafeRight => 524288u32,
            MovementFlag::PendingRoot => 1048576u32,
            MovementFlag::Swimming => 2097152u32,
            MovementFlag::Ascending => 4194304u32,
            MovementFlag::Descending => 8388608u32,
            MovementFlag::CanFly => 16777216u32,
            MovementFlag::PlayerFlying => 33554432u32,
            MovementFlag::SplineElevation => 67108864u32,
            MovementFlag::SplineEnabled => 134217728u32,
            MovementFlag::Waterwalking => 268435456u32,
            MovementFlag::FallingSlow => 536870912u32,
            MovementFlag::Hover => 1073741824u32,
        }
    }

    /// The value that `v` stands for, if any.
    pub fn n(v: u32) -> (r: Option<Self>)
        ensures
            r matches Some(e) ==> e.spec_value() == v,
            r is None ==> forall|e: Self| e.spec_value() != v,
    {
        match v {
            1u32 => Some(MovementFlag::Forward),
            2u32 => Some(MovementFlag::Backward),
            4u32 => Some(MovementFlag::StrafeLeft),
            8u32 => Some(MovementFlag::StrafeRight),
            16u32 => Some(MovementFlag::Left),
            32u32 => Some(MovementFlag::Right),
            64u32 => Some(MovementFlag::PitchUp),
            128u32 => Some(MovementFlag::PitchDown),
            256u32 => Some(MovementFlag::Walking),
            512u32 => Some(MovementFlag::Ontransport),
            1024u32 => Some(MovementFlag::DisableGravity),
            2048u32 => Some(MovementFlag::Root),
            4096u32 => Some(MovementFlag::JumpingOrFalling),
            8192u32 => Some(MovementFlag::FallingFar),
            16384u32 => Some(MovementFlag::PendingStop),
            32768u32 => Some(MovementFlag::PendingStrafeStop),
            65536u32 => Some(MovementFlag::PendingForward),
            131072u32 => Some(MovementFlag::PendingBackward),
            262144u32 => Some(MovementFlag::PendingStrafeLeft),
            524288u32 => Some(MovementFlag::PendingStrafeRight),
            1048576u32 => Some(MovementFlag::PendingRoot),
            2097152u32 => Some(MovementFlag::Swimming),
            4194304u32 => Some(MovementFlag::Ascending),
            8388608u32 => Some(MovementFlag::Descending),
            16777216u32 => Some(MovementFlag::CanFly),
            33554432u32 => Some(MovementFlag::PlayerFlying),
            67108864u32 => Some(MovementFlag::SplineElevation),
            134217728u32 => Some(MovementFlag::SplineEnabled),
            268435456u32 => Some(MovementFlag::Waterwalking),
            536870912u32 => Some(MovementFlag::FallingSlow),
            1073741824u32 => Some(MovementFlag::Hover),
            _ => None,
        }
    }

    /// Distinct values stand for distinct numbers, so reading back the number of
    /// a value gives that value.
    pub proof fn lemma_value_injective(a: Self, b: Self)
        ensures
            a.spec_value() == b.spec_value() ==> a == b,
    {
        match a {
            MovementFlag::Forward => {},
            MovementFlag::Backward => {},
            MovementFlag::StrafeLeft => {},
            MovementFlag::StrafeRight => {},
            MovementFlag::Left => {},
            MovementFlag::Right => {},
            MovementFlag::PitchUp => {},
            MovementFlag::PitchDown => {},
            MovementFlag::Walking => {},
            MovementFlag::Ontransport => {},
            MovementFlag::DisableGravity => {},
            MovementFlag::Root => {},
            MovementFlag::JumpingOrFalling => {},
            MovementFlag::FallingFar => {},
            MovementFlag::PendingStop => {},
            MovementFlag::PendingStrafeStop => {},
            MovementFlag::PendingForward => {},
            MovementFlag::PendingBackward => {},
            MovementFlag::PendingStrafeLeft => {},
            MovementFlag::PendingStrafeRight => {},
            MovementFlag::PendingRoot => {},
            MovementFlag::Swimming => {},
            MovementFlag::Ascending => {},
            MovementFlag::Descending => {},
            MovementFlag::CanFly => {},
            MovementFlag::PlayerFlying => {},
            MovementFlag::SplineElevation => {},
            MovementFlag::SplineEnabled => {},
            MovementFlag::Waterwalking => {},
            MovementFlag::FallingSlow => {},
            MovementFlag::Hover => {},
        }
    }
}

#[derive(Clone, Copy, Debug, PartialEq, Eq, Structural)]
pub enum SplineFlag {
    Done,
    /// Affects elevation computation
    Falling,
    Unknown3,
    Unknown4,
    Unknown5,
    Unknown6,
    Unknown7,
    Unknown8,
    Runmode,
    /// Smooth movement(Catmullrom interpolation mode), flying animation
    Flying,
    NoSpline,
    Unknown12,
    Unknown13,
    Unknown14,
    Unknown15,
    Unknown16,
    FinalPoint,
    FinalTarget,
    FinalAngle,
    /// exists, but unknown what it does
    Unknown19,
    /// Movement by cycled spline
    Cyclic,
    /// Appears with cyclic flag in monster move packet, erases first spline vertex after first cycle done
    EnterCycle,
    /// Will never arrive
    Frozen,
    Unknown23,
    Unknown24,
    /// exists, but unknown what it does
    Unknown25,
    Unknown26,
    Unknown27,
    Unknown28,
    Unknown29,
    Unknown30,
    Unknown31,
}

impl SplineFlag {
    /// The number that stands for this value on the wire and in the database.
    pub open spec fn spec_value(self) -> u32 {
        match self {
            SplineFlag::Done => 1u32,
            SplineFlag::Falling => 2u32,
            SplineFlag::Unknown3 => 4u32,
            SplineFlag::Unknown4 => 8u32,
            SplineFlag::Unknown5 => 16u32,
            SplineFlag::Unknown6 => 32u32,
            SplineFlag::Unknown7 => 64u32,
            SplineFlag::Unknown8 => 128u32,
            SplineFlag::Runmode => 256u32,
            SplineFlag::Flying => 512u32,
            SplineFlag::NoSpline => 1024u32,
            SplineFlag::Unknown12 => 2048u32,
            SplineFlag::Unknown13 => 4096u32,
            SplineFlag::Unknown14 => 8192u32,
            SplineFlag::Unknown15 => 16384u32,
            SplineFlag::Unknown16 => 32768u32,
            SplineFlag::FinalPoint => 65536u32,
            SplineFlag::FinalTarget => 131072u32,
            SplineFlag::FinalAngle => 262144u32,
            SplineFlag::Unknown19 => 524288u32,
            SplineFlag::Cyclic => 1048576u32,
            SplineFlag::EnterCycle => 2097152u32,
            SplineFlag::Frozen => 4194304u32,
            SplineFlag::Unknown23 => 8388608u32,
            SplineFlag::Unknown24 => 16777216u32,
            SplineFlag::Unknown25 => 33554432u32,
            SplineFlag::Unknown26 => 67108864u32,
            SplineFlag::Unknown27 => 134217728u32,
            SplineFlag::Unknown28 => 268435456u32,
            SplineFlag::Unknown29 => 536870912u32,
            SplineFlag::Unknown30 => 1073741824u32,
            SplineFlag::Unknown31 => 2147483648u32,
        }
    }

    /// The number that stands for this value.
    pub fn value(self) -> (r: u32)
        ensures
            r == self.spec_value(),
    {
        match self {
            SplineFlag::Done => 1u32,
            SplineFlag::Falling => 2u32,
            SplineFlag::Unknown3 => 4u32,
            SplineFlag::Unknown4 => 8u32,
            SplineFlag::Unknown5 => 16u32,
            SplineFlag::Unknown6 => 32u32,
            SplineFlag::Unknown7 => 64u32,
            SplineFlag::Unknown8 => 128u32,
            SplineFlag::Runmode => 256u32,
            SplineFlag::Flying => 512u32,
            SplineFlag::NoSpline => 1024u32,
            SplineFlag::Unknown12 => 2048u32,
            SplineFlag::Unknown13 => 4096u32,
            SplineFlag::Unknown14 => 8192u32,
            SplineFlag::Unknown15 => 16384u32,
            SplineFlag::Unknown16 => 32768u32,
            SplineFlag::FinalPoint => 65536u32,
            SplineFlag::FinalTarget => 131072u32,
            SplineFlag::FinalAngle => 262144u32,
            SplineFlag::Unknown19 => 524288u32,
            SplineFlag::Cyclic => 1048576u32,
            SplineFlag::EnterCycle => 2097152u32,
            SplineFlag::Frozen => 4194304u32,
            SplineFlag::Unknown23 => 8388608u32,
            SplineFlag::Unknown24 => 16777216u32,
            SplineFlag::Unknown25 => 33554432u32,
            SplineFlag::Unknown26 => 67108864u32,
            SplineFlag::Unknown27 => 134217728u32,
            SplineFlag::Unknown28 => 268435456u32,
            SplineFlag::Unknown29 => 536870912u32,
            SplineFlag::Unknown30 => 1073741824u32,
            SplineFlag::Unknown31 => 2147483648u32,
        }
    }

    /// The value that `v` stands for, if any.
    pub fn n(v: u32) -> (r: Option<Self>)
        ensures
            r matches Some(e) ==> e.spec_value() == v,
            r is None ==> forall|e: Self| e.spec_value() != v,
    {
        match v {
            1u32 => Some(SplineFlag::Done),
            2u32 => Some(SplineFlag::Falling),
            4u32 => Some(SplineFlag::Unknown3),
            8u32 => Some(SplineFlag::Unknown4),
            16u32 => Some(SplineFlag::Unknown5),
            32u32 => Some(SplineFlag::Unknown6),
            64u32 => Some(SplineFlag::Unknown7),
            128u32 => Some(SplineFlag::Unknown8),
            256u32 => Some(SplineFlag::Runmode),
            512u32 => Some(SplineFlag::Flying),
            1024u32 => Some(SplineFlag::NoSpline),
            2048u32 => Some(SplineFlag::Unknown12),
            4096u32 => Some(SplineFlag::Unknown13),
            8192u32 => Some(SplineFlag::Unknown14),
            16384u32 => Some(SplineFlag::Unknown15),
            32768u32 => Some(SplineFlag::Unknown16),
            65536u32 => Some(SplineFlag::FinalPoint),
            131072u32 => Some(SplineFlag::FinalTarget),
            262144u32 => Some(SplineFlag::FinalAngle),
            524288u32 => Some(SplineFlag::Unknown19),
            1048576u32 => Some(SplineFlag::Cyclic),
            2097152u32 => Some(SplineFlag::EnterCycle),
            4194304u32 => Some(SplineFlag::Frozen),
            8388608u32 => Some(SplineFlag::Unknown23),
            16777216u32 => Some(SplineFlag::Unknown24),
            33554432u32 => Some(SplineFlag::Unknown25),
            67108864u32 => Some(SplineFlag::Unknown26),
            134217728u32 => Some(SplineFlag::Unknown27),
            268435456u32 => Some(SplineFlag::Unknown28),
            536870912u32 => Some(SplineFlag::Unknown29),
            1073741824u32 => Some(SplineFlag::Unknown30),
            2147483648u32 => Some(SplineFlag::Unknown31),
            _ => None,
        }
    }

    /// Distinct values stand for distinct numbers, so reading back the number of
    /// a value gives that value.
    pub proof fn lemma_value_injective(a: Self, b: Self)
        ensures
            a.spec_value() == b.spec_value() ==> a == b,
    {
        match a {
            SplineFlag::Done => {},
            SplineFlag::Falling => {},
            SplineFlag::Unknown3 => {},
            SplineFlag::Unknown4 => {},
            SplineFlag::Unknown5 => {},
            SplineFlag::Unknown6 => {},
            SplineFlag::Unknown7 => {},
            SplineFlag::Unknown8 => {},
            SplineFlag::Runmode => {},
            SplineFlag::Flying => {},
            SplineFlag::NoSpline => {},
            SplineFlag::Unknown12 => {},
            SplineFlag::Unknown13 => {},
            SplineFlag::Unknown14 => {},
            SplineFlag::Unknown15 => {},
            SplineFlag::Unknown16 => {},
            SplineFlag::FinalPoint => {},
            SplineFlag::FinalTarget => {},
            SplineFlag::FinalAngle => {},
            SplineFlag::Unknown19 => {},
            SplineFlag::Cyclic => {},
            SplineFlag::EnterCycle => {},
            SplineFlag::Frozen => {},
            SplineFlag::Unknown23 => {},
            SplineFlag::Unknown24 => {},
            SplineFlag::Unknown25 => {},
            SplineFlag::Unknown26 => {},
            SplineFlag::Unknown27 => {},
            SplineFlag::Unknown28 => {},
            SplineFlag::Unknown29 => {},
            SplineFlag::Unknown30 => {},
            SplineFlag::Unknown31 => {},
        }
    }
}

#[derive(Clone, Copy, Debug, PartialEq, Eq, Structural, Hash)]
pub enum UnitAttribute {
    Strength,
    Agility,
    Stamina,
    Intellect,
    Spirit,
}

impl UnitAttribute {
    /// The number that stands for this value on the wire and in the database.
    pub open spec fn spec_value(self) -> i64 {
        match self {
            UnitAttribute::Strength => 0i64,
            UnitAttribute::Agility => 1i64,
            UnitAttribute::Stamina => 2i64,
            UnitAttribute::Intellect => 3i64,
            UnitAttribute::Spirit => 4i64,
        }
    }

    /// The number that stands for this value.
    pub fn value(self) -> (r: i64)
        ensures
            r == self.spec_value(),
    {
        match self {
            UnitAttribute::Strength => 0i64,
            UnitAttribute::Agility => 1i64,
            UnitAttribute::Stamina => 2i64,
            UnitAttribute::Intellect => 3i64,
            UnitAttribute::Spirit => 4i64,
        }
    }

    /// The value that `v` stands for, if any.
    pub fn n(v: i64) -> (r: Option<Self>)
        ensures
            r matches Some(e) ==> e.spec_value() == v,
            r is None ==> forall|e: Self| e.spec_value() != v,
    {
        match v {
            0i64 => Some(UnitAttribute::Strength),
            1i64 => Some(UnitAttribute::Agility),
            2i64 => Some(UnitAttribute::Stamina),
            3i64 => Some(UnitAttribute::Intellect),
            4i64 => Some(UnitAttribute::Spirit),
            _ => None,
        }
    }

    /// Distinct values stand for distinct numbers, so reading back the number of
    /// a value gives that value.
    pub proof fn lemma_value_injective(a: Self, b: Self)
        ensures
            a.spec_value() == b.spec_value() ==> a == b,
    {
        match a {
            UnitAttribute::Strength => {},
            UnitAttribute::Agility => {},
            UnitAttribute::Stamina => {},
            UnitAttribute::Intellect => {},
            UnitAttribute::Spirit => {},
        }
    }
}

#[derive(Clone, Copy, Debug, PartialEq, Eq, Structural)]
pub enum SpellSchool {
    /// Physical
    Normal,
    Holy,
    Fire,
    Nature,
    Frost,
    Shadow,
    Arcane,
}

impl SpellSchool {
    /// The number that stands for this value on the wire and in the database.
    pub open spec fn spec_value(self) -> i64 {
        match self {
            SpellSchool::Normal => 0i64,
            SpellSchool::Holy => 1i64,
            SpellSchool::Fire => 2i64,
            SpellSchool::Nature => 3i64,
            SpellSchool::Frost => 4i64,
            SpellSchool::Shadow => 5i64,
            SpellSchool::Arcane => 6i64,
        }
    }

    /// The number that stands for this value.
    pub fn value(self) -> (r: i64)
        ensures
            r == self.spec_value(),
    {
        match self {
            SpellSchool::Normal => 0i64,
            SpellSchool::Holy => 1i64,
            SpellSchool::Fire => 2i64,
            SpellSchool::Nature => 3i64,
            SpellSchool::Frost => 4i64,
            SpellSchool::Shadow => 5i64,
            SpellSchool::Arcane => 6i64,
        }
    }

    /// The value that `v` stands for, if any.
    pub fn n(v: i64) -> (r: Option<Self>)
        ensures
            r matches Some(e) ==> e.spec_value() == v,
            r is None ==> forall|e: Self| e.spec_value() != v,
    {
        match v {
            0i64 => Some(SpellSchool::Normal),
            1i64 => Some(SpellSchool::Holy),
            2i64 => Some(SpellSchool::Fire),
            3i64 => Some(SpellSchool::Nature),
            4i64 => Some(SpellSchool::Frost),
            5i64 => Some(SpellSchool::Shadow),
            6i64 => Some(SpellSchool::Arcane),
            _ => None,
        }
    }

    /// Distinct values stand for distinct numbers, so reading back the number of
    /// a value gives that value.
    pub proof fn lemma_value_injective(a: Self, b: Self)
        ensures
            a.spec_value() == b.spec_value() ==> a == b,
    {
        match a {
            SpellSchool::Normal => {},
            SpellSchool::Holy => {},
            SpellSchool::Fire => {},
            SpellSchool::Nature => {},
            SpellSchool::Frost => {},
            SpellSchool::Shadow => {},
            SpellSchool::Arcane => {},
        }
    }
}

#[derive(Clone, Copy, Debug, PartialEq, Eq, Structural)]
pub enum Expansion {
    Vanilla,
    Tbc,
}

impl Expansion {
    /// The number that stands for this value on the wire and in the database.
    pub open spec fn spec_value(self) -> i64 {
        match self {
            Expansion::Vanilla => 0i64,
            Expansion::Tbc => 1i64,
        }
    }

    /// The number that stands for this value.
    pub fn value(self) -> (r: i64)
        ensures
            r == self.spec_value(),
    {
        match self {
            Expansion::Vanilla => 0i64,
            Expansion::Tbc => 1i64,
        }
    }

    /// The value that `v` stands for, if any.
    pub fn n(v: i64) -> (r: Option<Self>)
        ensures
            r matches Some(e) ==> e.spec_value() == v,
            r is None ==> forall|e: Self| e.spec_value() != v,
    {
        match v {
            0i64 => Some(Expansion::Vanilla),
            1i64 => Some(Expansion::Tbc),
            _ => None,
        }
    }

    /// Distinct values stand for distinct numbers, so reading back the number of
    /// a value gives that value.
    pub proof fn lemma_value_injective(a: Self, b: Self)
        ensures
            a.spec_value() == b.spec_value() ==> a == b,
    {
        match a {
            Expansion::Vanilla => {},
            Expansion::Tbc => {},
        }
    }
}

#[derive(Clone, Copy, Debug, PartialEq, Eq, Structural)]
pub enum CreatureRank {
    Normal,
    Elite,
    RareElite,
    WorldBoss,
    Rare,
    Unknown,
}

impl CreatureRank {
    /// The number that stands for this value on the wire and in the database.
    pub open spec fn spec_value(self) -> i64 {
        match self {
            CreatureRank::Normal => 0i64,
            CreatureRank::Elite => 1i64,
            CreatureRank::RareElite => 2i64,
            CreatureRank::WorldBoss => 3i64,
            CreatureRank::Rare => 4i64,
            CreatureRank::Unknown => 5i64,
        }
    }

    /// The number that stands for this value.
    pub fn value(self) -> (r: i64)
        ensures
            r == self.spec_value(),
    {
        match self {
            CreatureRank::Normal => 0i64,
            CreatureRank::Elite => 1i64,
            CreatureRank::RareElite => 2i64,
            CreatureRank::WorldBoss => 3i64,
            CreatureRank::Rare => 4i64,
            CreatureRank::Unknown => 5i64,
        }
    }

    /// The value that `v` stands for, if any.
    pub fn n(v: i64) -> (r: Option<Self>)
        ensures
            r matches Some(e) ==> e.spec_value() == v,
            r is None ==> forall|e: Self| e.spec_value() != v,
    {
        match v {
            0i64 => Some(CreatureRank::Normal),
            1i64 => Some(CreatureRank::Elite),
            2i64 => Some(CreatureRank::RareElite),
            3i64 => Some(CreatureRank::WorldBoss),
            4i64 => Some(CreatureRank::Rare),
            5i64 => Some(CreatureRank::Unknown),
            _ => None,
        }
    }

    /// Distinct values stand for distinct numbers, so reading back the number of
    /// a value gives that value.
    pub proof fn lemma_value_injective(a: Self, b: Self)
        ensures
            a.spec_value() == b.spec_value() ==> a == b,
    {
        match a {
            CreatureRank::Normal => {},
            CreatureRank::Elite => {},
            CreatureRank::RareElite => {},
            CreatureRank::WorldBoss => {},
            CreatureRank::Rare => {},
            CreatureRank::Unknown => {},
        }
    }
}

#[derive(Clone, Copy, Debug, PartialEq, Eq, Structural)]
pub enum LootType {
    /// In case of error
    Nil,
    Corpse,
    Pickpocketing,
    Fishing,
    Disenchanting,
    /// Unsupported by the client, send LOOT_PICKPOCKETING instead
    Skinning,
    /// Unsupported by the client, send LOOT_PICKPOCKETING instead
    Prospecting,
    /// Unsupported by the client, send LOOT_FISHING instead
    FishingHole,
    /// Unsupported by the client, send LOOT_FISHING instead
    FishingFail,
    /// Unsupported by the client, send LOOT_CORPSE instead
    Insignia,
}

impl LootType {
    /// The number that stands for this value on the wire and in the database.
    pub open spec fn spec_value(self) -> u8 {
        match self {
            LootType::Nil => 0u8,
            LootType::Corpse => 1u8,
            LootType::Pickpocketing => 2u8,
            LootType::Fishing => 3u8,
            LootType::Disenchanting => 4u8,
            LootType::Skinning => 6u8,
            LootType::Prospecting => 7u8,
            LootType::FishingHole => 20u8,
            LootType::FishingFail => 21u8,
            LootType::Insignia => 22u8,
        }
    }

    /// The number that stands for this value.
    pub fn value(self) -> (r: u8)
        ensures
            r == self.spec_value(),
    {
        match self {
            LootType::Nil => 0u8,
            LootType::Corpse => 1u8,
            LootType::Pickpocketing => 2u8,
            LootType::Fishing => 3u8,
            LootType::Disenchanting => 4u8,
            LootType::Skinning => 6u8,
            LootType::Prospecting => 7u8,
            LootType::FishingHole => 20u8,
            LootType::FishingFail => 21u8,
            LootType::Insignia => 22u8,
        }
    }

    /// The value that `v` stands for, if any.
    pub fn n(v: u8) -> (r: Option<Self>)
        ensures
            r matches Some(e) ==> e.spec_value() == v,
            r is None ==> forall|e: Self| e.spec_value() != v,
    {
        match v {
            0u8 => Some(LootType::Nil),
            1u8 => Some(LootType::Corpse),
            2u8 => Some(LootType::Pickpocketing),
            3u8 => Some(LootType::Fishing),
            4u8 => Some(LootType::Disenchanting),
            6u8 => Some(LootType::Skinning),
            7u8 => Some(LootType::Prospecting),
            20u8 => Some(LootType::FishingHole),
            21u8 => Some(LootType::FishingFail),
            22u8 => Some(LootType::Insignia),
            _ => None,
        }
    }

    /// Distinct values stand for distinct numbers, so reading back the number of
    /// a value gives that value.
    pub proof fn lemma_value_injective(a: Self, b: Self)
        ensures
            a.spec_value() == b.spec_value() ==> a == b,
    {
        match a {
            LootType::Nil => {},
            LootType::Corpse => {},
            LootType::Pickpocketing => {},
            LootType::Fishing => {},
            LootType::Disenchanting => {},
            LootType::Skinning => {},
            LootType::Prospecting => {},
            LootType::FishingHole => {},
            LootType::FishingFail => {},
            LootType::Insignia => {},
        }
    }
}

#[derive(Clone, Copy, Debug, PartialEq, Eq, Structural)]
pub enum LootSlotType {
    /// can be looted
    Normal,
    /// can only view (ignore any loot attempts)
    ViewOnly,
    /// can be looted only master looter (error message)
    MasterLooter,
    /// can't be looted (error message about missing reqs)
    MissingRequirements,
    /// ignore binding confirmation and etc, for single player looting
    Owner,
}

impl LootSlotType {
    /// The number that stands for this value on the wire and in the database.
    pub open spec fn spec_value(self) -> u8 {
        match self {
            LootSlotType::Normal => 0u8,
            LootSlotType::ViewOnly => 1u8,
            LootSlotType::MasterLooter => 2u8,
            LootSlotType::MissingRequirements => 3u8,
            LootSlotType::Owner => 4u8,
        }
    }

    /// The number that stands for this value.
    pub fn value(self) -> (r: u8)
        ensures
            r == self.spec_value(),
    {
        match self {
            LootSlotType::Normal => 0u8,
            LootSlotType::ViewOnly => 1u8,
            LootSlotType::MasterLooter => 2u8,
            LootSlotType::MissingRequirements => 3u8,
            LootSlotType::Owner => 4u8,
        }
    }

    /// The value that `v` stands for, if any.
    pub fn n(v: u8) -> (r: Option<Self>)
        ensures
            r matches Some(e) ==> e.spec_value() == v,
            r is None ==> forall|e: Self| e.spec_value() != v,
    {
        match v {
            0u8 => Some(LootSlotType::Normal),
            1u8 => Some(LootSlotType::ViewOnly),
            2u8 => Some(LootSlotType::MasterLooter),
            3u8 => Some(LootSlotType::MissingRequirements),
            4u8 => Some(LootSlotType::Owner),
            _ => None,
        }
    }

    /// Distinct values stand for distinct numbers, so reading back the number of
    /// a value gives that value.
    pub proof fn lemma_value_injective(a: Self, b: Self)
        ensures
            a.spec_value() == b.spec_value() ==> a == b,
    {
        match a {
            LootSlotType::Normal => {},
            LootSlotType::ViewOnly => {},
            LootSlotType::MasterLooter => {},
            LootSlotType::MissingRequirements => {},
            LootSlotType::Owner => {},
        }
    }
}

#[derive(Clone, Copy, Debug, PartialEq, Eq, Structural)]
pub enum LootError {
    /// You don't have permission to loot that corpse.
    DidntKill,
    /// You are too far away to loot that corpse.
    TooFar,
    /// You must be facing the corpse to loot it.
    BadFacing,
    /// Someone is already looting that corpse.
    Locked,
    /// You need to be standing up to loot something!
    NotStanding,
    /// You can't loot anything while stunned!
    Stunned,
    /// Player not found
    PlayerNotFound,
    /// Maximum play time exceeded
    PlayTimeExceeded,
    /// That player's inventory is full
    MasterInvFull,
    /// Player has too many of that item already
    MasterUniqueItem,
    /// Can't assign item to that player
    MasterOther,
    /// Your target has already had its pockets picked
    AlreadyPickpocketed,
    /// You can't do that while shapeshifted.
    NotWhileShapeshifted,
}

impl LootError {
    /// The number that stands for this value on the wire and in the database.
    pub open spec fn spec_value(self) -> i64 {
        match self {
            LootError::DidntKill => 0i64,
            LootError::TooFar => 4i64,
            LootError::BadFacing => 5i64,
            LootError::Locked => 6i64,
            LootError::NotStanding => 8i64,
            LootError::Stunned => 9i64,
            LootError::PlayerNotFound => 10i64,
            LootError::PlayTimeExceeded => 11i64,
            LootError::MasterInvFull => 12i64,
            LootError::MasterUniqueItem => 13i64,
            LootError::MasterOther => 14i64,
            LootError::AlreadyPickpocketed => 15i64,
            LootError::NotWhileShapeshifted => 16i64,
        }
    }

    /// The number that stands for this value.
    pub fn value(self) -> (r: i64)
        ensures
            r == self.spec_value(),
    {
        match self {
            LootError::DidntKill => 0i64,
            LootError::TooFar => 4i64,
            LootError::BadFacing => 5i64,
            LootError::Locked => 6i64,
            LootError::NotStanding => 8i64,
            LootError::Stunned => 9i64,
            LootError::PlayerNotFound => 10i64,
            LootError::PlayTimeExceeded => 11i64,
            LootError::MasterInvFull => 12i64,
            LootError::MasterUniqueItem => 13i64,
            LootError::MasterOther => 14i64,
            LootError::AlreadyPickpocketed => 15i64,
            LootError::NotWhileShapeshifted => 16i64,
        }
    }

    /// The value that `v` stands for, if any.
    pub fn n(v: i64) -> (r: Option<Self>)
        ensures
            r matches Some(e) ==> e.spec_value() == v,
            r is None ==> forall|e: Self| e.spec_value() != v,
    {
        match v {
            0i64 => Some(LootError::DidntKill),
            4i64 => Some(LootError::TooFar),
            5i64 => Some(LootError::BadFacing),
            6i64 => Some(LootError::Locked),
            8i64 => Some(LootError::NotStanding),
            9i64 => Some(LootError::Stunned),
            10i64 => Some(LootError::PlayerNotFound),
            11i64 => Some(LootError::PlayTimeExceeded),
            12i64 => Some(LootError::MasterInvFull),
            13i64 => Some(LootError::MasterUniqueItem),
            14i64 => Some(LootError::MasterOther),
            15i64 => Some(LootError::AlreadyPickpocketed),
            16i64 => Some(LootError::NotWhileShapeshifted),
            _ => None,
        }
    }

    /// Distinct values stand for distinct numbers, so reading back the number of
    /// a value gives that value.
    pub proof fn lemma_value_injective(a: Self, b: Self)
        ensures
            a.spec_value() == b.spec_value() ==> a == b,
    {
        match a {
            LootError::DidntKill => {},
            LootError::TooFar => {},
            LootError::BadFacing => {},
            LootError::Locked => {},
            LootError::NotStanding => {},
            LootError::Stunned => {},
            LootError::PlayerNotFound => {},
            LootError::PlayTimeExceeded => {},
            LootError::MasterInvFull => {},
            LootError::MasterUniqueItem => {},
            LootError::MasterOther => {},
            LootError::AlreadyPickpocketed => {},
            LootError::NotWhileShapeshifted => {},
        }
    }
}

#[derive(Clone, Copy, Debug, PartialEq, Eq, Structural, Hash)]
pub enum AttributeModifier {
    StatStrength,
    StatAgility,
    StatStamina,
    StatIntellect,
    StatSpirit,
    Health,
    Mana,
    Rage,
    Focus,
    Energy,
    Happiness,
    Armor,
    ResistanceHoly,
    ResistanceFire,
    ResistanceNature,
    ResistanceFrost,
    ResistanceShadow,
    ResistanceArcane,
    AttackPower,
    AttackPowerRanged,
    DamageMainHand,
    DamageOffHand,
    DamageRanged,
    Max,
}

impl AttributeModifier {
    /// The number that stands for this value on the wire and in the database.
    pub open spec fn spec_value(self) -> i64 {
        match self {
            AttributeModifier::StatStrength => 0i64,
            AttributeModifier::StatAgility => 1i64,
            AttributeModifier::StatStamina => 2i64,
            AttributeModifier::StatIntellect => 3i64,
            AttributeModifier::StatSpirit => 4i64,
            AttributeModifier::Health => 5i64,
            AttributeModifier::Mana => 6i64,
            AttributeModifier::Rage => 7i64,
            AttributeModifier::Focus => 8i64,
            AttributeModifier::Energy => 9i64,
            AttributeModifier::Happiness => 10i64,
            AttributeModifier::Armor => 11i64,
            AttributeModifier::ResistanceHoly => 12i64,
            AttributeModifier::ResistanceFire => 13i64,
            AttributeModifier::ResistanceNature => 14i64,
            AttributeModifier::ResistanceFrost => 15i64,
            AttributeModifier::ResistanceShadow => 16i64,
            AttributeModifier::ResistanceArcane => 17i64,
            AttributeModifier::AttackPower => 18i64,
            AttributeModifier::AttackPowerRanged => 19i64,
            AttributeModifier::DamageMainHand => 20i64,
            AttributeModifier::DamageOffHand => 21i64,
            AttributeModifier::DamageRanged => 22i64,
            AttributeModifier::Max => 23i64,
        }
    }

    /// The number that stands for this value.
    pub fn value(self) -> (r: i64)
        ensures
            r == self.spec_value(),
    {
        match self {
            AttributeModifier::StatStrength => 0i64,
            AttributeModifier::StatAgility => 1i64,
            AttributeModifier::StatStamina => 2i64,
            AttributeModifier::StatIntellect => 3i64,
            AttributeModifier::StatSpirit => 4i64,
            AttributeModifier::Health => 5i64,
            AttributeModifier::Mana => 6i64,
            AttributeModifier::Rage => 7i64,
            AttributeModifier::Focus => 8i64,
            AttributeModifier::Energy => 9i64,
            AttributeModifier::Happiness => 10i64,
            AttributeModifier::Armor => 11i64,
            AttributeModifier::ResistanceHoly => 12i64,
            AttributeModifier::ResistanceFire => 13i64,
            AttributeModifier::ResistanceNature => 14i64,
            AttributeModifier::ResistanceFrost => 15i64,
            AttributeModifier::ResistanceShadow => 16i64,
            AttributeModifier::ResistanceArcane => 17i64,
            AttributeModifier::AttackPower => 18i64,
            AttributeModifier::AttackPowerRanged => 19i64,
            AttributeModifier::DamageMainHand => 20i64,
            AttributeModifier::DamageOffHand => 21i64,
            AttributeModifier::DamageRanged => 22i64,
            AttributeModifier::Max => 23i64,
        }
    }

    /// The value that `v` stands for, if any.
    pub fn n(v: i64) -> (r: Option<Self>)
        ensures
            r matches Some(e) ==> e.spec_value() == v,
            r is None ==> forall|e: Self| e.spec_value() != v,
    {
        match v {
            0i64 => Some(AttributeModifier::StatStrength),
            1i64 => Some(AttributeModifier::StatAgility),
            2i64 => Some(AttributeModifier::StatStamina),
            3i64 => Some(AttributeModifier::StatIntellect),
            4i64 => Some(AttributeModifier::StatSpirit),
            5i64 => Some(AttributeModifier::Health),
            6i64 => Some(AttributeModifier::Mana),
            7i64 => Some(AttributeModifier::Rage),
            8i64 => Some(AttributeModifier::Focus),
            9i64 => Some(AttributeModifier::Energy),
            10i64 => Some(AttributeModifier::Happiness),
            11i64 => Some(AttributeModifier::Armor),
            12i64 => Some(AttributeModifier::ResistanceHoly),
            13i64 => Some(AttributeModifier::ResistanceFire),
            14i64 => Some(AttributeModifier::ResistanceNature),
            15i64 => Some(AttributeModifier::ResistanceFrost),
            16i64 => Some(AttributeModifier::ResistanceShadow),
            17i64 => Some(AttributeModifier::ResistanceArcane),
            18i64 => Some(AttributeModifier::AttackPower),
            19i64 => Some(AttributeModifier::AttackPowerRanged),
            20i64 => Some(AttributeModifier::DamageMainHand),
            21i64 => Some(AttributeModifier::DamageOffHand),
            22i64 => Some(AttributeModifier::DamageRanged),
            23i64 => Some(AttributeModifier::Max),
            _ => None,
        }
    }

    /// Distinct values stand for distinct numbers, so reading back the number of
    /// a value gives that value.
    pub proof fn lemma_value_injective(a: Self, b: Self)
        ensures
            a.spec_value() == b.spec_value() ==> a == b,
    {
        match a {
            AttributeModifier::StatStrength => {},
            AttributeModifier::StatAgility => {},
            AttributeModifier::StatStamina => {},
            AttributeModifier::StatIntellect => {},
            AttributeModifier::StatSpirit => {},
            AttributeModifier::Health => {},
            AttributeModifier::Mana => {},
            AttributeModifier::Rage => {},
            AttributeModifier::Focus => {},
            AttributeModifier::Energy => {},
            AttributeModifier::Happiness => {},
            AttributeModifier::Armor => {},
            AttributeModifier::ResistanceHoly => {},
            AttributeModifier::ResistanceFire => {},
            AttributeModifier::ResistanceNature => {},
            AttributeModifier::ResistanceFrost => {},
            AttributeModifier::ResistanceShadow => {},
            AttributeModifier::ResistanceArcane => {},
            AttributeModifier::AttackPower => {},
            AttributeModifier::AttackPowerRanged => {},
            AttributeModifier::DamageMainHand => {},
            AttributeModifier::DamageOffHand => {},
            AttributeModifier::DamageRanged => {},
            AttributeModifier::Max => {},
        }
    }
}

#[derive(Clone, Copy, Debug, PartialEq, Eq, Structural)]
pub enum AttributeModifierType {
    BaseValue,
    BasePercent,
    TotalValue,
    TotalPercent,
    Max,
}

impl AttributeModifierType {
    /// The number that stands for this value on the wire and in the database.
    pub open spec fn spec_value(self) -> i64 {
        match self {
            AttributeModifierType::BaseValue => 0i64,
            AttributeModifierType::BasePercent => 1i64,
            AttributeModifierType::TotalValue => 2i64,
            AttributeModifierType::TotalPercent => 3i64,
            AttributeModifierType::Max => 4i64,
        }
    }

    /// The number that stands for this value.
    pub fn value(self) -> (r: i64)
        ensures
            r == self.spec_value(),
    {
        match self {
            AttributeModifierType::BaseValue => 0i64,
            AttributeModifierType::BasePercent => 1i64,
            AttributeModifierType::TotalValue => 2i64,
            AttributeModifierType::TotalPercent => 3i64,
            AttributeModifierType::Max => 4i64,
        }
    }

    /// The value that `v` stands for, if any.
    pub fn n(v: i64) -> (r: Option<Self>)
        ensures
            r matches Some(e) ==> e.spec_value() == v,
            r is None ==> forall|e: Self| e.spec_value() != v,
    {
        match v {
            0i64 => Some(AttributeModifierType::BaseValue),
            1i64 => Some(AttributeModifierType::BasePercent),
            2i64 => Some(AttributeModifierType::TotalValue),
            3i64 => Some(AttributeModifierType::TotalPercent),
            4i64 => Some(AttributeModifierType::Max),
            _ => None,
        }
    }

    /// Distinct values stand for distinct numbers, so reading back the number of
    /// a value gives that value.
    pub proof fn lemma_value_injective(a: Self, b: Self)
        ensures
            a.spec_value() == b.spec_value() ==> a == b,
    {
        match a {
            AttributeModifierType::BaseValue => {},
            AttributeModifierType::BasePercent => {},
            AttributeModifierType::TotalValue => {},
            AttributeModifierType::TotalPercent => {},
            AttributeModifierType::Max => {},
        }
    }
}

#[derive(Clone, Copy, Debug, PartialEq, Eq, Structural)]
pub enum GameObjectDynamicLowFlags {
    /// enables interaction with GO
    Activate,
    /// possibly more distinct animation of GO
    Animate,
    /// appears to disable interaction (not fully verified)
    NoInteract,
    /// makes GO sparkle
    Sparkle,
}

impl GameObjectDynamicLowFlags {
    /// The number that stands for this value on the wire and in the database.
    pub open spec fn spec_value(self) -> u16 {
        match self {
            GameObjectDynamicLowFlags::Activate => 1u16,
            GameObjectDynamicLowFlags::Animate => 2u16,
            GameObjectDynamicLowFlags::NoInteract => 4u16,
            GameObjectDynamicLowFlags::Sparkle => 8u16,
        }
    }

    /// The number that stands for this value.
    pub fn value(self) -> (r: u16)
        ensures
            r == self.spec_value(),
    {
        match self {
            GameObjectDynamicLowFlags::Activate => 1u16,
            GameObjectDynamicLowFlags::Animate => 2u16,
            GameObjectDynamicLowFlags::NoInteract => 4u16,
            GameObjectDynamicLowFlags::Sparkle => 8u16,
        }
    }

    /// The value that `v` stands for, if any.
    pub fn n(v: u16) -> (r: Option<Self>)
        ensures
            r matches Some(e) ==> e.spec_value() == v,
            r is None ==> forall|e: Self| e.spec_value() != v,
    {
        match v {
            1u16 => Some(GameObjectDynamicLowFlags::Activate),
            2u16 => Some(GameObjectDynamicLowFlags::Animate),
            4u16 => Some(GameObjectDynamicLowFlags::NoInteract),
            8u16 => Some(GameObjectDynamicLowFlags::Sparkle),
            _ => None,
        }
    }

    /// Distinct values stand for distinct numbers, so reading back the number of
    /// a value gives that value.
    pub proof fn lemma_value_injective(a: Self, b: Self)
        ensures
            a.spec_value() == b.spec_value() ==> a == b,
    {
        match a {
            GameObjectDynamicLowFlags::Activate => {},
            GameObjectDynamicLowFlags::Animate => {},
            GameObjectDynamicLowFlags::NoInteract => {},
            GameObjectDynamicLowFlags::Sparkle => {},
        }
    }
}

#[derive(Clone, Copy, Debug, PartialEq, Eq, Structural)]
pub enum GameObjectType {
    Door,
    Button,
    QuestGiver,
    Chest,
    Binder,
    Generic,
    Trap,
    Chair,
    SpellFocus,
    Text,
    Goober,
    Transport,
    AreaDamage,
    Camera,
    MapObject,
    MoTransport,
    DuelArbiter,
    FishingNode,
    SummoningRitual,
    MailBox,
    AuctionHouse,
    GuardPost,
    SpellCaster,
    MeetingStone,
    FlagStand,
    FishingHole,
    FlagDrop,
    MiniGame,
    LotteryKiosk,
    CapturePoint,
    AuraGenerator,
    DungeonDifficulty,
    BarberChair,
    DestructibleBuilding,
    GuildBank,
}

impl GameObjectType {
    /// The number that stands for this value on the wire and in the database.
    pub open spec fn spec_value(self) -> i64 {
        match self {
            GameObjectType::Door => 0i64,
            GameObjectType::Button => 1i64,
            GameObjectType::QuestGiver => 2i64,
            GameObjectType::Chest => 3i64,
            GameObjectType::Binder => 4i64,
            GameObjectType::Generic => 5i64,
            GameObjectType::Trap => 6i64,
            GameObjectType::Chair => 7i64,
            GameObjectType::SpellFocus => 8i64,
            GameObjectType::Text => 9i64,
            GameObjectType::Goober => 10i64,
            GameObjectType::Transport => 11i64,
            GameObjectType::AreaDamage => 12i64,
            GameObjectType::Camera => 13i64,
            GameObjectType::MapObject => 14i64,
            GameObjectType::MoTransport => 15i64,
            GameObjectType::DuelArbiter => 16i64,
            GameObjectType::FishingNode => 17i64,
            GameObjectType::SummoningRitual => 18i64,
            GameObjectType::MailBox => 19i64,
            GameObjectType::AuctionHouse => 20i64,
            GameObjectType::GuardPost => 21i64,
            GameObjectType::SpellCaster => 22i64,
            GameObjectType::MeetingStone => 23i64,
            GameObjectType::FlagStand => 24i64,
            GameObjectType::FishingHole => 25i64,
            GameObjectType::FlagDrop => 26i64,
            GameObjectType::MiniGame => 27i64,
            GameObjectType::LotteryKiosk => 28i64,
            GameObjectType::CapturePoint => 29i64,
            GameObjectType::AuraGenerator => 30i64,
            GameObjectType::DungeonDifficulty => 31i64,
            GameObjectType::BarberChair => 32i64,
            GameObjectType::DestructibleBuilding => 33i64,
            GameObjectType::GuildBank => 34i64,
        }
    }

    /// The number that stands for this value.
    pub fn value(self) -> (r: i64)
        ensures
            r == self.spec_value(),
    {
        match self {
            GameObjectType::Door => 0i64,
            GameObjectType::Button => 1i64,
            GameObjectType::QuestGiver => 2i64,
            GameObjectType::Chest => 3i64,
            GameObjectType::Binder => 4i64,
            GameObjectType::Generic => 5i64,
            GameObjectType::Trap => 6i64,
            GameObjectType::Chair => 7i64,
            GameObjectType::SpellFocus => 8i64,
            GameObjectType::Text => 9i64,
            GameObjectType::Goober => 10i64,
            GameObjectType::Transport => 11i64,
            GameObjectType::AreaDamage => 12i64,
            GameObjectType::Camera => 13i64,
            GameObjectType::MapObject => 14i64,
            GameObjectType::MoTransport => 15i64,
            GameObjectType::DuelArbiter => 16i64,
            GameObjectType::FishingNode => 17i64,
            GameObjectType::SummoningRitual => 18i64,
            GameObjectType::MailBox => 19i64,
            GameObjectType::AuctionHouse => 20i64,
            GameObjectType::GuardPost => 21i64,
            GameObjectType::SpellCaster => 22i64,
            GameObjectType::MeetingStone => 23i64,
            GameObjectType::FlagStand => 24i64,
            GameObjectType::FishingHole => 25i64,
            GameObjectType::FlagDrop => 26i64,
            GameObjectType::MiniGame => 27i64,
            GameObjectType::LotteryKiosk => 28i64,
            GameObjectType::CapturePoint => 29i64,
            GameObjectType::AuraGenerator => 30i64,
            GameObjectType::DungeonDifficulty => 31i64,
            GameObjectType::BarberChair => 32i64,
            GameObjectType::DestructibleBuilding => 33i64,
            GameObjectType::GuildBank => 34i64,
        }
    }

    /// The value that `v` stands for, if any.
    pub fn n(v: i64) -> (r: Option<Self>)
        ensures
            r matches Some(e) ==> e.spec_value() == v,
            r is None ==> forall|e: Self| e.spec_value() != v,
    {
        match v {
            0i64 => Some(GameObjectType::Door),
            1i64 => Some(GameObjectType::Button),
            2i64 => Some(GameObjectType::QuestGiver),
            3i64 => Some(GameObjectType::Chest),
            4i64 => Some(GameObjectType::Binder),
            5i64 => Some(GameObjectType::Generic),
            6i64 => Some(GameObjectType::Trap),
            7i64 => Some(GameObjectType::Chair),
            8i64 => Some(GameObjectType::SpellFocus),
            9i64 => Some(GameObjectType::Text),
            10i64 => Some(GameObjectType::Goober),
            11i64 => Some(GameObjectType::Transport),
            12i64 => Some(GameObjectType::AreaDamage),
            13i64 => Some(GameObjectType::Camera),
            14i64 => Some(GameObjectType::MapObject),
            15i64 => Some(GameObjectType::MoTransport),
            16i64 => Some(GameObjectType::DuelArbiter),
            17i64 => Some(GameObjectType::FishingNode),
            18i64 => Some(GameObjectType::SummoningRitual),
            19i64 => Some(GameObjectType::MailBox),
            20i64 => Some(GameObjectType::AuctionHouse),
            21i64 => Some(GameObjectType::GuardPost),
            22i64 => Some(GameObjectType::SpellCaster),
            23i64 => Some(GameObjectType::MeetingStone),
            24i64 => Some(GameObjectType::FlagStand),
            25i64 => Some(GameObjectType::FishingHole),
            26i64 => Some(GameObjectType::FlagDrop),
            27i64 => Some(GameObjectType::MiniGame),
            28i64 => Some(GameObjectType::LotteryKiosk),
            29i64 => Some(GameObjectType::CapturePoint),
            30i64 => Some(GameObjectType::AuraGenerator),
            31i64 => Some(GameObjectType::DungeonDifficulty),
            32i64 => Some(GameObjectType::BarberChair),
            33i64 => Some(GameObjectType::DestructibleBuilding),
            34i64 => Some(GameObjectType::GuildBank),
            _ => None,
        }
    }

    /// Distinct values stand for distinct numbers, so reading back the number of
    /// a value gives that value.
    pub proof fn lemma_value_injective(a: Self, b: Self)
        ensures
            a.spec_value() == b.spec_value() ==> a == b,
    {
        match a {
            GameObjectType::Door => {},
            GameObjectType::Button => {},
            GameObjectType::QuestGiver => {},
            GameObjectType::Chest => {},
            GameObjectType::Binder => {},
            GameObjectType::Generic => {},
            GameObjectType::Trap => {},
            GameObjectType::Chair => {},
            GameObjectType::SpellFocus => {},
            GameObjectType::Text => {},
            GameObjectType::Goober => {},
            GameObjectType::Transport => {},
            GameObjectType::AreaDamage => {},
            GameObjectType::Camera => {},
            GameObjectType::MapObject => {},
            GameObjectType::MoTransport => {},
            GameObjectType::DuelArbiter => {},
            GameObjectType::FishingNode => {},
            GameObjectType::SummoningRitual => {},
            GameObjectType::MailBox => {},
            GameObjectType::AuctionHouse => {},
            GameObjectType::GuardPost => {},
            GameObjectType::SpellCaster => {},
            GameObjectType::MeetingStone => {},
            GameObjectType::FlagStand => {},
            GameObjectType::FishingHole => {},
            GameObjectType::FlagDrop => {},
            GameObjectType::MiniGame => {},
            GameObjectType::LotteryKiosk => {},
            GameObjectType::CapturePoint => {},
            GameObjectType::AuraGenerator => {},
            GameObjectType::DungeonDifficulty => {},
            GameObjectType::BarberChair => {},
            GameObjectType::DestructibleBuilding => {},
            GameObjectType::GuildBank => {},
        }
    }
}

#[derive(Clone, Copy, Debug, PartialEq, Eq, Structural)]
pub enum SpellCastTargetFlags {
    /// not used in any spells (can be set dynamically)
    Unused1,
    /// pguid
    Unit,
    /// not used in any spells (can be set dynamically)
    Unused2,
    /// not used in any spells (can be set dynamically)
    Unused3,
    /// pguid
    Item,
    /// 3 float
    SourceLocation,
    /// 3 float
    DestLocation,
    /// used in 7 spells only
    ObjectUnk,
    /// looks like self target (389 spells)
    UnitUnk,
    /// pguid
    PvpCorpse,
    /// 10 spells (gathering professions)
    UnitCorpse,
    /// pguid, 0 spells
    Object,
    /// pguid, 0 spells
    TradeItem,
    /// string, 0 spells
    String,
    /// 199 spells, opening object/lock
    GameobjectItem,
    /// pguid, resurrection spells
    Corpse,
    /// pguid, not used in any spells (can be set dynamically)
    Unk2,
}

impl SpellCastTargetFlags {
    /// The number that stands for this value on the wire and in the database.
    pub open spec fn spec_value(self) -> u32 {
        match self {
            SpellCastTargetFlags::Unused1 => 1u32,
            SpellCastTargetFlags::Unit => 2u32,
            SpellCastTargetFlags::Unused2 => 4u32,
            SpellCastTargetFlags::Unused3 => 8u32,
            SpellCastTargetFlags::Item => 16u32,
            SpellCastTargetFlags::SourceLocation => 32u32,
            SpellCastTargetFlags::DestLocation => 64u32,
            SpellCastTargetFlags::ObjectUnk => 128u32,
            SpellCastTargetFlags::UnitUnk => 256u32,
            SpellCastTargetFlags::PvpCorpse => 512u32,
            SpellCastTargetFlags::UnitCorpse => 1024u32,
            SpellCastTargetFlags::Object => 2048u32,
            SpellCastTargetFlags::TradeItem => 4096u32,
            SpellCastTargetFlags::String => 8192u32,
            SpellCastTargetFlags::GameobjectItem => 16384u32,
            SpellCastTargetFlags::Corpse => 32768u32,
            SpellCastTargetFlags::Unk2 => 65536u32,
        }
    }

    /// The number that stands for this value.
    pub fn value(self) -> (r: u32)
        ensures
            r == self.spec_value(),
    {
        match self {
            SpellCastTargetFlags::Unused1 => 1u32,
            SpellCastTargetFlags::Unit => 2u32,
            SpellCastTargetFlags::Unused2 => 4u32,
            SpellCastTargetFlags::Unused3 => 8u32,
            SpellCastTargetFlags::Item => 16u32,
            SpellCastTargetFlags::SourceLocation => 32u32,
            SpellCastTargetFlags::DestLocation => 64u32,
            SpellCastTargetFlags::ObjectUnk => 128u32,
            SpellCastTargetFlags::UnitUnk => 256u32,
            SpellCastTargetFlags::PvpCorpse => 512u32,
            SpellCastTargetFlags::UnitCorpse => 1024u32,
            SpellCastTargetFlags::Object => 2048u32,
            SpellCastTargetFlags::TradeItem => 4096u32,
            SpellCastTargetFlags::String => 8192u32,
            SpellCastTargetFlags::GameobjectItem => 16384u32,
            SpellCastTargetFlags::Corpse => 32768u32,
            SpellCastTargetFlags::Unk2 => 65536u32,
        }
    }

    /// The value that `v` stands for, if any.
    pub fn n(v: u32) -> (r: Option<Self>)
        ensures
            r matches Some(e) ==> e.spec_value() == v,
            r is None ==> forall|e: Self| e.spec_value() != v,
    {
        match v {
            1u32 => Some(SpellCastTargetFlags::Unused1),
            2u32 => Some(SpellCastTargetFlags::Unit),
            4u32 => Some(SpellCastTargetFlags::Unused2),
            8u32 => Some(SpellCastTargetFlags::Unused3),
            16u32 => Some(SpellCastTargetFlags::Item),
            32u32 => Some(SpellCastTargetFlags::SourceLocation),
            64u32 => Some(SpellCastTargetFlags::DestLocation),
            128u32 => Some(SpellCastTargetFlags::ObjectUnk),
            256u32 => Some(SpellCastTargetFlags::UnitUnk),
            512u32 => Some(SpellCastTargetFlags::PvpCorpse),
            1024u32 => Some(SpellCastTargetFlags::UnitCorpse),
            2048u32 => Some(SpellCastTargetFlags::Object),
            4096u32 => Some(SpellCastTargetFlags::TradeItem),
            8192u32 => Some(SpellCastTargetFlags::String),
            16384u32 => Some(SpellCastTargetFlags::GameobjectItem),
            32768u32 => Some(SpellCastTargetFlags::Corpse),
            65536u32 => Some(SpellCastTargetFlags::Unk2),
            _ => None,
        }
    }

    /// Distinct values stand for distinct numbers, so reading back the number of
    /// a value gives that value.
    pub proof fn lemma_value_injective(a: Self, b: Self)
        ensures
            a.spec_value() == b.spec_value() ==> a == b,
    {
        match a {
            SpellCastTargetFlags::Unused1 => {},
            SpellCastTargetFlags::Unit => {},
            SpellCastTargetFlags::Unused2 => {},
            SpellCastTargetFlags::Unused3 => {},
            SpellCastTargetFlags::Item => {},
            SpellCastTargetFlags::SourceLocation => {},
            SpellCastTargetFlags::DestLocation => {},
            SpellCastTargetFlags::ObjectUnk => {},
            SpellCastTargetFlags::UnitUnk => {},
            SpellCastTargetFlags::PvpCorpse => {},
            SpellCastTargetFlags::UnitCorpse => {},
            SpellCastTargetFlags::Object => {},
            SpellCastTargetFlags::TradeItem => {},
            SpellCastTargetFlags::String => {},
            SpellCastTargetFlags::GameobjectItem => {},
            SpellCastTargetFlags::Corpse => {},
            SpellCastTargetFlags::Unk2 => {},
        }
    }
}

#[derive(Clone, Copy, Debug, PartialEq, Eq, Structural)]
pub enum RemarkableSpells {
    /// Cast by innkeepers when players set their bind point
    Bind,
}

impl RemarkableSpells {
    /// The number that stands for this value on the wire and in the database.
    pub open spec fn spec_value(self) -> u32 {
        match self {
            RemarkableSpells::Bind => 3286u32,
        }
    }

    /// The number that stands for this value.
    pub fn value(self) -> (r: u32)
        ensures
            r == self.spec_value(),
    {
        match self {
            RemarkableSpells::Bind => 3286u32,
        }
    }

    /// The value that `v` stands for, if any.
    pub fn n(v: u32) -> (r: Option<Self>)
        ensures
            r matches Some(e) ==> e.spec_value() == v,
            r is None ==> forall|e: Self| e.spec_value() != v,
    {
        match v {
            3286u32 => Some(RemarkableSpells::Bind),
            _ => None,
        }
    }

    /// Distinct values stand for distinct numbers, so reading back the number of
    /// a value gives that value.
    pub proof fn lemma_value_injective(a: Self, b: Self)
        ensures
            a.spec_value() == b.spec_value() ==> a == b,
    {
        match a {
            RemarkableSpells::Bind => {},
        }
    }
}

#[derive(Clone, Copy, Debug, PartialEq, Eq, Structural)]
pub enum TrainerType {
    Class,
    Mount,
    Tradeskill,
    Pet,
}

impl TrainerType {
    /// The number that stands for this value on the wire and in the database.
    pub open spec fn spec_value(self) -> i64 {
        match self {
            TrainerType::Class => 0i64,
            TrainerType::Mount => 1i64,
            TrainerType::Tradeskill => 2i64,
            TrainerType::Pet => 3i64,
        }
    }

    /// The number that stands for this value.
    pub fn value(self) -> (r: i64)
        ensures
            r == self.spec_value(),
    {
        match self {
            TrainerType::Class => 0i64,
            TrainerType::Mount => 1i64,
            TrainerType::Tradeskill => 2i64,
            TrainerType::Pet => 3i64,
        }
    }

    /// The value that `v` stands for, if any.
    pub fn n(v: i64) -> (r: Option<Self>)
        ensures
            r matches Some(e) ==> e.spec_value() == v,
            r is None ==> forall|e: Self| e.spec_value() != v,
    {
        match v {
            0i64 => Some(TrainerType::Class),
            1i64 => Some(TrainerType::Mount),
            2i64 => Some(TrainerType::Tradeskill),
            3i64 => Some(TrainerType::Pet),
            _ => None,
        }
    }

    /// Distinct values stand for distinct numbers, so reading back the number of
    /// a value gives that value.
    pub proof fn lemma_value_injective(a: Self, b: Self)
        ensures
            a.spec_value() == b.spec_value() ==> a == b,
    {
        match a {
            TrainerType::Class => {},
            TrainerType::Mount => {},
            TrainerType::Tradeskill => {},
            TrainerType::Pet => {},
        }
    }
}

#[derive(Clone, Copy, Debug, PartialEq, Eq, Structural)]
pub enum TrainerSpellState {
    Green,
    Red,
    Gray,
}

impl TrainerSpellState {
    /// The number that stands for this value on the wire and in the database.
    pub open spec fn spec_value(self) -> i64 {
        match self {
            TrainerSpellState::Green => 0i64,
            TrainerSpellState::Red => 1i64,
            TrainerSpellState::Gray => 2i64,
        }
    }

    /// The number that stands for this value.
    pub fn value(self) -> (r: i64)
        ensures
            r == self.spec_value(),
    {
        match self {
            TrainerSpellState::Green => 0i64,
            TrainerSpellState::Red => 1i64,
            TrainerSpellState::Gray => 2i64,
        }
    }

    /// The value that `v` stands for, if any.
    pub fn n(v: i64) -> (r: Option<Self>)
        ensures
            r matches Some(e) ==> e.spec_value() == v,
            r is None ==> forall|e: Self| e.spec_value() != v,
    {
        match v {
            0i64 => Some(TrainerSpellState::Green),
            1i64 => Some(TrainerSpellState::Red),
            2i64 => Some(TrainerSpellState::Gray),
            _ => None,
        }
    }

    /// Distinct values stand for distinct numbers, so reading back the number of
    /// a value gives that value.
    pub proof fn lemma_value_injective(a: Self, b: Self)
        ensures
            a.spec_value() == b.spec_value() ==> a == b,
    {
        match a {
            TrainerSpellState::Green => {},
            TrainerSpellState::Red => {},
            TrainerSpellState::Gray => {},
        }
    }
}

#[derive(Clone, Copy, Debug, PartialEq, Eq, Structural)]
pub enum BuyFailedReason {
    CantFindItem,
    ItemAlreadySold,
    NotEnoughtMoney,
    SellerDontLikeYou,
    DistanceTooFar,
    ItemSoldOut,
    CantCarryMore,
    RankRequire,
    ReputationRequire,
}

impl BuyFailedReason {
    /// The number that stands for this value on the wire and in the database.
    pub open spec fn spec_value(self) -> i64 {
        match self {
            BuyFailedReason::CantFindItem => 0i64,
            BuyFailedReason::ItemAlreadySold => 1i64,
            BuyFailedReason::NotEnoughtMoney => 2i64,
            BuyFailedReason::SellerDontLikeYou => 4i64,
            BuyFailedReason::DistanceTooFar => 5i64,
            BuyFailedReason::ItemSoldOut => 7i64,
            BuyFailedReason::CantCarryMore => 8i64,
            BuyFailedReason::RankRequire => 11i64,
            BuyFailedReason::ReputationRequire => 12i64,
        }
    }

    /// The number that stands for this value.
    pub fn value(self) -> (r: i64)
        ensures
            r == self.spec_value(),
    {
        match self {
            BuyFailedReason::CantFindItem => 0i64,
            BuyFailedReason::ItemAlreadySold => 1i64,
            BuyFailedReason::NotEnoughtMoney => 2i64,
            BuyFailedReason::SellerDontLikeYou => 4i64,
            BuyFailedReason::DistanceTooFar => 5i64,
            BuyFailedReason::ItemSoldOut => 7i64,
            BuyFailedReason::CantCarryMore => 8i64,
            BuyFailedReason::RankRequire => 11i64,
            BuyFailedReason::ReputationRequire => 12i64,
        }
    }

    /// The value that `v` stands for, if any.
    pub fn n(v: i64) -> (r: Option<Self>)
        ensures
            r matches Some(e) ==> e.spec_value() == v,
            r is None ==> forall|e: Self| e.spec_value() != v,
    {
        match v {
            0i64 => Some(BuyFailedReason::CantFindItem),
            1i64 => Some(BuyFailedReason::ItemAlreadySold),
            2i64 => Some(BuyFailedReason::NotEnoughtMoney),
            4i64 => Some(BuyFailedReason::SellerDontLikeYou),
            5i64 => Some(BuyFailedReason::DistanceTooFar),
            7i64 => Some(BuyFailedReason::ItemSoldOut),
            8i64 => Some(BuyFailedReason::CantCarryMore),
            11i64 => Some(BuyFailedReason::RankRequire),
            12i64 => Some(BuyFailedReason::ReputationRequire),
            _ => None,
        }
    }

    /// Distinct values stand for distinct numbers, so reading back the number of
    /// a value gives that value.
    pub proof fn lemma_value_injective(a: Self, b: Self)
        ensures
            a.spec_value() == b.spec_value() ==> a == b,
    {
        match a {
            BuyFailedReason::CantFindItem => {},
            BuyFailedReason::ItemAlreadySold => {},
            BuyFailedReason::NotEnoughtMoney => {},
            BuyFailedReason::SellerDontLikeYou => {},
            BuyFailedReason::DistanceTooFar => {},
            BuyFailedReason::ItemSoldOut => {},
            BuyFailedReason::CantCarryMore => {},
            BuyFailedReason::RankRequire => {},
            BuyFailedReason::ReputationRequire => {},
        }
    }
}

#[derive(Clone, Copy, Debug, PartialEq, Eq, Structural)]
pub enum SellFailedReason {
    CantFindItem,
    /// Merchant doesn't like that item
    CantSellItem,
    /// Merchant doesn't like you
    CantFindVendor,
    /// You don't own that item
    YouDontOwnThatItem,
    /// <nothing appears>
    Unk,
    /// You an only do that with empty bags
    OnlyEmptyBag,
}

impl SellFailedReason {
    /// The number that stands for this value on the wire and in the database.
    pub open spec fn spec_value(self) -> i64 {
        match self {
            SellFailedReason::CantFindItem => 1i64,
            SellFailedReason::CantSellItem => 2i64,
            SellFailedReason::CantFindVendor => 3i64,
            SellFailedReason::YouDontOwnThatItem => 4i64,
            SellFailedReason::Unk => 5i64,
            SellFailedReason::OnlyEmptyBag => 6i64,
        }
    }

    /// The number that stands for this value.
    pub fn value(self) -> (r: i64)
        ensures
            r == self.spec_value(),
    {
        match self {
            SellFailedReason::CantFindItem => 1i64,
            SellFailedReason::CantSellItem => 2i64,
            SellFailedReason::CantFindVendor => 3i64,
            SellFailedReason::YouDontOwnThatItem => 4i64,
            SellFailedReason::Unk => 5i64,
            SellFailedReason::OnlyEmptyBag => 6i64,
        }
    }

    /// The value that `v` stands for, if any.
    pub fn n(v: i64) -> (r: Option<Self>)
        ensures
            r matches Some(e) ==> e.spec_value() == v,
            r is None ==> forall|e: Self| e.spec_value() != v,
    {
        match v {
            1i64 => Some(SellFailedReason::CantFindItem),
            2i64 => Some(SellFailedReason::CantSellItem),
            3i64 => Some(SellFailedReason::CantFindVendor),
            4i64 => Some(SellFailedReason::YouDontOwnThatItem),
            5i64 => Some(SellFailedReason::Unk),
            6i64 => Some(SellFailedReason::OnlyEmptyBag),
            _ => None,
        }
    }

    /// Distinct values stand for distinct numbers, so reading back the number of
    /// a value gives that value.
    pub proof fn lemma_value_injective(a: Self, b: Self)
        ensures
            a.spec_value() == b.spec_value() ==> a == b,
    {
        match a {
            SellFailedReason::CantFindItem => {},
            SellFailedReason::CantSellItem => {},
            SellFailedReason::CantFindVendor => {},
            SellFailedReason::YouDontOwnThatItem => {},
            SellFailedReason::Unk => {},
            SellFailedReason::OnlyEmptyBag => {},
        }
    }
}

impl CharacterRaceBit {
    /// The mask bit of a playable race: bit `race - 1`.
    pub open spec fn spec_from(race: CharacterRace) -> CharacterRaceBit {
        match race {
            CharacterRace::Nil => CharacterRaceBit::Human,
            CharacterRace::Human => CharacterRaceBit::Human,
            CharacterRace::Orc => CharacterRaceBit::Orc,
            CharacterRace::Dwarf => CharacterRaceBit::Dwarf,
            CharacterRace::NightElf => CharacterRaceBit::NightElf,
            CharacterRace::UndeadPlayer => CharacterRaceBit::UndeadPlayer,
            CharacterRace::Tauren => CharacterRaceBit::Tauren,
            CharacterRace::Gnome => CharacterRaceBit::Gnome,
            CharacterRace::Troll => CharacterRaceBit::Troll,
            CharacterRace::BloodElf => CharacterRaceBit::BloodElf,
            CharacterRace::Draenei => CharacterRaceBit::Draenei,
        }
    }

    /// The mask bit of a race; `CharacterRace::Nil` has none.
    pub fn from(race: CharacterRace) -> (r: CharacterRaceBit)
        requires
            race != CharacterRace::Nil,
        ensures
            r == Self::spec_from(race),
            r.spec_value() == 1u32 << ((race.spec_value() - 1) as u32),
    {
        let r = match race {
            CharacterRace::Nil => CharacterRaceBit::Human,
            CharacterRace::Human => CharacterRaceBit::Human,
            CharacterRace::Orc => CharacterRaceBit::Orc,
            CharacterRace::Dwarf => CharacterRaceBit::Dwarf,
            CharacterRace::NightElf => CharacterRaceBit::NightElf,
            CharacterRace::UndeadPlayer => CharacterRaceBit::UndeadPlayer,
            CharacterRace::Tauren => CharacterRaceBit::Tauren,
            CharacterRace::Gnome => CharacterRaceBit::Gnome,
            CharacterRace::Troll => CharacterRaceBit::Troll,
            CharacterRace::BloodElf => CharacterRaceBit::BloodElf,
            CharacterRace::Draenei => CharacterRaceBit::Draenei,
        };
        assert(1u32 << 0u32 == 1u32 && 1u32 << 1u32 == 2u32 && 1u32 << 2u32 == 4u32 && 1u32 << 3u32
            == 8u32 && 1u32 << 4u32 == 16u32 && 1u32 << 5u32 == 32u32 && 1u32 << 6u32 == 64u32
            && 1u32 << 7u32 == 128u32 && 1u32 << 9u32 == 512u32 && 1u32 << 10u32 == 1024u32)
            by (bit_vector);
        r
    }

    /// The mask bit of the race whose number is `value`.
    pub fn from_u8(value: u8) -> (r: CharacterRaceBit)
        requires
            exists|race: CharacterRace| race.spec_value() == value && race != CharacterRace::Nil,
        ensures
            forall|race: CharacterRace| race.spec_value() == value ==> r == Self::spec_from(race),
    {
        let race = CharacterRace::n(value as i64);
        match race {
            Some(race) => {
                proof {
                    assert forall|other: CharacterRace| other.spec_value() == value implies other
                        == race by {
                        CharacterRace::lemma_value_injective(other, race);
                    }
                }
                Self::from(race)
            },
            None => CharacterRaceBit::Human,
        }
    }
}

impl CharacterClassBit {
    /// The mask bit of a class: bit `class - 1`.
    pub open spec fn spec_from(class: CharacterClass) -> CharacterClassBit {
        match class {
            CharacterClass::Nil => CharacterClassBit::Warrior,
            CharacterClass::Warrior => CharacterClassBit::Warrior,
            CharacterClass::Paladin => CharacterClassBit::Paladin,
            CharacterClass::Hunter => CharacterClassBit::Hunter,
            CharacterClass::Rogue => CharacterClassBit::Rogue,
            CharacterClass::Priest => CharacterClassBit::Priest,
            CharacterClass::Shaman => CharacterClassBit::Shaman,
            CharacterClass::Mage => CharacterClassBit::Mage,
            CharacterClass::Warlock => CharacterClassBit::Warlock,
            CharacterClass::Druid => CharacterClassBit::Druid,
        }
    }

    /// The mask bit of a class; `CharacterClass::Nil` has none.
    pub fn from(class: CharacterClass) -> (r: CharacterClassBit)
        requires
            class != CharacterClass::Nil,
        ensures
            r == Self::spec_from(class),
            r.spec_value() == 1u32 << ((class.spec_value() - 1) as u32),
    {
        let r = match class {
            CharacterClass::Nil => CharacterClassBit::Warrior,
            CharacterClass::Warrior => CharacterClassBit::Warrior,
            CharacterClass::Paladin => CharacterClassBit::Paladin,
            CharacterClass::Hunter => CharacterClassBit::Hunter,
            CharacterClass::Rogue => CharacterClassBit::Rogue,
            CharacterClass::Priest => CharacterClassBit::Priest,
            CharacterClass::Shaman => CharacterClassBit::Shaman,
            CharacterClass::Mage => CharacterClassBit::Mage,
            CharacterClass::Warlock => CharacterClassBit::Warlock,
            CharacterClass::Druid => CharacterClassBit::Druid,
        };
        assert(1u32 << 0u32 == 1u32 && 1u32 << 1u32 == 2u32 && 1u32 << 2u32 == 4u32 && 1u32 << 3u32
            == 8u32 && 1u32 << 4u32 == 16u32 && 1u32 << 6u32 == 64u32 && 1u32 << 7u32 == 128u32
            && 1u32 << 8u32 == 256u32 && 1u32 << 10u32 == 1024u32) by (bit_vector);
        r
    }

    /// The mask bit of the class whose number is `value`.
    pub fn from_u8(value: u8) -> (r: CharacterClassBit)
        requires
            exists|class: CharacterClass| class.spec_value() == value && class != CharacterClass::Nil,
        ensures
            forall|class: CharacterClass| class.spec_value() == value ==> r == Self::spec_from(class),
    {
        let class = CharacterClass::n(value as i64);
        match class {
            Some(class) => {
                proof {
                    assert forall|other: CharacterClass| other.spec_value() == value implies other
                        == class by {
                        CharacterClass::lemma_value_injective(other, class);
                    }
                }
                Self::from(class)
            },
            None => CharacterClassBit::Warrior,
        }
    }
}

impl InventorySlot {
    // Gear
    pub const EQUIPMENT_START: u32 = 0;
    pub const EQUIPMENT_END: u32 = 19;
    // Bag slots (bottom right - 4 slots)
    pub const BAG_START: u32 = 19;
    pub const BAG_END: u32 = 23;
    // Backpack items (first bag - 16 slots)
    pub const BACKPACK_START: u32 = 23;
    pub const BACKPACK_END: u32 = 39;
    // Bank items (first bag - 28 slots)
    pub const BANK_START: u32 = 39;
    pub const BANK_END: u32 = 67;
    // Bank bag slots (7 slots)
    pub const BANK_BAG_START: u32 = 67;
    pub const BANK_BAG_END: u32 = 74;
    // Buy back slots at NPCs (12 slots)
    pub const BUY_BACK_START: u32 = 74;
    pub const BUY_BACK_END: u32 = 86;
    // Key ring (32 slots)
    pub const KEY_RING_START: u32 = 86;
    pub const KEY_RING_END: u32 = 118;
    // Backpack
    pub const INVENTORY_SLOT_BAG_0: u32 = 255;

    /// Two slots match when they are the same slot, or both ring slots, or both
    /// trinket slots.
    pub open spec fn spec_matches(self, other: Self) -> bool {
        ||| self.spec_value() == other.spec_value()
        ||| (self is EquipmentFinger1 || self is EquipmentFinger2) && (other is EquipmentFinger1
            || other is EquipmentFinger2)
        ||| (self is EquipmentTrinket1 || self is EquipmentTrinket2) && (other is EquipmentTrinket1
            || other is EquipmentTrinket2)
    }

    /// Slot matching is an equivalence relation.
    pub proof fn lemma_matches_is_equivalence(a: Self, b: Self, c: Self)
        ensures
            a.spec_matches(a),
            a.spec_matches(b) ==> b.spec_matches(a),
            a.spec_matches(b) && b.spec_matches(c) ==> a.spec_matches(c),
    {
        Self::lemma_value_injective(a, b);
        Self::lemma_value_injective(b, c);
        Self::lemma_value_injective(a, c);
    }
}

impl PartialEq for InventorySlot {
    fn eq(&self, other: &Self) -> (r: bool) {
        match (self, other) {
            (InventorySlot::EquipmentFinger1, InventorySlot::EquipmentFinger2) => true,
            (InventorySlot::EquipmentFinger2, InventorySlot::EquipmentFinger1) => true,
            (InventorySlot::EquipmentTrinket1, InventorySlot::EquipmentTrinket2) => true,
            (InventorySlot::EquipmentTrinket2, InventorySlot::EquipmentTrinket1) => true,
            _ => self.value() == other.value(),
        }
    }
}

impl PartialEqSpecImpl for InventorySlot {
    open spec fn obeys_eq_spec() -> bool {
        true
    }

    open spec fn eq_spec(&self, other: &Self) -> bool {
        self.spec_matches(*other)
    }
}

impl SpellEffect {
    /// Whether an effect benefits its target; effects not classified yet count as
    /// positive.
    pub open spec fn spec_is_positive(&self) -> bool {
        match self {
            SpellEffect::SchoolDamage => false,
            _ => true,
        }
    }

    pub fn is_positive(&self) -> (r: bool)
        ensures
            r == self.spec_is_positive(),
    {
        match self {
            SpellEffect::SchoolDamage => false,
            SpellEffect::TeleportUnits => true,
            SpellEffect::Heal => true,
            SpellEffect::Bind => true,
            SpellEffect::CreateItem => true,
            SpellEffect::OpenLock | SpellEffect::OpenLockItem => true,
            _ => true,
        }
    }

    pub fn is_negative(&self) -> (r: bool)
        ensures
            r == !self.spec_is_positive(),
    {
        !self.is_positive()
    }
}

impl CreatureRank {
    /// Elite, rare elite and world boss creatures are elite.
    pub open spec fn spec_is_elite(&self) -> bool {
        match self {
            CreatureRank::Elite | CreatureRank::RareElite | CreatureRank::WorldBoss => true,
            _ => false,
        }
    }

    pub fn is_elite(&self) -> (r: bool)
        ensures
            r == self.spec_is_elite(),
    {
        match self {
            CreatureRank::Normal => false,
            CreatureRank::Elite => true,
            CreatureRank::RareElite => true,
            CreatureRank::WorldBoss => true,
            CreatureRank::Rare => false,
            CreatureRank::Unknown => false,
        }
    }
}

} // verus!
