//! Game object templates: the decoding of their type-specific data words.
use crate::constants::GameObjectType;
use vstd::prelude::*;

verus! {

/// The type-specific part of a game object template, decoded from its raw data
/// words: a number for each id or count, a flag for each word that is a boolean.
#[allow(non_snake_case)]
#[derive(Debug, Clone, Copy, PartialEq, Eq, Structural)]
pub enum GameObjectData {
    Door {
        isStartOpen: bool,
        openLockId: u32,
        autoCloseTimerSecs: u32,
        isNoDamageImmune: bool,
        openTextId: u32,
        closeTextId: u32,
    },
    Button {
        isStartOpen: bool,
        openLockId: u32,
        autoCloseTimerSecs: u32,
        linkedTrapGameObjectEntry: u32,
        isNoDamageImmune: bool,
        isLarge: bool,
        openTextId: u32,
        closeTextId: u32,
        isLineOfSightOK: bool,
    },
    QuestGiver {
        openLockId: u32,
        questList: u32,
        pageMaterialId: u32,
        gossipId: u32,
        customAnim: u32,
        isNoDamageImmune: bool,
        openTextId: u32,
        isLineOfSightOK: bool,
        doesAllowMounted: bool,
        isLarge: bool,
    },
    Chest {
        openLockId: u32,
        lootTemplateEntry: u32,
        restockTimerSecs: u32,
        isConsumable: bool,
        minLootAttempt: u32,
        maxLootAttempt: u32,
        lootedEventId: u32,
        linkedTrapGameObjectEntry: u32,
        questId: u32,
        minLevelToOpen: u32,
        isLineOfSightOK: bool,
        isLeaveLoot: bool,
        notInCombat: bool,
        shouldLogLoot: bool,
        openTextId: u32,
        usesGroupLootRules: bool,
    },
    Binder,
    Generic {
        isFloatingTooltip: bool,
        isHighlighted: bool,
        isServerOnly: bool,
        isLarge: bool,
        isFloatingOnWater: bool,
        questId: u32,
    },
    Trap {
        openLockId: u32,
        level: u32,
        diameter: u32,
        spellId: u32,
        charges: u32,
        cooldownSecs: u32,
        isAutoClose: bool,
        startDelaySecs: u32,
        isServerOnly: bool,
        isStealthed: bool,
        isLarge: bool,
        isAffectedByStealth: bool,
        openTextId: u32,
    },
    SpellFocus {
        spellFocusType: u32,
        diameter: u32,
        linkedTrapGameObjectEntry: u32,
        isServerOnly: bool,
        questId: u32,
        isLarge: bool,
    },
    Text {
        pageId: u32,
        languageId: u32,
        pageMaterialId: u32,
    },
    Goober {
        openLockId: u32,
        questId: u32,
        eventId: u32,
        isAutoClose: bool,
        customAnim: u32,
        isConsumable: bool,
        cooldownSecs: u32,
        pageId: u32,
        languageId: u32,
        pageMaterialId: u32,
        spellId: u32,
        isNoDamageImmune: bool,
        linkedTrapGameObjectEntry: u32,
        isLarge: bool,
        openTextId: u32,
        closeTextId: u32,
        isLineOfSightOK: bool,
    },
    Transport,
    AreaDamage,
    Camera {
        openLockId: u32,
        cinematicId: u32,
    },
    MapObject,
    MoTransport {
        taxiPathId: u32,
        moveSpeed: u32,
        accelRate: u32,
    },
    DualArbiter,
    FishingNode,
    SummoningRitual {
        casters: u32,
        spellId: u32,
        animSpell: u32,
        isPersistent: bool,
        casterTargetSpell: u32,
        isCasterTargetSpellTargets: bool,
        areCastersGrouped: bool,
    },
    MailBox,
    AuctionHouse {
        auctionHouseId: u32,
    },
    GuardPost,
    SpellCaster {
        spellId: u32,
        charges: u32,
        isPartyOnly: bool,
    },
    MeetingStone {
        minLevel: u32,
        maxLevel: u32,
        areaId: u32,
    },
    FlagStand {
        openLockId: u32,
        pickupSpellId: u32,
        radius: u32,
        returnAuraId: u32,
        returnSpellId: u32,
        isNoDamageImmune: bool,
        openTextId: u32,
        isLineOfSightOK: bool,
    },
    FishingHole {
        radius: u32,
        lootTemplateEntry: u32,
        minLootAttempt: u32,
        maxLootAttempt: u32,
    },
    FlagDrop {
        openLockId: u32,
        eventId: u32,
        pickupSpellId: u32,
        isNoDamageImmune: bool,
    },
    MiniGame,
    LotteryKiosk,
    CapturePoint {
        radius: u32,
        spellId: u32,
        worldState1: u32,
        worldState2: u32,
        winEventId1: u32,
        winEventId2: u32,
        contestedEventId1: u32,
        contestedEventId2: u32,
        progressEventId1: u32,
        progressEventId2: u32,
        neutralEventId1: u32,
        neutralEventId2: u32,
        neutralPercent: u32,
        worldState3: u32,
        minSuperiority: u32,
        maxSuperiority: u32,
        minTimeSecs: u32,
        maxTimeSecs: u32,
        isLarge: bool,
    },
    AuraGenerator {
        isStartOpen: bool,
        radius: u32,
        auraId: u32,
        conditionId: u32,
    },
    DungeonDifficulty {
        mapId: u32,
        difficulty: u32,
    },
    BarberChair,
    DestructibleBuilding,
    GuildBank,
}

/// The data of a template of type `go_type` whose raw data words are `raw`.
pub open spec fn spec_template_data(go_type: GameObjectType, raw: Seq<u32>) -> GameObjectData {
    match go_type {
        GameObjectType::Door => GameObjectData::Door { isStartOpen: raw[0] != 0, openLockId: raw[1], autoCloseTimerSecs: raw[2], isNoDamageImmune: raw[3] != 0, openTextId: raw[4], closeTextId: raw[5] },
        GameObjectType::Button => GameObjectData::Button { isStartOpen: raw[0] != 0, openLockId: raw[1], autoCloseTimerSecs: raw[2], linkedTrapGameObjectEntry: raw[3], isNoDamageImmune: raw[4] != 0, isLarge: raw[5] != 0, openTextId: raw[6], closeTextId: raw[7], isLineOfSightOK: raw[8] != 0 },
        GameObjectType::QuestGiver => GameObjectData::QuestGiver { openLockId: raw[0], questList: raw[1], pageMaterialId: raw[2], gossipId: raw[3], customAnim: raw[4], isNoDamageImmune: raw[5] != 0, openTextId: raw[6], isLineOfSightOK: raw[7] != 0, doesAllowMounted: raw[8] != 0, isLarge: raw[9] != 0 },
        GameObjectType::Chest => GameObjectData::Chest { openLockId: raw[0], lootTemplateEntry: raw[1], restockTimerSecs: raw[2], isConsumable: raw[3] != 0, minLootAttempt: raw[4], maxLootAttempt: raw[5], lootedEventId: raw[6], linkedTrapGameObjectEntry: raw[7], questId: raw[8], minLevelToOpen: raw[9], isLineOfSightOK: raw[10] != 0, isLeaveLoot: raw[11] != 0, notInCombat: raw[12] != 0, shouldLogLoot: raw[13] != 0, openTextId: raw[14], usesGroupLootRules: raw[15] != 0 },
        GameObjectType::Binder => GameObjectData::Binder,
        GameObjectType::Generic => GameObjectData::Generic { isFloatingTooltip: raw[0] != 0, isHighlighted: raw[1] != 0, isServerOnly: raw[2] != 0, isLarge: raw[3] != 0, isFloatingOnWater: raw[4] != 0, questId: raw[5] },
        GameObjectType::Trap => GameObjectData::Trap { openLockId: raw[0], level: raw[1], diameter: raw[2], spellId: raw[3], charges: raw[4], cooldownSecs: raw[5], isAutoClose: raw[6] != 0, startDelaySecs: raw[7], isServerOnly: raw[8] != 0, isStealthed: raw[9] != 0, isLarge: raw[10] != 0, isAffectedByStealth: raw[11] != 0, openTextId: raw[12] },
        GameObjectType::Chair => GameObjectData::Chest { openLockId: raw[0], lootTemplateEntry: raw[1], restockTimerSecs: raw[2], isConsumable: raw[3] != 0, minLootAttempt: raw[4], maxLootAttempt: raw[5], lootedEventId: raw[6], linkedTrapGameObjectEntry: raw[7], questId: raw[8], minLevelToOpen: raw[9], isLineOfSightOK: raw[10] != 0, isLeaveLoot: raw[11] != 0, notInCombat: raw[12] != 0, shouldLogLoot: raw[13] != 0, openTextId: raw[14], usesGroupLootRules: raw[15] != 0 },
        GameObjectType::SpellFocus => GameObjectData::SpellFocus { spellFocusType: raw[0], diameter: raw[1], linkedTrapGameObjectEntry: raw[2], isServerOnly: raw[3] != 0, questId: raw[4], isLarge: raw[5] != 0 },
        GameObjectType::Text => GameObjectData::Text { pageId: raw[0], languageId: raw[1], pageMaterialId: raw[2] },
        GameObjectType::Goober => GameObjectData::Goober { openLockId: raw[0], questId: raw[1], eventId: raw[2], isAutoClose: raw[3] != 0, customAnim: raw[4], isConsumable: raw[5] != 0, cooldownSecs: raw[6], pageId: raw[7], languageId: raw[8], pageMaterialId: raw[9], spellId: raw[10], isNoDamageImmune: raw[11] != 0, linkedTrapGameObjectEntry: raw[12], isLarge: raw[13] != 0, openTextId: raw[14], closeTextId: raw[15], isLineOfSightOK: raw[16] != 0 },
        GameObjectType::Transport => GameObjectData::Transport,
        GameObjectType::AreaDamage => GameObjectData::AreaDamage,
        GameObjectType::Camera => GameObjectData::Camera { openLockId: raw[0], cinematicId: raw[1] },
        GameObjectType::MapObject => GameObjectData::MapObject,
        GameObjectType::MoTransport => GameObjectData::MoTransport { taxiPathId: raw[0], moveSpeed: raw[1], accelRate: raw[2] },
        GameObjectType::DuelArbiter => GameObjectData::DualArbiter,
        GameObjectType::FishingNode => GameObjectData::FishingNode,
        GameObjectType::SummoningRitual => GameObjectData::SummoningRitual { casters: raw[0], spellId: raw[1], animSpell: raw[2], isPersistent: raw[3] != 0, casterTargetSpell: raw[4], isCasterTargetSpellTargets: raw[5] != 0, areCastersGrouped: raw[6] != 0 },
        GameObjectType::MailBox => GameObjectData::MailBox,
        GameObjectType::AuctionHouse => GameObjectData::AuctionHouse { auctionHouseId: raw[0] },
        GameObjectType::GuardPost => GameObjectData::GuardPost,
        GameObjectType::SpellCaster => GameObjectData::SpellCaster { spellId: raw[0], charges: raw[1], isPartyOnly: raw[2] != 0 },
        GameObjectType::MeetingStone => GameObjectData::MeetingStone { minLevel: raw[0], maxLevel: raw[1], areaId: raw[2] },
        GameObjectType::FlagStand => GameObjectData::FlagStand { openLockId: raw[0], pickupSpellId: raw[1], radius: raw[2], returnAuraId: raw[3], returnSpellId: raw[4], isNoDamageImmune: raw[5] != 0, openTextId: raw[6], isLineOfSightOK: raw[7] != 0 },
        GameObjectType::FishingHole => GameObjectData::FishingHole { radius: raw[0], lootTemplateEntry: raw[1], minLootAttempt: raw[2], maxLootAttempt: raw[3] },
        GameObjectType::FlagDrop => GameObjectData::FlagDrop { openLockId: raw[0], eventId: raw[1], pickupSpellId: raw[2], isNoDamageImmune: raw[3] != 0 },
        GameObjectType::MiniGame => GameObjectData::MiniGame,
        GameObjectType::LotteryKiosk => GameObjectData::LotteryKiosk,
        GameObjectType::CapturePoint => GameObjectData::CapturePoint { radius: raw[0], spellId: raw[1], worldState1: raw[2], worldState2: raw[3], winEventId1: raw[4], winEventId2: raw[5], contestedEventId1: raw[6], contestedEventId2: raw[7], progressEventId1: raw[8], progressEventId2: raw[9], neutralEventId1: raw[10], neutralEventId2: raw[11], neutralPercent: raw[12], worldState3: raw[13], minSuperiority: raw[14], maxSuperiority: raw[15], minTimeSecs: raw[16], maxTimeSecs: raw[17], isLarge: raw[18] != 0 },
        GameObjectType::AuraGenerator => GameObjectData::AuraGenerator { isStartOpen: raw[0] != 0, radius: raw[1], auraId: raw[2], conditionId: raw[3] },
        GameObjectType::DungeonDifficulty => GameObjectData::DungeonDifficulty { mapId: raw[0], difficulty: raw[1] },
        GameObjectType::BarberChair => GameObjectData::BarberChair,
        GameObjectType::DestructibleBuilding => GameObjectData::DestructibleBuilding,
        GameObjectType::GuildBank => GameObjectData::GuildBank,
    }
}

/// Reads game object templates and spawns; decodes template data.
pub struct GameObjectRepository;

impl GameObjectRepository {
    /// Decodes the raw data words of a template by its type. A chair is read with
    /// the layout of a chest.
    pub fn build_template_data(go_type: GameObjectType, raw_data: [u32; 24]) -> (r: GameObjectData)
        ensures
            r == spec_template_data(go_type, raw_data@),
    {
        match go_type {
            GameObjectType::Door => GameObjectData::Door { isStartOpen: raw_data[0] != 0, openLockId: raw_data[1], autoCloseTimerSecs: raw_data[2], isNoDamageImmune: raw_data[3] != 0, openTextId: raw_data[4], closeTextId: raw_data[5] },
            GameObjectType::Button => GameObjectData::Button { isStartOpen: raw_data[0] != 0, openLockId: raw_data[1], autoCloseTimerSecs: raw_data[2], linkedTrapGameObjectEntry: raw_data[3], isNoDamageImmune: raw_data[4] != 0, isLarge: raw_data[5] != 0, openTextId: raw_data[6], closeTextId: raw_data[7], isLineOfSightOK: raw_data[8] != 0 },
            GameObjectType::QuestGiver => GameObjectData::QuestGiver { openLockId: raw_data[0], questList: raw_data[1], pageMaterialId: raw_data[2], gossipId: raw_data[3], customAnim: raw_data[4], isNoDamageImmune: raw_data[5] != 0, openTextId: raw_data[6], isLineOfSightOK: raw_data[7] != 0, doesAllowMounted: raw_data[8] != 0, isLarge: raw_data[9] != 0 },
            GameObjectType::Chest => GameObjectData::Chest { openLockId: raw_data[0], lootTemplateEntry: raw_data[1], restockTimerSecs: raw_data[2], isConsumable: raw_data[3] != 0, minLootAttempt: raw_data[4], maxLootAttempt: raw_data[5], lootedEventId: raw_data[6], linkedTrapGameObjectEntry: raw_data[7], questId: raw_data[8], minLevelToOpen: raw_data[9], isLineOfSightOK: raw_data[10] != 0, isLeaveLoot: raw_data[11] != 0, notInCombat: raw_data[12] != 0, shouldLogLoot: raw_data[13] != 0, openTextId: raw_data[14], usesGroupLootRules: raw_data[15] != 0 },
            GameObjectType::Binder => GameObjectData::Binder,
            GameObjectType::Generic => GameObjectData::Generic { isFloatingTooltip: raw_data[0] != 0, isHighlighted: raw_data[1] != 0, isServerOnly: raw_data[2] != 0, isLarge: raw_data[3] != 0, isFloatingOnWater: raw_data[4] != 0, questId: raw_data[5] },
            GameObjectType::Trap => GameObjectData::Trap { openLockId: raw_data[0], level: raw_data[1], diameter: raw_data[2], spellId: raw_data[3], charges: raw_data[4], cooldownSecs: raw_data[5], isAutoClose: raw_data[6] != 0, startDelaySecs: raw_data[7], isServerOnly: raw_data[8] != 0, isStealthed: raw_data[9] != 0, isLarge: raw_data[10] != 0, isAffectedByStealth: raw_data[11] != 0, openTextId: raw_data[12] },
            GameObjectType::Chair => GameObjectData::Chest { openLockId: raw_data[0], lootTemplateEntry: raw_data[1], restockTimerSecs: raw_data[2], isConsumable: raw_data[3] != 0, minLootAttempt: raw_data[4], maxLootAttempt: raw_data[5], lootedEventId: raw_data[6], linkedTrapGameObjectEntry: raw_data[7], questId: raw_data[8], minLevelToOpen: raw_data[9], isLineOfSightOK: raw_data[10] != 0, isLeaveLoot: raw_data[11] != 0, notInCombat: raw_data[12] != 0, shouldLogLoot: raw_data[13] != 0, openTextId: raw_data[14], usesGroupLootRules: raw_data[15] != 0 },
            GameObjectType::SpellFocus => GameObjectData::SpellFocus { spellFocusType: raw_data[0], diameter: raw_data[1], linkedTrapGameObjectEntry: raw_data[2], isServerOnly: raw_data[3] != 0, questId: raw_data[4], isLarge: raw_data[5] != 0 },
            GameObjectType::Text => GameObjectData::Text { pageId: raw_data[0], languageId: raw_data[1], pageMaterialId: raw_data[2] },
            GameObjectType::Goober => GameObjectData::Goober { openLockId: raw_data[0], questId: raw_data[1], eventId: raw_data[2], isAutoClose: raw_data[3] != 0, customAnim: raw_data[4], isConsumable: raw_data[5] != 0, cooldownSecs: raw_data[6], pageId: raw_data[7], languageId: raw_data[8], pageMaterialId: raw_data[9], spellId: raw_data[10], isNoDamageImmune: raw_data[11] != 0, linkedTrapGameObjectEntry: raw_data[12], isLarge: raw_data[13] != 0, openTextId: raw_data[14], closeTextId: raw_data[15], isLineOfSightOK: raw_data[16] != 0 },
            GameObjectType::Transport => GameObjectData::Transport,
            GameObjectType::AreaDamage => GameObjectData::AreaDamage,
            GameObjectType::Camera => GameObjectData::Camera { openLockId: raw_data[0], cinematicId: raw_data[1] },
            GameObjectType::MapObject => GameObjectData::MapObject,
            GameObjectType::MoTransport => GameObjectData::MoTransport { taxiPathId: raw_data[0], moveSpeed: raw_data[1], accelRate: raw_data[2] },
            GameObjectType::DuelArbiter => GameObjectData::DualArbiter,
            GameObjectType::FishingNode => GameObjectData::FishingNode,
            GameObjectType::SummoningRitual => GameObjectData::SummoningRitual { casters: raw_data[0], spellId: raw_data[1], animSpell: raw_data[2], isPersistent: raw_data[3] != 0, casterTargetSpell: raw_data[4], isCasterTargetSpellTargets: raw_data[5] != 0, areCastersGrouped: raw_data[6] != 0 },
            GameObjectType::MailBox => GameObjectData::MailBox,
            GameObjectType::AuctionHouse => GameObjectData::AuctionHouse { auctionHouseId: raw_data[0] },
            GameObjectType::GuardPost => GameObjectData::GuardPost,
            GameObjectType::SpellCaster => GameObjectData::SpellCaster { spellId: raw_data[0], charges: raw_data[1], isPartyOnly: raw_data[2] != 0 },
            GameObjectType::MeetingStone => GameObjectData::MeetingStone { minLevel: raw_data[0], maxLevel: raw_data[1], areaId: raw_data[2] },
            GameObjectType::FlagStand => GameObjectData::FlagStand { openLockId: raw_data[0], pickupSpellId: raw_data[1], radius: raw_data[2], returnAuraId: raw_data[3], returnSpellId: raw_data[4], isNoDamageImmune: raw_data[5] != 0, openTextId: raw_data[6], isLineOfSightOK: raw_data[7] != 0 },
            GameObjectType::FishingHole => GameObjectData::FishingHole { radius: raw_data[0], lootTemplateEntry: raw_data[1], minLootAttempt: raw_data[2], maxLootAttempt: raw_data[3] },
            GameObjectType::FlagDrop => GameObjectData::FlagDrop { openLockId: raw_data[0], eventId: raw_data[1], pickupSpellId: raw_data[2], isNoDamageImmune: raw_data[3] != 0 },
            GameObjectType::MiniGame => GameObjectData::MiniGame,
            GameObjectType::LotteryKiosk => GameObjectData::LotteryKiosk,
            GameObjectType::CapturePoint => GameObjectData::CapturePoint { radius: raw_data[0], spellId: raw_data[1], worldState1: raw_data[2], worldState2: raw_data[3], winEventId1: raw_data[4], winEventId2: raw_data[5], contestedEventId1: raw_data[6], contestedEventId2: raw_data[7], progressEventId1: raw_data[8], progressEventId2: raw_data[9], neutralEventId1: raw_data[10], neutralEventId2: raw_data[11], neutralPercent: raw_data[12], worldState3: raw_data[13], minSuperiority: raw_data[14], maxSuperiority: raw_data[15], minTimeSecs: raw_data[16], maxTimeSecs: raw_data[17], isLarge: raw_data[18] != 0 },
            GameObjectType::AuraGenerator => GameObjectData::AuraGenerator { isStartOpen: raw_data[0] != 0, radius: raw_data[1], auraId: raw_data[2], conditionId: raw_data[3] },
            GameObjectType::DungeonDifficulty => GameObjectData::DungeonDifficulty { mapId: raw_data[0], difficulty: raw_data[1] },
            GameObjectType::BarberChair => GameObjectData::BarberChair,
            GameObjectType::DestructibleBuilding => GameObjectData::DestructibleBuilding,
            GameObjectType::GuildBank => GameObjectData::GuildBank,
        }
    }
}

/// Only the first nineteen data words of a template take part in its decoding: two
/// raw arrays that agree on them decode to the same data, whatever the type.
pub proof fn lemma_template_data_uses_first_words(go_type: GameObjectType, a: Seq<u32>, b: Seq<u32>)
    requires
        a.len() == 24,
        b.len() == 24,
        a.subrange(0, 19) == b.subrange(0, 19),
    ensures
        spec_template_data(go_type, a) == spec_template_data(go_type, b),
{
    assert forall|i: int| 0 <= i < 19 implies a[i] == b[i] by {
        assert(a[i] == a.subrange(0, 19)[i]);
        assert(b[i] == b.subrange(0, 19)[i]);
    }
}

/// A field of decoded template data: a number, or a flag.
#[derive(Debug, Clone, Copy, PartialEq, Eq, Structural)]
pub enum TemplateField {
    Word(u32),
    Flag(bool),
}

/// The fields of `d` in the order its variant declares them.
pub open spec fn spec_declared_fields(d: GameObjectData) -> Seq<TemplateField> {
    match d {
        GameObjectData::Door { isStartOpen, openLockId, autoCloseTimerSecs, isNoDamageImmune, openTextId, closeTextId } => seq![TemplateField::Flag(isStartOpen), TemplateField::Word(openLockId), TemplateField::Word(autoCloseTimerSecs), TemplateField::Flag(isNoDamageImmune), TemplateField::Word(openTextId), TemplateField::Word(closeTextId)],
        GameObjectData::Button { isStartOpen, openLockId, autoCloseTimerSecs, linkedTrapGameObjectEntry, isNoDamageImmune, isLarge, openTextId, closeTextId, isLineOfSightOK } => seq![TemplateField::Flag(isStartOpen), TemplateField::Word(openLockId), TemplateField::Word(autoCloseTimerSecs), TemplateField::Word(linkedTrapGameObjectEntry), TemplateField::Flag(isNoDamageImmune), TemplateField::Flag(isLarge), TemplateField::Word(openTextId), TemplateField::Word(closeTextId), TemplateField::Flag(isLineOfSightOK)],
        GameObjectData::QuestGiver { openLockId, questList, pageMaterialId, gossipId, customAnim, isNoDamageImmune, openTextId, isLineOfSightOK, doesAllowMounted, isLarge } => seq![TemplateField::Word(openLockId), TemplateField::Word(questList), TemplateField::Word(pageMaterialId), TemplateField::Word(gossipId), TemplateField::Word(customAnim), TemplateField::Flag(isNoDamageImmune), TemplateField::Word(openTextId), TemplateField::Flag(isLineOfSightOK), TemplateField::Flag(doesAllowMounted), TemplateField::Flag(isLarge)],
        GameObjectData::Chest { openLockId, lootTemplateEntry, restockTimerSecs, isConsumable, minLootAttempt, maxLootAttempt, lootedEventId, linkedTrapGameObjectEntry, questId, minLevelToOpen, isLineOfSightOK, isLeaveLoot, notInCombat, shouldLogLoot, openTextId, usesGroupLootRules } => seq![TemplateField::Word(openLockId), TemplateField::Word(lootTemplateEntry), TemplateField::Word(restockTimerSecs), TemplateField::Flag(isConsumable), TemplateField::Word(minLootAttempt), TemplateField::Word(maxLootAttempt), TemplateField::Word(lootedEventId), TemplateField::Word(linkedTrapGameObjectEntry), TemplateField::Word(questId), TemplateField::Word(minLevelToOpen), TemplateField::Flag(isLineOfSightOK), TemplateField::Flag(isLeaveLoot), TemplateField::Flag(notInCombat), TemplateField::Flag(shouldLogLoot), TemplateField::Word(openTextId), TemplateField::Flag(usesGroupLootRules)],
        GameObjectData::Binder => Seq::empty(),
        GameObjectData::Generic { isFloatingTooltip, isHighlighted, isServerOnly, isLarge, isFloatingOnWater, questId } => seq![TemplateField::Flag(isFloatingTooltip), TemplateField::Flag(isHighlighted), TemplateField::Flag(isServerOnly), TemplateField::Flag(isLarge), TemplateField::Flag(isFloatingOnWater), TemplateField::Word(questId)],
        GameObjectData::Trap { openLockId, level, diameter, spellId, charges, cooldownSecs, isAutoClose, startDelaySecs, isServerOnly, isStealthed, isLarge, isAffectedByStealth, openTextId } => seq![TemplateField::Word(openLockId), TemplateField::Word(level), TemplateField::Word(diameter), TemplateField::Word(spellId), TemplateField::Word(charges), TemplateField::Word(cooldownSecs), TemplateField::Flag(isAutoClose), TemplateField::Word(startDelaySecs), TemplateField::Flag(isServerOnly), TemplateField::Flag(isStealthed), TemplateField::Flag(isLarge), TemplateField::Flag(isAffectedByStealth), TemplateField::Word(openTextId)],
        GameObjectData::SpellFocus { spellFocusType, diameter, linkedTrapGameObjectEntry, isServerOnly, questId, isLarge } => seq![TemplateField::Word(spellFocusType), TemplateField::Word(diameter), TemplateField::Word(linkedTrapGameObjectEntry), TemplateField::Flag(isServerOnly), TemplateField::Word(questId), TemplateField::Flag(isLarge)],
        GameObjectData::Text { pageId, languageId, pageMaterialId } => seq![TemplateField::Word(pageId), TemplateField::Word(languageId), TemplateField::Word(pageMaterialId)],
        GameObjectData::Goober { openLockId, questId, eventId, isAutoClose, customAnim, isConsumable, cooldownSecs, pageId, languageId, pageMaterialId, spellId, isNoDamageImmune, linkedTrapGameObjectEntry, isLarge, openTextId, closeTextId, isLineOfSightOK } => seq![TemplateField::Word(openLockId), TemplateField::Word(questId), TemplateField::Word(eventId), TemplateField::Flag(isAutoClose), TemplateField::Word(customAnim), TemplateField::Flag(isConsumable), TemplateField::Word(cooldownSecs), TemplateField::Word(pageId), TemplateField::Word(languageId), TemplateField::Word(pageMaterialId), TemplateField::Word(spellId), TemplateField::Flag(isNoDamageImmune), TemplateField::Word(linkedTrapGameObjectEntry), TemplateField::Flag(isLarge), TemplateField::Word(openTextId), TemplateField::Word(closeTextId), TemplateField::Flag(isLineOfSightOK)],
        GameObjectData::Transport => Seq::empty(),
        GameObjectData::AreaDamage => Seq::empty(),
        GameObjectData::Camera { openLockId, cinematicId } => seq![TemplateField::Word(openLockId), TemplateField::Word(cinematicId)],
        GameObjectData::MapObject => Seq::empty(),
        GameObjectData::MoTransport { taxiPathId, moveSpeed, accelRate } => seq![TemplateField::Word(taxiPathId), TemplateField::Word(moveSpeed), TemplateField::Word(accelRate)],
        GameObjectData::DualArbiter => Seq::empty(),
        GameObjectData::FishingNode => Seq::empty(),
        GameObjectData::SummoningRitual { casters, spellId, animSpell, isPersistent, casterTargetSpell, isCasterTargetSpellTargets, areCastersGrouped } => seq![TemplateField::Word(casters), TemplateField::Word(spellId), TemplateField::Word(animSpell), TemplateField::Flag(isPersistent), TemplateField::Word(casterTargetSpell), TemplateField::Flag(isCasterTargetSpellTargets), TemplateField::Flag(areCastersGrouped)],
        GameObjectData::MailBox => Seq::empty(),
        GameObjectData::AuctionHouse { auctionHouseId } => seq![TemplateField::Word(auctionHouseId)],
        GameObjectData::GuardPost => Seq::empty(),
        GameObjectData::SpellCaster { spellId, charges, isPartyOnly } => seq![TemplateField::Word(spellId), TemplateField::Word(charges), TemplateField::Flag(isPartyOnly)],
        GameObjectData::MeetingStone { minLevel, maxLevel, areaId } => seq![TemplateField::Word(minLevel), TemplateField::Word(maxLevel), TemplateField::Word(areaId)],
        GameObjectData::FlagStand { openLockId, pickupSpellId, radius, returnAuraId, returnSpellId, isNoDamageImmune, openTextId, isLineOfSightOK } => seq![TemplateField::Word(openLockId), TemplateField::Word(pickupSpellId), TemplateField::Word(radius), TemplateField::Word(returnAuraId), TemplateField::Word(returnSpellId), TemplateField::Flag(isNoDamageImmune), TemplateField::Word(openTextId), TemplateField::Flag(isLineOfSightOK)],
        GameObjectData::FishingHole { radius, lootTemplateEntry, minLootAttempt, maxLootAttempt } => seq![TemplateField::Word(radius), TemplateField::Word(lootTemplateEntry), TemplateField::Word(minLootAttempt), TemplateField::Word(maxLootAttempt)],
        GameObjectData::FlagDrop { openLockId, eventId, pickupSpellId, isNoDamageImmune } => seq![TemplateField::Word(openLockId), TemplateField::Word(eventId), TemplateField::Word(pickupSpellId), TemplateField::Flag(isNoDamageImmune)],
        GameObjectData::MiniGame => Seq::empty(),
        GameObjectData::LotteryKiosk => Seq::empty(),
        GameObjectData::CapturePoint { radius, spellId, worldState1, worldState2, winEventId1, winEventId2, contestedEventId1, contestedEventId2, progressEventId1, progressEventId2, neutralEventId1, neutralEventId2, neutralPercent, worldState3, minSuperiority, maxSuperiority, minTimeSecs, maxTimeSecs, isLarge } => seq![TemplateField::Word(radius), TemplateField::Word(spellId), TemplateField::Word(worldState1), TemplateField::Word(worldState2), TemplateField::Word(winEventId1), TemplateField::Word(winEventId2), TemplateField::Word(contestedEventId1), TemplateField::Word(contestedEventId2), TemplateField::Word(progressEventId1), TemplateField::Word(progressEventId2), TemplateField::Word(neutralEventId1), TemplateField::Word(neutralEventId2), TemplateField::Word(neutralPercent), TemplateField::Word(worldState3), TemplateField::Word(minSuperiority), TemplateField::Word(maxSuperiority), TemplateField::Word(minTimeSecs), TemplateField::Word(maxTimeSecs), TemplateField::Flag(isLarge)],
        GameObjectData::AuraGenerator { isStartOpen, radius, auraId, conditionId } => seq![TemplateField::Flag(isStartOpen), TemplateField::Word(radius), TemplateField::Word(auraId), TemplateField::Word(conditionId)],
        GameObjectData::DungeonDifficulty { mapId, difficulty } => seq![TemplateField::Word(mapId), TemplateField::Word(difficulty)],
        GameObjectData::BarberChair => Seq::empty(),
        GameObjectData::DestructibleBuilding => Seq::empty(),
        GameObjectData::GuildBank => Seq::empty(),
    }
}

/// The type whose layout the variant of `d` is.
pub open spec fn spec_data_type(d: GameObjectData) -> GameObjectType {
    match d {
        GameObjectData::Door { .. } => GameObjectType::Door,
        GameObjectData::Button { .. } => GameObjectType::Button,
        GameObjectData::QuestGiver { .. } => GameObjectType::QuestGiver,
        GameObjectData::Chest { .. } => GameObjectType::Chest,
        GameObjectData::Binder => GameObjectType::Binder,
        GameObjectData::Generic { .. } => GameObjectType::Generic,
        GameObjectData::Trap { .. } => GameObjectType::Trap,
        GameObjectData::SpellFocus { .. } => GameObjectType::SpellFocus,
        GameObjectData::Text { .. } => GameObjectType::Text,
        GameObjectData::Goober { .. } => GameObjectType::Goober,
        GameObjectData::Transport => GameObjectType::Transport,
        GameObjectData::AreaDamage => GameObjectType::AreaDamage,
        GameObjectData::Camera { .. } => GameObjectType::Camera,
        GameObjectData::MapObject => GameObjectType::MapObject,
        GameObjectData::MoTransport { .. } => GameObjectType::MoTransport,
        GameObjectData::DualArbiter => GameObjectType::DuelArbiter,
        GameObjectData::FishingNode => GameObjectType::FishingNode,
        GameObjectData::SummoningRitual { .. } => GameObjectType::SummoningRitual,
        GameObjectData::MailBox => GameObjectType::MailBox,
        GameObjectData::AuctionHouse { .. } => GameObjectType::AuctionHouse,
        GameObjectData::GuardPost => GameObjectType::GuardPost,
        GameObjectData::SpellCaster { .. } => GameObjectType::SpellCaster,
        GameObjectData::MeetingStone { .. } => GameObjectType::MeetingStone,
        GameObjectData::FlagStand { .. } => GameObjectType::FlagStand,
        GameObjectData::FishingHole { .. } => GameObjectType::FishingHole,
        GameObjectData::FlagDrop { .. } => GameObjectType::FlagDrop,
        GameObjectData::MiniGame => GameObjectType::MiniGame,
        GameObjectData::LotteryKiosk => GameObjectType::LotteryKiosk,
        GameObjectData::CapturePoint { .. } => GameObjectType::CapturePoint,
        GameObjectData::AuraGenerator { .. } => GameObjectType::AuraGenerator,
        GameObjectData::DungeonDifficulty { .. } => GameObjectType::DungeonDifficulty,
        GameObjectData::BarberChair => GameObjectType::BarberChair,
        GameObjectData::DestructibleBuilding => GameObjectType::DestructibleBuilding,
        GameObjectData::GuildBank => GameObjectType::GuildBank,
    }
}

/// True when `f`, the field at position `k`, is what data word `k` says: the word
/// itself for a number, whether it is nonzero for a flag.
pub open spec fn field_from_word(f: TemplateField, word: u32) -> bool {
    match f {
        TemplateField::Word(w) => w == word,
        TemplateField::Flag(b) => b == (word != 0),
    }
}

/// Decoding a template's data words gives the variant of its type (a chair takes
/// the layout of a chest), and each field of that variant, in declaration order, is
/// read from the data word at the same position: the k-th field is word k, or
/// whether word k is nonzero for a flag.
pub proof fn lemma_template_fields_follow_words(go_type: GameObjectType, raw: Seq<u32>)
    requires
        raw.len() == 24,
    ensures
        spec_data_type(spec_template_data(go_type, raw)) == (if go_type == GameObjectType::Chair {
            GameObjectType::Chest
        } else {
            go_type
        }),
        spec_declared_fields(spec_template_data(go_type, raw)).len() <= 24,
        forall|k: int|
            0 <= k < spec_declared_fields(spec_template_data(go_type, raw)).len() ==> field_from_word(
                #[trigger] spec_declared_fields(spec_template_data(go_type, raw))[k],
                raw[k],
            ),
{
    let fields = spec_declared_fields(spec_template_data(go_type, raw));
    assert forall|k: int| 0 <= k < fields.len() implies field_from_word(#[trigger] fields[k], raw[k]) by {
    }
}

} // verus!
