//! Messages of the character screen and of item queries.
use crate::codec::{ClientPayload, NullString, ReadError, WireEncode};
use crate::constants::{InventoryType};
use crate::protocol::server::ServerMessagePayload;
use crate::protocol::packets::item_packets::{ItemTemplateDamage, ItemTemplateSocket, ItemTemplateSpell, ItemTemplateStat};
use crate::wire::{lemma_le_u32_roundtrip, get_null_string, lemma_null_string_unique, null_string_at, from_le_u32, from_le_u64, get_u32_le, get_u64_le, le_u32, le_u64, lemma_le_u64_roundtrip};
use vstd::seq_lib::lemma_concat_associative;
use vstd::prelude::*;

pub mod auth_packets;
pub mod chat_packets;
pub mod combat_packets;
pub mod entity_packets;
pub mod gossip_packets;
pub mod item_packets;
pub mod loot_packets;
pub mod misc_packets;
pub mod movement_packets;
pub mod player_packets;
pub mod query_packets;
pub mod quest_packets;
pub mod spell_packets;
pub mod trainer_packets;
pub mod vendor_packets;
pub mod zone_packets;

verus! {

/// One character of the character list.
#[derive(Debug, PartialEq, Eq)]
pub struct CharEnumData {
    pub guid: u64,
    pub name: NullString,
    pub race: u8,
    pub class: u8,
    pub gender: u8,
    pub skin: u8,
    pub face: u8,
    pub hairstyle: u8,
    pub haircolor: u8,
    pub facialstyle: u8,
    pub level: u8,
    pub zone: u32,
    pub map: u32,
    /// The bits of an `f32`.
    pub position_x: u32,
    /// The bits of an `f32`.
    pub position_y: u32,
    /// The bits of an `f32`.
    pub position_z: u32,
    pub guild_id: u32,
    pub flags: u32,
    pub first_login: bool,
    pub pet_display_id: u32,
    pub pet_level: u32,
    pub pet_family: u32,
    pub equipment: Vec<CharEnumEquip>,
}

impl WireEncode for CharEnumData {
    open spec fn spec_encode(&self) -> Seq<u8> {
        self.guid.spec_encode() + self.name.spec_encode() + self.race.spec_encode() + self.class.spec_encode() + self.gender.spec_encode() + self.skin.spec_encode() + self.face.spec_encode() + self.hairstyle.spec_encode() + self.haircolor.spec_encode() + self.facialstyle.spec_encode() + self.level.spec_encode() + self.zone.spec_encode() + self.map.spec_encode() + self.position_x.spec_encode() + self.position_y.spec_encode() + self.position_z.spec_encode() + self.guild_id.spec_encode() + self.flags.spec_encode() + self.first_login.spec_encode() + self.pet_display_id.spec_encode() + self.pet_level.spec_encode() + self.pet_family.spec_encode() + self.equipment.spec_encode()
    }

    #[verifier::spinoff_prover]
    #[verifier::rlimit(80)]
    fn encode_into(&self, out: &mut Vec<u8>) {
        let ghost start = out@;
        self.guid.encode_into(out);
        let ghost mut acc = self.guid.spec_encode();
        self.name.encode_into(out);
        proof {
            lemma_concat_associative(start, acc, self.name.spec_encode());
            acc = acc + self.name.spec_encode();
        }
        self.race.encode_into(out);
        proof {
            lemma_concat_associative(start, acc, self.race.spec_encode());
            acc = acc + self.race.spec_encode();
        }
        self.class.encode_into(out);
        proof {
            lemma_concat_associative(start, acc, self.class.spec_encode());
            acc = acc + self.class.spec_encode();
        }
        self.gender.encode_into(out);
        proof {
            lemma_concat_associative(start, acc, self.gender.spec_encode());
            acc = acc + self.gender.spec_encode();
        }
        self.skin.encode_into(out);
        proof {
            lemma_concat_associative(start, acc, self.skin.spec_encode());
            acc = acc + self.skin.spec_encode();
        }
        self.face.encode_into(out);
        proof {
            lemma_concat_associative(start, acc, self.face.spec_encode());
            acc = acc + self.face.spec_encode();
        }
        self.hairstyle.encode_into(out);
        proof {
            lemma_concat_associative(start, acc, self.hairstyle.spec_encode());
            acc = acc + self.hairstyle.spec_encode();
        }
        self.haircolor.encode_into(out);
        proof {
            lemma_concat_associative(start, acc, self.haircolor.spec_encode());
            acc = acc + self.haircolor.spec_encode();
        }
        self.facialstyle.encode_into(out);
        proof {
            lemma_concat_associative(start, acc, self.facialstyle.spec_encode());
            acc = acc + self.facialstyle.spec_encode();
        }
        self.level.encode_into(out);
        proof {
            lemma_concat_associative(start, acc, self.level.spec_encode());
            acc = acc + self.level.spec_encode();
        }
        self.zone.encode_into(out);
        proof {
            lemma_concat_associative(start, acc, self.zone.spec_encode());
            acc = acc + self.zone.spec_encode();
        }
        self.map.encode_into(out);
        proof {
            lemma_concat_associative(start, acc, self.map.spec_encode());
            acc = acc + self.map.spec_encode();
        }
        self.position_x.encode_into(out);
        proof {
            lemma_concat_associative(start, acc, self.position_x.spec_encode());
            acc = acc + self.position_x.spec_encode();
        }
        self.position_y.encode_into(out);
        proof {
            lemma_concat_associative(start, acc, self.position_y.spec_encode());
            acc = acc + self.position_y.spec_encode();
        }
        self.position_z.encode_into(out);
        proof {
            lemma_concat_associative(start, acc, self.position_z.spec_encode());
            acc = acc + self.position_z.spec_encode();
        }
        self.guild_id.encode_into(out);
        proof {
            lemma_concat_associative(start, acc, self.guild_id.spec_encode());
            acc = acc + self.guild_id.spec_encode();
        }
        self.flags.encode_into(out);
        proof {
            lemma_concat_associative(start, acc, self.flags.spec_encode());
            acc = acc + self.flags.spec_encode();
        }
        self.first_login.encode_into(out);
        proof {
            lemma_concat_associative(start, acc, self.first_login.spec_encode());
            acc = acc + self.first_login.spec_encode();
        }
        self.pet_display_id.encode_into(out);
        proof {
            lemma_concat_associative(start, acc, self.pet_display_id.spec_encode());
            acc = acc + self.pet_display_id.spec_encode();
        }
        self.pet_level.encode_into(out);
        proof {
            lemma_concat_associative(start, acc, self.pet_level.spec_encode());
            acc = acc + self.pet_level.spec_encode();
        }
        self.pet_family.encode_into(out);
        proof {
            lemma_concat_associative(start, acc, self.pet_family.spec_encode());
            acc = acc + self.pet_family.spec_encode();
        }
        self.equipment.encode_into(out);
        proof {
            lemma_concat_associative(start, acc, self.equipment.spec_encode());
            acc = acc + self.equipment.spec_encode();
        }
        assert(acc == self.spec_encode());
    }
}

/// One equipment slot shown on the character list.
#[derive(Debug, PartialEq, Eq)]
pub struct CharEnumEquip {
    pub display_id: u32,
    pub slot: u8,
    pub enchant_id: u32,
}

impl WireEncode for CharEnumEquip {
    open spec fn spec_encode(&self) -> Seq<u8> {
        self.display_id.spec_encode() + self.slot.spec_encode() + self.enchant_id.spec_encode()
    }

    fn encode_into(&self, out: &mut Vec<u8>) {
        self.display_id.encode_into(out);
        self.slot.encode_into(out);
        self.enchant_id.encode_into(out);
        assert(out@ =~= old(out)@ + self.spec_encode());
    }
}

/// The bytes of a `CharEnumEquip` hold its fields in declaration order, little-endian:
/// each field reads back from its own place.
pub proof fn lemma_char_enum_equip_image_fields(v: CharEnumEquip)
    ensures
        v.spec_encode().len() == 9,
        from_le_u32(v.spec_encode().subrange(0, 4)) == v.display_id,
        v.spec_encode()[4] == v.slot,
        from_le_u32(v.spec_encode().subrange(5, 9)) == v.enchant_id,
{
    let data = v.spec_encode();
    lemma_le_u32_roundtrip(v.display_id);
    assert(data.subrange(0, 4) =~= le_u32(v.display_id));
    lemma_le_u32_roundtrip(v.enchant_id);
    assert(data.subrange(5, 9) =~= le_u32(v.enchant_id));
}

#[derive(Debug, PartialEq, Eq)]
pub struct SmsgCharEnum {
    pub number_of_characters: u8,
    pub character_data: Vec<CharEnumData>,
}

impl WireEncode for SmsgCharEnum {
    open spec fn spec_encode(&self) -> Seq<u8> {
        self.number_of_characters.spec_encode() + self.character_data.spec_encode()
    }

    fn encode_into(&self, out: &mut Vec<u8>) {
        self.number_of_characters.encode_into(out);
        self.character_data.encode_into(out);
        assert(out@ =~= old(out)@ + self.spec_encode());
    }
}

impl ServerMessagePayload for SmsgCharEnum {}

#[derive(Debug, PartialEq, Eq)]
pub struct CmsgRealmSplit {
    pub client_state: u32,
}

impl ClientPayload for CmsgRealmSplit {
    open spec fn spec_accepts(data: Seq<u8>) -> bool {
        data.len() >= 4
    }

    open spec fn spec_reads_as(data: Seq<u8>, v: Self) -> bool {
        v == CmsgRealmSplit { client_state: from_le_u32(data.subrange(0, 4)) }
    }

    fn read(data: &[u8]) -> (r: Result<Self, ReadError>) {
        if data.len() < 4 {
            return Err(ReadError::UnexpectedEnd);
        }
        Ok(CmsgRealmSplit { client_state: get_u32_le(data, 0) })
    }
}

/// Reading the bytes of a `CmsgRealmSplit` (its fields in order, little-endian) gives it
/// back: each field is read from its own bytes.
pub proof fn lemma_cmsg_realm_split_reads_back(v: CmsgRealmSplit)
    ensures
        CmsgRealmSplit::spec_accepts(le_u32(v.client_state)),
        CmsgRealmSplit::spec_reads_as(le_u32(v.client_state), v),
{
    let data = le_u32(v.client_state);
    lemma_le_u32_roundtrip(v.client_state);
    assert(data.subrange(0, 4) =~= le_u32(v.client_state));
}

#[derive(Debug, PartialEq, Eq)]
pub struct SmsgRealmSplit {
    pub client_state: u32,
    /// 0x0 - normal; 0x1: realm split; 0x2 realm split pending
    pub realm_state: u32,
    /// "01/01/01"
    pub split_date: NullString,
}

impl WireEncode for SmsgRealmSplit {
    open spec fn spec_encode(&self) -> Seq<u8> {
        self.client_state.spec_encode() + self.realm_state.spec_encode() + self.split_date.spec_encode()
    }

    fn encode_into(&self, out: &mut Vec<u8>) {
        self.client_state.encode_into(out);
        self.realm_state.encode_into(out);
        self.split_date.encode_into(out);
        assert(out@ =~= old(out)@ + self.spec_encode());
    }
}

impl ServerMessagePayload for SmsgRealmSplit {}

#[derive(Debug, PartialEq, Eq)]
pub struct SmsgBindpointupdate {
    /// The bits of an `f32`.
    pub homebind_x: u32,
    /// The bits of an `f32`.
    pub homebind_y: u32,
    /// The bits of an `f32`.
    pub homebind_z: u32,
    pub homebind_map_id: u32,
    pub homebind_area_id: u32,
}

impl WireEncode for SmsgBindpointupdate {
    open spec fn spec_encode(&self) -> Seq<u8> {
        self.homebind_x.spec_encode() + self.homebind_y.spec_encode() + self.homebind_z.spec_encode() + self.homebind_map_id.spec_encode() + self.homebind_area_id.spec_encode()
    }

    fn encode_into(&self, out: &mut Vec<u8>) {
        self.homebind_x.encode_into(out);
        self.homebind_y.encode_into(out);
        self.homebind_z.encode_into(out);
        self.homebind_map_id.encode_into(out);
        self.homebind_area_id.encode_into(out);
        assert(out@ =~= old(out)@ + self.spec_encode());
    }
}

impl ServerMessagePayload for SmsgBindpointupdate {}

/// The bytes of a `SmsgBindpointupdate` hold its fields in declaration order, little-endian:
/// each field reads back from its own place.
pub proof fn lemma_smsg_bindpointupdate_image_fields(v: SmsgBindpointupdate)
    ensures
        v.spec_encode().len() == 20,
        from_le_u32(v.spec_encode().subrange(0, 4)) == v.homebind_x,
        from_le_u32(v.spec_encode().subrange(4, 8)) == v.homebind_y,
        from_le_u32(v.spec_encode().subrange(8, 12)) == v.homebind_z,
        from_le_u32(v.spec_encode().subrange(12, 16)) == v.homebind_map_id,
        from_le_u32(v.spec_encode().subrange(16, 20)) == v.homebind_area_id,
{
    let data = v.spec_encode();
    lemma_le_u32_roundtrip(v.homebind_x);
    assert(data.subrange(0, 4) =~= le_u32(v.homebind_x));
    lemma_le_u32_roundtrip(v.homebind_y);
    assert(data.subrange(4, 8) =~= le_u32(v.homebind_y));
    lemma_le_u32_roundtrip(v.homebind_z);
    assert(data.subrange(8, 12) =~= le_u32(v.homebind_z));
    lemma_le_u32_roundtrip(v.homebind_map_id);
    assert(data.subrange(12, 16) =~= le_u32(v.homebind_map_id));
    lemma_le_u32_roundtrip(v.homebind_area_id);
    assert(data.subrange(16, 20) =~= le_u32(v.homebind_area_id));
}

#[derive(Debug, PartialEq, Eq)]
pub struct SmsgLoginSettimespeed {
    pub timestamp: u32,
    /// The bits of an `f32`.
    pub game_speed: u32,
}

impl WireEncode for SmsgLoginSettimespeed {
    open spec fn spec_encode(&self) -> Seq<u8> {
        self.timestamp.spec_encode() + self.game_speed.spec_encode()
    }

    fn encode_into(&self, out: &mut Vec<u8>) {
        self.timestamp.encode_into(out);
        self.game_speed.encode_into(out);
        assert(out@ =~= old(out)@ + self.spec_encode());
    }
}

impl ServerMessagePayload for SmsgLoginSettimespeed {}

/// The bytes of a `SmsgLoginSettimespeed` hold its fields in declaration order, little-endian:
/// each field reads back from its own place.
pub proof fn lemma_smsg_login_settimespeed_image_fields(v: SmsgLoginSettimespeed)
    ensures
        v.spec_encode().len() == 8,
        from_le_u32(v.spec_encode().subrange(0, 4)) == v.timestamp,
        from_le_u32(v.spec_encode().subrange(4, 8)) == v.game_speed,
{
    let data = v.spec_encode();
    lemma_le_u32_roundtrip(v.timestamp);
    assert(data.subrange(0, 4) =~= le_u32(v.timestamp));
    lemma_le_u32_roundtrip(v.game_speed);
    assert(data.subrange(4, 8) =~= le_u32(v.game_speed));
}

#[derive(Debug, PartialEq, Eq)]
pub struct CmsgCharCreate {
    pub name: NullString,
    pub race: u8,
    pub class: u8,
    pub gender: u8,
    pub skin: u8,
    pub face: u8,
    pub hairstyle: u8,
    pub haircolor: u8,
    pub facialstyle: u8,
}

#[derive(Debug, PartialEq, Eq)]
pub struct SmsgCharCreate {
    pub result: u8,
}

impl WireEncode for SmsgCharCreate {
    open spec fn spec_encode(&self) -> Seq<u8> {
        self.result.spec_encode()
    }

    fn encode_into(&self, out: &mut Vec<u8>) {
        self.result.encode_into(out);
        assert(out@ =~= old(out)@ + self.spec_encode());
    }
}

impl ServerMessagePayload for SmsgCharCreate {}

/// The bytes of a `SmsgCharCreate` hold its fields in declaration order, little-endian:
/// each field reads back from its own place.
pub proof fn lemma_smsg_char_create_image_fields(v: SmsgCharCreate)
    ensures
        v.spec_encode().len() == 1,
        v.spec_encode()[0] == v.result,
{
    let data = v.spec_encode();
}

#[derive(Debug, PartialEq, Eq)]
pub struct CmsgCharDelete {
    pub guid: u64,
}

impl ClientPayload for CmsgCharDelete {
    open spec fn spec_accepts(data: Seq<u8>) -> bool {
        data.len() >= 8
    }

    open spec fn spec_reads_as(data: Seq<u8>, v: Self) -> bool {
        v == CmsgCharDelete { guid: from_le_u64(data.subrange(0, 8)) }
    }

    fn read(data: &[u8]) -> (r: Result<Self, ReadError>) {
        if data.len() < 8 {
            return Err(ReadError::UnexpectedEnd);
        }
        Ok(CmsgCharDelete { guid: get_u64_le(data, 0) })
    }
}

/// Reading the bytes of a `CmsgCharDelete` (its fields in order, little-endian) gives it
/// back: each field is read from its own bytes.
pub proof fn lemma_cmsg_char_delete_reads_back(v: CmsgCharDelete)
    ensures
        CmsgCharDelete::spec_accepts(le_u64(v.guid)),
        CmsgCharDelete::spec_reads_as(le_u64(v.guid), v),
{
    let data = le_u64(v.guid);
    lemma_le_u64_roundtrip(v.guid);
    assert(data.subrange(0, 8) =~= le_u64(v.guid));
}

#[derive(Debug, PartialEq, Eq)]
pub struct SmsgCharDelete {
    pub result: u8,
}

impl WireEncode for SmsgCharDelete {
    open spec fn spec_encode(&self) -> Seq<u8> {
        self.result.spec_encode()
    }

    fn encode_into(&self, out: &mut Vec<u8>) {
        self.result.encode_into(out);
        assert(out@ =~= old(out)@ + self.spec_encode());
    }
}

impl ServerMessagePayload for SmsgCharDelete {}

/// The bytes of a `SmsgCharDelete` hold its fields in declaration order, little-endian:
/// each field reads back from its own place.
pub proof fn lemma_smsg_char_delete_image_fields(v: SmsgCharDelete)
    ensures
        v.spec_encode().len() == 1,
        v.spec_encode()[0] == v.result,
{
    let data = v.spec_encode();
}

#[derive(Debug, PartialEq, Eq)]
pub struct CmsgPlayerLogin {
    pub guid: u64,
}

impl ClientPayload for CmsgPlayerLogin {
    open spec fn spec_accepts(data: Seq<u8>) -> bool {
        data.len() >= 8
    }

    open spec fn spec_reads_as(data: Seq<u8>, v: Self) -> bool {
        v == CmsgPlayerLogin { guid: from_le_u64(data.subrange(0, 8)) }
    }

    fn read(data: &[u8]) -> (r: Result<Self, ReadError>) {
        if data.len() < 8 {
            return Err(ReadError::UnexpectedEnd);
        }
        Ok(CmsgPlayerLogin { guid: get_u64_le(data, 0) })
    }
}

/// Reading the bytes of a `CmsgPlayerLogin` (its fields in order, little-endian) gives it
/// back: each field is read from its own bytes.
pub proof fn lemma_cmsg_player_login_reads_back(v: CmsgPlayerLogin)
    ensures
        CmsgPlayerLogin::spec_accepts(le_u64(v.guid)),
        CmsgPlayerLogin::spec_reads_as(le_u64(v.guid), v),
{
    let data = le_u64(v.guid);
    lemma_le_u64_roundtrip(v.guid);
    assert(data.subrange(0, 8) =~= le_u64(v.guid));
}

#[derive(Debug, PartialEq, Eq)]
pub struct SmsgMotd {
    pub line_count: u32,
    pub message: NullString,
}

impl WireEncode for SmsgMotd {
    open spec fn spec_encode(&self) -> Seq<u8> {
        self.line_count.spec_encode() + self.message.spec_encode()
    }

    fn encode_into(&self, out: &mut Vec<u8>) {
        self.line_count.encode_into(out);
        self.message.encode_into(out);
        assert(out@ =~= old(out)@ + self.spec_encode());
    }
}

impl ServerMessagePayload for SmsgMotd {}

#[derive(Debug, PartialEq, Eq)]
pub struct SmsgItemQuerySingleResponse {
    pub result: Option<u32>,
    pub template: Option<ItemQueryResponse>,
}

impl WireEncode for SmsgItemQuerySingleResponse {
    open spec fn spec_encode(&self) -> Seq<u8> {
        self.result.spec_encode() + self.template.spec_encode()
    }

    fn encode_into(&self, out: &mut Vec<u8>) {
        self.result.encode_into(out);
        self.template.encode_into(out);
        assert(out@ =~= old(out)@ + self.spec_encode());
    }
}

impl ServerMessagePayload for SmsgItemQuerySingleResponse {}

/// The description of an item template sent to the client.
#[derive(Debug, PartialEq, Eq)]
pub struct ItemQueryResponse {
    pub item_id: u32,
    pub item_class: u32,
    pub item_subclass: u32,
    /// -1
    pub item_unk: i32,
    pub name: NullString,
    pub name2: u8,
    pub name3: u8,
    pub name4: u8,
    pub display_id: u32,
    pub quality: u32,
    pub flags: u32,
    pub buy_price: u32,
    pub sell_price: u32,
    pub inventory_type: u32,
    pub allowable_class: i32,
    pub allowable_race: i32,
    pub item_level: u32,
    pub required_level: u32,
    pub required_skill: u32,
    pub required_skill_rank: u32,
    pub required_spell: u32,
    pub required_honor_rank: u32,
    pub required_city_rank: u32,
    pub required_reputation_faction: u32,
    pub required_reputation_rank: u32,
    pub max_count: u32,
    pub max_stack_count: u32,
    pub container_slots: u32,
    pub stats: Vec<ItemTemplateStat>,
    pub damages: Vec<ItemTemplateDamage>,
    pub armor: u32,
    pub resist_holy: u32,
    pub resist_fire: u32,
    pub resist_nature: u32,
    pub resist_frost: u32,
    pub resist_shadow: u32,
    pub resist_arcane: u32,
    pub delay: u32,
    pub ammo_type: u32,
    /// The bits of an `f32`.
    pub ranged_mod_range: u32,
    pub spells: Vec<ItemTemplateSpell>,
    pub bonding: u32,
    pub description: NullString,
    pub page_text: u32,
    pub language_id: u32,
    pub page_material: u32,
    pub start_quest: u32,
    pub lock_id: u32,
    pub material: i32,
    pub sheath: u32,
    pub random_property: u32,
    pub random_suffix: u32,
    pub block: u32,
    pub item_set: u32,
    pub max_durability: u32,
    pub area: u32,
    pub map: u32,
    pub bag_family: u32,
    pub totem_category: u32,
    pub sockets: Vec<ItemTemplateSocket>,
    pub socket_bonus: u32,
    pub gem_properties: u32,
    pub required_enchantment_skill: i32,
    /// The bits of an `f32`.
    pub armor_damage_modifier: u32,
    pub duration: u32,
}

impl ItemQueryResponse {
    /// Bytes of fields 1 to 16 of the image.
    pub open spec fn spec_encode_part0(&self) -> Seq<u8> {
        self.item_id.spec_encode() + self.item_class.spec_encode() + self.item_subclass.spec_encode() + self.item_unk.spec_encode() + self.name.spec_encode() + self.name2.spec_encode() + self.name3.spec_encode() + self.name4.spec_encode() + self.display_id.spec_encode() + self.quality.spec_encode() + self.flags.spec_encode() + self.buy_price.spec_encode() + self.sell_price.spec_encode() + self.inventory_type.spec_encode() + self.allowable_class.spec_encode() + self.allowable_race.spec_encode()
    }

    fn encode_part0(&self, out: &mut Vec<u8>)
        ensures
            final(out)@ == old(out)@ + self.spec_encode_part0(),
    {
        let ghost start = out@;
        self.item_id.encode_into(out);
        let ghost mut acc = self.item_id.spec_encode();
        self.item_class.encode_into(out);
        proof {
            lemma_concat_associative(start, acc, self.item_class.spec_encode());
            acc = acc + self.item_class.spec_encode();
        }
        self.item_subclass.encode_into(out);
        proof {
            lemma_concat_associative(start, acc, self.item_subclass.spec_encode());
            acc = acc + self.item_subclass.spec_encode();
        }
        self.item_unk.encode_into(out);
        proof {
            lemma_concat_associative(start, acc, self.item_unk.spec_encode());
            acc = acc + self.item_unk.spec_encode();
        }
        self.name.encode_into(out);
        proof {
            lemma_concat_associative(start, acc, self.name.spec_encode());
            acc = acc + self.name.spec_encode();
        }
        self.name2.encode_into(out);
        proof {
            lemma_concat_associative(start, acc, self.name2.spec_encode());
            acc = acc + self.name2.spec_encode();
        }
        self.name3.encode_into(out);
        proof {
            lemma_concat_associative(start, acc, self.name3.spec_encode());
            acc = acc + self.name3.spec_encode();
        }
        self.name4.encode_into(out);
        proof {
            lemma_concat_associative(start, acc, self.name4.spec_encode());
            acc = acc + self.name4.spec_encode();
        }
        self.display_id.encode_into(out);
        proof {
            lemma_concat_associative(start, acc, self.display_id.spec_encode());
            acc = acc + self.display_id.spec_encode();
        }
        self.quality.encode_into(out);
        proof {
            lemma_concat_associative(start, acc, self.quality.spec_encode());
            acc = acc + self.quality.spec_encode();
        }
        self.flags.encode_into(out);
        proof {
            lemma_concat_associative(start, acc, self.flags.spec_encode());
            acc = acc + self.flags.spec_encode();
        }
        self.buy_price.encode_into(out);
        proof {
            lemma_concat_associative(start, acc, self.buy_price.spec_encode());
            acc = acc + self.buy_price.spec_encode();
        }
        self.sell_price.encode_into(out);
        proof {
            lemma_concat_associative(start, acc, self.sell_price.spec_encode());
            acc = acc + self.sell_price.spec_encode();
        }
        self.inventory_type.encode_into(out);
        proof {
            lemma_concat_associative(start, acc, self.inventory_type.spec_encode());
            acc = acc + self.inventory_type.spec_encode();
        }
        self.allowable_class.encode_into(out);
        proof {
            lemma_concat_associative(start, acc, self.allowable_class.spec_encode());
            acc = acc + self.allowable_class.spec_encode();
        }
        self.allowable_race.encode_into(out);
        proof {
            lemma_concat_associative(start, acc, self.allowable_race.spec_encode());
            acc = acc + self.allowable_race.spec_encode();
        }
        assert(acc == self.spec_encode_part0());
    }

    /// Bytes of fields 17 to 32 of the image.
    pub open spec fn spec_encode_part1(&self) -> Seq<u8> {
        self.item_level.spec_encode() + self.required_level.spec_encode() + self.required_skill.spec_encode() + self.required_skill_rank.spec_encode() + self.required_spell.spec_encode() + self.required_honor_rank.spec_encode() + self.required_city_rank.spec_encode() + self.required_reputation_faction.spec_encode() + self.required_reputation_rank.spec_encode() + self.max_count.spec_encode() + self.max_stack_count.spec_encode() + self.container_slots.spec_encode() + self.stats.spec_encode() + self.damages.spec_encode() + self.armor.spec_encode() + self.resist_holy.spec_encode()
    }

    fn encode_part1(&self, out: &mut Vec<u8>)
        ensures
            final(out)@ == old(out)@ + self.spec_encode_part1(),
    {
        let ghost start = out@;
        self.item_level.encode_into(out);
        let ghost mut acc = self.item_level.spec_encode();
        self.required_level.encode_into(out);
        proof {
            lemma_concat_associative(start, acc, self.required_level.spec_encode());
            acc = acc + self.required_level.spec_encode();
        }
        self.required_skill.encode_into(out);
        proof {
            lemma_concat_associative(start, acc, self.required_skill.spec_encode());
            acc = acc + self.required_skill.spec_encode();
        }
        self.required_skill_rank.encode_into(out);
        proof {
            lemma_concat_associative(start, acc, self.required_skill_rank.spec_encode());
            acc = acc + self.required_skill_rank.spec_encode();
        }
        self.required_spell.encode_into(out);
        proof {
            lemma_concat_associative(start, acc, self.required_spell.spec_encode());
            acc = acc + self.required_spell.spec_encode();
        }
        self.required_honor_rank.encode_into(out);
        proof {
            lemma_concat_associative(start, acc, self.required_honor_rank.spec_encode());
            acc = acc + self.required_honor_rank.spec_encode();
        }
        self.required_city_rank.encode_into(out);
        proof {
            lemma_concat_associative(start, acc, self.required_city_rank.spec_encode());
            acc = acc + self.required_city_rank.spec_encode();
        }
        self.required_reputation_faction.encode_into(out);
        proof {
            lemma_concat_associative(start, acc, self.required_reputation_faction.spec_encode());
            acc = acc + self.required_reputation_faction.spec_encode();
        }
        self.required_reputation_rank.encode_into(out);
        proof {
            lemma_concat_associative(start, acc, self.required_reputation_rank.spec_encode());
            acc = acc + self.required_reputation_rank.spec_encode();
        }
        self.max_count.encode_into(out);
        proof {
            lemma_concat_associative(start, acc, self.max_count.spec_encode());
            acc = acc + self.max_count.spec_encode();
        }
        self.max_stack_count.encode_into(out);
        proof {
            lemma_concat_associative(start, acc, self.max_stack_count.spec_encode());
            acc = acc + self.max_stack_count.spec_encode();
        }
        self.container_slots.encode_into(out);
        proof {
            lemma_concat_associative(start, acc, self.container_slots.spec_encode());
            acc = acc + self.container_slots.spec_encode();
        }
        self.stats.encode_into(out);
        proof {
            lemma_concat_associative(start, acc, self.stats.spec_encode());
            acc = acc + self.stats.spec_encode();
        }
        self.damages.encode_into(out);
        proof {
            lemma_concat_associative(start, acc, self.damages.spec_encode());
            acc = acc + self.damages.spec_encode();
        }
        self.armor.encode_into(out);
        proof {
            lemma_concat_associative(start, acc, self.armor.spec_encode());
            acc = acc + self.armor.spec_encode();
        }
        self.resist_holy.encode_into(out);
        proof {
            lemma_concat_associative(start, acc, self.resist_holy.spec_encode());
            acc = acc + self.resist_holy.spec_encode();
        }
        assert(acc == self.spec_encode_part1());
    }

    /// Bytes of fields 33 to 48 of the image.
    pub open spec fn spec_encode_part2(&self) -> Seq<u8> {
        self.resist_fire.spec_encode() + self.resist_nature.spec_encode() + self.resist_frost.spec_encode() + self.resist_shadow.spec_encode() + self.resist_arcane.spec_encode() + self.delay.spec_encode() + self.ammo_type.spec_encode() + self.ranged_mod_range.spec_encode() + self.spells.spec_encode() + self.bonding.spec_encode() + self.description.spec_encode() + self.page_text.spec_encode() + self.language_id.spec_encode() + self.page_material.spec_encode() + self.start_quest.spec_encode() + self.lock_id.spec_encode()
    }

    fn encode_part2(&self, out: &mut Vec<u8>)
        ensures
            final(out)@ == old(out)@ + self.spec_encode_part2(),
    {
        let ghost start = out@;
        self.resist_fire.encode_into(out);
        let ghost mut acc = self.resist_fire.spec_encode();
        self.resist_nature.encode_into(out);
        proof {
            lemma_concat_associative(start, acc, self.resist_nature.spec_encode());
            acc = acc + self.resist_nature.spec_encode();
        }
        self.resist_frost.encode_into(out);
        proof {
            lemma_concat_associative(start, acc, self.resist_frost.spec_encode());
            acc = acc + self.resist_frost.spec_encode();
        }
        self.resist_shadow.encode_into(out);
        proof {
            lemma_concat_associative(start, acc, self.resist_shadow.spec_encode());
            acc = acc + self.resist_shadow.spec_encode();
        }
        self.resist_arcane.encode_into(out);
        proof {
            lemma_concat_associative(start, acc, self.resist_arcane.spec_encode());
            acc = acc + self.resist_arcane.spec_encode();
        }
        self.delay.encode_into(out);
        proof {
            lemma_concat_associative(start, acc, self.delay.spec_encode());
            acc = acc + self.delay.spec_encode();
        }
        self.ammo_type.encode_into(out);
        proof {
            lemma_concat_associative(start, acc, self.ammo_type.spec_encode());
            acc = acc + self.ammo_type.spec_encode();
        }
        self.ranged_mod_range.encode_into(out);
        proof {
            lemma_concat_associative(start, acc, self.ranged_mod_range.spec_encode());
            acc = acc + self.ranged_mod_range.spec_encode();
        }
        self.spells.encode_into(out);
        proof {
            lemma_concat_associative(start, acc, self.spells.spec_encode());
            acc = acc + self.spells.spec_encode();
        }
        self.bonding.encode_into(out);
        proof {
            lemma_concat_associative(start, acc, self.bonding.spec_encode());
            acc = acc + self.bonding.spec_encode();
        }
        self.description.encode_into(out);
        proof {
            lemma_concat_associative(start, acc, self.description.spec_encode());
            acc = acc + self.description.spec_encode();
        }
        self.page_text.encode_into(out);
        proof {
            lemma_concat_associative(start, acc, self.page_text.spec_encode());
            acc = acc + self.page_text.spec_encode();
        }
        self.language_id.encode_into(out);
        proof {
            lemma_concat_associative(start, acc, self.language_id.spec_encode());
            acc = acc + self.language_id.spec_encode();
        }
        self.page_material.encode_into(out);
        proof {
            lemma_concat_associative(start, acc, self.page_material.spec_encode());
            acc = acc + self.page_material.spec_encode();
        }
        self.start_quest.encode_into(out);
        proof {
            lemma_concat_associative(start, acc, self.start_quest.spec_encode());
            acc = acc + self.start_quest.spec_encode();
        }
        self.lock_id.encode_into(out);
        proof {
            lemma_concat_associative(start, acc, self.lock_id.spec_encode());
            acc = acc + self.lock_id.spec_encode();
        }
        assert(acc == self.spec_encode_part2());
    }

    /// Bytes of fields 49 to 64 of the image.
    pub open spec fn spec_encode_part3(&self) -> Seq<u8> {
        self.material.spec_encode() + self.sheath.spec_encode() + self.random_property.spec_encode() + self.random_suffix.spec_encode() + self.block.spec_encode() + self.item_set.spec_encode() + self.max_durability.spec_encode() + self.area.spec_encode() + self.map.spec_encode() + self.bag_family.spec_encode() + self.totem_category.spec_encode() + self.sockets.spec_encode() + self.socket_bonus.spec_encode() + self.gem_properties.spec_encode() + self.required_enchantment_skill.spec_encode() + self.armor_damage_modifier.spec_encode()
    }

    fn encode_part3(&self, out: &mut Vec<u8>)
        ensures
            final(out)@ == old(out)@ + self.spec_encode_part3(),
    {
        let ghost start = out@;
        self.material.encode_into(out);
        let ghost mut acc = self.material.spec_encode();
        self.sheath.encode_into(out);
        proof {
            lemma_concat_associative(start, acc, self.sheath.spec_encode());
            acc = acc + self.sheath.spec_encode();
        }
        self.random_property.encode_into(out);
        proof {
            lemma_concat_associative(start, acc, self.random_property.spec_encode());
            acc = acc + self.random_property.spec_encode();
        }
        self.random_suffix.encode_into(out);
        proof {
            lemma_concat_associative(start, acc, self.random_suffix.spec_encode());
            acc = acc + self.random_suffix.spec_encode();
        }
        self.block.encode_into(out);
        proof {
            lemma_concat_associative(start, acc, self.block.spec_encode());
            acc = acc + self.block.spec_encode();
        }
        self.item_set.encode_into(out);
        proof {
            lemma_concat_associative(start, acc, self.item_set.spec_encode());
            acc = acc + self.item_set.spec_encode();
        }
        self.max_durability.encode_into(out);
        proof {
            lemma_concat_associative(start, acc, self.max_durability.spec_encode());
            acc = acc + self.max_durability.spec_encode();
        }
        self.area.encode_into(out);
        proof {
            lemma_concat_associative(start, acc, self.area.spec_encode());
            acc = acc + self.area.spec_encode();
        }
        self.map.encode_into(out);
        proof {
            lemma_concat_associative(start, acc, self.map.spec_encode());
            acc = acc + self.map.spec_encode();
        }
        self.bag_family.encode_into(out);
        proof {
            lemma_concat_associative(start, acc, self.bag_family.spec_encode());
            acc = acc + self.bag_family.spec_encode();
        }
        self.totem_category.encode_into(out);
        proof {
            lemma_concat_associative(start, acc, self.totem_category.spec_encode());
            acc = acc + self.totem_category.spec_encode();
        }
        self.sockets.encode_into(out);
        proof {
            lemma_concat_associative(start, acc, self.sockets.spec_encode());
            acc = acc + self.sockets.spec_encode();
        }
        self.socket_bonus.encode_into(out);
        proof {
            lemma_concat_associative(start, acc, self.socket_bonus.spec_encode());
            acc = acc + self.socket_bonus.spec_encode();
        }
        self.gem_properties.encode_into(out);
        proof {
            lemma_concat_associative(start, acc, self.gem_properties.spec_encode());
            acc = acc + self.gem_properties.spec_encode();
        }
        self.required_enchantment_skill.encode_into(out);
        proof {
            lemma_concat_associative(start, acc, self.required_enchantment_skill.spec_encode());
            acc = acc + self.required_enchantment_skill.spec_encode();
        }
        self.armor_damage_modifier.encode_into(out);
        proof {
            lemma_concat_associative(start, acc, self.armor_damage_modifier.spec_encode());
            acc = acc + self.armor_damage_modifier.spec_encode();
        }
        assert(acc == self.spec_encode_part3());
    }

    /// Bytes of fields 65 to 65 of the image.
    pub open spec fn spec_encode_part4(&self) -> Seq<u8> {
        self.duration.spec_encode()
    }

    fn encode_part4(&self, out: &mut Vec<u8>)
        ensures
            final(out)@ == old(out)@ + self.spec_encode_part4(),
    {
        let ghost start = out@;
        self.duration.encode_into(out);
        let ghost mut acc = self.duration.spec_encode();
        assert(acc == self.spec_encode_part4());
    }

}

impl WireEncode for ItemQueryResponse {
    open spec fn spec_encode(&self) -> Seq<u8> {
        self.spec_encode_part0() + self.spec_encode_part1() + self.spec_encode_part2() + self.spec_encode_part3() + self.spec_encode_part4()
    }

    #[verifier::spinoff_prover]
    fn encode_into(&self, out: &mut Vec<u8>) {
        let ghost start = out@;
        self.encode_part0(out);
        assert(out@ =~= start + (self.spec_encode_part0()));
        self.encode_part1(out);
        assert(out@ =~= start + (self.spec_encode_part0() + self.spec_encode_part1()));
        self.encode_part2(out);
        assert(out@ =~= start + (self.spec_encode_part0() + self.spec_encode_part1() + self.spec_encode_part2()));
        self.encode_part3(out);
        assert(out@ =~= start + (self.spec_encode_part0() + self.spec_encode_part1() + self.spec_encode_part2() + self.spec_encode_part3()));
        self.encode_part4(out);
        assert(out@ =~= start + (self.spec_encode_part0() + self.spec_encode_part1() + self.spec_encode_part2() + self.spec_encode_part3() + self.spec_encode_part4()));
    }
}
impl CharEnumEquip {
    /// An empty equipment slot of the given inventory type: no item shown, no enchantment.
    pub fn none(inv_type: InventoryType) -> (r: CharEnumEquip)
        ensures
            r == (CharEnumEquip { display_id: 0, slot: inv_type.spec_value() as u8, enchant_id: 0 }),
    {
        CharEnumEquip { display_id: 0, slot: inv_type.value() as u8, enchant_id: 0 }
    }
}

impl ClientPayload for CmsgCharCreate {
    /// The name, NUL-terminated, then eight one-byte appearance fields.
    open spec fn spec_accepts(data: Seq<u8>) -> bool {
        exists|s: Seq<u8>, next: int| #[trigger] null_string_at(data, 0, s, next) && next + 8 <= data.len()
    }

    open spec fn spec_reads_as(data: Seq<u8>, v: Self) -> bool {
        let next = v.name.0@.len() + 1int;
        &&& null_string_at(data, 0, v.name.0@, next)
        &&& next + 8 <= data.len()
        &&& v.race == data[next]
        &&& v.class == data[next + 1]
        &&& v.gender == data[next + 2]
        &&& v.skin == data[next + 3]
        &&& v.face == data[next + 4]
        &&& v.hairstyle == data[next + 5]
        &&& v.haircolor == data[next + 6]
        &&& v.facialstyle == data[next + 7]
    }

    fn read(data: &[u8]) -> (r: Result<Self, ReadError>) {
        let (name, next) = match get_null_string(data, 0) {
            Some(found) => found,
            None => {
                return Err(ReadError::UnexpectedEnd);
            },
        };
        if data.len() - next < 8 {
            proof {
                assert forall|s: Seq<u8>, n: int| #[trigger] null_string_at(data@, 0, s, n) implies n + 8 > data@.len() by {
                    lemma_null_string_unique(data@, 0, s, n, name@, next as int);
                }
            }
            return Err(ReadError::UnexpectedEnd);
        }
        Ok(
            CmsgCharCreate {
                name: NullString(name),
                race: data[next],
                class: data[next + 1],
                gender: data[next + 2],
                skin: data[next + 3],
                face: data[next + 4],
                hairstyle: data[next + 5],
                haircolor: data[next + 6],
                facialstyle: data[next + 7],
            },
        )
    }
}

} // verus!
