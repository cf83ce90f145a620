//! Object creation, update and destruction messages, and movement state.
use crate::codec::{ClientPayload, ReadError, WireEncode};
use crate::entities::{Position};
use crate::protocol::server::ServerMessagePayload;
use crate::wire::{lemma_le_u32_roundtrip, from_le_u32, from_le_u64, get_u32_le, le_u32, le_u64, lemma_le_u64_roundtrip};
use vstd::prelude::*;

verus! {

#[derive(Debug, PartialEq, Eq)]
pub struct SmsgCreateObject {
    pub updates_count: u32,
    pub has_transport: bool,
    /// the update blocks, already encoded
    pub updates: Vec<u8>,
}

impl WireEncode for SmsgCreateObject {
    open spec fn spec_encode(&self) -> Seq<u8> {
        self.updates_count.spec_encode() + self.has_transport.spec_encode() + self.updates.spec_encode()
    }

    fn encode_into(&self, out: &mut Vec<u8>) {
        self.updates_count.encode_into(out);
        self.has_transport.encode_into(out);
        self.updates.encode_into(out);
        assert(out@ =~= old(out)@ + self.spec_encode());
    }
}

impl ServerMessagePayload for SmsgCreateObject {}

#[derive(Debug, PartialEq, Eq)]
pub struct SmsgUpdateObject {
    pub updates_count: u32,
    pub has_transport: bool,
    /// the update blocks, already encoded
    pub updates: Vec<u8>,
}

impl WireEncode for SmsgUpdateObject {
    open spec fn spec_encode(&self) -> Seq<u8> {
        self.updates_count.spec_encode() + self.has_transport.spec_encode() + self.updates.spec_encode()
    }

    fn encode_into(&self, out: &mut Vec<u8>) {
        self.updates_count.encode_into(out);
        self.has_transport.encode_into(out);
        self.updates.encode_into(out);
        assert(out@ =~= old(out)@ + self.spec_encode());
    }
}

impl ServerMessagePayload for SmsgUpdateObject {}

/// Movement state carried by movement messages.
#[derive(Debug, PartialEq, Eq)]
pub struct MovementInfo {
    pub movement_flags: u32,
    pub movement_flags2: u8,
    pub timestamp: u32,
    pub position: Position,
    pub fall_time: u32,
}

impl WireEncode for MovementInfo {
    open spec fn spec_encode(&self) -> Seq<u8> {
        self.movement_flags.spec_encode() + self.movement_flags2.spec_encode() + self.timestamp.spec_encode() + self.position.spec_encode() + self.fall_time.spec_encode()
    }

    fn encode_into(&self, out: &mut Vec<u8>) {
        self.movement_flags.encode_into(out);
        self.movement_flags2.encode_into(out);
        self.timestamp.encode_into(out);
        self.position.encode_into(out);
        self.fall_time.encode_into(out);
        assert(out@ =~= old(out)@ + self.spec_encode());
    }
}

impl ClientPayload for MovementInfo {
    open spec fn spec_accepts(data: Seq<u8>) -> bool {
        data.len() >= 29
    }

    open spec fn spec_reads_as(data: Seq<u8>, v: Self) -> bool {
        v == MovementInfo { movement_flags: from_le_u32(data.subrange(0, 4)), movement_flags2: data[4], timestamp: from_le_u32(data.subrange(5, 9)), position: Position { x: from_le_u32(data.subrange(9, 13)), y: from_le_u32(data.subrange(13, 17)), z: from_le_u32(data.subrange(17, 21)), o: from_le_u32(data.subrange(21, 25)) }, fall_time: from_le_u32(data.subrange(25, 29)) }
    }

    fn read(data: &[u8]) -> (r: Result<Self, ReadError>) {
        if data.len() < 29 {
            return Err(ReadError::UnexpectedEnd);
        }
        Ok(MovementInfo { movement_flags: get_u32_le(data, 0), movement_flags2: data[4], timestamp: get_u32_le(data, 5), position: Position { x: get_u32_le(data, 9), y: get_u32_le(data, 13), z: get_u32_le(data, 17), o: get_u32_le(data, 21) }, fall_time: get_u32_le(data, 25) })
    }
}

#[derive(Debug, PartialEq, Eq)]
pub struct CmsgStandStateChange {
    pub animstate: u32,
}

impl ClientPayload for CmsgStandStateChange {
    open spec fn spec_accepts(data: Seq<u8>) -> bool {
        data.len() >= 4
    }

    open spec fn spec_reads_as(data: Seq<u8>, v: Self) -> bool {
        v == CmsgStandStateChange { animstate: from_le_u32(data.subrange(0, 4)) }
    }

    fn read(data: &[u8]) -> (r: Result<Self, ReadError>) {
        if data.len() < 4 {
            return Err(ReadError::UnexpectedEnd);
        }
        Ok(CmsgStandStateChange { animstate: get_u32_le(data, 0) })
    }
}

/// Reading the bytes of a `CmsgStandStateChange` (its fields in order, little-endian) gives it
/// back: each field is read from its own bytes.
pub proof fn lemma_cmsg_stand_state_change_reads_back(v: CmsgStandStateChange)
    ensures
        CmsgStandStateChange::spec_accepts(le_u32(v.animstate)),
        CmsgStandStateChange::spec_reads_as(le_u32(v.animstate), v),
{
    let data = le_u32(v.animstate);
    lemma_le_u32_roundtrip(v.animstate);
    assert(data.subrange(0, 4) =~= le_u32(v.animstate));
}

#[derive(Debug, PartialEq, Eq)]
pub struct SmsgStandStateUpdate {
    pub animstate: u8,
}

impl WireEncode for SmsgStandStateUpdate {
    open spec fn spec_encode(&self) -> Seq<u8> {
        self.animstate.spec_encode()
    }

    fn encode_into(&self, out: &mut Vec<u8>) {
        self.animstate.encode_into(out);
        assert(out@ =~= old(out)@ + self.spec_encode());
    }
}

impl ServerMessagePayload for SmsgStandStateUpdate {}

/// The bytes of a `SmsgStandStateUpdate` hold its fields in declaration order, little-endian:
/// each field reads back from its own place.
pub proof fn lemma_smsg_stand_state_update_image_fields(v: SmsgStandStateUpdate)
    ensures
        v.spec_encode().len() == 1,
        v.spec_encode()[0] == v.animstate,
{
    let data = v.spec_encode();
}

#[derive(Debug, PartialEq, Eq)]
pub struct CmsgSetSheathed {
    pub sheath_state: u32,
}

impl ClientPayload for CmsgSetSheathed {
    open spec fn spec_accepts(data: Seq<u8>) -> bool {
        data.len() >= 4
    }

    open spec fn spec_reads_as(data: Seq<u8>, v: Self) -> bool {
        v == CmsgSetSheathed { sheath_state: from_le_u32(data.subrange(0, 4)) }
    }

    fn read(data: &[u8]) -> (r: Result<Self, ReadError>) {
        if data.len() < 4 {
            return Err(ReadError::UnexpectedEnd);
        }
        Ok(CmsgSetSheathed { sheath_state: get_u32_le(data, 0) })
    }
}

/// Reading the bytes of a `CmsgSetSheathed` (its fields in order, little-endian) gives it
/// back: each field is read from its own bytes.
pub proof fn lemma_cmsg_set_sheathed_reads_back(v: CmsgSetSheathed)
    ensures
        CmsgSetSheathed::spec_accepts(le_u32(v.sheath_state)),
        CmsgSetSheathed::spec_reads_as(le_u32(v.sheath_state), v),
{
    let data = le_u32(v.sheath_state);
    lemma_le_u32_roundtrip(v.sheath_state);
    assert(data.subrange(0, 4) =~= le_u32(v.sheath_state));
}

#[derive(Debug, PartialEq, Eq)]
pub struct SmsgDestroyObject {
    pub guid: u64,
}

impl WireEncode for SmsgDestroyObject {
    open spec fn spec_encode(&self) -> Seq<u8> {
        self.guid.spec_encode()
    }

    fn encode_into(&self, out: &mut Vec<u8>) {
        self.guid.encode_into(out);
        assert(out@ =~= old(out)@ + self.spec_encode());
    }
}

impl ServerMessagePayload for SmsgDestroyObject {}

/// The bytes of a `SmsgDestroyObject` hold its fields in declaration order, little-endian:
/// each field reads back from its own place.
pub proof fn lemma_smsg_destroy_object_image_fields(v: SmsgDestroyObject)
    ensures
        v.spec_encode().len() == 8,
        from_le_u64(v.spec_encode().subrange(0, 8)) == v.guid,
{
    let data = v.spec_encode();
    lemma_le_u64_roundtrip(v.guid);
    assert(data.subrange(0, 8) =~= le_u64(v.guid));
}

} // verus!
