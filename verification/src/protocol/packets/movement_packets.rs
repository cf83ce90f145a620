//! Movement control messages.
use crate::codec::{ClientPayload, ReadError, WireEncode};
use crate::constants::{SplineFlag};
use crate::entities::{ObjectGuid, PackedObjectGuid};
use crate::protocol::server::ServerMessagePayload;
use crate::protocol::packets::entity_packets::{MovementInfo};
use crate::wire::{lemma_le_u32_roundtrip, from_le_u32, from_le_u64, get_u32_le, get_u64_le, le_u32, le_u64, lemma_le_u64_roundtrip};
use vstd::prelude::*;

verus! {

#[derive(Debug, PartialEq, Eq)]
pub struct SmsgMoveSetCanFly {
    pub guid: PackedObjectGuid,
    pub counter: u32,
}

impl WireEncode for SmsgMoveSetCanFly {
    open spec fn spec_encode(&self) -> Seq<u8> {
        self.guid.spec_encode() + self.counter.spec_encode()
    }

    fn encode_into(&self, out: &mut Vec<u8>) {
        self.guid.encode_into(out);
        self.counter.encode_into(out);
        assert(out@ =~= old(out)@ + self.spec_encode());
    }
}

impl ServerMessagePayload for SmsgMoveSetCanFly {}

#[derive(Debug, PartialEq, Eq)]
pub struct SmsgMoveUnsetCanFly {
    pub guid: PackedObjectGuid,
    pub counter: u32,
}

impl WireEncode for SmsgMoveUnsetCanFly {
    open spec fn spec_encode(&self) -> Seq<u8> {
        self.guid.spec_encode() + self.counter.spec_encode()
    }

    fn encode_into(&self, out: &mut Vec<u8>) {
        self.guid.encode_into(out);
        self.counter.encode_into(out);
        assert(out@ =~= old(out)@ + self.spec_encode());
    }
}

impl ServerMessagePayload for SmsgMoveUnsetCanFly {}

#[derive(Debug, PartialEq, Eq)]
pub struct MsgMoveTeleportAck {
    pub packed_guid: PackedObjectGuid,
    pub unk_counter: u32,
    pub movement_info: MovementInfo,
}

impl WireEncode for MsgMoveTeleportAck {
    open spec fn spec_encode(&self) -> Seq<u8> {
        self.packed_guid.spec_encode() + self.unk_counter.spec_encode() + self.movement_info.spec_encode()
    }

    fn encode_into(&self, out: &mut Vec<u8>) {
        self.packed_guid.encode_into(out);
        self.unk_counter.encode_into(out);
        self.movement_info.encode_into(out);
        assert(out@ =~= old(out)@ + self.spec_encode());
    }
}

impl ServerMessagePayload for MsgMoveTeleportAck {}

#[derive(Debug, PartialEq, Eq)]
pub struct MsgMoveTeleportAckFromClient {
    pub _guid: ObjectGuid,
    pub _counter: u32,
    pub _time: u32,
}

impl ClientPayload for MsgMoveTeleportAckFromClient {
    open spec fn spec_accepts(data: Seq<u8>) -> bool {
        data.len() >= 16
    }

    open spec fn spec_reads_as(data: Seq<u8>, v: Self) -> bool {
        v == MsgMoveTeleportAckFromClient { _guid: ObjectGuid { raw: from_le_u64(data.subrange(0, 8)) }, _counter: from_le_u32(data.subrange(8, 12)), _time: from_le_u32(data.subrange(12, 16)) }
    }

    fn read(data: &[u8]) -> (r: Result<Self, ReadError>) {
        if data.len() < 16 {
            return Err(ReadError::UnexpectedEnd);
        }
        Ok(MsgMoveTeleportAckFromClient { _guid: ObjectGuid { raw: get_u64_le(data, 0) }, _counter: get_u32_le(data, 8), _time: get_u32_le(data, 12) })
    }
}

/// Reading the bytes of a `MsgMoveTeleportAckFromClient` (its fields in order, little-endian) gives it
/// back: each field is read from its own bytes.
pub proof fn lemma_msg_move_teleport_ack_from_client_reads_back(v: MsgMoveTeleportAckFromClient)
    ensures
        MsgMoveTeleportAckFromClient::spec_accepts(le_u64(v._guid.raw) + le_u32(v._counter) + le_u32(v._time)),
        MsgMoveTeleportAckFromClient::spec_reads_as(le_u64(v._guid.raw) + le_u32(v._counter) + le_u32(v._time), v),
{
    let data = le_u64(v._guid.raw) + le_u32(v._counter) + le_u32(v._time);
    lemma_le_u64_roundtrip(v._guid.raw);
    assert(data.subrange(0, 8) =~= le_u64(v._guid.raw));
    lemma_le_u32_roundtrip(v._counter);
    assert(data.subrange(8, 12) =~= le_u32(v._counter));
    lemma_le_u32_roundtrip(v._time);
    assert(data.subrange(12, 16) =~= le_u32(v._time));
}

/// A creature moving along a path.
#[derive(Debug, PartialEq, Eq)]
pub struct SmsgMonsterMove {
    pub guid: PackedObjectGuid,
    pub current_position: Vector3,
    pub tick_count: u32,
    /// See MonsterMoveType
    pub move_type: u8,
    /// A mask of `SplineFlag` values
    pub spline_flags: u32,
    pub duration: u32,
    pub point_count: u32,
    /// Some unless the spline flags hold `Flying`
    pub linear_path: Option<MonsterMoveLinearPath>,
    /// Some if the spline flags hold `Flying`
    pub catmullrom_path: Option<MonsterMoveCatmullRomPath>,
}

impl WireEncode for SmsgMonsterMove {
    open spec fn spec_encode(&self) -> Seq<u8> {
        self.guid.spec_encode() + self.current_position.spec_encode() + self.tick_count.spec_encode() + self.move_type.spec_encode() + self.spline_flags.spec_encode() + self.duration.spec_encode() + self.point_count.spec_encode() + self.linear_path.spec_encode() + self.catmullrom_path.spec_encode()
    }

    fn encode_into(&self, out: &mut Vec<u8>) {
        self.guid.encode_into(out);
        self.current_position.encode_into(out);
        self.tick_count.encode_into(out);
        self.move_type.encode_into(out);
        self.spline_flags.encode_into(out);
        self.duration.encode_into(out);
        self.point_count.encode_into(out);
        self.linear_path.encode_into(out);
        self.catmullrom_path.encode_into(out);
        assert(out@ =~= old(out)@ + self.spec_encode());
    }
}

impl ServerMessagePayload for SmsgMonsterMove {}

/// A path walked point to point: its destination, then the packed offsets of the points before it.
#[derive(Debug, PartialEq, Eq)]
pub struct MonsterMoveLinearPath {
    pub destination: Vector3,
    /// The other points, each packed as its offset from the middle of the way
    pub points: Vec<u32>,
}

impl WireEncode for MonsterMoveLinearPath {
    open spec fn spec_encode(&self) -> Seq<u8> {
        self.destination.spec_encode() + self.points.spec_encode()
    }

    fn encode_into(&self, out: &mut Vec<u8>) {
        self.destination.encode_into(out);
        self.points.encode_into(out);
        assert(out@ =~= old(out)@ + self.spec_encode());
    }
}

/// A smooth path: all its points.
#[derive(Debug, PartialEq, Eq)]
pub struct MonsterMoveCatmullRomPath {
    pub points: Vec<Vector3>,
}

impl WireEncode for MonsterMoveCatmullRomPath {
    open spec fn spec_encode(&self) -> Seq<u8> {
        self.points.spec_encode()
    }

    fn encode_into(&self, out: &mut Vec<u8>) {
        self.points.encode_into(out);
        assert(out@ =~= old(out)@ + self.spec_encode());
    }
}
/// A point in space; each coordinate is the bits of an `f32`.
#[derive(Debug, Clone, Copy, PartialEq, Eq, Structural)]
pub struct Vector3 {
    pub x: u32,
    pub y: u32,
    pub z: u32,
}

impl WireEncode for Vector3 {
    open spec fn spec_encode(&self) -> Seq<u8> {
        self.x.spec_encode() + self.y.spec_encode() + self.z.spec_encode()
    }

    fn encode_into(&self, out: &mut Vec<u8>) {
        self.x.encode_into(out);
        self.y.encode_into(out);
        self.z.encode_into(out);
        assert(out@ =~= old(out)@ + self.spec_encode());
    }
}

/// The spline flag of a smooth (flying) path.
pub const SPLINE_FLAG_FLYING: u32 = 0x0000_0200;

/// The spline flag of a path walked again and again.
pub const SPLINE_FLAG_CYCLIC: u32 = 0x0010_0000;

impl SmsgMonsterMove {
    /// A creature's move from `current_position` along `path` (its last point is
    /// the destination). A flying move sends every point of the path, the first one
    /// twice when the path is cyclic (the client drops it after the first cycle). Any
    /// other move sends the destination and, for the points before it,
    /// `packed_offsets`: each point's offset from the middle of the current position
    /// and the destination, packed.
    pub fn build(
        monster_guid: &ObjectGuid,
        current_position: &Vector3,
        path: Vec<Vector3>,
        spline_id: u32,
        move_type: u8,
        spline_flags: u32,
        duration: u32,
        packed_offsets: Vec<u32>,
    ) -> (r: Self)
        requires
            path@.len() > 0,
            path@.len() < u32::MAX,
            spline_flags & SPLINE_FLAG_FLYING == 0 ==> packed_offsets@.len() == path@.len() - 1,
        ensures
            r.guid == (PackedObjectGuid { raw: monster_guid.raw }),
            r.current_position == *current_position,
            r.tick_count == spline_id,
            r.move_type == move_type,
            r.spline_flags == spline_flags,
            r.duration == duration,
            spline_flags & SPLINE_FLAG_FLYING != 0 ==> {
                &&& r.linear_path is None
                &&& r.catmullrom_path matches Some(c) && c.points@ == (if spline_flags & SPLINE_FLAG_CYCLIC != 0 {
                    seq![path@[0]] + path@
                } else {
                    path@
                }) && r.point_count == c.points@.len()
            },
            spline_flags & SPLINE_FLAG_FLYING == 0 ==> {
                &&& r.catmullrom_path is None
                &&& r.linear_path matches Some(l) && l.destination == path@.last() && l.points@ == packed_offsets@
                &&& r.point_count == path@.len()
            },
    {
        let mut point_count = path.len() as u32;
        let mut linear_path: Option<MonsterMoveLinearPath> = None;
        let mut catmullrom_path: Option<MonsterMoveCatmullRomPath> = None;
        if spline_flags & SPLINE_FLAG_FLYING != 0 {
            if spline_flags & SPLINE_FLAG_CYCLIC != 0 {
                point_count = point_count + 1;
                let mut points: Vec<Vector3> = vec![path[0]];
                let mut rest = path;
                points.append(&mut rest);
                catmullrom_path = Some(MonsterMoveCatmullRomPath { points });
            } else {
                catmullrom_path = Some(MonsterMoveCatmullRomPath { points: path });
            }
        } else {
            let destination = path[path.len() - 1];
            linear_path = Some(MonsterMoveLinearPath { destination, points: packed_offsets });
        }
        SmsgMonsterMove {
            guid: monster_guid.as_packed(),
            current_position: *current_position,
            tick_count: spline_id,
            move_type,
            spline_flags,
            duration,
            point_count,
            linear_path,
            catmullrom_path,
        }
    }
}

impl SmsgMoveSetCanFly {
    /// Lets the object with `guid` fly.
    pub fn build(guid: &ObjectGuid) -> (r: Self)
        ensures
            r == (SmsgMoveSetCanFly { guid: PackedObjectGuid { raw: guid.raw }, counter: 0 }),
    {
        SmsgMoveSetCanFly { guid: guid.as_packed(), counter: 0 }
    }
}

impl SmsgMoveUnsetCanFly {
    /// Stops the object with `guid` from flying.
    pub fn build(guid: &ObjectGuid) -> (r: Self)
        ensures
            r == (SmsgMoveUnsetCanFly { guid: PackedObjectGuid { raw: guid.raw }, counter: 0 }),
    {
        SmsgMoveUnsetCanFly { guid: guid.as_packed(), counter: 0 }
    }
}

} // verus!
