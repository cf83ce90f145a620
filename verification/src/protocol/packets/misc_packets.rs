//! Ping, login and time messages.
use crate::codec::{ClientPayload, ReadError, WireEncode};
use crate::protocol::server::ServerMessagePayload;
use crate::wire::{lemma_le_u32_roundtrip, from_le_u32, get_u32_le, le_u32};
use vstd::prelude::*;

verus! {

#[derive(Debug, PartialEq, Eq)]
pub struct CmsgPing {
    pub ping: u32,
    pub latency: u32,
}

impl ClientPayload for CmsgPing {
    open spec fn spec_accepts(data: Seq<u8>) -> bool {
        data.len() >= 8
    }

    open spec fn spec_reads_as(data: Seq<u8>, v: Self) -> bool {
        v == CmsgPing { ping: from_le_u32(data.subrange(0, 4)), latency: from_le_u32(data.subrange(4, 8)) }
    }

    fn read(data: &[u8]) -> (r: Result<Self, ReadError>) {
        if data.len() < 8 {
            return Err(ReadError::UnexpectedEnd);
        }
        Ok(CmsgPing { ping: get_u32_le(data, 0), latency: get_u32_le(data, 4) })
    }
}

/// Reading the bytes of a `CmsgPing` (its fields in order, little-endian) gives it
/// back: each field is read from its own bytes.
pub proof fn lemma_cmsg_ping_reads_back(v: CmsgPing)
    ensures
        CmsgPing::spec_accepts(le_u32(v.ping) + le_u32(v.latency)),
        CmsgPing::spec_reads_as(le_u32(v.ping) + le_u32(v.latency), v),
{
    let data = le_u32(v.ping) + le_u32(v.latency);
    lemma_le_u32_roundtrip(v.ping);
    assert(data.subrange(0, 4) =~= le_u32(v.ping));
    lemma_le_u32_roundtrip(v.latency);
    assert(data.subrange(4, 8) =~= le_u32(v.latency));
}

#[derive(Debug, PartialEq, Eq)]
pub struct SmsgPong {
    pub ping: u32,
}

impl WireEncode for SmsgPong {
    open spec fn spec_encode(&self) -> Seq<u8> {
        self.ping.spec_encode()
    }

    fn encode_into(&self, out: &mut Vec<u8>) {
        self.ping.encode_into(out);
        assert(out@ =~= old(out)@ + self.spec_encode());
    }
}

impl ServerMessagePayload for SmsgPong {}

/// The bytes of a `SmsgPong` hold its fields in declaration order, little-endian:
/// each field reads back from its own place.
pub proof fn lemma_smsg_pong_image_fields(v: SmsgPong)
    ensures
        v.spec_encode().len() == 4,
        from_le_u32(v.spec_encode().subrange(0, 4)) == v.ping,
{
    let data = v.spec_encode();
    lemma_le_u32_roundtrip(v.ping);
    assert(data.subrange(0, 4) =~= le_u32(v.ping));
}

#[derive(Debug, PartialEq, Eq)]
pub struct SmsgLoginVerifyWorld {
    pub map: u32,
    /// The bits of an `f32`.
    pub position_x: u32,
    /// The bits of an `f32`.
    pub position_y: u32,
    /// The bits of an `f32`.
    pub position_z: u32,
    /// The bits of an `f32`.
    pub orientation: u32,
}

impl WireEncode for SmsgLoginVerifyWorld {
    open spec fn spec_encode(&self) -> Seq<u8> {
        self.map.spec_encode() + self.position_x.spec_encode() + self.position_y.spec_encode() + self.position_z.spec_encode() + self.orientation.spec_encode()
    }

    fn encode_into(&self, out: &mut Vec<u8>) {
        self.map.encode_into(out);
        self.position_x.encode_into(out);
        self.position_y.encode_into(out);
        self.position_z.encode_into(out);
        self.orientation.encode_into(out);
        assert(out@ =~= old(out)@ + self.spec_encode());
    }
}

impl ServerMessagePayload for SmsgLoginVerifyWorld {}

/// The bytes of a `SmsgLoginVerifyWorld` hold its fields in declaration order, little-endian:
/// each field reads back from its own place.
pub proof fn lemma_smsg_login_verify_world_image_fields(v: SmsgLoginVerifyWorld)
    ensures
        v.spec_encode().len() == 20,
        from_le_u32(v.spec_encode().subrange(0, 4)) == v.map,
        from_le_u32(v.spec_encode().subrange(4, 8)) == v.position_x,
        from_le_u32(v.spec_encode().subrange(8, 12)) == v.position_y,
        from_le_u32(v.spec_encode().subrange(12, 16)) == v.position_z,
        from_le_u32(v.spec_encode().subrange(16, 20)) == v.orientation,
{
    let data = v.spec_encode();
    lemma_le_u32_roundtrip(v.map);
    assert(data.subrange(0, 4) =~= le_u32(v.map));
    lemma_le_u32_roundtrip(v.position_x);
    assert(data.subrange(4, 8) =~= le_u32(v.position_x));
    lemma_le_u32_roundtrip(v.position_y);
    assert(data.subrange(8, 12) =~= le_u32(v.position_y));
    lemma_le_u32_roundtrip(v.position_z);
    assert(data.subrange(12, 16) =~= le_u32(v.position_z));
    lemma_le_u32_roundtrip(v.orientation);
    assert(data.subrange(16, 20) =~= le_u32(v.orientation));
}

#[derive(Debug, PartialEq, Eq)]
pub struct SmsgTutorialFlags {
    pub tutorial_data0: u32,
    pub tutorial_data1: u32,
    pub tutorial_data2: u32,
    pub tutorial_data3: u32,
    pub tutorial_data4: u32,
    pub tutorial_data5: u32,
    pub tutorial_data6: u32,
    pub tutorial_data7: u32,
}

impl WireEncode for SmsgTutorialFlags {
    open spec fn spec_encode(&self) -> Seq<u8> {
        self.tutorial_data0.spec_encode() + self.tutorial_data1.spec_encode() + self.tutorial_data2.spec_encode() + self.tutorial_data3.spec_encode() + self.tutorial_data4.spec_encode() + self.tutorial_data5.spec_encode() + self.tutorial_data6.spec_encode() + self.tutorial_data7.spec_encode()
    }

    fn encode_into(&self, out: &mut Vec<u8>) {
        self.tutorial_data0.encode_into(out);
        self.tutorial_data1.encode_into(out);
        self.tutorial_data2.encode_into(out);
        self.tutorial_data3.encode_into(out);
        self.tutorial_data4.encode_into(out);
        self.tutorial_data5.encode_into(out);
        self.tutorial_data6.encode_into(out);
        self.tutorial_data7.encode_into(out);
        assert(out@ =~= old(out)@ + self.spec_encode());
    }
}

impl ServerMessagePayload for SmsgTutorialFlags {}

/// The bytes of a `SmsgTutorialFlags` hold its fields in declaration order, little-endian:
/// each field reads back from its own place.
pub proof fn lemma_smsg_tutorial_flags_image_fields(v: SmsgTutorialFlags)
    ensures
        v.spec_encode().len() == 32,
        from_le_u32(v.spec_encode().subrange(0, 4)) == v.tutorial_data0,
        from_le_u32(v.spec_encode().subrange(4, 8)) == v.tutorial_data1,
        from_le_u32(v.spec_encode().subrange(8, 12)) == v.tutorial_data2,
        from_le_u32(v.spec_encode().subrange(12, 16)) == v.tutorial_data3,
        from_le_u32(v.spec_encode().subrange(16, 20)) == v.tutorial_data4,
        from_le_u32(v.spec_encode().subrange(20, 24)) == v.tutorial_data5,
        from_le_u32(v.spec_encode().subrange(24, 28)) == v.tutorial_data6,
        from_le_u32(v.spec_encode().subrange(28, 32)) == v.tutorial_data7,
{
    let data = v.spec_encode();
    lemma_le_u32_roundtrip(v.tutorial_data0);
    assert(data.subrange(0, 4) =~= le_u32(v.tutorial_data0));
    lemma_le_u32_roundtrip(v.tutorial_data1);
    assert(data.subrange(4, 8) =~= le_u32(v.tutorial_data1));
    lemma_le_u32_roundtrip(v.tutorial_data2);
    assert(data.subrange(8, 12) =~= le_u32(v.tutorial_data2));
    lemma_le_u32_roundtrip(v.tutorial_data3);
    assert(data.subrange(12, 16) =~= le_u32(v.tutorial_data3));
    lemma_le_u32_roundtrip(v.tutorial_data4);
    assert(data.subrange(16, 20) =~= le_u32(v.tutorial_data4));
    lemma_le_u32_roundtrip(v.tutorial_data5);
    assert(data.subrange(20, 24) =~= le_u32(v.tutorial_data5));
    lemma_le_u32_roundtrip(v.tutorial_data6);
    assert(data.subrange(24, 28) =~= le_u32(v.tutorial_data6));
    lemma_le_u32_roundtrip(v.tutorial_data7);
    assert(data.subrange(28, 32) =~= le_u32(v.tutorial_data7));
}

#[derive(Debug, PartialEq, Eq)]
pub struct SmsgAccountDataTimes {
    /// All 0
    pub data: [u32; 32],
}

impl WireEncode for SmsgAccountDataTimes {
    open spec fn spec_encode(&self) -> Seq<u8> {
        self.data.spec_encode()
    }

    fn encode_into(&self, out: &mut Vec<u8>) {
        self.data.encode_into(out);
        assert(out@ =~= old(out)@ + self.spec_encode());
    }
}

impl ServerMessagePayload for SmsgAccountDataTimes {}

#[derive(Debug, PartialEq, Eq)]
pub struct SmsgFeatureSystemStatus {
    pub unk: u8,
    /// 1 = enabled, 0 = disabled
    pub voice_chat_enabled: u8,
}

impl WireEncode for SmsgFeatureSystemStatus {
    open spec fn spec_encode(&self) -> Seq<u8> {
        self.unk.spec_encode() + self.voice_chat_enabled.spec_encode()
    }

    fn encode_into(&self, out: &mut Vec<u8>) {
        self.unk.encode_into(out);
        self.voice_chat_enabled.encode_into(out);
        assert(out@ =~= old(out)@ + self.spec_encode());
    }
}

impl ServerMessagePayload for SmsgFeatureSystemStatus {}

/// The bytes of a `SmsgFeatureSystemStatus` hold its fields in declaration order, little-endian:
/// each field reads back from its own place.
pub proof fn lemma_smsg_feature_system_status_image_fields(v: SmsgFeatureSystemStatus)
    ensures
        v.spec_encode().len() == 2,
        v.spec_encode()[0] == v.unk,
        v.spec_encode()[1] == v.voice_chat_enabled,
{
    let data = v.spec_encode();
}

#[derive(Debug, PartialEq, Eq)]
pub struct SmsgTimeSyncReq {
    pub sync_counter: u32,
}

impl WireEncode for SmsgTimeSyncReq {
    open spec fn spec_encode(&self) -> Seq<u8> {
        self.sync_counter.spec_encode()
    }

    fn encode_into(&self, out: &mut Vec<u8>) {
        self.sync_counter.encode_into(out);
        assert(out@ =~= old(out)@ + self.spec_encode());
    }
}

impl ServerMessagePayload for SmsgTimeSyncReq {}

/// The bytes of a `SmsgTimeSyncReq` hold its fields in declaration order, little-endian:
/// each field reads back from its own place.
pub proof fn lemma_smsg_time_sync_req_image_fields(v: SmsgTimeSyncReq)
    ensures
        v.spec_encode().len() == 4,
        from_le_u32(v.spec_encode().subrange(0, 4)) == v.sync_counter,
{
    let data = v.spec_encode();
    lemma_le_u32_roundtrip(v.sync_counter);
    assert(data.subrange(0, 4) =~= le_u32(v.sync_counter));
}

#[derive(Debug, PartialEq, Eq)]
pub struct CmsgUpdateAccountData {
    pub account_data_id: u32,
}

impl ClientPayload for CmsgUpdateAccountData {
    open spec fn spec_accepts(data: Seq<u8>) -> bool {
        data.len() >= 4
    }

    open spec fn spec_reads_as(data: Seq<u8>, v: Self) -> bool {
        v == CmsgUpdateAccountData { account_data_id: from_le_u32(data.subrange(0, 4)) }
    }

    fn read(data: &[u8]) -> (r: Result<Self, ReadError>) {
        if data.len() < 4 {
            return Err(ReadError::UnexpectedEnd);
        }
        Ok(CmsgUpdateAccountData { account_data_id: get_u32_le(data, 0) })
    }
}

/// Reading the bytes of a `CmsgUpdateAccountData` (its fields in order, little-endian) gives it
/// back: each field is read from its own bytes.
pub proof fn lemma_cmsg_update_account_data_reads_back(v: CmsgUpdateAccountData)
    ensures
        CmsgUpdateAccountData::spec_accepts(le_u32(v.account_data_id)),
        CmsgUpdateAccountData::spec_reads_as(le_u32(v.account_data_id), v),
{
    let data = le_u32(v.account_data_id);
    lemma_le_u32_roundtrip(v.account_data_id);
    assert(data.subrange(0, 4) =~= le_u32(v.account_data_id));
}

#[derive(Debug, PartialEq, Eq)]
pub struct SmsgUpdateAccountData {
    pub account_data_id: u32,
    pub data: u32,
}

impl WireEncode for SmsgUpdateAccountData {
    open spec fn spec_encode(&self) -> Seq<u8> {
        self.account_data_id.spec_encode() + self.data.spec_encode()
    }

    fn encode_into(&self, out: &mut Vec<u8>) {
        self.account_data_id.encode_into(out);
        self.data.encode_into(out);
        assert(out@ =~= old(out)@ + self.spec_encode());
    }
}

impl ServerMessagePayload for SmsgUpdateAccountData {}

/// The bytes of a `SmsgUpdateAccountData` hold its fields in declaration order, little-endian:
/// each field reads back from its own place.
pub proof fn lemma_smsg_update_account_data_image_fields(v: SmsgUpdateAccountData)
    ensures
        v.spec_encode().len() == 8,
        from_le_u32(v.spec_encode().subrange(0, 4)) == v.account_data_id,
        from_le_u32(v.spec_encode().subrange(4, 8)) == v.data,
{
    let data = v.spec_encode();
    lemma_le_u32_roundtrip(v.account_data_id);
    assert(data.subrange(0, 4) =~= le_u32(v.account_data_id));
    lemma_le_u32_roundtrip(v.data);
    assert(data.subrange(4, 8) =~= le_u32(v.data));
}

#[derive(Debug, PartialEq, Eq)]
pub struct SmsgLoginSetTimeSpeed {
    pub timestamp: u32,
    /// The bits of an `f32`.
    pub game_speed: u32,
}

impl WireEncode for SmsgLoginSetTimeSpeed {
    open spec fn spec_encode(&self) -> Seq<u8> {
        self.timestamp.spec_encode() + self.game_speed.spec_encode()
    }

    fn encode_into(&self, out: &mut Vec<u8>) {
        self.timestamp.encode_into(out);
        self.game_speed.encode_into(out);
        assert(out@ =~= old(out)@ + self.spec_encode());
    }
}

impl ServerMessagePayload for SmsgLoginSetTimeSpeed {}

/// The bytes of a `SmsgLoginSetTimeSpeed` hold its fields in declaration order, little-endian:
/// each field reads back from its own place.
pub proof fn lemma_smsg_login_set_time_speed_image_fields(v: SmsgLoginSetTimeSpeed)
    ensures
        v.spec_encode().len() == 8,
        from_le_u32(v.spec_encode().subrange(0, 4)) == v.timestamp,
        from_le_u32(v.spec_encode().subrange(4, 8)) == v.game_speed,
{
    let data = v.spec_encode();
    lemma_le_u32_roundtrip(v.timestamp);
    assert(data.subrange(0, 4) =~= le_u32(v.timestamp));
    lemma_le_u32_roundtrip(v.game_speed);
    assert(data.subrange(4, 8) =~= le_u32(v.game_speed));
}

#[derive(Debug, PartialEq, Eq)]
pub struct SmsgQueryTimeResponse {
    pub seconds_since_epoch: u32,
    pub seconds_until_daily_quests_reset: u32,
}

impl WireEncode for SmsgQueryTimeResponse {
    open spec fn spec_encode(&self) -> Seq<u8> {
        self.seconds_since_epoch.spec_encode() + self.seconds_until_daily_quests_reset.spec_encode()
    }

    fn encode_into(&self, out: &mut Vec<u8>) {
        self.seconds_since_epoch.encode_into(out);
        self.seconds_until_daily_quests_reset.encode_into(out);
        assert(out@ =~= old(out)@ + self.spec_encode());
    }
}

impl ServerMessagePayload for SmsgQueryTimeResponse {}

/// The bytes of a `SmsgQueryTimeResponse` hold its fields in declaration order, little-endian:
/// each field reads back from its own place.
pub proof fn lemma_smsg_query_time_response_image_fields(v: SmsgQueryTimeResponse)
    ensures
        v.spec_encode().len() == 8,
        from_le_u32(v.spec_encode().subrange(0, 4)) == v.seconds_since_epoch,
        from_le_u32(v.spec_encode().subrange(4, 8)) == v.seconds_until_daily_quests_reset,
{
    let data = v.spec_encode();
    lemma_le_u32_roundtrip(v.seconds_since_epoch);
    assert(data.subrange(0, 4) =~= le_u32(v.seconds_since_epoch));
    lemma_le_u32_roundtrip(v.seconds_until_daily_quests_reset);
    assert(data.subrange(4, 8) =~= le_u32(v.seconds_until_daily_quests_reset));
}

#[derive(Debug, PartialEq, Eq)]
pub struct CmsgTimeSyncResp {
    pub counter: u32,
    /// Seconds since server start
    pub ticks: u32,
}

impl ClientPayload for CmsgTimeSyncResp {
    open spec fn spec_accepts(data: Seq<u8>) -> bool {
        data.len() >= 8
    }

    open spec fn spec_reads_as(data: Seq<u8>, v: Self) -> bool {
        v == CmsgTimeSyncResp { counter: from_le_u32(data.subrange(0, 4)), ticks: from_le_u32(data.subrange(4, 8)) }
    }

    fn read(data: &[u8]) -> (r: Result<Self, ReadError>) {
        if data.len() < 8 {
            return Err(ReadError::UnexpectedEnd);
        }
        Ok(CmsgTimeSyncResp { counter: get_u32_le(data, 0), ticks: get_u32_le(data, 4) })
    }
}

/// Reading the bytes of a `CmsgTimeSyncResp` (its fields in order, little-endian) gives it
/// back: each field is read from its own bytes.
pub proof fn lemma_cmsg_time_sync_resp_reads_back(v: CmsgTimeSyncResp)
    ensures
        CmsgTimeSyncResp::spec_accepts(le_u32(v.counter) + le_u32(v.ticks)),
        CmsgTimeSyncResp::spec_reads_as(le_u32(v.counter) + le_u32(v.ticks), v),
{
    let data = le_u32(v.counter) + le_u32(v.ticks);
    lemma_le_u32_roundtrip(v.counter);
    assert(data.subrange(0, 4) =~= le_u32(v.counter));
    lemma_le_u32_roundtrip(v.ticks);
    assert(data.subrange(4, 8) =~= le_u32(v.ticks));
}

#[derive(Debug, PartialEq, Eq)]
pub struct CmsgSetActionBarToggles {
    pub toggles: u8,
}

impl ClientPayload for CmsgSetActionBarToggles {
    open spec fn spec_accepts(data: Seq<u8>) -> bool {
        data.len() >= 1
    }

    open spec fn spec_reads_as(data: Seq<u8>, v: Self) -> bool {
        v == CmsgSetActionBarToggles { toggles: data[0] }
    }

    fn read(data: &[u8]) -> (r: Result<Self, ReadError>) {
        if data.len() < 1 {
            return Err(ReadError::UnexpectedEnd);
        }
        Ok(CmsgSetActionBarToggles { toggles: data[0] })
    }
}

/// Reading the bytes of a `CmsgSetActionBarToggles` (its fields in order, little-endian) gives it
/// back: each field is read from its own bytes.
pub proof fn lemma_cmsg_set_action_bar_toggles_reads_back(v: CmsgSetActionBarToggles)
    ensures
        CmsgSetActionBarToggles::spec_accepts(seq![v.toggles]),
        CmsgSetActionBarToggles::spec_reads_as(seq![v.toggles], v),
{
    let data = seq![v.toggles];
    assert(data[0] == v.toggles);
}

} // verus!
