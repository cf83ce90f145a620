//! Entering the world with a character: the answers the server sends, in order,
//! and the local date and time the client is told.
use crate::codec::NullString;
use crate::protocol::packets::misc_packets::{SmsgAccountDataTimes, SmsgFeatureSystemStatus, SmsgLoginSetTimeSpeed, SmsgLoginVerifyWorld, SmsgTutorialFlags};
use crate::protocol::packets::player_packets::{MsgSetDungeonDifficulty, SmsgSetRestStart};
use crate::protocol::packets::zone_packets::SmsgInitWorldStates;
use crate::protocol::packets::{SmsgBindpointupdate, SmsgMotd};
use crate::session::{check_login, packed_game_time, spec_packed_game_time, LoginRefusal, WorldSessionState};
use chrono::{Datelike, Timelike};
use vstd::prelude::*;

verus! {

/// A local date and time: the year, the month (1 to 12), the day of the month (1 to
/// 31), the day of the week counted from Sunday as 1 (1 to 7), the hour and the
/// minute.
#[derive(Debug, Clone, Copy, PartialEq, Eq, Structural)]
pub struct LocalTime {
    pub year: i32,
    pub month: u32,
    pub day: u32,
    pub weekday_from_sunday: u32,
    pub hour: u32,
    pub minute: u32,
}

/// True when every field of `t` lies in its range.
pub open spec fn local_time_in_range(t: LocalTime) -> bool {
    &&& 1 <= t.month <= 12
    &&& 1 <= t.day <= 31
    &&& 1 <= t.weekday_from_sunday <= 7
    &&& t.hour <= 23
    &&& t.minute <= 59
}

/// Calls `chrono::Local::now`, the current date and time in the machine's time
/// zone, and copies its year, month, day, weekday (`number_from_sunday`), hour and
/// minute. Only the ranges that `chrono` documents for these fields are stated.
#[verifier::external_body]
fn local_now() -> (r: LocalTime)
    ensures
        local_time_in_range(r),
{
    let now = chrono::Local::now();
    LocalTime {
        year: now.year(),
        month: now.month(),
        day: now.day(),
        weekday_from_sunday: now.weekday().number_from_sunday(),
        hour: now.hour(),
        minute: now.minute(),
    }
}

/// What entering the world needs of a character: its guid, its account, and where
/// it stands (map, then coordinates and orientation as the bits of `f32` values).
#[derive(Debug, Clone, Copy, PartialEq, Eq, Structural)]
pub struct LoginCharacter {
    pub guid: u64,
    pub account_id: u32,
    pub map_id: u32,
    pub x: u32,
    pub y: u32,
    pub z: u32,
    pub o: u32,
}

/// The answers a player gets before it is put on a map, at login and on a map
/// transfer, in the order they are sent: the rest start, the home bind point, the
/// tutorial flags, the time speed with the local date and time, and the world
/// states.
#[derive(Debug, PartialEq, Eq)]
pub struct MapEntryAnswers {
    pub rest_start: SmsgSetRestStart,
    pub bindpoint: SmsgBindpointupdate,
    pub tutorial_flags: SmsgTutorialFlags,
    pub time_speed: SmsgLoginSetTimeSpeed,
    pub init_world_states: SmsgInitWorldStates,
}

/// The answers to a character entering the world, in the order they are sent:
/// the dungeon difficulty, the world and position, the account data times, the
/// feature status, the message of the day, then those of `entry`. The session takes
/// `state` once the time speed is sent, before the world states; the time
/// synchronisation is then started anew.
#[derive(Debug, PartialEq, Eq)]
pub struct LoginAnswers {
    pub dungeon_difficulty: MsgSetDungeonDifficulty,
    pub verify_world: SmsgLoginVerifyWorld,
    pub account_data_times: SmsgAccountDataTimes,
    pub feature_system_status: SmsgFeatureSystemStatus,
    pub motd: SmsgMotd,
    pub entry: MapEntryAnswers,
    pub state: WorldSessionState,
}

/// The message of the day: "MOTD".
pub open spec fn motd_text() -> Seq<u8> {
    seq![77u8, 79u8, 84u8, 68u8]
}

/// The game speed sent at login: the bits of the `f32` nearest 1/60.
pub const LOGIN_GAME_SPEED: u32 = 0x3C88_888A;

/// The home bind point sent at login: the bits of the `f32` values -8953.95,
/// 521.019 and 96.5399, on map 0, area 85.
pub const HOMEBIND_X: u32 = 0xC60B_E7CD;
pub const HOMEBIND_Y: u32 = 0x4402_4137;
pub const HOMEBIND_Z: u32 = 0x42C1_146E;

/// The login time field for `t`.
pub open spec fn spec_login_timestamp(t: LocalTime) -> u32 {
    spec_packed_game_time(t.year as u32, t.month, (t.day - 1) as u32, t.weekday_from_sunday, t.hour, t.minute)
}

/// True when `e` are the answers before entering a map at local time `t`.
pub open spec fn spec_map_entry_answers(e: MapEntryAnswers, t: LocalTime) -> bool {
    &&& e.rest_start == (SmsgSetRestStart { rest_start: 0 })
    &&& e.bindpoint == (SmsgBindpointupdate {
        homebind_x: HOMEBIND_X,
        homebind_y: HOMEBIND_Y,
        homebind_z: HOMEBIND_Z,
        homebind_map_id: 0,
        homebind_area_id: 85,
    })
    &&& e.tutorial_flags == (SmsgTutorialFlags {
        tutorial_data0: 0,
        tutorial_data1: 0,
        tutorial_data2: 0,
        tutorial_data3: 0,
        tutorial_data4: 0,
        tutorial_data5: 0,
        tutorial_data6: 0,
        tutorial_data7: 0,
    })
    &&& e.time_speed == (SmsgLoginSetTimeSpeed { timestamp: spec_login_timestamp(t), game_speed: LOGIN_GAME_SPEED })
    &&& e.init_world_states == (SmsgInitWorldStates { map_id: 0, zone_id: 85, area_id: 154, block_count: 0 })
}

/// True when `a` are the answers to `c` entering the world at local time `t`.
pub open spec fn spec_login_answers(a: LoginAnswers, c: LoginCharacter, t: LocalTime) -> bool {
    &&& a.dungeon_difficulty == (MsgSetDungeonDifficulty { difficulty: 0, unk: 1, is_in_group: 0 })
    &&& a.verify_world == (SmsgLoginVerifyWorld {
        map: c.map_id,
        position_x: c.x,
        position_y: c.y,
        position_z: c.z,
        orientation: c.o,
    })
    &&& forall|i: int| 0 <= i < 32 ==> #[trigger] a.account_data_times.data@[i] == 0
    &&& a.feature_system_status == (SmsgFeatureSystemStatus { unk: 2, voice_chat_enabled: 0 })
    &&& a.motd.line_count == 1 && a.motd.message.0@ == motd_text()
    &&& spec_map_entry_answers(a.entry, t)
    &&& a.state == WorldSessionState::InWorld
}

/// The answers before entering a map at local time `now`.
pub fn map_entry_answers(now: LocalTime) -> (r: MapEntryAnswers)
    requires
        1 <= now.day,
    ensures
        spec_map_entry_answers(r, now),
{
    let timestamp = packed_game_time(
        #[verifier::truncate] (now.year as u32),
        now.month,
        now.day,
        now.weekday_from_sunday,
        now.hour,
        now.minute,
    );
    MapEntryAnswers {
        rest_start: SmsgSetRestStart { rest_start: 0 },
        bindpoint: SmsgBindpointupdate {
            homebind_x: HOMEBIND_X,
            homebind_y: HOMEBIND_Y,
            homebind_z: HOMEBIND_Z,
            homebind_map_id: 0,
            homebind_area_id: 85,
        },
        tutorial_flags: SmsgTutorialFlags {
            tutorial_data0: 0,
            tutorial_data1: 0,
            tutorial_data2: 0,
            tutorial_data3: 0,
            tutorial_data4: 0,
            tutorial_data5: 0,
            tutorial_data6: 0,
            tutorial_data7: 0,
        },
        time_speed: SmsgLoginSetTimeSpeed { timestamp, game_speed: LOGIN_GAME_SPEED },
        init_world_states: SmsgInitWorldStates { map_id: 0, zone_id: 85, area_id: 154, block_count: 0 },
    }
}

/// The answers before entering a map, at the local time read from the clock.
pub fn map_entry_answers_now() -> (r: MapEntryAnswers)
    ensures
        exists|t: LocalTime| local_time_in_range(t) && #[trigger] spec_map_entry_answers(r, t),
{
    let now = local_now();
    let r = map_entry_answers(now);
    assert(spec_map_entry_answers(r, now));
    r
}

/// The answers to `character` entering the world at local time `now`, for a
/// session of the account that owns the character.
pub fn login_answers(session_account_id: u32, character: &LoginCharacter, now: LocalTime) -> (r: LoginAnswers)
    requires
        character.account_id == session_account_id,
        1 <= now.day,
    ensures
        spec_login_answers(r, *character, now),
{
    let motd: Vec<u8> = vec![77u8, 79u8, 84u8, 68u8];
    assert(motd@ =~= motd_text());
    let data: [u32; 32] = [0u32; 32];
    LoginAnswers {
        dungeon_difficulty: MsgSetDungeonDifficulty { difficulty: 0, unk: 1, is_in_group: 0 },
        verify_world: SmsgLoginVerifyWorld {
            map: character.map_id,
            position_x: character.x,
            position_y: character.y,
            position_z: character.z,
            orientation: character.o,
        },
        account_data_times: SmsgAccountDataTimes { data },
        feature_system_status: SmsgFeatureSystemStatus { unk: 2, voice_chat_enabled: 0 },
        motd: SmsgMotd { line_count: 1, message: NullString(motd) },
        entry: map_entry_answers(now),
        state: WorldSessionState::InWorld,
    }
}

/// A session of account `session_account_id` asks to enter the world with a
/// character (`character` is none when no character has the guid asked for).
/// Unless the login check refuses it, the answers are those of `login_answers`
/// at the local time read from the clock.
pub fn player_login_answers(session_account_id: u32, character: Option<LoginCharacter>) -> (r: Result<
    LoginAnswers,
    LoginRefusal,
>)
    ensures
        match character {
            None => r == Err::<LoginAnswers, LoginRefusal>(LoginRefusal::UnknownCharacter),
            Some(c) => if c.account_id != session_account_id {
                r == Err::<LoginAnswers, LoginRefusal>(LoginRefusal::OtherAccount)
            } else {
                r matches Ok(a) && exists|t: LocalTime| local_time_in_range(t) && #[trigger] spec_login_answers(a, c, t)
            },
        },
{
    match check_login(session_account_id, match character {
        Some(c) => Some(c.account_id),
        None => None,
    }) {
        Err(refusal) => Err(refusal),
        Ok(()) => {
            let c = character.unwrap();
            let now = local_now();
            let answers = login_answers(session_account_id, &c, now);
            assert(spec_login_answers(answers, c, now));
            Ok(answers)
        },
    }
}

} // verus!
