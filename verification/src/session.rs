//! The state a world session keeps between messages: where the client stands, the
//! time synchronisation with it, the objects it knows of, and how outgoing messages
//! are framed.
use crate::entities::ObjectGuid;
use crate::codec::WireEncode;
use crate::entities::PackedObjectGuid;
use crate::protocol::packets::entity_packets::{MovementInfo, SmsgDestroyObject};
use crate::protocol::packets::player_packets::FactionInit;
use crate::protocol::server::{header_size, header_size_fits, header_size_for, ServerMessageHeader};
use crate::wire::{from_le_u32, le_u32, lemma_le_u32_roundtrip, put_bytes, put_u32_le};
use std::collections::HashMap;
use vstd::std_specs::iter::IteratorSpec;
use vstd::prelude::*;

verus! {

/// Where a session stands.
#[derive(Debug, Clone, Copy, PartialEq, Eq, Structural)]
pub enum WorldSessionState {
    OnCharactersList,
    InWorld,
    InMapTransfer,
}

/// The time synchronisation between the server and the client: how many requests
/// the server sent and when it sent the last one, and what the client last answered.
#[derive(Debug, Clone, Copy, PartialEq, Eq, Structural)]
pub struct TimeSync {
    pub server_counter: u32,
    pub server_last_sync_ticks: u32,
    pub client_counter: u32,
    pub client_last_sync_ticks: u32,
}

impl TimeSync {
    /// The state of a new session: no request sent, `game_time_ms` as the last sync.
    pub fn new(game_time_ms: u32) -> (r: TimeSync)
        ensures
            r == (TimeSync {
                server_counter: 0,
                server_last_sync_ticks: game_time_ms,
                client_counter: 0,
                client_last_sync_ticks: 0,
            }),
    {
        TimeSync { server_counter: 0, server_last_sync_ticks: game_time_ms, client_counter: 0, client_last_sync_ticks: 0 }
    }

    /// Starts the synchronisation over: every counter and time goes back to zero.
    pub fn reset(&mut self)
        ensures
            *final(self) == (TimeSync {
                server_counter: 0,
                server_last_sync_ticks: 0,
                client_counter: 0,
                client_last_sync_ticks: 0,
            }),
    {
        self.server_counter = 0;
        self.server_last_sync_ticks = 0;
        self.client_counter = 0;
        self.client_last_sync_ticks = 0;
    }

    /// Records that a request was sent at `game_time_ms`; returns the counter the
    /// request carries, the number of requests sent before it.
    pub fn record_request(&mut self, game_time_ms: u32) -> (counter: u32)
        requires
            old(self).server_counter < u32::MAX,
        ensures
            counter == old(self).server_counter,
            *final(self) == (TimeSync {
                server_counter: (old(self).server_counter + 1) as u32,
                server_last_sync_ticks: game_time_ms,
                ..*old(self)
            }),
    {
        let counter = self.server_counter;
        self.server_counter = self.server_counter + 1;
        self.server_last_sync_ticks = game_time_ms;
        counter
    }

    /// Records the client's answer: its counter and its clock at the time it answered.
    pub fn record_response(&mut self, client_counter: u32, client_ticks: u32)
        ensures
            *final(self) == (TimeSync { client_counter, client_last_sync_ticks: client_ticks, ..*old(self) }),
    {
        self.client_counter = client_counter;
        self.client_last_sync_ticks = client_ticks;
    }
}

/// Recording a request and then the client's answer leaves the server side as the
/// request set it and the client side as the answer set it, whatever came before.
pub proof fn lemma_time_sync_request_then_response(
    before: TimeSync,
    game_time_ms: u32,
    client_counter: u32,
    client_ticks: u32,
)
    requires
        before.server_counter < u32::MAX,
    ensures
        ({
            let after_request = TimeSync {
                server_counter: (before.server_counter + 1) as u32,
                server_last_sync_ticks: game_time_ms,
                ..before
            };
            let after_response = TimeSync {
                client_counter,
                client_last_sync_ticks: client_ticks,
                ..after_request
            };
            &&& after_response.server_counter == before.server_counter + 1
            &&& after_response.server_last_sync_ticks == game_time_ms
            &&& after_response.client_counter == client_counter
            &&& after_response.client_last_sync_ticks == client_ticks
        }),
{
}

/// The test that keeps every guid but `guid`.
pub open spec fn other_than(guid: ObjectGuid) -> spec_fn(ObjectGuid) -> bool {
    |g: ObjectGuid| g != guid
}

/// The objects a session has told its client about, and the player's own guid.
pub struct KnownGuids {
    player_guid: Option<ObjectGuid>,
    known: Vec<ObjectGuid>,
}

impl KnownGuids {
    /// The player's guid, once a character is in the world.
    pub closed spec fn spec_player_guid(&self) -> Option<ObjectGuid> {
        self.player_guid
    }

    /// The guids the client was told about, in the order they were added.
    pub closed spec fn view(&self) -> Seq<ObjectGuid> {
        self.known@
    }

    /// No player and no known object.
    pub fn new() -> (r: KnownGuids)
        ensures
            r.spec_player_guid() is None,
            r.view() == Seq::<ObjectGuid>::empty(),
    {
        KnownGuids { player_guid: None, known: Vec::new() }
    }

    /// Sets the guid of the player that entered the world.
    pub fn set_player_guid(&mut self, guid: ObjectGuid)
        ensures
            final(self).spec_player_guid() == Some(guid),
            final(self).view() == old(self).view(),
    {
        self.player_guid = Some(guid);
    }

    /// The guid of the player in the world, if any.
    pub fn player_guid(&self) -> (r: Option<ObjectGuid>)
        ensures
            r == self.spec_player_guid(),
    {
        self.player_guid
    }

    /// Records that the client was told about `guid`.
    pub fn add_known_guid(&mut self, guid: &ObjectGuid)
        ensures
            final(self).view() == old(self).view().push(*guid),
            final(self).spec_player_guid() == old(self).spec_player_guid(),
    {
        self.known.push(*guid);
    }

    /// Forgets every record of `guid`, keeping the others in their order.
    pub fn remove_known_guid(&mut self, guid: &ObjectGuid)
        ensures
            final(self).view() == old(self).view().filter(other_than(*guid)),
            final(self).spec_player_guid() == old(self).spec_player_guid(),
    {
        let mut kept: Vec<ObjectGuid> = Vec::new();
        let mut i: usize = 0;
        while i < self.known.len()
            invariant
                i <= self.known@.len(),
                kept@ == self.known@.subrange(0, i as int).filter(other_than(*guid)),
            decreases self.known@.len() - i,
        {
            let g = self.known[i];
            proof {
                reveal(Seq::filter);
                assert(self.known@.subrange(0, i + 1).drop_last() =~= self.known@.subrange(0, i as int));
            }
            if g.raw != guid.raw {
                kept.push(g);
            }
            i = i + 1;
        }
        assert(self.known@.subrange(0, self.known@.len() as int) =~= self.known@);
        self.known = kept;
    }

    /// True when the client knows of `guid`: it is the player, or it was told about it.
    pub fn is_guid_known(&self, guid: &ObjectGuid) -> (r: bool)
        requires
            self.spec_player_guid() is Some,
        ensures
            r == (*guid == self.spec_player_guid()->0 || self.view().contains(*guid)),
    {
        if guid.raw == self.player_guid.unwrap().raw {
            return true;
        }
        let mut i: usize = 0;
        while i < self.known.len()
            invariant
                i <= self.known@.len(),
                forall|j: int| 0 <= j < i ==> self.known@[j] != *guid,
            decreases self.known@.len() - i,
        {
            if self.known[i].raw == guid.raw {
                assert(self.view()[i as int] == *guid);
                return true;
            }
            i = i + 1;
        }
        false
    }

    /// The guids the client was told about.
    pub fn known_guids(&self) -> (r: Vec<ObjectGuid>)
        ensures
            r@ == self.view(),
    {
        let mut out: Vec<ObjectGuid> = Vec::new();
        let mut i: usize = 0;
        while i < self.known.len()
            invariant
                i <= self.known@.len(),
                out@ == self.known@.subrange(0, i as int),
            decreases self.known@.len() - i,
        {
            out.push(self.known[i]);
            i = i + 1;
            assert(out@ =~= self.known@.subrange(0, i as int));
        }
        assert(self.known@.subrange(0, self.known@.len() as int) =~= self.known@);
        out
    }

    /// Destroys `guid` on the client's side when the client knows of it: forgets it
    /// and gives the message that tells the client; does nothing otherwise.
    pub fn destroy_entity(&mut self, guid: &ObjectGuid) -> (r: Option<SmsgDestroyObject>)
        requires
            old(self).spec_player_guid() is Some,
        ensures
            final(self).spec_player_guid() == old(self).spec_player_guid(),
            (*guid == old(self).spec_player_guid()->0 || old(self).view().contains(*guid)) ==> r == Some(
                SmsgDestroyObject { guid: guid.raw },
            ) && final(self).view() == old(self).view().filter(other_than(*guid)),
            !(*guid == old(self).spec_player_guid()->0 || old(self).view().contains(*guid)) ==> r is None
                && final(self).view() == old(self).view(),
    {
        if self.is_guid_known(guid) {
            self.remove_known_guid(guid);
            Some(SmsgDestroyObject { guid: guid.raw() })
        } else {
            None
        }
    }

    /// Forgets the player and every known object, as when the player leaves the world.
    pub fn clear(&mut self)
        ensures
            final(self).spec_player_guid() is None,
            final(self).view() == Seq::<ObjectGuid>::empty(),
    {
        self.known = Vec::new();
        self.player_guid = None;
    }
}

/// Once the client was told about an object, the object is known, until it is removed.
pub proof fn lemma_added_guid_is_known(known: Seq<ObjectGuid>, guid: ObjectGuid)
    ensures
        known.push(guid).contains(guid),
{
    assert(known.push(guid)[known.len() as int] == guid);
}

/// Removing a guid leaves no record of it, and keeps every other record.
pub proof fn lemma_removed_guid_is_forgotten(known: Seq<ObjectGuid>, guid: ObjectGuid, other: ObjectGuid)
    requires
        other != guid,
    ensures
        !known.filter(other_than(guid)).contains(guid),
        known.contains(other) == known.filter(other_than(guid)).contains(other),
{
    let f = known.filter(other_than(guid));
    if f.contains(guid) {
        let i = choose|i: int| 0 <= i < f.len() && f[i] == guid;
        known.lemma_filter_pred(other_than(guid), i);
    }
    if known.contains(other) {
        let i = choose|i: int| 0 <= i < known.len() && known[i] == other;
        known.lemma_filter_contains(other_than(guid), i);
    }
    if f.contains(other) {
        known.lemma_filter_contains_rev(other_than(guid), other);
    }
}

/// Why a character cannot enter the world.
#[derive(Debug, Clone, Copy, PartialEq, Eq, Structural)]
pub enum LoginRefusal {
    /// No character has the guid asked for.
    UnknownCharacter,
    /// The character belongs to another account than the session's.
    OtherAccount,
}

/// Checks that a session may enter the world with a character: the character must
/// exist (`character_account_id` is the account it belongs to, none when there is no
/// such character) and belong to the session's account.
pub fn check_login(session_account_id: u32, character_account_id: Option<u32>) -> (r: Result<(), LoginRefusal>)
    ensures
        r == (match character_account_id {
            None => Err(LoginRefusal::UnknownCharacter),
            Some(a) => if a == session_account_id {
                Ok(())
            } else {
                Err(LoginRefusal::OtherAccount)
            },
        }),
{
    match character_account_id {
        None => Err(LoginRefusal::UnknownCharacter),
        Some(a) => if a == session_account_id {
            Ok(())
        } else {
            Err(LoginRefusal::OtherAccount)
        },
    }
}

/// The value of a hexadecimal digit (either case), if `c` is one.
pub open spec fn spec_hex_digit(c: u8) -> Option<u8> {
    if 48 <= c <= 57 {
        Some((c - 48) as u8)
    } else if 65 <= c <= 70 {
        Some((c - 55) as u8)
    } else if 97 <= c <= 102 {
        Some((c - 87) as u8)
    } else {
        None
    }
}

/// The byte written by the two hexadecimal digits at `2 * i` and `2 * i + 1`.
pub open spec fn spec_hex_byte(hex: Seq<u8>, i: int) -> u8 {
    (spec_hex_digit(hex[2 * i])->0 * 16 + spec_hex_digit(hex[2 * i + 1])->0) as u8
}

/// The value of a hexadecimal digit.
fn hex_digit(c: u8) -> (r: Option<u8>)
    ensures
        r == spec_hex_digit(c),
{
    if 48 <= c && c <= 57 {
        Some(c - 48)
    } else if 65 <= c && c <= 70 {
        Some(c - 55)
    } else if 97 <= c && c <= 102 {
        Some(c - 87)
    } else {
        None
    }
}

/// The session key written as eighty hexadecimal digits, most significant byte
/// first, as the forty bytes of the key least significant first. `None` when the
/// text has another length or a character that is not a hexadecimal digit.
pub fn session_key_from_hex(hex: &[u8]) -> (r: Option<Vec<u8>>)
    ensures
        r is Some <==> hex@.len() == 80 && forall|i: int| 0 <= i < 80 ==> (#[trigger] spec_hex_digit(hex@[i])) is Some,
        r matches Some(key) ==> key@.len() == 40 && forall|j: int| 0 <= j < 40 ==> #[trigger] key@[j] == spec_hex_byte(hex@, 39 - j),
{
    if hex.len() != 80 {
        return None;
    }
    let mut k: usize = 0;
    while k < 80
        invariant
            hex@.len() == 80,
            k <= 80,
            forall|i: int| 0 <= i < k ==> (#[trigger] spec_hex_digit(hex@[i])) is Some,
        decreases 80 - k,
    {
        if hex_digit(hex[k]).is_none() {
            return None;
        }
        k = k + 1;
    }
    let mut key: Vec<u8> = Vec::new();
    let mut j: usize = 0;
    while j < 40
        invariant
            hex@.len() == 80,
            forall|i: int| 0 <= i < 80 ==> (#[trigger] spec_hex_digit(hex@[i])) is Some,
            j <= 40,
            key@.len() == j,
            forall|m: int| 0 <= m < j ==> #[trigger] key@[m] == spec_hex_byte(hex@, 39 - m),
        decreases 40 - j,
    {
        let i: usize = 39 - j;
        let hi = hex_digit(hex[2 * i]).unwrap();
        let lo = hex_digit(hex[2 * i + 1]).unwrap();
        assert(hi < 16 && lo < 16);
        key.push(hi * 16 + lo);
        j = j + 1;
    }
    Some(key)
}

/// The sessions of the world, each under its key (an account id or a player's guid).
pub struct SessionHolder<V> {
    sessions: HashMap<u64, V>,
}

impl<V> SessionHolder<V> {
    /// The sessions by key.
    pub closed spec fn view(&self) -> Map<u64, V> {
        self.sessions@
    }

    /// No session.
    pub fn new() -> (r: Self)
        ensures
            r.view() == Map::<u64, V>::empty(),
    {
        SessionHolder { sessions: HashMap::new() }
    }

    /// Stores `session` under `key`; returns the session stored there before, if any.
    pub fn insert_session(&mut self, key: u64, session: V) -> (r: Option<V>)
        ensures
            final(self).view() == old(self).view().insert(key, session),
            r == (if old(self).view().contains_key(key) {
                Some(old(self).view()[key])
            } else {
                None
            }),
    {
        broadcast use vstd::std_specs::hash::group_hash_axioms;

        self.sessions.insert(key, session)
    }

    /// Removes the session under `key`; returns whether there was one.
    pub fn remove_session(&mut self, key: u64) -> (r: bool)
        ensures
            final(self).view() == old(self).view().remove(key),
            r == old(self).view().contains_key(key),
    {
        broadcast use vstd::std_specs::hash::group_hash_axioms;

        let removed = self.sessions.remove(&key);
        removed.is_some()
    }

    /// The session under `key`, if any.
    pub fn get_session(&self, key: u64) -> (r: Option<&V>)
        ensures
            r matches Some(v) ==> self.view().contains_key(key) && *v == self.view()[key],
            r is None ==> !self.view().contains_key(key),
    {
        broadcast use vstd::std_specs::hash::group_hash_axioms;

        self.sessions.get(&key)
    }

    /// The number of sessions.
    pub fn len(&self) -> (r: usize)
        ensures
            r == self.view().len(),
    {
        broadcast use vstd::std_specs::hash::group_hash_axioms;

        self.sessions.len()
    }

    /// The sessions whose key `predicate` accepts, each once, in no set order.
    pub fn get_matching_sessions(&self, predicate: impl Fn(u64) -> bool) -> (r: Vec<&V>)
        requires
            forall|k: u64| #[trigger] predicate.requires((k,)),
        ensures
            exists|keys: Seq<u64>| {
                &&& keys.len() == r@.len()
                &&& keys.no_duplicates()
                &&& forall|i: int| 0 <= i < keys.len() ==> {
                    &&& #[trigger] self.view().contains_key(keys[i])
                    &&& predicate.ensures((keys[i],), true)
                    &&& *r@[i] == self.view()[keys[i]]
                }
                &&& forall|k: u64| #[trigger] self.view().contains_key(k) && !keys.contains(k) ==> predicate.ensures((k,), false)
            },
    {
        broadcast use vstd::std_specs::hash::group_hash_axioms;

        let mut found: Vec<&V> = Vec::new();
        let ghost mut keys: Seq<u64> = Seq::empty();
        let ghost all = self.sessions.keys().remaining();
        let ghost mut seen: int = 0;
        for key in it: self.sessions.keys()
            invariant
                forall|k: u64| #[trigger] predicate.requires((k,)),
                it.seq() == all,
                seen == it.index(),
                keys.len() == found@.len(),
                keys.no_duplicates(),
                forall|i: int| 0 <= i < keys.len() ==> {
                    &&& #[trigger] self.view().contains_key(keys[i])
                    &&& predicate.ensures((keys[i],), true)
                    &&& *found@[i] == self.view()[keys[i]]
                    &&& exists|j: int| 0 <= j < it.index() && *it.seq()[j] == keys[i]
                },
                forall|j: int| 0 <= j < it.index() ==> keys.contains(*all[j]) || predicate.ensures((*all[j],), false),
        {
            let k: u64 = *key;
            let ghost idx = it.index();
            let ghost before = keys;
            proof {
                assert(all.no_duplicates());
                assert(k == *all[it.index()]);
                assert(!keys.contains(k)) by {
                    if keys.contains(k) {
                        let i = choose|i: int| 0 <= i < keys.len() && keys[i] == k;
                        assert(self.view().contains_key(keys[i]));
                        let j = choose|j: int| 0 <= j < it.index() && *it.seq()[j] == keys[i];
                        assert(all[j] == all[it.index()]);
                    }
                }
            }
            if predicate(k) {
                let v = self.sessions.get(&k).unwrap();
                found.push(v);
                proof {
                    keys = keys.push(k);
                }
            }
            proof {
                seen = seen + 1;
                assert forall|j: int| 0 <= j <= idx implies keys.contains(*all[j]) || predicate.ensures((*all[j],), false) by {
                    if j < idx && before.contains(*all[j]) {
                        let i = choose|i: int| 0 <= i < before.len() && before[i] == *all[j];
                        assert(keys[i] == *all[j]);
                    }
                    if j == idx && keys.len() > before.len() {
                        assert(keys[keys.len() - 1] == *all[j]);
                    }
                }
            }
        }
        proof {
            assert forall|k: u64| #[trigger] self.view().contains_key(k) && !keys.contains(k) implies predicate.ensures(
                (k,),
                false,
            ) by {
                assert(all.unref().to_set().contains(k));
                let j = choose|j: int| 0 <= j < all.len() && *all[j] == k;
            }
        }
        found
    }
}

/// What a lookup gives back of a store: after storing a session under a key, the
/// lookup of that key gives the session, and every other key keeps its session.
pub proof fn lemma_session_holder_store_then_lookup<V>(sessions: Map<u64, V>, key: u64, session: V, other: u64)
    requires
        other != key,
    ensures
        sessions.insert(key, session).contains_key(key),
        sessions.insert(key, session)[key] == session,
        sessions.insert(key, session).contains_key(other) == sessions.contains_key(other),
        sessions.contains_key(other) ==> sessions.insert(key, session)[other] == sessions[other],
        !sessions.remove(key).contains_key(key),
{
}

/// Removing a guid undoes adding it: the records left are those of the other
/// objects, in their order, as if it had never been added.
pub proof fn lemma_remove_undoes_add(known: Seq<ObjectGuid>, guid: ObjectGuid)
    ensures
        known.push(guid).filter(other_than(guid)) == known.filter(other_than(guid)),
{
    reveal(Seq::filter);
    assert(known.push(guid).drop_last() =~= known);
}

/// The opcode of object updates.
pub const SMSG_UPDATE_OBJECT: u16 = 0x0A9;

/// The opcode of compressed object updates.
pub const SMSG_COMPRESSED_UPDATE_OBJECT: u16 = 0x1F6;

/// The zlib compression level used for object updates (miniz's default level).
pub const UPDATE_COMPRESSION_LEVEL: u8 = 6;

/// Object updates larger than this many bytes are sent compressed.
pub const UPDATE_COMPRESSION_THRESHOLD: usize = 50;

/// The zlib stream that `miniz_oxide` makes of `data` at compression level `level`.
pub uninterp spec fn zlib_compressed(data: Seq<u8>, level: u8) -> Seq<u8>;

/// Calls `miniz_oxide::deflate::compress_to_vec_zlib`, which compresses `data` into a
/// zlib stream at the given level (0 to 10). Its output is taken to depend on the
/// data and the level alone; nothing is stated of its bytes.
#[verifier::external_body]
fn compress_zlib(data: &[u8], level: u8) -> (r: Vec<u8>)
    requires
        level <= 10,
    ensures
        r@ == zlib_compressed(data@, level),
{
    miniz_oxide::deflate::compress_to_vec_zlib(data, level)
}

/// True when a message with opcode `opcode` and a payload of `len` bytes is sent
/// compressed.
pub open spec fn sent_compressed(opcode: u16, len: nat) -> bool {
    opcode == SMSG_UPDATE_OBJECT && len > UPDATE_COMPRESSION_THRESHOLD
}

/// The header and payload of a compressed object update, from the uncompressed
/// payload and its zlib stream: the size counts the opcode and the four bytes of the
/// uncompressed length, which come before the stream.
pub open spec fn spec_compressed_frame(payload: Seq<u8>, compressed: Seq<u8>) -> (ServerMessageHeader, Seq<u8>) {
    (
        ServerMessageHeader {
            size: ((compressed.len() % 0x10000) + 2 + 4) as u16,
            opcode: SMSG_COMPRESSED_UPDATE_OBJECT,
        },
        le_u32(payload.len() as u32) + compressed,
    )
}

/// True when the size field of a compressed update with a stream of `len` bytes
/// can be computed without overflowing 16 bits.
pub open spec fn compressed_size_fits(len: nat) -> bool {
    len % 0x10000 + 2 + 4 <= 0xFFFF
}

/// Frames a compressed object update from the payload and its zlib stream.
pub fn compressed_update_frame(payload: &[u8], compressed: Vec<u8>) -> (r: (ServerMessageHeader, Vec<u8>))
    requires
        compressed_size_fits(compressed@.len()),
    ensures
        r.0 == spec_compressed_frame(payload@, compressed@).0,
        r.1@ == spec_compressed_frame(payload@, compressed@).1,
{
    let header = ServerMessageHeader {
        size: ((compressed.len() % 0x10000) as u16) + 2 + 4,
        opcode: SMSG_COMPRESSED_UPDATE_OBJECT,
    };
    let mut body: Vec<u8> = Vec::new();
    put_u32_le(&mut body, payload.len() as u32);
    put_bytes(&mut body, compressed.as_slice());
    (header, body)
}

/// The header and payload a session hands to its connection for a message with
/// opcode `opcode`: object updates of more than fifty bytes are compressed and sent
/// as compressed updates; any other message goes as it is. `None` when the size
/// field cannot hold the size.
pub fn frame_outgoing(opcode: u16, payload: Vec<u8>) -> (r: Option<(ServerMessageHeader, Vec<u8>)>)
    ensures
        sent_compressed(opcode, payload@.len()) ==> {
            let c = zlib_compressed(payload@, UPDATE_COMPRESSION_LEVEL);
            &&& compressed_size_fits(c.len()) ==> (r matches Some(f) && f.0 == spec_compressed_frame(payload@, c).0
                && f.1@ == spec_compressed_frame(payload@, c).1)
            &&& !compressed_size_fits(c.len()) ==> r is None
        },
        r matches Some(f) ==> (f.1@.len() + 2 <= 0xFFFF ==> f.0.size == f.1@.len() + 2),
        !sent_compressed(opcode, payload@.len()) ==> {
            &&& header_size_fits(payload@.len()) ==> (r matches Some(f) && f.0 == (ServerMessageHeader {
                size: header_size_for(payload@.len()),
                opcode,
            }) && f.1@ == payload@)
            &&& !header_size_fits(payload@.len()) ==> r is None
        },
{
    if opcode == SMSG_UPDATE_OBJECT && payload.len() > UPDATE_COMPRESSION_THRESHOLD {
        let compressed = compress_zlib(payload.as_slice(), UPDATE_COMPRESSION_LEVEL);
        if compressed.len() % 0x10000 + 2 + 4 > 0xFFFF {
            return None;
        }
        Some(compressed_update_frame(payload.as_slice(), compressed))
    } else {
        if payload.len() % 0x10000 + 2 > 0xFFFF {
            return None;
        }
        let header = ServerMessageHeader { size: header_size(payload.len()), opcode };
        Some((header, payload))
    }
}

/// The payload of a movement message relayed to other players: the mover's packed
/// guid, then its movement state.
pub fn movement_payload(origin_guid: &ObjectGuid, movement_info: &MovementInfo) -> (r: Vec<u8>)
    ensures
        r@ == (PackedObjectGuid { raw: origin_guid.raw }).spec_encode() + movement_info.spec_encode(),
{
    let mut out: Vec<u8> = Vec::new();
    origin_guid.as_packed().encode_into(&mut out);
    movement_info.encode_into(&mut out);
    out
}

/// The header of a message sent as it is (no compression), for a payload of
/// `len` bytes; `None` when the size field cannot hold the size.
pub fn plain_header(opcode: u16, len: usize) -> (r: Option<ServerMessageHeader>)
    ensures
        header_size_fits(len as nat) ==> r == Some(ServerMessageHeader { size: header_size_for(len as nat), opcode }),
        !header_size_fits(len as nat) ==> r is None,
{
    if len % 0x10000 + 2 > 0xFFFF {
        None
    } else {
        Some(ServerMessageHeader { size: header_size(len), opcode })
    }
}

/// The date and time as the client reads it at login: the year in the top byte
/// (as many of its bits as fit), then the month, the day of the month counted from
/// zero, the day of the week counted from Sunday as 1, the hour and the minute.
pub open spec fn spec_packed_game_time(year: u32, month: u32, month_day: u32, weekday: u32, hour: u32, minutes: u32) -> u32 {
    (year << 24u32) | (month << 20u32) | (month_day << 14u32) | (weekday << 11u32) | (hour << 6u32) | minutes
}

/// Packs a local date and time into the login time field; `day` is the day of the
/// month counted from 1.
pub fn packed_game_time(year: u32, month: u32, day: u32, weekday: u32, hour: u32, minutes: u32) -> (r: u32)
    requires
        day >= 1,
    ensures
        r == spec_packed_game_time(year, month, (day - 1) as u32, weekday, hour, minutes),
{
    let month_day = day - 1;
    (year << 24u32) | (month << 20u32) | (month_day << 14u32) | (weekday << 11u32) | (hour << 6u32) | minutes
}

/// A player's standing with one faction, as the reputation list keeps it.
#[derive(Debug, Clone, Copy, PartialEq, Eq, Structural)]
pub struct FactionStanding {
    pub flags: u32,
    pub db_standing: i32,
}

/// The standing recorded for reputation list index `index`: the first entry with
/// that index, if any.
pub open spec fn spec_standing_at(standings: Seq<(u32, FactionStanding)>, index: u32) -> Option<FactionStanding>
    decreases standings.len(),
{
    if standings.len() == 0 {
        None
    } else if standings[0].0 == index {
        Some(standings[0].1)
    } else {
        spec_standing_at(standings.drop_first(), index)
    }
}

/// What the client is told of reputation list index `index`: the flags (low byte)
/// and the standing (as unsigned bits) when a standing is recorded, zeroes otherwise.
pub open spec fn spec_faction_init(standings: Seq<(u32, FactionStanding)>, index: u32) -> FactionInit {
    match spec_standing_at(standings, index) {
        Some(s) => FactionInit { flags: s.flags as u8, standing: s.db_standing as u32 },
        None => FactionInit { flags: 0, standing: 0 },
    }
}

/// Looks up the standing recorded for `index`.
fn standing_at(standings: &Vec<(u32, FactionStanding)>, index: u32) -> (r: Option<FactionStanding>)
    ensures
        r == spec_standing_at(standings@, index),
{
    let mut i: usize = 0;
    assert(standings@.skip(0) =~= standings@);
    while i < standings.len()
        invariant
            i <= standings@.len(),
            spec_standing_at(standings@, index) == spec_standing_at(standings@.skip(i as int), index),
        decreases standings@.len() - i,
    {
        assert(standings@.skip(i as int).drop_first() =~= standings@.skip(i + 1));
        if standings[i].0 == index {
            return Some(standings[i].1);
        }
        i = i + 1;
    }
    None
}

/// The initial reputation list: one entry for each of the first `count` list
/// indices, in order.
pub fn initial_factions(standings: &Vec<(u32, FactionStanding)>, count: usize) -> (r: Vec<FactionInit>)
    requires
        count <= u32::MAX,
    ensures
        r@.len() == count,
        forall|i: int| 0 <= i < count ==> #[trigger] r@[i] == spec_faction_init(standings@, i as u32),
{
    let mut factions: Vec<FactionInit> = Vec::new();
    let mut index: usize = 0;
    while index < count
        invariant
            index <= count <= u32::MAX,
            factions@.len() == index,
            forall|i: int| 0 <= i < index ==> #[trigger] factions@[i] == spec_faction_init(standings@, i as u32),
        decreases count - index,
    {
        let init = match standing_at(standings, index as u32) {
            Some(s) => FactionInit { flags: s.flags as u8, standing: s.db_standing as u32 },
            None => FactionInit { flags: 0, standing: 0 },
        };
        factions.push(init);
        index = index + 1;
    }
    factions
}

/// The reputation entry for a list index shows the first standing recorded for
/// that index (its flags' low byte and its standing's bits); an index with no
/// recorded standing shows zeroes.
pub proof fn lemma_faction_init_is_first_standing(standings: Seq<(u32, FactionStanding)>, index: u32)
    ensures
        (exists|k: int| 0 <= k < standings.len() && #[trigger] standings[k].0 == index) ==> exists|k: int|
            0 <= k < standings.len() && #[trigger] standings[k].0 == index && (forall|j: int|
                0 <= j < k ==> standings[j].0 != index) && spec_faction_init(standings, index) == (FactionInit {
                flags: standings[k].1.flags as u8,
                standing: standings[k].1.db_standing as u32,
            }),
        (forall|k: int| 0 <= k < standings.len() ==> #[trigger] standings[k].0 != index) ==> spec_faction_init(
            standings,
            index,
        ) == (FactionInit { flags: 0, standing: 0 }),
    decreases standings.len(),
{
    if standings.len() > 0 {
        let rest = standings.drop_first();
        lemma_faction_init_is_first_standing(rest, index);
        if standings[0].0 != index {
            if exists|k: int| 0 <= k < standings.len() && #[trigger] standings[k].0 == index {
                let k0 = choose|k: int| 0 <= k < standings.len() && #[trigger] standings[k].0 == index;
                assert(rest[k0 - 1].0 == index);
                let k = choose|k: int|
                    0 <= k < rest.len() && #[trigger] rest[k].0 == index && (forall|j: int|
                        0 <= j < k ==> rest[j].0 != index) && spec_faction_init(rest, index) == (FactionInit {
                        flags: rest[k].1.flags as u8,
                        standing: rest[k].1.db_standing as u32,
                    });
                assert(standings[k + 1] == rest[k]);
                assert forall|j: int| 0 <= j < k + 1 implies standings[j].0 != index by {
                    if j > 0 {
                        assert(standings[j] == rest[j - 1]);
                    }
                }
            }
            if forall|k: int| 0 <= k < standings.len() ==> #[trigger] standings[k].0 != index {
                assert forall|k: int| 0 <= k < rest.len() implies #[trigger] rest[k].0 != index by {
                    assert(standings[k + 1] == rest[k]);
                }
            }
        }
    }
}

/// The hexadecimal digit, upper case, that writes `n`.
pub open spec fn upper_hex_digit(n: u8) -> u8 {
    seq![48u8, 49u8, 50u8, 51u8, 52u8, 53u8, 54u8, 55u8, 56u8, 57u8, 65u8, 66u8, 67u8, 68u8, 69u8, 70u8][n as int]
}

/// The hexadecimal digit, lower case, that writes `n`.
pub open spec fn lower_hex_digit(n: u8) -> u8 {
    seq![48u8, 49u8, 50u8, 51u8, 52u8, 53u8, 54u8, 55u8, 56u8, 57u8, 97u8, 98u8, 99u8, 100u8, 101u8, 102u8][n as int]
}

/// Reading a byte written as two hexadecimal digits, in either case, gives the
/// byte back; and a character read as a digit has a value below sixteen.
pub proof fn lemma_hex_byte_reads_back(b: u8, upper: bool)
    ensures
        ({
            let hi = if upper { upper_hex_digit(b / 16) } else { lower_hex_digit(b / 16) };
            let lo = if upper { upper_hex_digit(b % 16) } else { lower_hex_digit(b % 16) };
            spec_hex_byte(seq![hi, lo], 0) == b
        }),
        forall|c: u8| #[trigger] spec_hex_digit(c) matches Some(v) ==> v < 16,
{
    let h = b / 16;
    let l = b % 16;
    assert(h < 16 && l < 16);
    let hi = if upper { upper_hex_digit(h) } else { lower_hex_digit(h) };
    let lo = if upper { upper_hex_digit(l) } else { lower_hex_digit(l) };
    assert(spec_hex_digit(hi) == Some(h)) by {
        assert(0 <= h < 16);
    }
    assert(spec_hex_digit(lo) == Some(l));
    assert(seq![hi, lo][0] == hi && seq![hi, lo][1] == lo);
}

/// A compressed update carries, after its header, the uncompressed length (read back
/// little-endian, modulo 2^32) and then the zlib stream as it is; its header names
/// the compressed update and counts the opcode, the length and the stream (the
/// stream's length taken modulo 2^16).
pub proof fn lemma_compressed_frame_layout(payload: Seq<u8>, compressed: Seq<u8>)
    requires
        compressed_size_fits(compressed.len()),
    ensures
        ({
            let (header, body) = spec_compressed_frame(payload, compressed);
            &&& header.opcode == SMSG_COMPRESSED_UPDATE_OBJECT
            &&& header.size == compressed.len() % 0x10000 + 6
            &&& body.len() == 4 + compressed.len()
            &&& from_le_u32(body.subrange(0, 4)) == payload.len() as u32
            &&& body.subrange(4, body.len() as int) == compressed
        }),
{
    let body = spec_compressed_frame(payload, compressed).1;
    lemma_le_u32_roundtrip(payload.len() as u32);
    assert(body.subrange(0, 4) =~= le_u32(payload.len() as u32));
    assert(body.subrange(4, body.len() as int) =~= compressed);
}

} // verus!
