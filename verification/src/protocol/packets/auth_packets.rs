//! Messages of the authentication handshake.
use crate::codec::{ClientPayload, NullString, ReadError, WireEncode};
use crate::protocol::server::ServerMessagePayload;
use crate::wire::{no_zero_byte, null_terminated, lemma_le_u32_roundtrip, get_null_string, lemma_null_string_unique, null_string_at, from_le_u32, get_u32_le, le_u32};
use vstd::prelude::*;

verus! {

#[derive(Debug, PartialEq, Eq)]
pub struct SmsgAuthChallenge {
    pub server_seed: u32,
}

impl WireEncode for SmsgAuthChallenge {
    open spec fn spec_encode(&self) -> Seq<u8> {
        self.server_seed.spec_encode()
    }

    fn encode_into(&self, out: &mut Vec<u8>) {
        self.server_seed.encode_into(out);
        assert(out@ =~= old(out)@ + self.spec_encode());
    }
}

impl ServerMessagePayload for SmsgAuthChallenge {}

/// The bytes of a `SmsgAuthChallenge` hold its fields in declaration order, little-endian:
/// each field reads back from its own place.
pub proof fn lemma_smsg_auth_challenge_image_fields(v: SmsgAuthChallenge)
    ensures
        v.spec_encode().len() == 4,
        from_le_u32(v.spec_encode().subrange(0, 4)) == v.server_seed,
{
    let data = v.spec_encode();
    lemma_le_u32_roundtrip(v.server_seed);
    assert(data.subrange(0, 4) =~= le_u32(v.server_seed));
}

#[derive(Debug, PartialEq, Eq)]
pub struct CmsgAuthSession {
    pub _build: u32,
    pub _server_id: u32,
    pub username: NullString,
    pub client_seed: u32,
    pub client_proof: [u8; 20],
}

#[derive(Debug, PartialEq, Eq)]
pub struct SmsgAuthResponse {
    pub result: u8,
    pub billing_time: u32,
    pub billing_flags: u8,
    pub billing_rested: u32,
    /// 0 = Vanilla, 1 = TBC
    pub expansion: u8,
    pub position_in_queue: u32,
}

impl WireEncode for SmsgAuthResponse {
    open spec fn spec_encode(&self) -> Seq<u8> {
        self.result.spec_encode() + self.billing_time.spec_encode() + self.billing_flags.spec_encode() + self.billing_rested.spec_encode() + self.expansion.spec_encode() + self.position_in_queue.spec_encode()
    }

    fn encode_into(&self, out: &mut Vec<u8>) {
        self.result.encode_into(out);
        self.billing_time.encode_into(out);
        self.billing_flags.encode_into(out);
        self.billing_rested.encode_into(out);
        self.expansion.encode_into(out);
        self.position_in_queue.encode_into(out);
        assert(out@ =~= old(out)@ + self.spec_encode());
    }
}

impl ServerMessagePayload for SmsgAuthResponse {}

/// The bytes of a `SmsgAuthResponse` hold its fields in declaration order, little-endian:
/// each field reads back from its own place.
pub proof fn lemma_smsg_auth_response_image_fields(v: SmsgAuthResponse)
    ensures
        v.spec_encode().len() == 15,
        v.spec_encode()[0] == v.result,
        from_le_u32(v.spec_encode().subrange(1, 5)) == v.billing_time,
        v.spec_encode()[5] == v.billing_flags,
        from_le_u32(v.spec_encode().subrange(6, 10)) == v.billing_rested,
        v.spec_encode()[10] == v.expansion,
        from_le_u32(v.spec_encode().subrange(11, 15)) == v.position_in_queue,
{
    let data = v.spec_encode();
    lemma_le_u32_roundtrip(v.billing_time);
    assert(data.subrange(1, 5) =~= le_u32(v.billing_time));
    lemma_le_u32_roundtrip(v.billing_rested);
    assert(data.subrange(6, 10) =~= le_u32(v.billing_rested));
    lemma_le_u32_roundtrip(v.position_in_queue);
    assert(data.subrange(11, 15) =~= le_u32(v.position_in_queue));
}

#[derive(Debug, PartialEq, Eq)]
pub struct ClientAddonInfo {
    pub name: NullString,
    pub crc: u32,
    pub unk1: u32,
    pub unk2: u8,
}

/// Addon information sent back for one client addon.
#[derive(Debug, PartialEq, Eq)]
pub struct ServerAddonInfo {
    /// 2
    pub state: u8,
    pub use_crc_or_public_key: bool,
    /// true if crc != standard crc
    pub use_public_key: bool,
    /// if use_public_key = 1
    pub public_key: Option<[u8; 256]>,
    /// 0, if use_crc_of_public_key = 1
    pub unk: Option<u32>,
    /// Always 0
    pub use_url: bool,
}

impl WireEncode for ServerAddonInfo {
    open spec fn spec_encode(&self) -> Seq<u8> {
        self.state.spec_encode() + self.use_crc_or_public_key.spec_encode() + self.use_public_key.spec_encode() + self.public_key.spec_encode() + self.unk.spec_encode() + self.use_url.spec_encode()
    }

    fn encode_into(&self, out: &mut Vec<u8>) {
        self.state.encode_into(out);
        self.use_crc_or_public_key.encode_into(out);
        self.use_public_key.encode_into(out);
        self.public_key.encode_into(out);
        self.unk.encode_into(out);
        self.use_url.encode_into(out);
        assert(out@ =~= old(out)@ + self.spec_encode());
    }
}

#[derive(Debug, PartialEq, Eq)]
pub struct SmsgAddonInfo {
    pub addon_infos: Vec<ServerAddonInfo>,
}

impl WireEncode for SmsgAddonInfo {
    open spec fn spec_encode(&self) -> Seq<u8> {
        self.addon_infos.spec_encode()
    }

    fn encode_into(&self, out: &mut Vec<u8>) {
        self.addon_infos.encode_into(out);
        assert(out@ =~= old(out)@ + self.spec_encode());
    }
}

impl ServerMessagePayload for SmsgAddonInfo {}
impl ClientPayload for CmsgAuthSession {
    /// Two `u32`, the NUL-terminated user name, a `u32` seed and a 20-byte proof.
    open spec fn spec_accepts(data: Seq<u8>) -> bool {
        exists|s: Seq<u8>, next: int| #[trigger] null_string_at(data, 8, s, next) && next + 24 <= data.len()
    }

    open spec fn spec_reads_as(data: Seq<u8>, v: Self) -> bool {
        let next = 8 + v.username.0@.len() + 1int;
        &&& null_string_at(data, 8, v.username.0@, next)
        &&& next + 24 <= data.len()
        &&& v._build == from_le_u32(data.subrange(0, 4))
        &&& v._server_id == from_le_u32(data.subrange(4, 8))
        &&& v.client_seed == from_le_u32(data.subrange(next, next + 4))
        &&& v.client_proof@ == data.subrange(next + 4, next + 24)
    }

    fn read(data: &[u8]) -> (r: Result<Self, ReadError>) {
        if data.len() < 8 {
            proof {
                assert forall|s: Seq<u8>, n: int| #[trigger] null_string_at(data@, 8, s, n) implies n + 24 > data@.len() by {}
            }
            return Err(ReadError::UnexpectedEnd);
        }
        let (username, next) = match get_null_string(data, 8) {
            Some(found) => found,
            None => {
                return Err(ReadError::UnexpectedEnd);
            },
        };
        if data.len() - next < 24 {
            proof {
                assert forall|s: Seq<u8>, n: int| #[trigger] null_string_at(data@, 8, s, n) implies n + 24 > data@.len() by {
                    lemma_null_string_unique(data@, 8, s, n, username@, next as int);
                }
            }
            return Err(ReadError::UnexpectedEnd);
        }
        let client_seed = get_u32_le(data, next);
        let mut client_proof: [u8; 20] = [0u8; 20];
        let mut i: usize = 0;
        while i < 20
            invariant
                i <= 20,
                next + 24 <= data.len(),
                forall|j: int| 0 <= j < i ==> client_proof@[j] == data@[next + 4 + j],
            decreases 20 - i,
        {
            client_proof[i] = data[next + 4 + i];
            i = i + 1;
        }
        assert(client_proof@ =~= data@.subrange(next + 4, next + 24));
        Ok(
            CmsgAuthSession {
                _build: get_u32_le(data, 0),
                _server_id: get_u32_le(data, 4),
                username: NullString(username),
                client_seed,
                client_proof,
            },
        )
    }
}

impl CmsgAuthSession {
    /// The number of bytes the message takes: its fixed fields, the user name and
    /// the name's terminator.
    pub fn len(&self) -> (r: usize)
        requires
            self.username.0@.len() + 33 <= usize::MAX,
        ensures
            r == 4 + 4 + self.username.0@.len() + 1 + 4 + 20,
    {
        4 + 4 + self.username.len() + 1 + 4 + 20
    }
}

impl ClientPayload for ClientAddonInfo {
    /// The NUL-terminated addon name, two `u32` and one byte.
    open spec fn spec_accepts(data: Seq<u8>) -> bool {
        exists|s: Seq<u8>, next: int| #[trigger] null_string_at(data, 0, s, next) && next + 9 <= data.len()
    }

    open spec fn spec_reads_as(data: Seq<u8>, v: Self) -> bool {
        let next = v.name.0@.len() + 1int;
        &&& null_string_at(data, 0, v.name.0@, next)
        &&& next + 9 <= data.len()
        &&& v.crc == from_le_u32(data.subrange(next, next + 4))
        &&& v.unk1 == from_le_u32(data.subrange(next + 4, next + 8))
        &&& v.unk2 == data[next + 8]
    }

    fn read(data: &[u8]) -> (r: Result<Self, ReadError>) {
        let (name, next) = match get_null_string(data, 0) {
            Some(found) => found,
            None => {
                return Err(ReadError::UnexpectedEnd);
            },
        };
        if data.len() - next < 9 {
            proof {
                assert forall|s: Seq<u8>, n: int| #[trigger] null_string_at(data@, 0, s, n) implies n + 9 > data@.len() by {
                    lemma_null_string_unique(data@, 0, s, n, name@, next as int);
                }
            }
            return Err(ReadError::UnexpectedEnd);
        }
        Ok(
            ClientAddonInfo {
                name: NullString(name),
                crc: get_u32_le(data, next),
                unk1: get_u32_le(data, next + 4),
                unk2: data[next + 8],
            },
        )
    }
}

impl ClientAddonInfo {
    /// The number of bytes the entry takes: the name, its terminator and the fixed fields.
    pub fn len(&self) -> (r: usize)
        requires
            self.name.0@.len() + 10 <= usize::MAX,
        ensures
            r == self.name.0@.len() + 1 + 4 + 4 + 1,
    {
        self.name.len() + 1 + 4 + 4 + 1
    }
}

/// The bytes a client sends for an authentication session.
pub open spec fn auth_session_layout(build: u32, server_id: u32, username: Seq<u8>, client_seed: u32, proof: Seq<u8>) -> Seq<u8> {
    le_u32(build) + le_u32(server_id) + null_terminated(username) + le_u32(client_seed) + proof
}

/// An authentication session laid out by a client (a user name without zero bytes,
/// a 20-byte proof, and anything after it) is accepted and reads back as the values
/// it was made of.
pub proof fn lemma_auth_session_roundtrip(
    build: u32,
    server_id: u32,
    username: Seq<u8>,
    client_seed: u32,
    proof: Seq<u8>,
    rest: Seq<u8>,
    v: CmsgAuthSession,
)
    requires
        no_zero_byte(username),
        proof.len() == 20,
        v._build == build,
        v._server_id == server_id,
        v.username.0@ == username,
        v.client_seed == client_seed,
        v.client_proof@ == proof,
    ensures
        CmsgAuthSession::spec_accepts(auth_session_layout(build, server_id, username, client_seed, proof) + rest),
        CmsgAuthSession::spec_reads_as(auth_session_layout(build, server_id, username, client_seed, proof) + rest, v),
{
    let data = auth_session_layout(build, server_id, username, client_seed, proof) + rest;
    let next = 8 + username.len() + 1int;
    lemma_le_u32_roundtrip(build);
    lemma_le_u32_roundtrip(server_id);
    lemma_le_u32_roundtrip(client_seed);
    assert(data.subrange(0, 4) =~= le_u32(build));
    assert(data.subrange(4, 8) =~= le_u32(server_id));
    assert(data.subrange(8, 8 + username.len() as int) =~= username);
    assert(data[8 + username.len() as int] == 0u8);
    assert(null_string_at(data, 8, username, next));
    assert(data.subrange(next, next + 4) =~= le_u32(client_seed));
    assert(data.subrange(next + 4, next + 24) =~= proof);
}

} // verus!
