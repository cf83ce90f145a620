//! Messages from the client to the server: a six-byte header and a payload.
use crate::codec::{ClientPayload, ReadError};
use crate::wire::{from_be_u16, from_le_u32, get_u16_be, get_u32_le};
use vstd::prelude::*;
use wow_srp::tbc_header::HeaderCrypto;

verus! {

/// The header of a client message: the size of the rest of the message (the
/// four-byte opcode included), big-endian, then the opcode, little-endian.
#[derive(Debug, Clone, Copy, PartialEq, Eq, Structural)]
pub struct ClientMessageHeader {
    pub size: u16,
    pub opcode: u32,
}

impl ClientPayload for ClientMessageHeader {
    open spec fn spec_accepts(data: Seq<u8>) -> bool {
        data.len() >= 6
    }

    open spec fn spec_reads_as(data: Seq<u8>, v: Self) -> bool {
        v == ClientMessageHeader {
                    size: from_be_u16(data.subrange(0, 2)),
                    opcode: from_le_u32(data.subrange(2, 6)),
                }
    }

    fn read(data: &[u8]) -> (r: Result<Self, ReadError>) {
        if data.len() < 6 {
            return Err(ReadError::UnexpectedEnd);
        }
        Ok(ClientMessageHeader { size: get_u16_be(data, 0), opcode: get_u32_le(data, 2) })
    }
}

/// The largest payload a client message may carry.
pub const MAX_CLIENT_PAYLOAD: usize = 2048;

impl ClientMessageHeader {
    /// True when the header announces a payload the server can receive: at least
    /// the four bytes of the opcode, and no more than the payload buffer beyond them.
    pub open spec fn spec_payload_fits(&self) -> bool {
        4 <= self.size && self.size - 4 <= MAX_CLIENT_PAYLOAD
    }

    /// The number of payload bytes that follow the header: the size minus the opcode.
    pub fn payload_len(&self) -> (r: usize)
        requires
            self.spec_payload_fits(),
        ensures
            r == self.size - 4,
    {
        (self.size - 4) as usize
    }
}

impl ClientMessageHeader {
    /// Whether the header announces a payload the server can receive. A caller
    /// tests it before `payload_len`.
    pub fn payload_fits(&self) -> (r: bool)
        ensures
            r == self.spec_payload_fits(),
    {
        4 <= self.size && ((self.size - 4) as usize) <= MAX_CLIENT_PAYLOAD
    }

    /// Decrypts the six header bytes of a client message with the connection's cipher.
    pub fn decrypt(crypto: &mut HeaderCrypto, raw: [u8; 6]) -> (r: ClientMessageHeader) {
        let (size, opcode) = decrypt_client_header(crypto, raw);
        ClientMessageHeader { size, opcode }
    }
}

/// Calls `HeaderCrypto::decrypt_client_header`, which decrypts the six bytes with the
/// connection's cipher and reads the size (big-endian) and the opcode
/// (little-endian) from them. What comes out depends on the cipher's state, which
/// the call advances; nothing is stated of it.
#[verifier::external_body]
fn decrypt_client_header(crypto: &mut HeaderCrypto, raw: [u8; 6]) -> (r: (u16, u32)) {
    let header = crypto.decrypt_client_header(raw);
    (header.size, header.opcode)
}

/// A message received from the client.
pub struct ClientMessage {
    pub header: ClientMessageHeader,
    pub payload: Vec<u8>,
}

impl ClientMessage {
    /// Reads the payload of a client message as the message type `T`.
    pub fn read_as<T: ClientPayload>(data: Vec<u8>) -> (r: Result<T, ReadError>)
        ensures
            match r {
                Ok(v) => T::spec_accepts(data@) && T::spec_reads_as(data@, v),
                Err(_) => !T::spec_accepts(data@),
            },
    {
        T::read(data.as_slice())
    }
}

} // verus!
