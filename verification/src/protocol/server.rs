//! Messages from the server to the client: a header (size, then opcode) and a payload.
use crate::codec::WireEncode;
use crate::wire::{be_u16, from_be_u16, from_le_u16, le_u16, lemma_be_u16_roundtrip, lemma_le_u16_roundtrip, put_bytes, put_u16_be, put_u16_le};
use vstd::prelude::*;
use wow_srp::tbc_header::HeaderCrypto;

verus! {

/// The payload of a server message.
pub trait ServerMessagePayload: WireEncode {
    /// The bytes of the payload.
    fn encode(&self) -> (r: Vec<u8>)
        ensures
            r@ == self.spec_encode(),
    {
        let mut out: Vec<u8> = Vec::new();
        self.encode_into(&mut out);
        assert(out@ =~= self.spec_encode());
        out
    }
}

/// The header of a server message: the size of the rest of the message (opcode
/// included), big-endian, then the 16-bit opcode, little-endian.
#[derive(Debug, Clone, Copy, PartialEq, Eq, Structural)]
pub struct ServerMessageHeader {
    pub size: u16,
    pub opcode: u16,
}

impl WireEncode for ServerMessageHeader {
    open spec fn spec_encode(&self) -> Seq<u8> {
        be_u16(self.size) + le_u16(self.opcode)
    }

    fn encode_into(&self, out: &mut Vec<u8>) {
        put_u16_be(out, self.size);
        put_u16_le(out, self.opcode);
        assert(out@ =~= old(out)@ + self.spec_encode());
    }
}

/// The size field for a payload of `len` bytes: the payload plus the two bytes of
/// the opcode, the payload length taken modulo 2^16.
pub open spec fn header_size_for(len: nat) -> u16 {
    ((len % 0x10000) + 2) as u16
}

/// True when the size field for a payload of `len` bytes can be computed without
/// overflowing 16 bits.
pub open spec fn header_size_fits(len: nat) -> bool {
    len % 0x10000 + 2 <= 0xFFFF
}

/// The size field for a payload of `len` bytes.
pub fn header_size(len: usize) -> (r: u16)
    requires
        header_size_fits(len as nat),
    ensures
        r == header_size_for(len as nat),
{
    ((len % 0x10000) as u16) + 2
}

/// A header reads back as the size and opcode it was written with.
pub proof fn lemma_header_roundtrip(h: ServerMessageHeader)
    ensures
        h.spec_encode().len() == 4,
        from_be_u16(h.spec_encode().subrange(0, 2)) == h.size,
        from_le_u16(h.spec_encode().subrange(2, 4)) == h.opcode,
{
    lemma_be_u16_roundtrip(h.size);
    lemma_le_u16_roundtrip(h.opcode);
    assert(h.spec_encode().subrange(0, 2) =~= be_u16(h.size));
    assert(h.spec_encode().subrange(2, 4) =~= le_u16(h.opcode));
}

/// A server message with the opcode `OPCODE`.
pub struct ServerMessage<const OPCODE: u16, Payload: ServerMessagePayload> {
    payload: Payload,
}

impl<const OPCODE: u16, Payload: ServerMessagePayload> ServerMessage<OPCODE, Payload> {
    /// The payload the message carries.
    pub closed spec fn spec_payload(&self) -> Payload {
        self.payload
    }

    /// The bytes of the message sent without header encryption: header, then payload.
    pub open spec fn spec_frame(&self) -> Seq<u8> {
        let payload = self.spec_payload().spec_encode();
        be_u16(header_size_for(payload.len())) + le_u16(OPCODE) + payload
    }

    pub fn new(payload: Payload) -> (r: Self)
        ensures
            r.spec_payload() == payload,
    {
        ServerMessage { payload }
    }

    /// The bytes of the payload.
    pub fn encode_payload(&self) -> (r: Vec<u8>)
        ensures
            r@ == self.spec_payload().spec_encode(),
    {
        self.payload.encode()
    }

    /// The header and payload bytes of the message, as written to a connection whose
    /// headers are not encrypted yet.
    pub fn frame_unencrypted(&self) -> (r: Vec<u8>)
        requires
            header_size_fits(self.spec_payload().spec_encode().len()),
        ensures
            r@ == self.spec_frame(),
    {
        let payload = self.payload.encode();
        let header = ServerMessageHeader { size: header_size(payload.len()), opcode: OPCODE };
        let mut out: Vec<u8> = Vec::new();
        header.encode_into(&mut out);
        put_bytes(&mut out, payload.as_slice());
        assert(out@ =~= self.spec_frame());
        out
    }
}

/// The header cipher of an authenticated connection (`wow_srp`'s `HeaderCrypto`);
/// its state advances with every header it encrypts or decrypts.
#[verifier::external_type_specification]
#[verifier::external_body]
pub struct ExHeaderCrypto(HeaderCrypto);

/// Calls `HeaderCrypto::encrypt`, which encrypts `data` in place with the
/// connection's cipher, byte by byte, and advances the cipher's state. The bytes it
/// writes depend on that state; only that the length is kept is stated.
#[verifier::external_body]
fn encrypt_in_place(crypto: &mut HeaderCrypto, data: &mut Vec<u8>)
    ensures
        final(data)@.len() == old(data)@.len(),
{
    crypto.encrypt(data.as_mut_slice());
}

/// The bytes sent for a message on an authenticated connection: the four bytes of
/// `header` (size big-endian, then opcode little-endian) encrypted with the
/// connection's cipher, then the payload as it is.
pub fn encrypted_frame(crypto: &mut HeaderCrypto, header: &ServerMessageHeader, payload: &[u8]) -> (r: Vec<u8>)
    ensures
        r@.len() == 4 + payload@.len(),
        r@.subrange(4, r@.len() as int) == payload@,
{
    let mut out: Vec<u8> = Vec::new();
    header.encode_into(&mut out);
    assert(out@ == header.spec_encode());
    assert(out@.len() == 4);
    encrypt_in_place(crypto, &mut out);
    put_bytes(&mut out, payload);
    assert(out@.subrange(4, out@.len() as int) =~= payload@);
    out
}

} // verus!
