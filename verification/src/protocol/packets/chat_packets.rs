//! Chat and emote messages.
use crate::codec::{ClientPayload, NullString, ReadError, WireEncode};
use crate::constants::{ChatMessageType, Language};
use crate::entities::{ObjectGuid};
use crate::protocol::server::ServerMessagePayload;
use crate::wire::{lemma_le_u32_roundtrip, get_null_string, lemma_null_string_unique, null_string_at, from_le_u32, from_le_u64, get_u32_le, get_u64_le, le_u32, le_u64, lemma_le_u64_roundtrip, put_u32_le, put_u8};
use vstd::prelude::*;

verus! {

#[derive(Debug, PartialEq, Eq)]
pub struct SmsgMessageChat {
    pub message_type: ChatMessageType,
    pub language: Language,
    pub sender_guid: u64,
    /// 0
    pub unk: u32,
    pub target_guid: u64,
    pub message_len: u32,
    pub message: NullString,
    /// 0 for now
    pub chat_tag: u8,
}

impl WireEncode for SmsgMessageChat {
    open spec fn spec_encode(&self) -> Seq<u8> {
        seq![self.message_type.spec_value() as u8] + le_u32(self.language.spec_value() as u32) + self.sender_guid.spec_encode() + self.unk.spec_encode() + self.target_guid.spec_encode() + self.message_len.spec_encode() + self.message.spec_encode() + self.chat_tag.spec_encode()
    }

    fn encode_into(&self, out: &mut Vec<u8>) {
        put_u8(out, self.message_type.value() as u8);
        put_u32_le(out, self.language.value() as u32);
        self.sender_guid.encode_into(out);
        self.unk.encode_into(out);
        self.target_guid.encode_into(out);
        self.message_len.encode_into(out);
        self.message.encode_into(out);
        self.chat_tag.encode_into(out);
        assert(out@ =~= old(out)@ + self.spec_encode());
    }
}

impl ServerMessagePayload for SmsgMessageChat {}

#[derive(Debug, PartialEq, Eq)]
pub struct CmsgTextEmote {
    pub text_emote: u32,
    pub emote_number: u32,
    pub target_guid: u64,
}

impl ClientPayload for CmsgTextEmote {
    open spec fn spec_accepts(data: Seq<u8>) -> bool {
        data.len() >= 16
    }

    open spec fn spec_reads_as(data: Seq<u8>, v: Self) -> bool {
        v == CmsgTextEmote { text_emote: from_le_u32(data.subrange(0, 4)), emote_number: from_le_u32(data.subrange(4, 8)), target_guid: from_le_u64(data.subrange(8, 16)) }
    }

    fn read(data: &[u8]) -> (r: Result<Self, ReadError>) {
        if data.len() < 16 {
            return Err(ReadError::UnexpectedEnd);
        }
        Ok(CmsgTextEmote { text_emote: get_u32_le(data, 0), emote_number: get_u32_le(data, 4), target_guid: get_u64_le(data, 8) })
    }
}

/// Reading the bytes of a `CmsgTextEmote` (its fields in order, little-endian) gives it
/// back: each field is read from its own bytes.
pub proof fn lemma_cmsg_text_emote_reads_back(v: CmsgTextEmote)
    ensures
        CmsgTextEmote::spec_accepts(le_u32(v.text_emote) + le_u32(v.emote_number) + le_u64(v.target_guid)),
        CmsgTextEmote::spec_reads_as(le_u32(v.text_emote) + le_u32(v.emote_number) + le_u64(v.target_guid), v),
{
    let data = le_u32(v.text_emote) + le_u32(v.emote_number) + le_u64(v.target_guid);
    lemma_le_u32_roundtrip(v.text_emote);
    assert(data.subrange(0, 4) =~= le_u32(v.text_emote));
    lemma_le_u32_roundtrip(v.emote_number);
    assert(data.subrange(4, 8) =~= le_u32(v.emote_number));
    lemma_le_u64_roundtrip(v.target_guid);
    assert(data.subrange(8, 16) =~= le_u64(v.target_guid));
}

#[derive(Debug, PartialEq, Eq)]
pub struct SmsgEmote {
    pub emote_id: u32,
    pub origin_guid: u64,
}

impl WireEncode for SmsgEmote {
    open spec fn spec_encode(&self) -> Seq<u8> {
        self.emote_id.spec_encode() + self.origin_guid.spec_encode()
    }

    fn encode_into(&self, out: &mut Vec<u8>) {
        self.emote_id.encode_into(out);
        self.origin_guid.encode_into(out);
        assert(out@ =~= old(out)@ + self.spec_encode());
    }
}

impl ServerMessagePayload for SmsgEmote {}

/// The bytes of a `SmsgEmote` hold its fields in declaration order, little-endian:
/// each field reads back from its own place.
pub proof fn lemma_smsg_emote_image_fields(v: SmsgEmote)
    ensures
        v.spec_encode().len() == 12,
        from_le_u32(v.spec_encode().subrange(0, 4)) == v.emote_id,
        from_le_u64(v.spec_encode().subrange(4, 12)) == v.origin_guid,
{
    let data = v.spec_encode();
    lemma_le_u32_roundtrip(v.emote_id);
    assert(data.subrange(0, 4) =~= le_u32(v.emote_id));
    lemma_le_u64_roundtrip(v.origin_guid);
    assert(data.subrange(4, 12) =~= le_u64(v.origin_guid));
}

#[derive(Debug, PartialEq, Eq)]
pub struct SmsgTextEmote {
    pub origin_guid: u64,
    pub text_emote: u32,
    pub emote_number: u32,
    pub target_name_length: u32,
    pub target_name: NullString,
}

impl WireEncode for SmsgTextEmote {
    open spec fn spec_encode(&self) -> Seq<u8> {
        self.origin_guid.spec_encode() + self.text_emote.spec_encode() + self.emote_number.spec_encode() + self.target_name_length.spec_encode() + self.target_name.spec_encode()
    }

    fn encode_into(&self, out: &mut Vec<u8>) {
        self.origin_guid.encode_into(out);
        self.text_emote.encode_into(out);
        self.emote_number.encode_into(out);
        self.target_name_length.encode_into(out);
        self.target_name.encode_into(out);
        assert(out@ =~= old(out)@ + self.spec_encode());
    }
}

impl ServerMessagePayload for SmsgTextEmote {}
impl SmsgMessageChat {
    /// A chat message from `sender_guid` to `target_guid` (each zero when absent);
    /// the announced length counts the message's terminator.
    pub fn build(
        message_type: ChatMessageType,
        language: Language,
        sender_guid: Option<&ObjectGuid>,
        target_guid: Option<&ObjectGuid>,
        message: NullString,
    ) -> (r: Self)
        requires
            message.0@.len() + 1 <= u32::MAX,
        ensures
            r.message_type == message_type,
            r.language == language,
            r.sender_guid == (match sender_guid {
                Some(g) => g.raw,
                None => 0,
            }),
            r.unk == 0,
            r.target_guid == (match target_guid {
                Some(g) => g.raw,
                None => 0,
            }),
            r.message_len == message.0@.len() + 1,
            r.message == message,
            r.chat_tag == 0,
    {
        let sender_raw = match sender_guid {
            Some(g) => g.raw(),
            None => 0,
        };
        let target_raw = match target_guid {
            Some(g) => g.raw(),
            None => 0,
        };
        let message_len = message.len() as u32 + 1;
        SmsgMessageChat {
            message_type,
            language,
            sender_guid: sender_raw,
            unk: 0,
            target_guid: target_raw,
            message_len,
            message,
            chat_tag: 0,
        }
    }
}

/// A chat message sent by the client. A whisper names its recipient, and a channel
/// message its channel, before the message itself. A chat type or language that
/// names no known value is malformed input: reading it gives an error instead of
/// stopping the server.
#[derive(Debug, PartialEq, Eq)]
pub struct CmsgMessageChat {
    pub chat_type: ChatMessageType,
    pub language: Language,
    pub _recipient: Option<NullString>,
    pub _channel: Option<NullString>,
    pub msg: NullString,
}

/// True when the message kind `chat_type` names a recipient or a channel before
/// the message.
pub open spec fn chat_names_target(chat_type: u32) -> bool {
    chat_type as i64 == ChatMessageType::Whisper.spec_value() || chat_type as i64
        == ChatMessageType::Channel.spec_value()
}

/// The bytes of an optional string, empty when it is absent.
pub open spec fn string_bytes(s: Option<NullString>) -> Seq<u8> {
    match s {
        Some(t) => t.0@,
        None => Seq::empty(),
    }
}

impl ClientPayload for CmsgMessageChat {
    /// The kind and the language as `u32`, each a valid number of its type, then the
    /// NUL-terminated strings that the kind calls for.
    open spec fn spec_accepts(data: Seq<u8>) -> bool {
        &&& data.len() >= 8
        &&& exists|c: ChatMessageType| c.spec_value() == from_le_u32(data.subrange(0, 4)) as i64
        &&& exists|l: Language| l.spec_value() == from_le_u32(data.subrange(4, 8)) as i64
        &&& if chat_names_target(from_le_u32(data.subrange(0, 4))) {
            exists|s1: Seq<u8>, n1: int, s2: Seq<u8>, n2: int|
                #[trigger] null_string_at(data, 8, s1, n1) && #[trigger] null_string_at(data, n1, s2, n2)
        } else {
            exists|s: Seq<u8>, n: int| #[trigger] null_string_at(data, 8, s, n)
        }
    }

    open spec fn spec_reads_as(data: Seq<u8>, v: Self) -> bool {
        let ct = from_le_u32(data.subrange(0, 4));
        &&& data.len() >= 8
        &&& v.chat_type.spec_value() == ct as i64
        &&& v.language.spec_value() == from_le_u32(data.subrange(4, 8)) as i64
        &&& if chat_names_target(ct) {
            let first = if v.chat_type == ChatMessageType::Whisper { v._recipient } else { v._channel };
            let other = if v.chat_type == ChatMessageType::Whisper { v._channel } else { v._recipient };
            &&& first is Some
            &&& other is None
            &&& null_string_at(data, 8, string_bytes(first), 8 + string_bytes(first).len() + 1int)
            &&& null_string_at(
                data,
                8 + string_bytes(first).len() + 1int,
                v.msg.0@,
                8 + string_bytes(first).len() + 1 + v.msg.0@.len() + 1int,
            )
        } else {
            &&& v._recipient is None
            &&& v._channel is None
            &&& null_string_at(data, 8, v.msg.0@, 8 + v.msg.0@.len() + 1int)
        }
    }

    fn read(data: &[u8]) -> (r: Result<Self, ReadError>) {
        if data.len() < 8 {
            return Err(ReadError::UnexpectedEnd);
        }
        let ct = get_u32_le(data, 0);
        let chat_type = match ChatMessageType::n(ct as i64) {
            Some(c) => c,
            None => {
                return Err(ReadError::InvalidValue);
            },
        };
        let language = match Language::n(get_u32_le(data, 4) as i64) {
            Some(l) => l,
            None => {
                return Err(ReadError::InvalidValue);
            },
        };
        proof {
            ChatMessageType::lemma_value_injective(chat_type, ChatMessageType::Whisper);
            ChatMessageType::lemma_value_injective(chat_type, ChatMessageType::Channel);
        }
        let mut pos: usize = 8;
        let mut recipient: Option<NullString> = None;
        let mut channel: Option<NullString> = None;
        if chat_type == ChatMessageType::Whisper || chat_type == ChatMessageType::Channel {
            let (first, next) = match get_null_string(data, 8) {
                Some(found) => found,
                None => {
                    return Err(ReadError::UnexpectedEnd);
                },
            };
            match get_null_string(data, next) {
                Some(_) => {},
                None => {
                    proof {
                        assert forall|s1: Seq<u8>, n1: int, s2: Seq<u8>, n2: int|
                            #[trigger] null_string_at(data@, 8, s1, n1) implies !#[trigger] null_string_at(
                            data@,
                            n1,
                            s2,
                            n2,
                        ) by {
                            lemma_null_string_unique(data@, 8, s1, n1, first@, next as int);
                        }
                    }
                    return Err(ReadError::UnexpectedEnd);
                },
            }
            if chat_type == ChatMessageType::Whisper {
                recipient = Some(NullString(first));
            } else {
                channel = Some(NullString(first));
            }
            pos = next;
        }
        let (msg, _end) = match get_null_string(data, pos) {
            Some(found) => found,
            None => {
                return Err(ReadError::UnexpectedEnd);
            },
        };
        Ok(CmsgMessageChat { chat_type, language, _recipient: recipient, _channel: channel, msg: NullString(msg) })
    }
}

/// The prefix of an error shown in the chat window (red "Error:").
pub open spec fn error_prefix() -> Seq<u8> {
    seq![
        124u8, 99u8, 102u8, 102u8, 102u8, 102u8, 48u8, 48u8, 48u8, 48u8, 69u8, 114u8, 114u8, 111u8, 114u8, 58u8,
        124u8, 114u8, 32u8,
    ]
}

impl SmsgMessageChat {
    /// A system message: no sender, no target, in the universal language.
    pub fn system(message: NullString) -> (r: Self)
        requires
            message.0@.len() + 1 <= u32::MAX,
        ensures
            r.message_type == ChatMessageType::System,
            r.language == Language::Universal,
            r.sender_guid == 0,
            r.target_guid == 0,
            r.unk == 0,
            r.message_len == message.0@.len() + 1,
            r.message == message,
            r.chat_tag == 0,
    {
        SmsgMessageChat::build(ChatMessageType::System, Language::Universal, None, None, message)
    }

    /// A system message shown as an error: the text after a red "Error:" prefix.
    pub fn error_system(text: &Vec<u8>) -> (r: Self)
        requires
            text@.len() + 20 <= u32::MAX,
        ensures
            r.message_type == ChatMessageType::System,
            r.language == Language::Universal,
            r.sender_guid == 0,
            r.target_guid == 0,
            r.message.0@ == error_prefix() + text@,
            r.message_len == error_prefix().len() + text@.len() + 1,
    {
        let mut bytes: Vec<u8> = vec![
            124u8, 99u8, 102u8, 102u8, 102u8, 102u8, 48u8, 48u8, 48u8, 48u8, 69u8, 114u8, 114u8, 111u8, 114u8, 58u8,
            124u8, 114u8, 32u8,
        ];
        assert(bytes@ =~= error_prefix());
        let mut i: usize = 0;
        while i < text.len()
            invariant
                i <= text@.len(),
                bytes@ == error_prefix() + text@.subrange(0, i as int),
            decreases text@.len() - i,
        {
            bytes.push(text[i]);
            i = i + 1;
            assert(bytes@ =~= error_prefix() + text@.subrange(0, i as int));
        }
        assert(text@.subrange(0, text@.len() as int) =~= text@);
        SmsgMessageChat::system(NullString(bytes))
    }
}

} // verus!
