//! How values are laid out in messages: every value the server writes has a byte
//! image (`WireEncode`), and every message the client sends has a reading
//! (`ClientPayload`).
use crate::wire::{
    bool_u8, le_i32, le_u16, le_u32, le_u64, null_terminated, put_bool_u8, put_i32_le, put_null_string,
    put_u16_le, put_u32_le, put_u64_le, put_u8,
};
use vstd::prelude::*;

verus! {

/// A value with a fixed byte image in server messages.
pub trait WireEncode {
    /// The bytes that stand for the value.
    spec fn spec_encode(&self) -> Seq<u8>;

    /// Appends the bytes that stand for the value.
    fn encode_into(&self, out: &mut Vec<u8>)
        ensures
            final(out)@ == old(out)@ + self.spec_encode(),
    ;
}

/// Why a client message could not be read.
#[derive(Debug, Clone, Copy, PartialEq, Eq, Structural)]
pub enum ReadError {
    /// The message ended before all its fields were read.
    UnexpectedEnd,
    /// A field held a number that stands for no value of its type.
    InvalidValue,
}

/// A message the client sends, read from its payload bytes in little-endian order.
pub trait ClientPayload: Sized {
    /// True when the payload `data` can be read as this message.
    spec fn spec_accepts(data: Seq<u8>) -> bool;

    /// True when `v` is what the payload `data` reads as.
    spec fn spec_reads_as(data: Seq<u8>, v: Self) -> bool;

    /// Reads the message from its payload.
    fn read(data: &[u8]) -> (r: Result<Self, ReadError>)
        ensures
            match r {
                Ok(v) => Self::spec_accepts(data@) && Self::spec_reads_as(data@, v),
                Err(_) => !Self::spec_accepts(data@),
            },
    ;
}

/// The concatenated images of a sequence of values.
pub open spec fn encode_all<T: WireEncode>(items: Seq<T>) -> Seq<u8>
    decreases items.len(),
{
    if items.len() == 0 {
        Seq::empty()
    } else {
        encode_all(items.drop_last()) + items.last().spec_encode()
    }
}

/// Appends the images of all `items`, in order.
pub fn put_all<T: WireEncode>(out: &mut Vec<u8>, items: &[T])
    ensures
        final(out)@ == old(out)@ + encode_all(items@),
{
    let mut i: usize = 0;
    while i < items.len()
        invariant
            i <= items@.len(),
            out@ == old(out)@ + encode_all(items@.subrange(0, i as int)),
        decreases items@.len() - i,
    {
        items[i].encode_into(out);
        assert(items@.subrange(0, i + 1).drop_last() =~= items@.subrange(0, i as int));
        assert(out@ =~= old(out)@ + encode_all(items@.subrange(0, i + 1)));
        i = i + 1;
    }
    assert(items@.subrange(0, items@.len() as int) =~= items@);
}

impl WireEncode for u8 {
    open spec fn spec_encode(&self) -> Seq<u8> {
        seq![*self]
    }

    fn encode_into(&self, out: &mut Vec<u8>) {
        put_u8(out, *self);
        assert(out@ =~= old(out)@ + self.spec_encode());
    }
}

impl WireEncode for u16 {
    open spec fn spec_encode(&self) -> Seq<u8> {
        le_u16(*self)
    }

    fn encode_into(&self, out: &mut Vec<u8>) {
        put_u16_le(out, *self);
    }
}

impl WireEncode for u32 {
    open spec fn spec_encode(&self) -> Seq<u8> {
        le_u32(*self)
    }

    fn encode_into(&self, out: &mut Vec<u8>) {
        put_u32_le(out, *self);
    }
}

impl WireEncode for u64 {
    open spec fn spec_encode(&self) -> Seq<u8> {
        le_u64(*self)
    }

    fn encode_into(&self, out: &mut Vec<u8>) {
        put_u64_le(out, *self);
    }
}

impl WireEncode for i32 {
    open spec fn spec_encode(&self) -> Seq<u8> {
        le_i32(*self)
    }

    fn encode_into(&self, out: &mut Vec<u8>) {
        put_i32_le(out, *self);
    }
}

/// Booleans travel as one byte.
impl WireEncode for bool {
    open spec fn spec_encode(&self) -> Seq<u8> {
        bool_u8(*self)
    }

    fn encode_into(&self, out: &mut Vec<u8>) {
        put_bool_u8(out, *self);
    }
}

/// An absent optional field writes nothing; a present one writes its value.
impl<T: WireEncode> WireEncode for Option<T> {
    open spec fn spec_encode(&self) -> Seq<u8> {
        match self {
            Some(v) => v.spec_encode(),
            None => Seq::empty(),
        }
    }

    fn encode_into(&self, out: &mut Vec<u8>) {
        match self {
            Some(v) => v.encode_into(out),
            None => {
                assert(out@ =~= old(out)@ + self.spec_encode());
            },
        }
    }
}

/// A list writes its elements one after the other, with no length in front.
impl<T: WireEncode> WireEncode for Vec<T> {
    open spec fn spec_encode(&self) -> Seq<u8> {
        encode_all(self@)
    }

    fn encode_into(&self, out: &mut Vec<u8>) {
        put_all(out, self.as_slice());
    }
}

/// A fixed-size array writes its elements one after the other.
impl<T: WireEncode, const N: usize> WireEncode for [T; N] {
    open spec fn spec_encode(&self) -> Seq<u8> {
        encode_all(self@)
    }

    fn encode_into(&self, out: &mut Vec<u8>) {
        put_all(out, self.as_slice());
    }
}

/// A string that travels as its bytes followed by one zero byte.
#[derive(Debug, Clone, PartialEq, Eq)]
pub struct NullString(pub Vec<u8>);

impl NullString {
    /// The number of bytes of the string, not counting its terminator.
    pub fn len(&self) -> (r: usize)
        ensures
            r == self.0@.len(),
    {
        self.0.len()
    }

    /// The empty string.
    pub fn empty() -> (r: NullString)
        ensures
            r.0@ == Seq::<u8>::empty(),
    {
        NullString(Vec::new())
    }
}

impl WireEncode for NullString {
    open spec fn spec_encode(&self) -> Seq<u8> {
        null_terminated(self.0@)
    }

    fn encode_into(&self, out: &mut Vec<u8>) {
        put_null_string(out, &self.0);
    }
}

/// The image of a list is the images of its elements in order: appending an element
/// appends its image.
pub proof fn lemma_encode_all_push<T: WireEncode>(items: Seq<T>, item: T)
    ensures
        encode_all(items.push(item)) == encode_all(items) + item.spec_encode(),
{
    assert(items.push(item).drop_last() =~= items);
}

/// The image of the concatenation of two lists is the concatenation of their images.
pub proof fn lemma_encode_all_append<T: WireEncode>(a: Seq<T>, b: Seq<T>)
    ensures
        encode_all(a + b) == encode_all(a) + encode_all(b),
    decreases b.len(),
{
    if b.len() == 0 {
        assert(a + b =~= a);
        assert(encode_all(a) + encode_all(b) =~= encode_all(a));
    } else {
        lemma_encode_all_append(a, b.drop_last());
        assert((a + b).drop_last() =~= a + b.drop_last());
        assert((a + b).last() == b.last());
        assert(encode_all(a + b) =~= encode_all(a) + encode_all(b));
    }
}

} // verus!
