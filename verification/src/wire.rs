//! Byte-level building blocks of the world protocol: little-endian integers,
//! the big-endian size field of headers, and NUL-terminated strings.
use vstd::prelude::*;

verus! {

/// Little-endian bytes of a `u16`.
pub open spec fn le_u16(v: u16) -> Seq<u8> {
    seq![(v & 0xff) as u8, ((v >> 8u16) & 0xff) as u8]
}

/// Big-endian bytes of a `u16` (the size field of message headers).
pub open spec fn be_u16(v: u16) -> Seq<u8> {
    seq![((v >> 8u16) & 0xff) as u8, (v & 0xff) as u8]
}

/// Little-endian bytes of a `u32`.
pub open spec fn le_u32(v: u32) -> Seq<u8> {
    seq![
        (v & 0xff) as u8,
        ((v >> 8u32) & 0xff) as u8,
        ((v >> 16u32) & 0xff) as u8,
        ((v >> 24u32) & 0xff) as u8,
    ]
}

/// Little-endian bytes of a `u64`.
pub open spec fn le_u64(v: u64) -> Seq<u8> {
    seq![
        (v & 0xff) as u8,
        ((v >> 8u64) & 0xff) as u8,
        ((v >> 16u64) & 0xff) as u8,
        ((v >> 24u64) & 0xff) as u8,
        ((v >> 32u64) & 0xff) as u8,
        ((v >> 40u64) & 0xff) as u8,
        ((v >> 48u64) & 0xff) as u8,
        ((v >> 56u64) & 0xff) as u8,
    ]
}

/// Little-endian bytes of an `i32` (two's complement).
pub open spec fn le_i32(v: i32) -> Seq<u8> {
    le_u32(v as u32)
}

/// A boolean written as one byte, 1 for true and 0 for false.
pub open spec fn bool_u8(b: bool) -> Seq<u8> {
    seq![if b { 1u8 } else { 0u8 }]
}

/// A boolean written as a little-endian `u32`, 1 for true and 0 for false.
pub open spec fn bool_u32(b: bool) -> Seq<u8> {
    le_u32(if b { 1u32 } else { 0u32 })
}

/// A string written as its bytes followed by a single zero byte.
pub open spec fn null_terminated(s: Seq<u8>) -> Seq<u8> {
    s.push(0u8)
}

/// The `u16` whose little-endian bytes start `b`.
pub open spec fn from_le_u16(b: Seq<u8>) -> u16 {
    (b[0] as u16) | ((b[1] as u16) << 8u16)
}

/// The `u16` whose big-endian bytes start `b`.
pub open spec fn from_be_u16(b: Seq<u8>) -> u16 {
    ((b[0] as u16) << 8u16) | (b[1] as u16)
}

/// The `u32` whose little-endian bytes start `b`.
pub open spec fn from_le_u32(b: Seq<u8>) -> u32 {
    (b[0] as u32) | ((b[1] as u32) << 8u32) | ((b[2] as u32) << 16u32) | ((b[3] as u32) << 24u32)
}

/// The `u64` whose little-endian bytes start `b`.
pub open spec fn from_le_u64(b: Seq<u8>) -> u64 {
    (from_le_u32(b) as u64) | ((from_le_u32(b.subrange(4, 8)) as u64) << 32u64)
}

/// True when no byte of `s` is zero, so that `s` can travel as a NUL-terminated string.
pub open spec fn no_zero_byte(s: Seq<u8>) -> bool {
    forall|i: int| 0 <= i < s.len() ==> #[trigger] s[i] != 0u8
}

/// What reading a NUL-terminated string at `pos` of `data` gives: the bytes before
/// the first zero at or after `pos`, and the position just after that zero; `None`
/// when no zero follows `pos`.
pub open spec fn null_string_at(data: Seq<u8>, pos: int, s: Seq<u8>, next: int) -> bool {
    &&& 0 <= pos
    &&& next == pos + s.len() + 1
    &&& next <= data.len()
    &&& s == data.subrange(pos, pos + s.len())
    &&& no_zero_byte(s)
    &&& data[pos + s.len()] == 0u8
}

/// Appends one byte.
pub fn put_u8(out: &mut Vec<u8>, v: u8)
    ensures
        final(out)@ == old(out)@.push(v),
{
    out.push(v);
}

/// Appends a `u16` in little-endian order.
pub fn put_u16_le(out: &mut Vec<u8>, v: u16)
    ensures
        final(out)@ == old(out)@ + le_u16(v),
{
    out.push((v & 0xff) as u8);
    out.push(((v >> 8u16) & 0xff) as u8);
    assert(out@ =~= old(out)@ + le_u16(v));
}

/// Appends a `u16` in big-endian order.
pub fn put_u16_be(out: &mut Vec<u8>, v: u16)
    ensures
        final(out)@ == old(out)@ + be_u16(v),
{
    out.push(((v >> 8u16) & 0xff) as u8);
    out.push((v & 0xff) as u8);
    assert(out@ =~= old(out)@ + be_u16(v));
}

/// Appends a `u32` in little-endian order.
pub fn put_u32_le(out: &mut Vec<u8>, v: u32)
    ensures
        final(out)@ == old(out)@ + le_u32(v),
{
    out.push((v & 0xff) as u8);
    out.push(((v >> 8u32) & 0xff) as u8);
    out.push(((v >> 16u32) & 0xff) as u8);
    out.push(((v >> 24u32) & 0xff) as u8);
    assert(out@ =~= old(out)@ + le_u32(v));
}

/// Appends an `i32` in little-endian two's complement.
pub fn put_i32_le(out: &mut Vec<u8>, v: i32)
    ensures
        final(out)@ == old(out)@ + le_i32(v),
{
    put_u32_le(out, v as u32);
}

/// Appends a `u64` in little-endian order.
pub fn put_u64_le(out: &mut Vec<u8>, v: u64)
    ensures
        final(out)@ == old(out)@ + le_u64(v),
{
    out.push((v & 0xff) as u8);
    out.push(((v >> 8u64) & 0xff) as u8);
    out.push(((v >> 16u64) & 0xff) as u8);
    out.push(((v >> 24u64) & 0xff) as u8);
    out.push(((v >> 32u64) & 0xff) as u8);
    out.push(((v >> 40u64) & 0xff) as u8);
    out.push(((v >> 48u64) & 0xff) as u8);
    out.push(((v >> 56u64) & 0xff) as u8);
    assert(out@ =~= old(out)@ + le_u64(v));
}

/// Appends a boolean as one byte.
pub fn put_bool_u8(out: &mut Vec<u8>, b: bool)
    ensures
        final(out)@ == old(out)@ + bool_u8(b),
{
    out.push(if b { 1u8 } else { 0u8 });
    assert(out@ =~= old(out)@ + bool_u8(b));
}

/// Appends a boolean as a little-endian `u32`.
pub fn put_bool_u32(out: &mut Vec<u8>, b: bool)
    ensures
        final(out)@ == old(out)@ + bool_u32(b),
{
    put_u32_le(out, if b { 1u32 } else { 0u32 });
}

/// Appends raw bytes.
pub fn put_bytes(out: &mut Vec<u8>, bytes: &[u8])
    ensures
        final(out)@ == old(out)@ + bytes@,
{
    let mut i: usize = 0;
    while i < bytes.len()
        invariant
            i <= bytes.len(),
            out@ == old(out)@ + bytes@.subrange(0, i as int),
        decreases bytes.len() - i,
    {
        out.push(bytes[i]);
        i = i + 1;
        assert(out@ =~= old(out)@ + bytes@.subrange(0, i as int));
    }
    assert(bytes@.subrange(0, bytes.len() as int) =~= bytes@);
}

/// Appends a string followed by its terminating zero byte.
pub fn put_null_string(out: &mut Vec<u8>, s: &Vec<u8>)
    ensures
        final(out)@ == old(out)@ + null_terminated(s@),
{
    put_bytes(out, s.as_slice());
    out.push(0u8);
    assert(out@ =~= old(out)@ + null_terminated(s@));
}

/// Reads the little-endian `u16` at `pos`.
pub fn get_u16_le(data: &[u8], pos: usize) -> (r: u16)
    requires
        pos + 2 <= data@.len(),
    ensures
        r == from_le_u16(data@.subrange(pos as int, pos + 2)),
{
    (data[pos] as u16) | ((data[pos + 1] as u16) << 8u16)
}

/// Reads the big-endian `u16` at `pos`.
pub fn get_u16_be(data: &[u8], pos: usize) -> (r: u16)
    requires
        pos + 2 <= data@.len(),
    ensures
        r == from_be_u16(data@.subrange(pos as int, pos + 2)),
{
    ((data[pos] as u16) << 8u16) | (data[pos + 1] as u16)
}

/// Reads the little-endian `u32` at `pos`.
pub fn get_u32_le(data: &[u8], pos: usize) -> (r: u32)
    requires
        pos + 4 <= data@.len(),
    ensures
        r == from_le_u32(data@.subrange(pos as int, pos + 4)),
{
    (data[pos] as u32) | ((data[pos + 1] as u32) << 8u32) | ((data[pos + 2] as u32) << 16u32) | ((
    data[pos + 3] as u32) << 24u32)
}

/// Reads the little-endian `i32` at `pos`.
pub fn get_i32_le(data: &[u8], pos: usize) -> (r: i32)
    requires
        pos + 4 <= data@.len(),
    ensures
        r as u32 == from_le_u32(data@.subrange(pos as int, pos + 4)),
        r == from_le_u32(data@.subrange(pos as int, pos + 4)) as i32,
{
    let u = get_u32_le(data, pos);
    let r = u as i32;
    assert(r as u32 == u) by (bit_vector)
        requires
            r == u as i32,
    ;
    r
}

/// Reads the little-endian `u64` at `pos`.
pub fn get_u64_le(data: &[u8], pos: usize) -> (r: u64)
    requires
        pos + 8 <= data@.len(),
    ensures
        r == from_le_u64(data@.subrange(pos as int, pos + 8)),
{
    let n = data.len();
    assert(pos + 8 <= n);
    let lo = get_u32_le(data, pos);
    let hi = get_u32_le(data, pos + 4);
    let ghost b = data@.subrange(pos as int, pos + 8);
    assert(b.subrange(0, 4) =~= data@.subrange(pos as int, pos + 4));
    assert(b.subrange(4, 8) =~= data@.subrange(pos + 4, pos + 8));
    (lo as u64) | ((hi as u64) << 32u64)
}

/// Reads a NUL-terminated string starting at `pos`: the bytes up to the first zero
/// and the position just after it, or `None` when the data ends first.
pub fn get_null_string(data: &[u8], pos: usize) -> (r: Option<(Vec<u8>, usize)>)
    requires
        pos <= data@.len(),
    ensures
        r matches Some((s, next)) ==> null_string_at(data@, pos as int, s@, next as int),
        r is None <==> no_zero_byte(data@.subrange(pos as int, data@.len() as int)),
        r is None ==> forall|t: Seq<u8>, n: int| !null_string_at(data@, pos as int, t, n),
{
    let mut s: Vec<u8> = Vec::new();
    let mut i: usize = pos;
    while i < data.len()
        invariant
            pos <= i <= data@.len(),
            s@ == data@.subrange(pos as int, i as int),
            no_zero_byte(s@),
        decreases data@.len() - i,
    {
        if data[i] == 0 {
            assert(data@.subrange(pos as int, data@.len() as int)[i - pos] == 0u8);
            return Some((s, i + 1));
        }
        s.push(data[i]);
        i = i + 1;
        assert(s@ =~= data@.subrange(pos as int, i as int));
    }
    assert(s@ =~= data@.subrange(pos as int, data@.len() as int));
    assert forall|t: Seq<u8>, n: int| !null_string_at(data@, pos as int, t, n) by {
        if null_string_at(data@, pos as int, t, n) {
            assert(data@.subrange(pos as int, data@.len() as int)[t.len() as int] == 0u8);
        }
    }
    None
}

/// At a given position there is at most one NUL-terminated string: its bytes and
/// the position after it are fixed by the data.
pub proof fn lemma_null_string_unique(data: Seq<u8>, pos: int, s1: Seq<u8>, n1: int, s2: Seq<u8>, n2: int)
    requires
        null_string_at(data, pos, s1, n1),
        null_string_at(data, pos, s2, n2),
    ensures
        s1 == s2,
        n1 == n2,
{
    if s1.len() < s2.len() {
        assert(s2[s1.len() as int] == data[pos + s1.len()]);
    } else if s2.len() < s1.len() {
        assert(s1[s2.len() as int] == data[pos + s2.len()]);
    }
    assert(s1 =~= s2);
}

/// Reading a little-endian `u16` gives back the value that was written.
pub proof fn lemma_le_u16_roundtrip(v: u16)
    ensures
        le_u16(v).len() == 2,
        from_le_u16(le_u16(v)) == v,
{
    let b0 = (v & 0xff) as u8;
    let b1 = ((v >> 8u16) & 0xff) as u8;
    assert((b0 as u16) | ((b1 as u16) << 8u16) == v) by (bit_vector)
        requires
            b0 == (v & 0xff) as u8,
            b1 == ((v >> 8u16) & 0xff) as u8,
    ;
}

/// Reading a big-endian `u16` gives back the value that was written.
pub proof fn lemma_be_u16_roundtrip(v: u16)
    ensures
        be_u16(v).len() == 2,
        from_be_u16(be_u16(v)) == v,
{
    let b0 = ((v >> 8u16) & 0xff) as u8;
    let b1 = (v & 0xff) as u8;
    assert(((b0 as u16) << 8u16) | (b1 as u16) == v) by (bit_vector)
        requires
            b0 == ((v >> 8u16) & 0xff) as u8,
            b1 == (v & 0xff) as u8,
    ;
}

/// Reading a little-endian `u32` gives back the value that was written.
pub proof fn lemma_le_u32_roundtrip(v: u32)
    ensures
        le_u32(v).len() == 4,
        from_le_u32(le_u32(v)) == v,
{
    let b0 = (v & 0xff) as u8;
    let b1 = ((v >> 8u32) & 0xff) as u8;
    let b2 = ((v >> 16u32) & 0xff) as u8;
    let b3 = ((v >> 24u32) & 0xff) as u8;
    assert((b0 as u32) | ((b1 as u32) << 8u32) | ((b2 as u32) << 16u32) | ((b3 as u32) << 24u32)
        == v) by (bit_vector)
        requires
            b0 == (v & 0xff) as u8,
            b1 == ((v >> 8u32) & 0xff) as u8,
            b2 == ((v >> 16u32) & 0xff) as u8,
            b3 == ((v >> 24u32) & 0xff) as u8,
    ;
}

/// Writing the `u32` read from four bytes gives back those bytes.
pub proof fn lemma_le_u32_bytes_roundtrip(b: Seq<u8>)
    requires
        b.len() == 4,
    ensures
        le_u32(from_le_u32(b)) == b,
{
    let b0 = b[0];
    let b1 = b[1];
    let b2 = b[2];
    let b3 = b[3];
    let x = from_le_u32(b);
    assert(x == (b0 as u32) | ((b1 as u32) << 8u32) | ((b2 as u32) << 16u32) | ((b3 as u32)
        << 24u32));
    assert((x & 0xff) as u8 == b0 && ((x >> 8u32) & 0xff) as u8 == b1 && ((x >> 16u32) & 0xff) as u8
        == b2 && ((x >> 24u32) & 0xff) as u8 == b3) by (bit_vector)
        requires
            x == (b0 as u32) | ((b1 as u32) << 8u32) | ((b2 as u32) << 16u32) | ((b3 as u32)
                << 24u32),
    ;
    assert(le_u32(x) =~= b);
}

/// Reading a little-endian `u64` gives back the value that was written.
pub proof fn lemma_le_u64_roundtrip(v: u64)
    ensures
        le_u64(v).len() == 8,
        from_le_u64(le_u64(v)) == v,
{
    let b = le_u64(v);
    let lo = from_le_u32(b);
    let hi = from_le_u32(b.subrange(4, 8));
    let b0 = b[0];
    let b1 = b[1];
    let b2 = b[2];
    let b3 = b[3];
    let b4 = b[4];
    let b5 = b[5];
    let b6 = b[6];
    let b7 = b[7];
    assert(lo == (b0 as u32) | ((b1 as u32) << 8u32) | ((b2 as u32) << 16u32) | ((b3 as u32)
        << 24u32));
    assert(hi == (b4 as u32) | ((b5 as u32) << 8u32) | ((b6 as u32) << 16u32) | ((b7 as u32)
        << 24u32));
    assert((lo as u64) | ((hi as u64) << 32u64) == v) by (bit_vector)
        requires
            b0 == (v & 0xff) as u8,
            b1 == ((v >> 8u64) & 0xff) as u8,
            b2 == ((v >> 16u64) & 0xff) as u8,
            b3 == ((v >> 24u64) & 0xff) as u8,
            b4 == ((v >> 32u64) & 0xff) as u8,
            b5 == ((v >> 40u64) & 0xff) as u8,
            b6 == ((v >> 48u64) & 0xff) as u8,
            b7 == ((v >> 56u64) & 0xff) as u8,
            lo == (b0 as u32) | ((b1 as u32) << 8u32) | ((b2 as u32) << 16u32) | ((b3 as u32)
                << 24u32),
            hi == (b4 as u32) | ((b5 as u32) << 8u32) | ((b6 as u32) << 16u32) | ((b7 as u32)
                << 24u32),
    ;
}

/// A string without zero bytes, written NUL-terminated and followed by anything,
/// is read back as exactly that string.
pub proof fn lemma_null_string_roundtrip(s: Seq<u8>, rest: Seq<u8>)
    requires
        no_zero_byte(s),
    ensures
        null_string_at(null_terminated(s) + rest, 0, s, s.len() + 1int),
{
    let data = null_terminated(s) + rest;
    assert(data.subrange(0, s.len() as int) =~= s);
}

} // verus!
