//! Byte-level encodings shared by the message codec and the framing layer:
//! fixed-width integers, booleans, length-prefixed byte strings and text.
//!
//! Every parser is a total function of a byte sequence and a position. It
//! either yields a value together with the position just behind it, or says
//! why the bytes at that position are not an encoding.

use vstd::prelude::*;
use vstd::utf8::*;

verus! {

/// Why a byte sequence is not the encoding of a value.
#[derive(Debug, Clone, Copy, PartialEq, Eq, Structural)]
pub enum WireError {
    /// The input ends before the value is complete.
    Truncated,
    /// A variant index, an option marker or a boolean byte is out of range.
    InvalidTag,
    /// A text field does not hold UTF-8.
    InvalidText,
    /// A fixed-size field carries a length prefix of another size.
    InvalidLength,
}

impl WireError {
    /// The sentence that describes the error.
    pub open spec fn text(self) -> Seq<char> {
        match self {
            WireError::Truncated => "unexpected end of message"@,
            WireError::InvalidTag => "invalid tag"@,
            WireError::InvalidText => "text is not valid UTF-8"@,
            WireError::InvalidLength => "invalid field length"@,
        }
    }

    /// The sentence that describes the error.
    pub fn describe(&self) -> (text: String)
        ensures
            text@ == self.text(),
    {
        match self {
            WireError::Truncated => "unexpected end of message".to_owned(),
            WireError::InvalidTag => "invalid tag".to_owned(),
            WireError::InvalidText => "text is not valid UTF-8".to_owned(),
            WireError::InvalidLength => "invalid field length".to_owned(),
        }
    }
}

// ---------------------------------------------------------------------------
// Integers as digits to the base 256
// ---------------------------------------------------------------------------

/// The `width` least significant base-256 digits of `v`, least significant first.
pub open spec fn le_bytes(v: int, width: nat) -> Seq<u8>
    decreases width,
{
    if width == 0 {
        Seq::empty()
    } else {
        seq![(v % 256) as u8] + le_bytes(v / 256, (width - 1) as nat)
    }
}

/// The number whose base-256 digits, least significant first, are `s`.
pub open spec fn le_value(s: Seq<u8>) -> int
    decreases s.len(),
{
    if s.len() == 0 {
        0
    } else {
        s[0] as int + 256 * le_value(s.drop_first())
    }
}

/// The `width` least significant base-256 digits of `v`, most significant first.
pub open spec fn be_bytes(v: int, width: nat) -> Seq<u8> {
    le_bytes(v, width).reverse()
}

/// The number whose base-256 digits, most significant first, are `s`.
pub open spec fn be_value(s: Seq<u8>) -> int {
    le_value(s.reverse())
}

/// `v` with its `width` least significant base-256 digits removed.
pub open spec fn drop_digits(v: int, width: nat) -> int
    decreases width,
{
    if width == 0 {
        v
    } else {
        drop_digits(v / 256, (width - 1) as nat)
    }
}

/// Writing `width` digits gives `width` bytes.
pub(crate) proof fn lemma_le_bytes_len(v: int, width: nat)
    ensures
        le_bytes(v, width).len() == width,
    decreases width,
{
    if width > 0 {
        lemma_le_bytes_len(v / 256, (width - 1) as nat);
    }
}

/// Digits read back give the number, if the number has no more digits than that.
pub(crate) proof fn lemma_le_value_of_bytes(v: int, width: nat)
    requires
        v >= 0,
        drop_digits(v, width) == 0,
    ensures
        le_value(le_bytes(v, width)) == v,
    decreases width,
{
    if width > 0 {
        let rest = le_bytes(v / 256, (width - 1) as nat);
        lemma_le_value_of_bytes(v / 256, (width - 1) as nat);
        assert(le_bytes(v, width).drop_first() =~= rest);
    }
}

/// A number read from digits is non-negative and has no more digits than were read.
pub(crate) proof fn lemma_le_value_bounds(s: Seq<u8>)
    ensures
        le_value(s) >= 0,
        drop_digits(le_value(s), s.len()) == 0,
    decreases s.len(),
{
    if s.len() > 0 {
        lemma_le_value_bounds(s.drop_first());
    }
}

/// A number read from digits and written again gives the same digits.
pub(crate) proof fn lemma_le_bytes_of_value(s: Seq<u8>)
    ensures
        le_bytes(le_value(s), s.len()) == s,
    decreases s.len(),
{
    if s.len() > 0 {
        lemma_le_bytes_of_value(s.drop_first());
        lemma_le_value_bounds(s.drop_first());
        assert(le_bytes(le_value(s), s.len()) =~= s);
    }
}

/// A `u32` has no more than four digits.
pub(crate) proof fn lemma_u32_has_four_digits(v: int)
    requires
        0 <= v <= u32::MAX,
    ensures
        drop_digits(v, 4) == 0,
{
    reveal_with_fuel(drop_digits, 5);
}

/// A `u64` has no more than eight digits.
pub(crate) proof fn lemma_u64_has_eight_digits(v: int)
    requires
        0 <= v <= u64::MAX,
    ensures
        drop_digits(v, 8) == 0,
{
    reveal_with_fuel(drop_digits, 9);
}

/// Four digits make a number that fits a `u32`.
pub(crate) proof fn lemma_four_digits_fit_u32(s: Seq<u8>)
    requires
        s.len() == 4,
    ensures
        0 <= le_value(s) <= u32::MAX,
{
    lemma_le_value_bounds(s);
    reveal_with_fuel(drop_digits, 5);
}

/// Eight digits make a number that fits a `u64`.
pub(crate) proof fn lemma_eight_digits_fit_u64(s: Seq<u8>)
    requires
        s.len() == 8,
    ensures
        0 <= le_value(s) <= u64::MAX,
{
    lemma_le_value_bounds(s);
    reveal_with_fuel(drop_digits, 9);
}

// ---------------------------------------------------------------------------
// Encodings
// ---------------------------------------------------------------------------

/// A `u32` as four bytes, least significant first.
pub open spec fn u32_encoding(v: u32) -> Seq<u8> {
    le_bytes(v as int, 4)
}

/// A `u64` as eight bytes, least significant first.
pub open spec fn u64_encoding(v: u64) -> Seq<u8> {
    le_bytes(v as int, 8)
}

/// The two's complement bit pattern of an `i32`.
pub open spec fn i32_bits(v: i32) -> u32 {
    if v >= 0 {
        v as u32
    } else {
        (v + 0x1_0000_0000) as u32
    }
}

/// The `i32` with the given two's complement bit pattern.
pub open spec fn bits_i32(bits: u32) -> i32 {
    if bits < 0x8000_0000 {
        bits as i32
    } else {
        (bits - 0x1_0000_0000) as i32
    }
}

/// An `i32` as the four bytes of its bit pattern, least significant first.
pub open spec fn i32_encoding(v: i32) -> Seq<u8> {
    u32_encoding(i32_bits(v))
}

/// A boolean as one byte, 1 for true and 0 for false.
pub open spec fn bool_encoding(b: bool) -> Seq<u8> {
    seq![if b { 1u8 } else { 0u8 }]
}

/// A byte string as its length in eight bytes, then the bytes themselves.
pub open spec fn bytes_encoding(b: Seq<u8>) -> Seq<u8> {
    u64_encoding(b.len() as u64) + b
}

/// A text as the byte string of its UTF-8 form.
pub open spec fn text_encoding(t: Seq<char>) -> Seq<u8> {
    bytes_encoding(encode_utf8(t))
}

/// An optional text: a zero byte for none, a one byte and the text otherwise.
pub open spec fn optional_text_encoding(t: Option<Seq<char>>) -> Seq<u8> {
    match t {
        None => seq![0u8],
        Some(text) => seq![1u8] + text_encoding(text),
    }
}

/// True if a byte string is short enough for its length to be written in
/// eight bytes. Every `Vec<u8>` is.
pub open spec fn bytes_encodable(b: Seq<u8>) -> bool {
    b.len() <= u64::MAX
}

/// True if the UTF-8 form of a text is short enough for its length to be
/// written in eight bytes. Every `String` is.
pub open spec fn text_encodable(t: Seq<char>) -> bool {
    bytes_encodable(encode_utf8(t))
}

// ---------------------------------------------------------------------------
// Parsers
// ---------------------------------------------------------------------------

/// The `u32` that stands at `pos`, and the position behind it.
pub open spec fn parse_u32(s: Seq<u8>, pos: int) -> Result<(u32, int), WireError> {
    if pos + 4 > s.len() {
        Err(WireError::Truncated)
    } else {
        Ok((le_value(s.subrange(pos, pos + 4)) as u32, pos + 4))
    }
}

/// The `u64` that stands at `pos`, and the position behind it.
pub open spec fn parse_u64(s: Seq<u8>, pos: int) -> Result<(u64, int), WireError> {
    if pos + 8 > s.len() {
        Err(WireError::Truncated)
    } else {
        Ok((le_value(s.subrange(pos, pos + 8)) as u64, pos + 8))
    }
}

/// The `i32` that stands at `pos`, and the position behind it.
pub open spec fn parse_i32(s: Seq<u8>, pos: int) -> Result<(i32, int), WireError> {
    match parse_u32(s, pos) {
        Err(e) => Err(e),
        Ok((bits, next)) => Ok((bits_i32(bits), next)),
    }
}

/// The boolean that stands at `pos`, and the position behind it. Only
/// the bytes 0 and 1 stand for a boolean.
pub open spec fn parse_bool(s: Seq<u8>, pos: int) -> Result<(bool, int), WireError> {
    if pos + 1 > s.len() {
        Err(WireError::Truncated)
    } else if s[pos] == 0 {
        Ok((false, pos + 1))
    } else if s[pos] == 1 {
        Ok((true, pos + 1))
    } else {
        Err(WireError::InvalidTag)
    }
}

/// The byte string that stands at `pos`, and the position behind it.
pub open spec fn parse_bytes(s: Seq<u8>, pos: int) -> Result<(Seq<u8>, int), WireError> {
    match parse_u64(s, pos) {
        Err(e) => Err(e),
        Ok((len, start)) => if start + len > s.len() {
            Err(WireError::Truncated)
        } else {
            Ok((s.subrange(start, start + len), start + len))
        },
    }
}

/// The text that stands at `pos`, and the position behind it. The bytes
/// of a text have to be UTF-8.
pub open spec fn parse_text(s: Seq<u8>, pos: int) -> Result<(Seq<char>, int), WireError> {
    match parse_bytes(s, pos) {
        Err(e) => Err(e),
        Ok((raw, next)) => if valid_utf8(raw) {
            Ok((decode_utf8(raw), next))
        } else {
            Err(WireError::InvalidText)
        },
    }
}

/// The optional text that stands at `pos`, and the position behind it.
/// Only the markers 0 and 1 stand for an option.
pub open spec fn parse_optional_text(s: Seq<u8>, pos: int) -> Result<
    (Option<Seq<char>>, int),
    WireError,
> {
    if pos + 1 > s.len() {
        Err(WireError::Truncated)
    } else if s[pos] == 0 {
        Ok((None, pos + 1))
    } else if s[pos] == 1 {
        match parse_text(s, pos + 1) {
            Err(e) => Err(e),
            Ok((text, next)) => Ok((Some(text), next)),
        }
    } else {
        Err(WireError::InvalidTag)
    }
}

// ---------------------------------------------------------------------------
// What is parsed where an encoding stands
// ---------------------------------------------------------------------------

/// True if the bytes of `s` from `pos` on begin with `enc`.
pub open spec fn holds_at(s: Seq<u8>, pos: int, enc: Seq<u8>) -> bool {
    &&& 0 <= pos
    &&& pos + enc.len() <= s.len()
    &&& s.subrange(pos, pos + enc.len()) == enc
}

/// Where two encodings stand one behind the other, each of them stands.
pub(crate) proof fn lemma_holds_at_split(s: Seq<u8>, pos: int, a: Seq<u8>, b: Seq<u8>)
    requires
        holds_at(s, pos, a + b),
    ensures
        holds_at(s, pos, a),
        holds_at(s, pos + a.len(), b),
{
    let whole = s.subrange(pos, pos + (a + b).len());
    assert(s.subrange(pos, pos + a.len()) =~= whole.subrange(0, a.len() as int));
    assert(whole.subrange(0, a.len() as int) =~= a);
    assert(s.subrange(pos + a.len(), pos + a.len() + b.len()) =~= whole.subrange(
        a.len() as int,
        (a + b).len() as int,
    ));
    assert(whole.subrange(a.len() as int, (a + b).len() as int) =~= b);
}

/// A byte sequence begins with itself.
pub(crate) proof fn lemma_holds_at_whole(s: Seq<u8>)
    ensures
        holds_at(s, 0, s),
{
    assert(s.subrange(0, s.len() as int) =~= s);
}

/// Where the encoding of a `u32` stands, the parser reads that number.
pub(crate) proof fn lemma_parse_u32_of_encoding(s: Seq<u8>, pos: int, v: u32)
    requires
        holds_at(s, pos, u32_encoding(v)),
    ensures
        parse_u32(s, pos) == Ok::<(u32, int), WireError>((v, pos + 4)),
{
    lemma_le_bytes_len(v as int, 4);
    lemma_u32_has_four_digits(v as int);
    lemma_le_value_of_bytes(v as int, 4);
}

/// Where the encoding of a `u64` stands, the parser reads that number.
pub(crate) proof fn lemma_parse_u64_of_encoding(s: Seq<u8>, pos: int, v: u64)
    requires
        holds_at(s, pos, u64_encoding(v)),
    ensures
        parse_u64(s, pos) == Ok::<(u64, int), WireError>((v, pos + 8)),
{
    lemma_le_bytes_len(v as int, 8);
    lemma_u64_has_eight_digits(v as int);
    lemma_le_value_of_bytes(v as int, 8);
}

/// Where the encoding of an `i32` stands, the parser reads that number.
pub(crate) proof fn lemma_parse_i32_of_encoding(s: Seq<u8>, pos: int, v: i32)
    requires
        holds_at(s, pos, i32_encoding(v)),
    ensures
        parse_i32(s, pos) == Ok::<(i32, int), WireError>((v, pos + 4)),
{
    lemma_parse_u32_of_encoding(s, pos, i32_bits(v));
}

/// Where the encoding of a boolean stands, the parser reads that boolean.
pub(crate) proof fn lemma_parse_bool_of_encoding(s: Seq<u8>, pos: int, b: bool)
    requires
        holds_at(s, pos, bool_encoding(b)),
    ensures
        parse_bool(s, pos) == Ok::<(bool, int), WireError>((b, pos + 1)),
{
    assert(s.subrange(pos, pos + 1)[0] == bool_encoding(b)[0]);
}

/// Where the encoding of a byte string stands, the parser reads that
/// byte string.
pub(crate) proof fn lemma_parse_bytes_of_encoding(s: Seq<u8>, pos: int, b: Seq<u8>)
    requires
        bytes_encodable(b),
        holds_at(s, pos, bytes_encoding(b)),
    ensures
        parse_bytes(s, pos) == Ok::<(Seq<u8>, int), WireError>((b, pos + 8 + b.len())),
{
    let prefix = u64_encoding(b.len() as u64);
    lemma_le_bytes_len(b.len() as int, 8);
    lemma_holds_at_split(s, pos, prefix, b);
    lemma_parse_u64_of_encoding(s, pos, b.len() as u64);
}

/// Where the encoding of a text stands, the parser reads that text.
pub(crate) proof fn lemma_parse_text_of_encoding(s: Seq<u8>, pos: int, t: Seq<char>)
    requires
        text_encodable(t),
        holds_at(s, pos, text_encoding(t)),
    ensures
        parse_text(s, pos) == Ok::<(Seq<char>, int), WireError>(
            (t, pos + text_encoding(t).len()),
        ),
{
    lemma_le_bytes_len(encode_utf8(t).len() as int, 8);
    lemma_parse_bytes_of_encoding(s, pos, encode_utf8(t));
    encode_utf8_valid_utf8(t);
    encode_utf8_decode_utf8(t);
}

/// Where the encoding of an optional text stands, the parser reads that
/// optional text.
pub(crate) proof fn lemma_parse_optional_text_of_encoding(
    s: Seq<u8>,
    pos: int,
    t: Option<Seq<char>>,
)
    requires
        t matches Some(text) ==> text_encodable(text),
        holds_at(s, pos, optional_text_encoding(t)),
    ensures
        parse_optional_text(s, pos) == Ok::<(Option<Seq<char>>, int), WireError>(
            (t, pos + optional_text_encoding(t).len()),
        ),
{
    let enc = optional_text_encoding(t);
    assert(s.subrange(pos, pos + enc.len())[0] == enc[0]);
    match t {
        None => {},
        Some(text) => {
            lemma_holds_at_split(s, pos, seq![1u8], text_encoding(text));
            lemma_parse_text_of_encoding(s, pos + 1, text);
        },
    }
}

// ---------------------------------------------------------------------------
// Writing
// ---------------------------------------------------------------------------

/// Appends the `width` least significant base-256 digits of `v`, least
/// significant first.
pub(crate) fn write_digits(out: &mut Vec<u8>, v: u128, width: usize)
    ensures
        final(out)@ == old(out)@ + le_bytes(v as int, width as nat),
{
    let ghost start = out@;
    let mut rest = v;
    let mut i: usize = 0;
    while i < width
        invariant
            i <= width,
            start + le_bytes(v as int, width as nat) == out@ + le_bytes(
                rest as int,
                (width - i) as nat,
            ),
        decreases width - i,
    {
        let ghost before = out@;
        out.push((rest % 256) as u8);
        proof {
            assert(before + le_bytes(rest as int, (width - i) as nat) =~= out@ + le_bytes(
                rest as int / 256,
                (width - i - 1) as nat,
            ));
        }
        rest = rest / 256;
        i = i + 1;
    }
    proof {
        assert(out@ + le_bytes(rest as int, 0) =~= out@);
    }
}

/// Appends the four-byte encoding of `v`.
pub(crate) fn write_u32(out: &mut Vec<u8>, v: u32)
    ensures
        final(out)@ == old(out)@ + u32_encoding(v),
{
    write_digits(out, v as u128, 4)
}

/// Appends the eight-byte encoding of `v`.
pub(crate) fn write_u64(out: &mut Vec<u8>, v: u64)
    ensures
        final(out)@ == old(out)@ + u64_encoding(v),
{
    write_digits(out, v as u128, 8)
}

/// Appends the four-byte encoding of `v`.
pub(crate) fn write_i32(out: &mut Vec<u8>, v: i32)
    ensures
        final(out)@ == old(out)@ + i32_encoding(v),
{
    let bits: u32 = if v >= 0 {
        v as u32
    } else {
        (v as i64 + 0x1_0000_0000i64) as u32
    };
    write_u32(out, bits)
}

/// Appends the one-byte encoding of `b`.
pub(crate) fn write_bool(out: &mut Vec<u8>, b: bool)
    ensures
        final(out)@ == old(out)@ + bool_encoding(b),
{
    let ghost before = out@;
    out.push(if b { 1u8 } else { 0u8 });
    proof {
        assert(out@ =~= before + bool_encoding(b));
    }
}

/// Appends `bytes` as they are.
pub(crate) fn write_raw(out: &mut Vec<u8>, bytes: &[u8])
    ensures
        final(out)@ == old(out)@ + bytes@,
{
    let ghost before = out@;
    out.extend_from_slice(bytes);
    proof {
        assert(out@ =~= before + bytes@);
    }
}

/// Appends the length-prefixed encoding of `bytes`.
pub(crate) fn write_bytes(out: &mut Vec<u8>, bytes: &[u8])
    ensures
        final(out)@ == old(out)@ + bytes_encoding(bytes@),
        bytes_encodable(bytes@),
{
    let ghost before = out@;
    write_u64(out, bytes.len() as u64);
    write_raw(out, bytes);
    proof {
        assert(out@ =~= before + bytes_encoding(bytes@));
    }
}

/// Appends the encoding of `text`.
pub(crate) fn write_text(out: &mut Vec<u8>, text: &str)
    ensures
        final(out)@ == old(out)@ + text_encoding(text@),
        text_encodable(text@),
{
    write_bytes(out, text.as_bytes())
}

/// Appends the encoding of an optional text.
pub(crate) fn write_optional_text(out: &mut Vec<u8>, text: &Option<String>)
    ensures
        final(out)@ == old(out)@ + optional_text_encoding(
            match *text {
                Some(t) => Some(t@),
                None => None,
            },
        ),
        *text matches Some(t) ==> text_encodable(t@),
{
    let ghost before = out@;
    match text {
        None => {
            out.push(0u8);
            proof {
                assert(out@ =~= before + seq![0u8]);
            }
        },
        Some(t) => {
            out.push(1u8);
            write_text(out, t.as_str());
            proof {
                assert(out@ =~= before + (seq![1u8] + text_encoding(t@)));
            }
        },
    }
}

// ---------------------------------------------------------------------------
// Reading
// ---------------------------------------------------------------------------

/// True if what a reader returned is what the parser says of the same bytes.
pub open spec fn read_agrees<T>(
    res: Result<(T, usize), WireError>,
    parsed: Result<(T, int), WireError>,
) -> bool {
    match res {
        Ok((v, next)) => parsed == Ok::<(T, int), WireError>((v, next as int)),
        Err(e) => parsed == Err::<(T, int), WireError>(e),
    }
}

/// The number that four digits make, written out.
pub(crate) proof fn lemma_le_value_four(s: Seq<u8>)
    requires
        s.len() == 4,
    ensures
        le_value(s) == s[0] + 256 * (s[1] + 256 * (s[2] + 256 * s[3])),
{
    let s1 = s.drop_first();
    let s2 = s1.drop_first();
    let s3 = s2.drop_first();
    assert(le_value(s3.drop_first()) == 0);
    assert(le_value(s3) == s[3]);
    assert(le_value(s2) == s[2] + 256 * le_value(s3));
    assert(le_value(s1) == s[1] + 256 * le_value(s2));
}

/// Four low digits and the digits above them.
pub(crate) proof fn lemma_le_value_split_four(lo: Seq<u8>, hi: Seq<u8>)
    requires
        lo.len() == 4,
    ensures
        le_value(lo + hi) == le_value(lo) + 0x1_0000_0000 * le_value(hi),
{
    let s = lo + hi;
    let s1 = s.drop_first();
    let s2 = s1.drop_first();
    let s3 = s2.drop_first();
    assert(s3.drop_first() =~= hi);
    lemma_le_value_four(lo);
    assert(le_value(s3) == lo[3] + 256 * le_value(hi));
    assert(le_value(s2) == lo[2] + 256 * le_value(s3));
    assert(le_value(s1) == lo[1] + 256 * le_value(s2));
    assert(le_value(s) == lo[0] + 256 * le_value(s1));
}

/// Reads four bytes as a `u32`.
pub(crate) fn read_u32(data: &[u8], pos: usize) -> (res: Result<(u32, usize), WireError>)
    requires
        pos <= data@.len(),
    ensures
        read_agrees(res, parse_u32(data@, pos as int)),
        res matches Ok((_, next)) ==> pos <= next <= data@.len(),
{
    if data.len() - pos < 4 {
        return Err(WireError::Truncated);
    }
    let b0 = data[pos] as u32;
    let b1 = data[pos + 1] as u32;
    let b2 = data[pos + 2] as u32;
    let b3 = data[pos + 3] as u32;
    let v = b0 + 256 * (b1 + 256 * (b2 + 256 * b3));
    proof {
        lemma_le_value_four(data@.subrange(pos as int, pos + 4));
    }
    Ok((v, pos + 4))
}

/// Reads eight bytes as a `u64`.
pub(crate) fn read_u64(data: &[u8], pos: usize) -> (res: Result<(u64, usize), WireError>)
    requires
        pos <= data@.len(),
    ensures
        read_agrees(res, parse_u64(data@, pos as int)),
        res matches Ok((_, next)) ==> pos <= next <= data@.len(),
{
    if data.len() - pos < 8 {
        return Err(WireError::Truncated);
    }
    let b0 = data[pos] as u64;
    let b1 = data[pos + 1] as u64;
    let b2 = data[pos + 2] as u64;
    let b3 = data[pos + 3] as u64;
    let b4 = data[pos + 4] as u64;
    let b5 = data[pos + 5] as u64;
    let b6 = data[pos + 6] as u64;
    let b7 = data[pos + 7] as u64;
    let low = b0 + 256 * (b1 + 256 * (b2 + 256 * b3));
    let high = b4 + 256 * (b5 + 256 * (b6 + 256 * b7));
    let v = low + 0x1_0000_0000 * high;
    proof {
        let s = data@.subrange(pos as int, pos + 8);
        let lo = s.subrange(0, 4);
        let hi = s.subrange(4, 8);
        assert(s =~= lo + hi);
        lemma_le_value_four(lo);
        lemma_le_value_four(hi);
        lemma_le_value_split_four(lo, hi);
    }
    Ok((v, pos + 8))
}

/// Reads four bytes as an `i32`.
pub(crate) fn read_i32(data: &[u8], pos: usize) -> (res: Result<(i32, usize), WireError>)
    requires
        pos <= data@.len(),
    ensures
        read_agrees(res, parse_i32(data@, pos as int)),
        res matches Ok((_, next)) ==> pos <= next <= data@.len(),
{
    match read_u32(data, pos) {
        Err(e) => Err(e),
        Ok((bits, next)) => {
            let v: i32 = if bits < 0x8000_0000 {
                bits as i32
            } else {
                (bits as i64 - 0x1_0000_0000i64) as i32
            };
            Ok((v, next))
        },
    }
}

/// Reads one byte as a boolean.
pub(crate) fn read_bool(data: &[u8], pos: usize) -> (res: Result<(bool, usize), WireError>)
    requires
        pos <= data@.len(),
    ensures
        read_agrees(res, parse_bool(data@, pos as int)),
        res matches Ok((_, next)) ==> pos <= next <= data@.len(),
{
    if data.len() - pos < 1 {
        return Err(WireError::Truncated);
    }
    let b = data[pos];
    if b == 0 {
        Ok((false, pos + 1))
    } else if b == 1 {
        Ok((true, pos + 1))
    } else {
        Err(WireError::InvalidTag)
    }
}

/// Reads a length-prefixed byte string.
pub(crate) fn read_bytes(data: &[u8], pos: usize) -> (res: Result<(Vec<u8>, usize), WireError>)
    requires
        pos <= data@.len(),
    ensures
        match res {
            Ok((bytes, next)) => parse_bytes(data@, pos as int) == Ok::<
                (Seq<u8>, int),
                WireError,
            >((bytes@, next as int)) && pos <= next <= data@.len(),
            Err(e) => parse_bytes(data@, pos as int) == Err::<(Seq<u8>, int), WireError>(e),
        },
{
    match read_u64(data, pos) {
        Err(e) => Err(e),
        Ok((len, start)) => {
            if len > (data.len() - start) as u64 {
                return Err(WireError::Truncated);
            }
            let end = start + len as usize;
            let bytes = vstd::slice::slice_to_vec(vstd::slice::slice_subrange(data, start, end));
            Ok((bytes, end))
        },
    }
}

/// `String::from_utf8`: the text that a byte vector holds in UTF-8, or nothing
/// where the bytes are not valid UTF-8.
#[verifier::external_body]
fn text_from_utf8(bytes: Vec<u8>) -> (text: Option<String>)
    ensures
        text is Some <==> valid_utf8(bytes@),
        text matches Some(t) ==> t@ == decode_utf8(bytes@),
{
    match String::from_utf8(bytes) {
        Ok(t) => Some(t),
        Err(_) => None,
    }
}

/// Reads a text.
pub(crate) fn read_text(data: &[u8], pos: usize) -> (res: Result<(String, usize), WireError>)
    requires
        pos <= data@.len(),
    ensures
        match res {
            Ok((text, next)) => parse_text(data@, pos as int) == Ok::<
                (Seq<char>, int),
                WireError,
            >((text@, next as int)) && pos <= next <= data@.len(),
            Err(e) => parse_text(data@, pos as int) == Err::<(Seq<char>, int), WireError>(e),
        },
{
    match read_bytes(data, pos) {
        Err(e) => Err(e),
        Ok((raw, next)) => match text_from_utf8(raw) {
            Some(text) => Ok((text, next)),
            None => Err(WireError::InvalidText),
        },
    }
}

/// Reads an optional text.
pub(crate) fn read_optional_text(data: &[u8], pos: usize) -> (res: Result<
    (Option<String>, usize),
    WireError,
>)
    requires
        pos <= data@.len(),
    ensures
        match res {
            Ok((text, next)) => parse_optional_text(data@, pos as int) == Ok::<
                (Option<Seq<char>>, int),
                WireError,
            >(
                (
                    match text {
                        Some(t) => Some(t@),
                        None => None,
                    },
                    next as int,
                ),
            ) && pos <= next <= data@.len(),
            Err(e) => parse_optional_text(data@, pos as int) == Err::<
                (Option<Seq<char>>, int),
                WireError,
            >(e),
        },
{
    if data.len() - pos < 1 {
        return Err(WireError::Truncated);
    }
    let marker = data[pos];
    if marker == 0 {
        Ok((None, pos + 1))
    } else if marker == 1 {
        match read_text(data, pos + 1) {
            Err(e) => Err(e),
            Ok((text, next)) => Ok((Some(text), next)),
        }
    } else {
        Err(WireError::InvalidTag)
    }
}

// ---------------------------------------------------------------------------
// Most significant digit first
// ---------------------------------------------------------------------------

/// One more digit behind the least significant one.
pub(crate) proof fn lemma_be_value_push(s: Seq<u8>, b: u8)
    ensures
        be_value(s.push(b)) == b + 256 * be_value(s),
{
    assert(s.push(b).reverse().drop_first() =~= s.reverse());
}

/// Digits written most significant first and read back give the number,
/// if the number has no more digits than that.
pub(crate) proof fn lemma_be_value_of_bytes(v: int, width: nat)
    requires
        v >= 0,
        drop_digits(v, width) == 0,
    ensures
        be_value(be_bytes(v, width)) == v,
        be_bytes(v, width).len() == width,
{
    lemma_le_bytes_len(v, width);
    lemma_le_value_of_bytes(v, width);
    assert(le_bytes(v, width).reverse().reverse() =~= le_bytes(v, width));
}

/// A number read from digits, most significant first, and written again
/// gives the same digits.
pub(crate) proof fn lemma_be_bytes_of_value(s: Seq<u8>)
    ensures
        be_bytes(be_value(s), s.len()) == s,
        be_value(s) >= 0,
        drop_digits(be_value(s), s.len()) == 0,
{
    lemma_le_bytes_of_value(s.reverse());
    lemma_le_value_bounds(s.reverse());
    assert(s.reverse().reverse() =~= s);
}

/// Appends the `width` least significant base-256 digits of `v`, most
/// significant first.
pub(crate) fn write_digits_be(out: &mut Vec<u8>, v: u128, width: usize)
    ensures
        final(out)@ == old(out)@ + be_bytes(v as int, width as nat),
{
    let ghost start = out@;
    let mut digits: Vec<u8> = Vec::new();
    write_digits(&mut digits, v, width);
    proof {
        lemma_le_bytes_len(v as int, width as nat);
        assert(digits@ =~= le_bytes(v as int, width as nat));
    }
    let mut i: usize = digits.len();
    while i > 0
        invariant
            i <= digits.len(),
            out@ == start + digits@.reverse().subrange(0, digits.len() - i),
        decreases i,
    {
        i = i - 1;
        let ghost before = out@;
        out.push(digits[i]);
        proof {
            assert(out@ =~= start + digits@.reverse().subrange(0, digits.len() - i));
        }
    }
    proof {
        assert(digits@.reverse().subrange(0, digits.len() as int) =~= digits@.reverse());
    }
}

/// Reads `width` bytes, most significant first, as a number.
pub(crate) fn read_digits_be(data: &[u8], pos: usize, width: usize) -> (v: u128)
    requires
        width <= 16,
        pos + width <= data@.len(),
    ensures
        v == be_value(data@.subrange(pos as int, pos + width)),
{
    let total = data.len();
    let mut acc: u128 = 0;
    let mut i: usize = 0;
    proof {
        assert(data@.subrange(pos as int, pos as int).reverse() =~= Seq::<u8>::empty());
    }
    while i < width
        invariant
            i <= width <= 16,
            pos + width <= data@.len() == total,
            acc == be_value(data@.subrange(pos as int, pos + i)),
        decreases width - i,
    {
        let ghost read = data@.subrange(pos as int, pos + i);
        proof {
            lemma_be_bytes_of_value(read);
            lemma_digits_bound(acc as int, i as nat);
            lemma_be_value_push(read, data@[pos + i]);
            assert(read.push(data@[pos + i]) =~= data@.subrange(pos as int, pos + i + 1));
        }
        acc = acc * 256 + data[pos + i] as u128;
        i = i + 1;
    }
    acc
}

/// A number of at most fifteen digits leaves room for one more in a `u128`.
pub(crate) proof fn lemma_digits_bound(v: int, width: nat)
    requires
        v >= 0,
        width <= 15,
        drop_digits(v, width) == 0,
    ensures
        v * 256 + 255 <= u128::MAX,
{
    lemma_drop_more_digits(v, width, 15);
    reveal_with_fuel(drop_digits, 16);
}

/// Dropping more digits of a number that has none left still leaves none.
pub(crate) proof fn lemma_drop_more_digits(v: int, width: nat, more: nat)
    requires
        v >= 0,
        width <= more,
        drop_digits(v, width) == 0,
    ensures
        drop_digits(v, more) == 0,
    decreases width,
{
    if width == 0 {
        lemma_drop_digits_of_zero(more);
    } else {
        lemma_drop_more_digits(v / 256, (width - 1) as nat, (more - 1) as nat);
    }
}

/// Zero has no digits to drop.
pub(crate) proof fn lemma_drop_digits_of_zero(width: nat)
    ensures
        drop_digits(0, width) == 0,
    decreases width,
{
    if width > 0 {
        lemma_drop_digits_of_zero((width - 1) as nat);
    }
}

/// A `u128` has no more than sixteen digits.
pub(crate) proof fn lemma_u128_has_sixteen_digits(v: int)
    requires
        0 <= v <= u128::MAX,
    ensures
        drop_digits(v, 16) == 0,
{
    reveal_with_fuel(drop_digits, 17);
}

// ---------------------------------------------------------------------------
// What stands where a parser succeeds
// ---------------------------------------------------------------------------

/// Where one encoding stands and another right behind it, the two stand
/// as one.
pub(crate) proof fn lemma_holds_at_join(s: Seq<u8>, pos: int, a: Seq<u8>, b: Seq<u8>)
    requires
        holds_at(s, pos, a),
        holds_at(s, pos + a.len(), b),
    ensures
        holds_at(s, pos, a + b),
{
    assert(s.subrange(pos, pos + (a + b).len()) =~= s.subrange(pos, pos + a.len())
        + s.subrange(pos + a.len(), pos + a.len() + b.len()));
}

/// Sixteen digits make a number that fits a `u128`.
pub(crate) proof fn lemma_sixteen_digits_fit_u128(s: Seq<u8>)
    requires
        s.len() == 16,
    ensures
        0 <= be_value(s) <= u128::MAX,
{
    lemma_be_bytes_of_value(s);
    reveal_with_fuel(drop_digits, 17);
}

/// Where a `u32` is parsed, its encoding stands.
pub(crate) proof fn lemma_parse_u32_sound(s: Seq<u8>, pos: int)
    requires
        0 <= pos,
        parse_u32(s, pos) is Ok,
    ensures
        parse_u32(s, pos)->Ok_0.1 == pos + 4,
        holds_at(s, pos, u32_encoding(parse_u32(s, pos)->Ok_0.0)),
{
    let window = s.subrange(pos, pos + 4);
    lemma_four_digits_fit_u32(window);
    lemma_le_bytes_of_value(window);
    lemma_le_bytes_len(le_value(window), 4);
}

/// Where a `u64` is parsed, its encoding stands.
pub(crate) proof fn lemma_parse_u64_sound(s: Seq<u8>, pos: int)
    requires
        0 <= pos,
        parse_u64(s, pos) is Ok,
    ensures
        parse_u64(s, pos)->Ok_0.1 == pos + 8,
        holds_at(s, pos, u64_encoding(parse_u64(s, pos)->Ok_0.0)),
{
    let window = s.subrange(pos, pos + 8);
    lemma_eight_digits_fit_u64(window);
    lemma_le_bytes_of_value(window);
    lemma_le_bytes_len(le_value(window), 8);
}

/// Where an `i32` is parsed, its encoding stands.
pub(crate) proof fn lemma_parse_i32_sound(s: Seq<u8>, pos: int)
    requires
        0 <= pos,
        parse_i32(s, pos) is Ok,
    ensures
        parse_i32(s, pos)->Ok_0.1 == pos + 4,
        holds_at(s, pos, i32_encoding(parse_i32(s, pos)->Ok_0.0)),
{
    lemma_parse_u32_sound(s, pos);
}

/// Where a boolean is parsed, its encoding stands.
pub(crate) proof fn lemma_parse_bool_sound(s: Seq<u8>, pos: int)
    requires
        0 <= pos,
        parse_bool(s, pos) is Ok,
    ensures
        parse_bool(s, pos)->Ok_0.1 == pos + 1,
        holds_at(s, pos, bool_encoding(parse_bool(s, pos)->Ok_0.0)),
{
    assert(s.subrange(pos, pos + 1) =~= bool_encoding(parse_bool(s, pos)->Ok_0.0));
}

/// Where a byte string is parsed, its encoding stands.
pub(crate) proof fn lemma_parse_bytes_sound(s: Seq<u8>, pos: int)
    requires
        0 <= pos,
        parse_bytes(s, pos) is Ok,
    ensures
        parse_bytes(s, pos)->Ok_0.1 == pos + bytes_encoding(parse_bytes(s, pos)->Ok_0.0).len(),
        holds_at(s, pos, bytes_encoding(parse_bytes(s, pos)->Ok_0.0)),
        bytes_encodable(parse_bytes(s, pos)->Ok_0.0),
{
    lemma_parse_u64_sound(s, pos);
    let len = parse_u64(s, pos)->Ok_0.0;
    let raw = parse_bytes(s, pos)->Ok_0.0;
    lemma_le_bytes_len(len as int, 8);
    assert(raw.len() == len);
    lemma_holds_at_join(s, pos, u64_encoding(len), raw);
}

/// Where a text is parsed, its encoding stands.
pub(crate) proof fn lemma_parse_text_sound(s: Seq<u8>, pos: int)
    requires
        0 <= pos,
        parse_text(s, pos) is Ok,
    ensures
        parse_text(s, pos)->Ok_0.1 == pos + text_encoding(parse_text(s, pos)->Ok_0.0).len(),
        holds_at(s, pos, text_encoding(parse_text(s, pos)->Ok_0.0)),
        text_encodable(parse_text(s, pos)->Ok_0.0),
{
    lemma_parse_bytes_sound(s, pos);
    let raw = parse_bytes(s, pos)->Ok_0.0;
    decode_utf8_encode_utf8(raw);
}

/// Where an optional text is parsed, its encoding stands.
pub(crate) proof fn lemma_parse_optional_text_sound(s: Seq<u8>, pos: int)
    requires
        0 <= pos,
        parse_optional_text(s, pos) is Ok,
    ensures
        parse_optional_text(s, pos)->Ok_0.1 == pos + optional_text_encoding(
            parse_optional_text(s, pos)->Ok_0.0,
        ).len(),
        holds_at(s, pos, optional_text_encoding(parse_optional_text(s, pos)->Ok_0.0)),
        parse_optional_text(s, pos)->Ok_0.0 matches Some(text) ==> text_encodable(text),
{
    if s[pos] == 0 {
        assert(s.subrange(pos, pos + 1) =~= seq![0u8]);
    } else {
        lemma_parse_text_sound(s, pos + 1);
        let text = parse_text(s, pos + 1)->Ok_0.0;
        assert(s.subrange(pos, pos + 1) =~= seq![1u8]);
        lemma_holds_at_join(s, pos, seq![1u8], text_encoding(text));
    }
}

// ---------------------------------------------------------------------------
// What is parsed where an encoding is cut short
// ---------------------------------------------------------------------------

/// True if the bytes of `s` from `pos` to its end are the beginning of `enc`
/// and not the whole of it.
pub open spec fn cut_at(s: Seq<u8>, pos: int, enc: Seq<u8>) -> bool {
    &&& 0 <= pos <= s.len()
    &&& s.len() - pos < enc.len()
    &&& s.subrange(pos, s.len() as int) == enc.take(s.len() - pos)
}

/// Where two encodings, one behind the other, are cut short, either the
/// first is cut short, or the first stands and the second is cut short.
pub(crate) proof fn lemma_cut_at_split(s: Seq<u8>, pos: int, a: Seq<u8>, b: Seq<u8>)
    requires
        cut_at(s, pos, a + b),
    ensures
        cut_at(s, pos, a) || (holds_at(s, pos, a) && cut_at(s, pos + a.len(), b)),
{
    let rest = s.len() - pos;
    let whole = a + b;
    if rest < a.len() {
        assert(whole.take(rest) =~= a.take(rest));
    } else {
        assert(s.subrange(pos, pos + a.len()) =~= s.subrange(pos, s.len() as int).subrange(
            0,
            a.len() as int,
        ));
        assert(whole.take(rest).subrange(0, a.len() as int) =~= a);
        assert(s.subrange(pos + a.len(), s.len() as int) =~= s.subrange(
            pos,
            s.len() as int,
        ).subrange(a.len() as int, rest));
        assert(whole.take(rest).subrange(a.len() as int, rest) =~= b.take(rest - a.len()));
    }
}

/// Where the encoding of a `u32` is cut short, the parser says so.
pub(crate) proof fn lemma_parse_u32_of_cut(s: Seq<u8>, pos: int, v: u32)
    requires
        cut_at(s, pos, u32_encoding(v)),
    ensures
        parse_u32(s, pos) == Err::<(u32, int), WireError>(WireError::Truncated),
{
    lemma_le_bytes_len(v as int, 4);
}

/// Where the encoding of a `u64` is cut short, the parser says so.
pub(crate) proof fn lemma_parse_u64_of_cut(s: Seq<u8>, pos: int, v: u64)
    requires
        cut_at(s, pos, u64_encoding(v)),
    ensures
        parse_u64(s, pos) == Err::<(u64, int), WireError>(WireError::Truncated),
{
    lemma_le_bytes_len(v as int, 8);
}

/// Where the encoding of an `i32` is cut short, the parser says so.
pub(crate) proof fn lemma_parse_i32_of_cut(s: Seq<u8>, pos: int, v: i32)
    requires
        cut_at(s, pos, i32_encoding(v)),
    ensures
        parse_i32(s, pos) == Err::<(i32, int), WireError>(WireError::Truncated),
{
    lemma_parse_u32_of_cut(s, pos, i32_bits(v));
}

/// Where the encoding of a boolean is cut short, the parser says so.
pub(crate) proof fn lemma_parse_bool_of_cut(s: Seq<u8>, pos: int, b: bool)
    requires
        cut_at(s, pos, bool_encoding(b)),
    ensures
        parse_bool(s, pos) == Err::<(bool, int), WireError>(WireError::Truncated),
{
}

/// Where the encoding of a byte string is cut short, the parser says so.
pub(crate) proof fn lemma_parse_bytes_of_cut(s: Seq<u8>, pos: int, b: Seq<u8>)
    requires
        bytes_encodable(b),
        cut_at(s, pos, bytes_encoding(b)),
    ensures
        parse_bytes(s, pos) == Err::<(Seq<u8>, int), WireError>(WireError::Truncated),
{
    let prefix = u64_encoding(b.len() as u64);
    lemma_le_bytes_len(b.len() as int, 8);
    lemma_cut_at_split(s, pos, prefix, b);
    if cut_at(s, pos, prefix) {
        lemma_parse_u64_of_cut(s, pos, b.len() as u64);
    } else {
        lemma_parse_u64_of_encoding(s, pos, b.len() as u64);
    }
}

/// Where the encoding of a text is cut short, the parser says so.
pub(crate) proof fn lemma_parse_text_of_cut(s: Seq<u8>, pos: int, t: Seq<char>)
    requires
        text_encodable(t),
        cut_at(s, pos, text_encoding(t)),
    ensures
        parse_text(s, pos) == Err::<(Seq<char>, int), WireError>(WireError::Truncated),
{
    lemma_parse_bytes_of_cut(s, pos, encode_utf8(t));
}

/// Where the encoding of an optional text is cut short, the parser says so.
pub(crate) proof fn lemma_parse_optional_text_of_cut(s: Seq<u8>, pos: int, t: Option<Seq<char>>)
    requires
        t matches Some(text) ==> text_encodable(text),
        cut_at(s, pos, optional_text_encoding(t)),
    ensures
        parse_optional_text(s, pos) == Err::<(Option<Seq<char>>, int), WireError>(
            WireError::Truncated,
        ),
{
    match t {
        None => {},
        Some(text) => {
            lemma_cut_at_split(s, pos, seq![1u8], text_encoding(text));
            if !cut_at(s, pos, seq![1u8]) {
                assert(s.subrange(pos, pos + 1)[0] == 1u8);
                lemma_parse_text_of_cut(s, pos + 1, text);
            }
        },
    }
}

} // verus!
