use vstd::prelude::*;
use vstd::slice::slice_subrange;

use crate::errors::DexParseError;
use crate::text::push_char;
use crate::utils::{
    decode_uleb128_at, encode_uleb128_spec, lemma_stands_at_split, lemma_uleb128_bound_five,
    lemma_uleb128_roundtrip_at, push_uleb128, stands_at, uleb128_at, ULEB128_LIMIT,
};

verus! {

/// Whether `b` continues a character that takes several bytes.
pub open spec fn is_continuation(b: u8) -> bool {
    0x80 <= b <= 0xBF
}

/// Whether `u` is the first half of a surrogate pair.
pub open spec fn is_high_surrogate(u: u16) -> bool {
    0xD800 <= u <= 0xDBFF
}

/// Whether `u` is the second half of a surrogate pair.
pub open spec fn is_low_surrogate(u: u16) -> bool {
    0xDC00 <= u <= 0xDFFF
}

/// The code unit that stands in for bytes or code units that encode nothing.
pub const REPLACEMENT: u16 = 0xFFFD;

/// The first UTF-16 code unit that the modified UTF-8 bytes `bytes` encode,
/// and the number of bytes it takes: one byte below 0x80, two bytes for six
/// and five bits, or three bytes for six, six and four bits. A byte that
/// starts none of these stands for the replacement character.
pub open spec fn first_unit(bytes: Seq<u8>) -> (u16, int) {
    let b0 = bytes[0];
    if b0 < 0x80 {
        (b0 as u16, 1)
    } else if 0xC0 <= b0 <= 0xDF && bytes.len() >= 2 && is_continuation(bytes[1]) {
        (((b0 - 0xC0) * 64 + (bytes[1] - 0x80)) as u16, 2)
    } else if 0xE0 <= b0 <= 0xEF && bytes.len() >= 3 && is_continuation(bytes[1])
        && is_continuation(bytes[2]) {
        (((b0 - 0xE0) * 4096 + (bytes[1] - 0x80) * 64 + (bytes[2] - 0x80)) as u16, 3)
    } else {
        (REPLACEMENT, 1)
    }
}

/// The UTF-16 code units that the modified UTF-8 bytes `bytes` encode.
pub open spec fn mutf8_units(bytes: Seq<u8>) -> Seq<u16>
    decreases bytes.len(),
{
    if bytes.len() == 0 {
        Seq::empty()
    } else {
        let (unit, n) = first_unit(bytes);
        seq![unit] + mutf8_units(bytes.skip(n))
    }
}

/// The first character of the UTF-16 code units `units`, and the number of
/// code units it takes: two for a surrogate pair, else one. Half a surrogate
/// pair alone stands for the replacement character.
pub open spec fn first_char(units: Seq<u16>) -> (char, int) {
    let u0 = units[0];
    if is_high_surrogate(u0) && units.len() >= 2 && is_low_surrogate(units[1]) {
        (((0x1_0000 + (u0 - 0xD800) * 1024 + (units[1] - 0xDC00)) as u32) as char, 2)
    } else if 0xD800 <= u0 <= 0xDFFF {
        ((REPLACEMENT as u32) as char, 1)
    } else {
        ((u0 as u32) as char, 1)
    }
}

/// The characters that the UTF-16 code units `units` encode.
pub open spec fn utf16_chars(units: Seq<u16>) -> Seq<char>
    decreases units.len(),
{
    if units.len() == 0 {
        Seq::empty()
    } else {
        let (c, n) = first_char(units);
        seq![c] + utf16_chars(units.skip(n))
    }
}

/// The text that the modified UTF-8 bytes `bytes` encode.
pub open spec fn mutf8_text(bytes: Seq<u8>) -> Seq<char> {
    utf16_chars(mutf8_units(bytes))
}

/// The UTF-16 code units of one character: the character itself below
/// 0x10000, and a surrogate pair from there on.
pub open spec fn char_units(c: char) -> Seq<u16> {
    let v = c as u32;
    if v < 0x1_0000 {
        seq![v as u16]
    } else {
        seq![(0xD800 + (v - 0x1_0000) / 1024) as u16, (0xDC00 + (v - 0x1_0000) % 1024) as u16]
    }
}

/// The UTF-16 code units of `chars`.
pub open spec fn utf16_units(chars: Seq<char>) -> Seq<u16>
    decreases chars.len(),
{
    if chars.len() == 0 {
        Seq::empty()
    } else {
        char_units(chars[0]) + utf16_units(chars.drop_first())
    }
}

/// The modified UTF-8 bytes of one code unit: one byte from 1 to 0x7F, two
/// bytes for 0 and from 0x80 to 0x7FF, three bytes from 0x800 on.
pub open spec fn unit_bytes(u: u16) -> Seq<u8> {
    if 1 <= u <= 0x7F {
        seq![u as u8]
    } else if u <= 0x7FF {
        seq![(0xC0 + u / 64) as u8, (0x80 + u % 64) as u8]
    } else {
        seq![(0xE0 + u / 4096) as u8, (0x80 + (u / 64) % 64) as u8, (0x80 + u % 64) as u8]
    }
}

/// The modified UTF-8 bytes of the code units `units`.
pub open spec fn mutf8_bytes(units: Seq<u16>) -> Seq<u8>
    decreases units.len(),
{
    if units.len() == 0 {
        Seq::empty()
    } else {
        unit_bytes(units[0]) + mutf8_bytes(units.drop_first())
    }
}

/// The modified UTF-8 bytes of `chars`.
pub open spec fn mutf8_encode(chars: Seq<char>) -> Seq<u8> {
    mutf8_bytes(utf16_units(chars))
}

/// Code units are read back from their bytes.
pub proof fn lemma_units_roundtrip(units: Seq<u16>)
    ensures
        mutf8_units(mutf8_bytes(units)) == units,
    decreases units.len(),
{
    if units.len() > 0 {
        let u = units[0];
        let rest = units.drop_first();
        let head = unit_bytes(u);
        let bytes = head + mutf8_bytes(rest);
        assert(first_unit(bytes) == (u, head.len() as int)) by {
            assert(bytes[0] == head[0]);
            if head.len() >= 2 {
                assert(bytes[1] == head[1]);
            }
            if head.len() >= 3 {
                assert(bytes[2] == head[2]);
            }
        }
        assert(bytes.skip(head.len() as int) =~= mutf8_bytes(rest));
        lemma_units_roundtrip(rest);
        assert(seq![u] + rest =~= units);
    }
}

/// Characters are read back from their code units.
pub proof fn lemma_chars_roundtrip(chars: Seq<char>)
    ensures
        utf16_chars(utf16_units(chars)) == chars,
    decreases chars.len(),
{
    if chars.len() > 0 {
        let c = chars[0];
        let rest = chars.drop_first();
        let head = char_units(c);
        let units = head + utf16_units(rest);
        assert(first_char(units) == (c, head.len() as int)) by {
            let v = c as u32;
            vstd::utf8::char_is_scalar(c);
            vstd::utf8::char_u32_cast(c, v);
            assert(units[0] == head[0]);
            if v < 0x1_0000 {
                assert(head.len() == 1);
                assert(units[0] == v as u16);
                assert(!(0xD800 <= v <= 0xDFFF));
                assert((units[0] as u32) == v);
            } else {
                assert(units[1] == head[1]);
                let hi = (0xD800 + (v - 0x1_0000) / 1024) as u16;
                let lo = (0xDC00 + (v - 0x1_0000) % 1024) as u16;
                assert(v <= 0x10_FFFF);
                assert(units[0] == hi && units[1] == lo);
                assert(is_high_surrogate(hi) && is_low_surrogate(lo));
                assert(0x1_0000 + (hi - 0xD800) * 1024 + (lo - 0xDC00) == v);
            }
        }
        assert(units.skip(head.len() as int) =~= utf16_units(rest));
        lemma_chars_roundtrip(rest);
        assert(seq![c] + rest =~= chars);
    }
}

/// The bytes of code units hold no zero byte.
pub proof fn lemma_no_zero_byte(units: Seq<u16>, i: int)
    requires
        0 <= i < mutf8_bytes(units).len(),
    ensures
        mutf8_bytes(units)[i] != 0,
    decreases units.len(),
{
    if units.len() > 0 {
        let head = unit_bytes(units[0]);
        if i >= head.len() {
            lemma_no_zero_byte(units.drop_first(), i - head.len());
        }
    }
}

/// Modified UTF-8 round trip: encoding a text and decoding the bytes gives
/// the text back; the bytes hold as many UTF-16 code units as the text has;
/// and no byte of them is zero.
pub proof fn lemma_mutf8_roundtrip(chars: Seq<char>)
    ensures
        mutf8_text(mutf8_encode(chars)) == chars,
        mutf8_units(mutf8_encode(chars)).len() == utf16_units(chars).len(),
        forall|i: int| 0 <= i < mutf8_encode(chars).len() ==> mutf8_encode(chars)[i] != 0,
{
    lemma_units_roundtrip(utf16_units(chars));
    lemma_chars_roundtrip(chars);
    assert forall|i: int| 0 <= i < mutf8_encode(chars).len() implies mutf8_encode(chars)[i]
        != 0 by {
        lemma_no_zero_byte(utf16_units(chars), i);
    }
}

/// Decoding code units into characters keeps the UTF-16 length: the decoded
/// text has as many code units as were decoded.
pub proof fn lemma_decoded_length(units: Seq<u16>)
    ensures
        utf16_units(utf16_chars(units)).len() == units.len(),
    decreases units.len(),
{
    if units.len() > 0 {
        let (c, n) = first_char(units);
        let rest = units.skip(n);
        lemma_decoded_length(rest);
        let chars = seq![c] + utf16_chars(rest);
        assert(chars.drop_first() =~= utf16_chars(rest));
        assert(chars[0] == c);
    }
}


/// The bytes of code units one after the other are the bytes of the first
/// followed by the bytes of the second.
pub proof fn lemma_mutf8_bytes_concat(a: Seq<u16>, b: Seq<u16>)
    ensures
        mutf8_bytes(a + b) == mutf8_bytes(a) + mutf8_bytes(b),
    decreases a.len(),
{
    if a.len() == 0 {
        assert(a + b =~= b);
        assert(mutf8_bytes(a) + mutf8_bytes(b) =~= mutf8_bytes(b));
    } else {
        assert((a + b).drop_first() =~= a.drop_first() + b);
        lemma_mutf8_bytes_concat(a.drop_first(), b);
        assert(unit_bytes(a[0]) + (mutf8_bytes(a.drop_first()) + mutf8_bytes(b)) =~= (unit_bytes(
            a[0],
        ) + mutf8_bytes(a.drop_first())) + mutf8_bytes(b));
    }
}

/// The code units of a text with one more character are those of the text
/// followed by those of the character.
pub proof fn lemma_utf16_units_push(chars: Seq<char>, c: char)
    ensures
        utf16_units(chars.push(c)) == utf16_units(chars) + char_units(c),
    decreases chars.len(),
{
    reveal_with_fuel(utf16_units, 2);
    if chars.len() == 0 {
        assert(chars.push(c).drop_first() =~= Seq::<char>::empty());
        assert(utf16_units(chars.push(c)) =~= char_units(c));
        assert(utf16_units(chars) + char_units(c) =~= char_units(c));
    } else {
        assert(chars.push(c).drop_first() =~= chars.drop_first().push(c));
        lemma_utf16_units_push(chars.drop_first(), c);
        assert(char_units(chars[0]) + (utf16_units(chars.drop_first()) + char_units(c)) =~= (
        char_units(chars[0]) + utf16_units(chars.drop_first())) + char_units(c));
    }
}

/// `char::from_u32`: the character with code `v` where `v` is a Unicode
/// scalar value, that is, at most 0x10FFFF and no surrogate; `None` for every
/// other `v`.
#[verifier::external_body]
pub(crate) fn char_from_u32(v: u32) -> (r: Option<char>)
    ensures
        (v < 0xD800 || 0xE000 <= v <= 0x10_FFFF) ==> r == Some(v as char),
        !(v < 0xD800 || 0xE000 <= v <= 0x10_FFFF) ==> r is None,
{
    char::from_u32(v)
}

fn continues(b: u8) -> (r: bool)
    ensures
        r == is_continuation(b),
{
    0x80 <= b && b <= 0xBF
}

/// Decodes modified UTF-8 bytes into UTF-16 code units.
pub fn decode_mutf8_units(bytes: &[u8]) -> (r: Vec<u16>)
    ensures
        r@ == mutf8_units(bytes@),
{
    let n: usize = bytes.len();
    let mut units: Vec<u16> = Vec::new();
    let mut pos: usize = 0;
    assert(bytes@.skip(0) =~= bytes@);
    assert(units@ + mutf8_units(bytes@) =~= mutf8_units(bytes@));
    while pos < n
        invariant
            pos <= n,
            n == bytes@.len(),
            mutf8_units(bytes@) == units@ + mutf8_units(bytes@.skip(pos as int)),
        decreases n - pos,
    {
        let b0: u8 = bytes[pos];
        let ghost rest = bytes@.skip(pos as int);
        assert(rest[0] == b0);
        let mut unit: u16 = REPLACEMENT;
        let mut used: usize = 1;
        if b0 < 0x80 {
            unit = b0 as u16;
        } else if 0xC0 <= b0 && b0 <= 0xDF {
            if n - pos >= 2 && continues(bytes[pos + 1]) {
                assert(rest[1] == bytes@[pos + 1]);
                unit = (b0 - 0xC0) as u16 * 64 + (bytes[pos + 1] - 0x80) as u16;
                used = 2;
            } else {
                assert(rest.len() >= 2 ==> rest[1] == bytes@[pos + 1]);
            }
        } else if 0xE0 <= b0 && b0 <= 0xEF {
            if n - pos >= 3 && continues(bytes[pos + 1]) && continues(bytes[pos + 2]) {
                assert(rest[1] == bytes@[pos + 1]);
                assert(rest[2] == bytes@[pos + 2]);
                unit = (b0 - 0xE0) as u16 * 4096 + (bytes[pos + 1] - 0x80) as u16 * 64 + (bytes[pos
                    + 2] - 0x80) as u16;
                used = 3;
            } else {
                assert(rest.len() >= 2 ==> rest[1] == bytes@[pos + 1]);
                assert(rest.len() >= 3 ==> rest[2] == bytes@[pos + 2]);
            }
        }
        proof {
            assert(first_unit(rest) == (unit, used as int));
            assert(rest.skip(used as int) =~= bytes@.skip(pos + used));
            let tail = mutf8_units(bytes@.skip(pos + used));
            assert(units@ + (seq![unit] + tail) =~= units@.push(unit) + tail);
        }
        units.push(unit);
        pos += used;
    }
    assert(units@ + Seq::<u16>::empty() =~= units@);
    units
}

/// Decodes UTF-16 code units into text.
pub fn decode_utf16(units: &Vec<u16>) -> (r: String)
    ensures
        r@ == utf16_chars(units@),
{
    let n: usize = units.len();
    let mut out: String = String::new();
    let mut pos: usize = 0;
    assert(units@.skip(0) =~= units@);
    assert(out@ + utf16_chars(units@) =~= utf16_chars(units@));
    while pos < n
        invariant
            pos <= n,
            n == units@.len(),
            utf16_chars(units@) == out@ + utf16_chars(units@.skip(pos as int)),
        decreases n - pos,
    {
        let u0: u16 = units[pos];
        let ghost rest = units@.skip(pos as int);
        assert(rest[0] == u0);
        let mut code: u32 = u0 as u32;
        let mut used: usize = 1;
        if 0xD800 <= u0 && u0 <= 0xDBFF && n - pos >= 2 && 0xDC00 <= units[pos + 1] && units[pos
            + 1] <= 0xDFFF {
            assert(rest[1] == units@[pos + 1]);
            code = 0x1_0000 + (u0 - 0xD800) as u32 * 1024 + (units[pos + 1] - 0xDC00) as u32;
            used = 2;
        } else if 0xD800 <= u0 && u0 <= 0xDFFF {
            assert(rest.len() >= 2 ==> rest[1] == units@[pos + 1]);
            code = REPLACEMENT as u32;
        }
        let c: char = match char_from_u32(code) {
            Some(c) => c,
            None => '\u{FFFD}',
        };
        proof {
            assert(first_char(rest) == (c, used as int));
            assert(rest.skip(used as int) =~= units@.skip(pos + used));
            let tail = utf16_chars(units@.skip(pos + used));
            assert(out@ + (seq![c] + tail) =~= out@.push(c) + tail);
        }
        push_char(&mut out, c);
        pos += used;
    }
    assert(out@ + Seq::<char>::empty() =~= out@);
    out
}

/// Decodes modified UTF-8 bytes into text. Bytes that encode nothing, and
/// halves of surrogate pairs that stand alone, come out as the replacement
/// character.
pub fn decode_mutf8(bytes: &[u8]) -> (r: String)
    ensures
        r@ == mutf8_text(bytes@),
{
    let units: Vec<u16> = decode_mutf8_units(bytes);
    decode_utf16(&units)
}

fn push_unit(out: &mut Vec<u8>, u: u16)
    ensures
        final(out)@ == old(out)@ + unit_bytes(u),
{
    if 1 <= u && u <= 0x7F {
        out.push(u as u8);
    } else if u <= 0x7FF {
        out.push((0xC0 + u / 64) as u8);
        out.push((0x80 + u % 64) as u8);
    } else {
        out.push((0xE0 + u / 4096) as u8);
        out.push((0x80 + (u / 64) % 64) as u8);
        out.push((0x80 + u % 64) as u8);
    }
    assert(out@ =~= old(out)@ + unit_bytes(u));
}

fn encode_mutf8_counted(text: &str) -> (r: (Vec<u8>, usize))
    ensures
        r.0@ == mutf8_encode(text@),
        r.1 == utf16_units(text@).len(),
{
    let n: usize = text.unicode_len();
    let mut out: Vec<u8> = Vec::new();
    let mut units: usize = 0;
    let mut i: usize = 0;
    while i < n
        invariant
            i <= n,
            n == text@.len(),
            out@ == mutf8_encode(text@.take(i as int)),
            units == utf16_units(text@.take(i as int)).len(),
            units <= out@.len(),
        decreases n - i,
    {
        let c: char = text.get_char(i);
        let v: u32 = c as u32;
        let ghost before = text@.take(i as int);
        proof {
            assert(text@.take(i as int + 1) =~= before.push(c));
            lemma_utf16_units_push(before, c);
            lemma_mutf8_bytes_concat(utf16_units(before), char_units(c));
            reveal_with_fuel(mutf8_bytes, 3);
        }
        if v < 0x1_0000 {
            push_unit(&mut out, v as u16);
            let written: usize = out.len();
            assert(units < written);
            units += 1;
            proof {
                let pair = char_units(c);
                assert(pair.drop_first() =~= Seq::<u16>::empty());
                assert(mutf8_bytes(pair) =~= unit_bytes(v as u16));
            }
        } else {
            let hi: u16 = (0xD800 + (v - 0x1_0000) / 1024) as u16;
            let lo: u16 = (0xDC00 + (v - 0x1_0000) % 1024) as u16;
            push_unit(&mut out, hi);
            push_unit(&mut out, lo);
            let written: usize = out.len();
            assert(units + 2 <= written);
            units += 2;
            proof {
                let pair = char_units(c);
                assert(pair.drop_first() =~= seq![lo]);
                assert(pair.drop_first().drop_first() =~= Seq::<u16>::empty());
                assert(mutf8_bytes(pair) =~= unit_bytes(hi) + unit_bytes(lo));
                assert(out@ =~= mutf8_encode(before) + (unit_bytes(hi) + unit_bytes(lo)));
            }
        }
        i += 1;
    }
    assert(text@.take(n as int) =~= text@);
    (out, units)
}

/// Encodes text as modified UTF-8: the zero character takes two bytes, and a
/// character from 0x10000 on is stored as a surrogate pair of three bytes
/// each. The result holds no zero byte.
pub fn encode_mutf8(text: &str) -> (r: Vec<u8>)
    ensures
        r@ == mutf8_encode(text@),
{
    encode_mutf8_counted(text).0
}

/// The bytes of the string data of a text: the number of its UTF-16 code
/// units as a ULEB128 value, its modified UTF-8 bytes, and a zero byte.
pub open spec fn string_data_bytes(chars: Seq<char>) -> Seq<u8> {
    encode_uleb128_spec(utf16_units(chars).len()) + mutf8_encode(chars) + seq![0u8]
}

/// Encodes the string data of a text.
pub fn encode_string_data(text: &str) -> (r: Vec<u8>)
    ensures
        r@ == string_data_bytes(text@),
{
    let (mut bytes, units) = encode_mutf8_counted(text);
    let mut out: Vec<u8> = Vec::new();
    push_uleb128(&mut out, units as u64);
    out.append(&mut bytes);
    out.push(0);
    assert(out@ =~= string_data_bytes(text@));
    out
}

/// The position of the first zero byte of `s` at or after `from`.
pub open spec fn terminator_from(s: Seq<u8>, from: int) -> Option<int>
    decreases s.len() - from,
{
    if from < 0 || from >= s.len() {
        None
    } else if s[from] == 0 {
        Some(from)
    } else {
        terminator_from(s, from + 1)
    }
}

/// The string data that stands at `off` in `s`: the declared number of
/// UTF-16 code units as a ULEB128 value, then the bytes of the text up to the
/// first zero byte.
pub open spec fn string_data_at(s: Seq<u8>, off: int) -> Result<(nat, Seq<u8>), DexParseError> {
    match uleb128_at(s, off, 5) {
        None => Err(DexParseError::MalformedLeb128 { field: "utf16_size" }),
        Some((declared, n)) => match terminator_from(s, off + n) {
            None => Err(DexParseError::MissingTerminator { field: "string_data" }),
            Some(end) => Ok((declared, s.subrange(off + n, end))),
        },
    }
}

/// A terminator that was found lies at or after the place where the search
/// began, inside the bytes.
pub proof fn lemma_terminator_bounds(s: Seq<u8>, from: int)
    ensures
        terminator_from(s, from) matches Some(end) ==> 0 <= from <= end < s.len() && s[end] == 0,
    decreases s.len() - from,
{
    if 0 <= from < s.len() && s[from] != 0 {
        lemma_terminator_bounds(s, from + 1);
    }
}

/// One string of the container with what the container says of its length.
pub struct StringData {
    /// the number of UTF-16 code units that the container declares
    pub utf16_size: u64,
    /// the number of UTF-16 code units that the bytes hold
    pub units: usize,
    /// the text
    pub text: String,
}

impl StringData {
    /// Whether the text has the length that the container declares.
    pub fn has_declared_size(&self) -> (r: bool)
        ensures
            r == (self.utf16_size == self.units),
    {
        self.utf16_size == self.units as u64
    }
}

fn find_terminator(buffer: &[u8], from: usize) -> (r: Option<usize>)
    ensures
        match terminator_from(buffer@, from as int) {
            Some(end) => r == Some(end as usize) && from <= end < buffer@.len(),
            None => r is None,
        },
{
    let n: usize = buffer.len();
    let mut pos: usize = from;
    proof {
        lemma_terminator_bounds(buffer@, from as int);
    }
    while pos < n
        invariant
            from <= pos,
            n == buffer@.len(),
            terminator_from(buffer@, from as int) == terminator_from(buffer@, pos as int),
        decreases n - pos,
    {
        if buffer[pos] == 0 {
            return Some(pos);
        }
        pos += 1;
    }
    None
}

/// Reads the string data at `offset`: its declared length, its text, and
/// the length that the text turned out to have.
pub fn read_string_data(buffer: &[u8], offset: usize) -> (r: Result<StringData, DexParseError>)
    ensures
        match string_data_at(buffer@, offset as int) {
            Ok((declared, bytes)) => r matches Ok(data) && data.utf16_size == declared && data.text@
                == mutf8_text(bytes) && data.units == mutf8_units(bytes).len() && data.units
                == utf16_units(data.text@).len(),
            Err(e) => r == Err::<StringData, DexParseError>(e),
        },
{
    let (utf16_size, len_size) = match decode_uleb128_at(buffer, offset) {
        Some(pair) => pair,
        None => {
            return Err(DexParseError::MalformedLeb128 { field: "utf16_size" });
        },
    };
    let start: usize = offset + len_size;
    let end: usize = match find_terminator(buffer, start) {
        Some(end) => end,
        None => {
            return Err(DexParseError::MissingTerminator { field: "string_data" });
        },
    };
    let units: Vec<u16> = decode_mutf8_units(slice_subrange(buffer, start, end));
    let text: String = decode_utf16(&units);
    proof {
        lemma_decoded_length(units@);
    }
    Ok(StringData { utf16_size, units: units.len(), text })
}

/// Reads the text of the string data at `offset`.
pub fn read_string_from_bytes(buffer: &[u8], offset: usize) -> (r: Result<String, DexParseError>)
    ensures
        match string_data_at(buffer@, offset as int) {
            Ok((declared, bytes)) => r matches Ok(text) && text@ == mutf8_text(bytes),
            Err(e) => r == Err::<String, DexParseError>(e),
        },
{
    match read_string_data(buffer, offset) {
        Ok(data) => Ok(data.text),
        Err(e) => Err(e),
    }
}


/// The first zero byte behind bytes that hold none is found.
pub proof fn lemma_terminator_found(s: Seq<u8>, from: int, end: int)
    requires
        0 <= from <= end < s.len(),
        forall|i: int| from <= i < end ==> s[i] != 0,
        s[end] == 0,
    ensures
        terminator_from(s, from) == Some(end),
    decreases end - from,
{
    if from < end {
        lemma_terminator_found(s, from + 1, end);
    }
}

/// String data round trip: wherever the string data of a text stands, the
/// text is read back from it, and the number of code units that is stored
/// with it is the UTF-16 length of the text.
pub proof fn lemma_string_data_roundtrip(s: Seq<u8>, off: int, chars: Seq<char>)
    requires
        utf16_units(chars).len() < ULEB128_LIMIT,
        stands_at(s, off, string_data_bytes(chars)),
    ensures
        string_data_at(s, off) == Ok::<(nat, Seq<u8>), DexParseError>(
            (utf16_units(chars).len(), mutf8_encode(chars)),
        ),
        mutf8_text(mutf8_encode(chars)) == chars,
{
    let count = encode_uleb128_spec(utf16_units(chars).len());
    let bytes = mutf8_encode(chars);
    lemma_uleb128_bound_five();
    lemma_mutf8_roundtrip(chars);
    lemma_stands_at_split(s, off, count + bytes, seq![0u8]);
    lemma_stands_at_split(s, off, count, bytes);
    lemma_uleb128_roundtrip_at(s, off, utf16_units(chars).len(), 5);
    let from = off + count.len();
    let end = from + bytes.len();
    assert(s[end] == 0) by {
        assert(s.subrange(end, end + 1)[0] == seq![0u8][0]);
    }
    assert forall|i: int| from <= i < end implies s[i] != 0 by {
        assert(s.subrange(from, end)[i - from] == bytes[i - from]);
    }
    lemma_terminator_found(s, from, end);
}

} // verus!
