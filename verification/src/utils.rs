use vstd::prelude::*;

verus! {

/// Low four bits of a byte.
pub open spec fn lo_nibble(byte: u8) -> u8 {
    (byte % 16) as u8
}

/// High four bits of a byte.
pub open spec fn hi_nibble(byte: u8) -> u8 {
    (byte / 16) as u8
}

/// The 16-bit little-endian unsigned integer stored at `off`.
pub open spec fn u16_le(s: Seq<u8>, off: int) -> u16 {
    (s[off] + 0x100 * s[off + 1]) as u16
}

/// The 32-bit little-endian unsigned integer stored at `off`.
pub open spec fn u32_le(s: Seq<u8>, off: int) -> u32 {
    (s[off] + 0x100 * s[off + 1] + 0x1_0000 * s[off + 2] + 0x100_0000 * s[off + 3]) as u32
}

/// The 64-bit little-endian unsigned integer stored at `off`.
pub open spec fn u64_le(s: Seq<u8>, off: int) -> u64 {
    (u32_le(s, off) + 0x1_0000_0000 * u32_le(s, off + 4)) as u64
}

/// A byte read as a two's-complement signed value.
pub open spec fn as_i8(v: u8) -> i8 {
    if v < 0x80 {
        v as i8
    } else {
        (v - 0x100) as i8
    }
}

/// A 16-bit word read as a two's-complement signed value.
pub open spec fn as_i16(v: u16) -> i16 {
    if v < 0x8000 {
        v as i16
    } else {
        (v - 0x1_0000) as i16
    }
}

/// A 32-bit word read as a two's-complement signed value.
pub open spec fn as_i32(v: u32) -> i32 {
    if v < 0x8000_0000 {
        v as i32
    } else {
        (v - 0x1_0000_0000) as i32
    }
}

/// A 64-bit word read as a two's-complement signed value.
pub open spec fn as_i64(v: u64) -> i64 {
    if v < 0x8000_0000_0000_0000 {
        v as i64
    } else {
        (v - 0x1_0000_0000_0000_0000) as i64
    }
}

/// A 4-bit value read as a two's-complement signed value.
pub open spec fn nibble_as_i8(v: u8) -> i8 {
    if v < 8 {
        v as i8
    } else {
        (v - 16) as i8
    }
}

/// Reads a 32-bit unsigned integer at `offset` in little-endian order.
pub fn read_u32_le(data: &[u8], offset: usize) -> (r: u32)
    requires
        offset + 4 <= data@.len(),
    ensures
        r == u32_le(data@, offset as int),
{
    let b0: u32 = data[offset] as u32;
    let b1: u32 = data[offset + 1] as u32;
    let b2: u32 = data[offset + 2] as u32;
    let b3: u32 = data[offset + 3] as u32;
    b0 + 0x100 * b1 + 0x1_0000 * b2 + 0x100_0000 * b3
}

/// Reads a 16-bit unsigned integer at `offset` in little-endian order.
pub fn read_u16_le(data: &[u8], offset: usize) -> (r: u16)
    requires
        offset + 2 <= data@.len(),
    ensures
        r == u16_le(data@, offset as int),
{
    let b0: u16 = data[offset] as u16;
    let b1: u16 = data[offset + 1] as u16;
    b0 + 0x100 * b1
}

/// Reads a 64-bit unsigned integer at `offset` in little-endian order.
pub fn read_u64_le(data: &[u8], offset: usize) -> (r: u64)
    requires
        offset + 8 <= data@.len(),
    ensures
        r == u64_le(data@, offset as int),
{
    let b0: u64 = data[offset] as u64;
    let b1: u64 = data[offset + 1] as u64;
    let b2: u64 = data[offset + 2] as u64;
    let b3: u64 = data[offset + 3] as u64;
    let b4: u64 = data[offset + 4] as u64;
    let b5: u64 = data[offset + 5] as u64;
    let b6: u64 = data[offset + 6] as u64;
    let b7: u64 = data[offset + 7] as u64;
    let lo: u64 = b0 + 0x100 * b1 + 0x1_0000 * b2 + 0x100_0000 * b3;
    let hi: u64 = b4 + 0x100 * b5 + 0x1_0000 * b6 + 0x100_0000 * b7;
    lo + 0x1_0000_0000 * hi
}

/// Reinterprets a byte as signed.
pub fn to_i8(v: u8) -> (r: i8)
    ensures
        r == as_i8(v),
{
    if v < 0x80 {
        v as i8
    } else {
        (v as i16 - 0x100) as i8
    }
}

/// Reinterprets a 16-bit word as signed.
pub fn to_i16(v: u16) -> (r: i16)
    ensures
        r == as_i16(v),
{
    if v < 0x8000 {
        v as i16
    } else {
        (v as i32 - 0x1_0000) as i16
    }
}

/// Reinterprets a 32-bit word as signed.
pub fn to_i32(v: u32) -> (r: i32)
    ensures
        r == as_i32(v),
{
    if v < 0x8000_0000 {
        v as i32
    } else {
        (v as i64 - 0x1_0000_0000) as i32
    }
}

/// Reinterprets a 64-bit word as signed.
pub fn to_i64(v: u64) -> (r: i64)
    ensures
        r == as_i64(v),
{
    if v < 0x8000_0000_0000_0000 {
        v as i64
    } else {
        ((v - 0x8000_0000_0000_0000) as i64) + i64::MIN
    }
}

/// Sign-extends a 4-bit value.
pub fn nibble_to_i8(v: u8) -> (r: i8)
    requires
        v < 16,
    ensures
        r == nibble_as_i8(v),
{
    if v < 8 {
        v as i8
    } else {
        (v as i8) - 16
    }
}

/// Splits a byte into its two 4-bit halves, low half first.
pub fn to_nibbles(byte: u8) -> (r: (u8, u8))
    ensures
        r.0 == lo_nibble(byte),
        r.1 == hi_nibble(byte),
        r.0 == byte & 0x0F,
        r.1 == byte >> 4,
        r.0 < 16,
        r.1 < 16,
{
    assert(byte & 0x0F == byte % 16) by (bit_vector);
    assert(byte >> 4 == byte / 16) by (bit_vector);
    (byte & 0x0F, byte >> 4)
}

/// The largest value plus one that `limit` ULEB128 bytes can carry.
pub open spec fn uleb128_bound(limit: nat) -> nat
    decreases limit,
{
    if limit == 0 {
        1
    } else {
        0x80 * uleb128_bound((limit - 1) as nat)
    }
}

/// The ULEB128 value that starts at `pos`, read from at most `limit` bytes,
/// with the number of bytes it occupies. Each byte carries seven bits, least
/// significant group first; a byte below 0x80 ends the value. `None` when the
/// bytes run out or the last permitted byte still asks for more.
pub open spec fn uleb128_at(s: Seq<u8>, pos: int, limit: nat) -> Option<(nat, nat)>
    decreases limit,
{
    if limit == 0 || pos < 0 || pos >= s.len() {
        None
    } else if s[pos] < 0x80 {
        Some((s[pos] as nat, 1nat))
    } else {
        match uleb128_at(s, pos + 1, (limit - 1) as nat) {
            Some((v, n)) => Some((((s[pos] - 0x80) + 0x80 * v) as nat, n + 1)),
            None => None,
        }
    }
}

/// What `decode_uleb128` reads from the front of `s`: a value of at most
/// five bytes.
pub open spec fn decode_uleb128_spec(s: Seq<u8>) -> Option<(nat, nat)> {
    uleb128_at(s, 0, 5)
}

/// The ULEB128 encoding of `v`.
pub open spec fn encode_uleb128_spec(v: nat) -> Seq<u8>
    decreases v,
{
    if v < 0x80 {
        seq![v as u8]
    } else {
        seq![(0x80 + v % 0x80) as u8] + encode_uleb128_spec(v / 0x80)
    }
}

/// A decoded value stays below the bound of the bytes it was read from, and
/// occupies between one and `limit` bytes inside the input.
pub proof fn lemma_uleb128_at_bounds(s: Seq<u8>, pos: int, limit: nat)
    ensures
        match uleb128_at(s, pos, limit) {
            Some((v, n)) => v < uleb128_bound(limit) && 1 <= n <= limit && 0 <= pos && pos + n
                <= s.len(),
            None => true,
        },
    decreases limit,
{
    if limit == 0 || pos < 0 || pos >= s.len() {
    } else if s[pos] < 0x80 {
        lemma_uleb128_bound_positive((limit - 1) as nat);
    } else {
        lemma_uleb128_at_bounds(s, pos + 1, (limit - 1) as nat);
    }
}

proof fn lemma_uleb128_bound_positive(limit: nat)
    ensures
        uleb128_bound(limit) >= 1,
    decreases limit,
{
    if limit > 0 {
        lemma_uleb128_bound_positive((limit - 1) as nat);
    }
}

/// The bounds of one to five bytes, written out.
pub proof fn lemma_uleb128_bound_five()
    ensures
        uleb128_bound(0) == 1,
        uleb128_bound(1) == 0x80,
        uleb128_bound(2) == 0x4000,
        uleb128_bound(3) == 0x20_0000,
        uleb128_bound(4) == 0x1000_0000,
        uleb128_bound(5) == 0x8_0000_0000,
{
    reveal_with_fuel(uleb128_bound, 6);
}

fn decode_uleb128_from(input: &[u8], pos: usize, limit: u8) -> (r: Option<(u64, usize)>)
    requires
        limit <= 5,
    ensures
        r is None <==> uleb128_at(input@, pos as int, limit as nat) is None,
        r matches Some((v, n)) ==> uleb128_at(input@, pos as int, limit as nat) == Some(
            (v as nat, n as nat),
        ),
    decreases limit,
{
    if limit == 0 || pos >= input.len() {
        return None;
    }
    let byte: u8 = input[pos];
    if byte < 0x80 {
        return Some((byte as u64, 1));
    }
    match decode_uleb128_from(input, pos + 1, limit - 1) {
        Some((v, n)) => {
            proof {
                lemma_uleb128_at_bounds(input@, pos + 1, (limit - 1) as nat);
                lemma_uleb128_bound_five();
            }
            Some(((byte - 0x80) as u64 + 0x80 * v, n + 1))
        },
        None => None,
    }
}

/// Decodes the ULEB128 value at the front of `input`.
/// Returns the value and the number of bytes it occupies, or `None` when the
/// input ends inside the value or the fifth byte still has its high bit set.
pub fn decode_uleb128(input: &[u8]) -> (r: Option<(u64, usize)>)
    ensures
        r is None <==> decode_uleb128_spec(input@) is None,
        r matches Some((v, n)) ==> decode_uleb128_spec(input@) == Some((v as nat, n as nat)),
        r matches Some((v, n)) ==> v < 0x8_0000_0000 && 1 <= n <= 5 && n <= input@.len(),
{
    proof {
        lemma_uleb128_at_bounds(input@, 0, 5);
        lemma_uleb128_bound_five();
    }
    decode_uleb128_from(input, 0, 5)
}

/// Decodes the ULEB128 value that starts at `pos` in `input`.
pub fn decode_uleb128_at(input: &[u8], pos: usize) -> (r: Option<(u64, usize)>)
    ensures
        r is None <==> uleb128_at(input@, pos as int, 5) is None,
        r matches Some((v, n)) ==> uleb128_at(input@, pos as int, 5) == Some((v as nat, n as nat)),
        r matches Some((v, n)) ==> v < 0x8_0000_0000 && 1 <= n <= 5 && pos + n <= input@.len()
            <= usize::MAX,
{
    if pos >= input.len() {
        return None;
    }
    proof {
        lemma_uleb128_at_bounds(input@, pos as int, 5);
        lemma_uleb128_bound_five();
    }
    decode_uleb128_from(input, pos, 5)
}

/// Appends the ULEB128 encoding of `value` to `out`.
pub fn push_uleb128(out: &mut Vec<u8>, value: u64)
    ensures
        final(out)@ == old(out)@ + encode_uleb128_spec(value as nat),
{
    let ghost start = out@;
    let mut rest: u64 = value;
    assert(start + Seq::<u8>::empty() =~= start);
    let ghost mut done: Seq<u8> = Seq::empty();
    while rest >= 0x80
        invariant
            out@ == start + done,
            done + encode_uleb128_spec(rest as nat) == encode_uleb128_spec(value as nat),
        decreases rest,
    {
        let ghost head = seq![(0x80 + rest % 0x80) as u8];
        out.push((0x80 + rest % 0x80) as u8);
        proof {
            let tail = encode_uleb128_spec((rest / 0x80) as nat);
            assert(encode_uleb128_spec(rest as nat) == head + tail);
            assert((done + head) + tail =~= done + (head + tail));
            assert(out@ =~= start + (done + head));
            done = done + head;
        }
        rest = rest / 0x80;
    }
    out.push(rest as u8);
    proof {
        assert(encode_uleb128_spec(rest as nat) == seq![rest as u8]);
        assert(out@ =~= start + (done + seq![rest as u8]));
    }
}

/// Encodes `value` as ULEB128.
pub fn encode_uleb128(value: u32) -> (r: Vec<u8>)
    ensures
        r@ == encode_uleb128_spec(value as nat),
        1 <= r@.len() <= 5,
{
    let mut out: Vec<u8> = Vec::new();
    push_uleb128(&mut out, value as u64);
    proof {
        lemma_uleb128_bound_five();
        lemma_encode_uleb128_len(value as nat, 5);
        assert(out@ =~= encode_uleb128_spec(value as nat));
    }
    out
}

/// An encoding of a value below the bound of `limit` bytes has between one
/// and `limit` bytes.
pub proof fn lemma_encode_uleb128_len(v: nat, limit: nat)
    requires
        limit >= 1,
        v < uleb128_bound(limit),
    ensures
        1 <= encode_uleb128_spec(v).len() <= limit,
    decreases limit,
{
    reveal_with_fuel(uleb128_bound, 2);
    if v >= 0x80 {
        if limit == 1 {
            assert(false);
        } else {
            lemma_encode_uleb128_len(v / 0x80, (limit - 1) as nat);
        }
    }
}

/// Decoding undoes encoding: wherever the encoding of `v` stands in `s`,
/// reading a ULEB128 value there gives `v` and the encoding's length.
pub proof fn lemma_uleb128_roundtrip_at(s: Seq<u8>, pos: int, v: nat, limit: nat)
    requires
        limit >= 1,
        v < uleb128_bound(limit),
        0 <= pos,
        pos + encode_uleb128_spec(v).len() <= s.len(),
        s.subrange(pos, pos + encode_uleb128_spec(v).len()) == encode_uleb128_spec(v),
    ensures
        uleb128_at(s, pos, limit) == Some((v, encode_uleb128_spec(v).len())),
    decreases limit,
{
    reveal_with_fuel(uleb128_bound, 2);
    let enc = encode_uleb128_spec(v);
    assert(s[pos] == s.subrange(pos, pos + enc.len())[0]);
    if v < 0x80 {
    } else {
        let tail = encode_uleb128_spec(v / 0x80);
        assert(enc == seq![(0x80 + v % 0x80) as u8] + tail);
        assert(limit >= 2);
        assert(s.subrange(pos + 1, pos + 1 + tail.len()) =~= tail) by {
            assert forall|i: int| 0 <= i < tail.len() implies s.subrange(
                pos + 1,
                pos + 1 + tail.len(),
            )[i] == tail[i] by {
                assert(s.subrange(pos, pos + enc.len())[i + 1] == enc[i + 1]);
            }
        }
        lemma_uleb128_roundtrip_at(s, pos + 1, v / 0x80, (limit - 1) as nat);
    }
}

/// Decoding the encoding of any 32-bit value gives the value back, and the
/// encoding has at most five bytes.
pub proof fn lemma_uleb128_roundtrip(v: u32)
    ensures
        decode_uleb128_spec(encode_uleb128_spec(v as nat)) == Some(
            (v as nat, encode_uleb128_spec(v as nat).len()),
        ),
        1 <= encode_uleb128_spec(v as nat).len() <= 5,
{
    lemma_uleb128_bound_five();
    lemma_encode_uleb128_len(v as nat, 5);
    let enc = encode_uleb128_spec(v as nat);
    assert(enc.subrange(0, enc.len() as int) =~= enc);
    lemma_uleb128_roundtrip_at(enc, 0, v as nat, 5);
}

/// The largest value plus one that a ULEB128 value of five bytes can carry.
pub const ULEB128_LIMIT: u64 = 0x8_0000_0000;

/// Whether `piece` stands in `s` at `pos`.
pub open spec fn stands_at(s: Seq<u8>, pos: int, piece: Seq<u8>) -> bool {
    0 <= pos && pos + piece.len() <= s.len() && s.subrange(pos, pos + piece.len()) == piece
}

/// Where two pieces stand one after the other, each of them stands at its
/// place.
pub proof fn lemma_stands_at_split(s: Seq<u8>, pos: int, a: Seq<u8>, b: Seq<u8>)
    requires
        stands_at(s, pos, a + b),
    ensures
        stands_at(s, pos, a),
        stands_at(s, pos + a.len(), b),
{
    let whole = s.subrange(pos, pos + (a + b).len());
    assert(s.subrange(pos, pos + a.len()) =~= a) by {
        assert forall|i: int| 0 <= i < a.len() implies s.subrange(pos, pos + a.len())[i]
            == a[i] by {
            assert(whole[i] == (a + b)[i]);
        }
    }
    assert(s.subrange(pos + a.len(), pos + a.len() + b.len()) =~= b) by {
        assert forall|i: int| 0 <= i < b.len() implies s.subrange(
            pos + a.len(),
            pos + a.len() + b.len(),
        )[i] == b[i] by {
            assert(whole[a.len() + i] == (a + b)[a.len() + i]);
        }
    }
}

} // verus!
