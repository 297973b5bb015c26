//! Hex codecs for the protocol's wire primitives: variable-length byte
//! strings and 32-bit integers rendered in little-endian byte order.

use vstd::prelude::*;

use crate::error::Error;

verus! {

/// Relies on `String::push`: the character is appended at the end.
pub assume_specification[ String::push ](s: &mut String, ch: char)
    ensures
        final(s)@ == old(s)@.push(ch),
;

/// Whether `c` is a hexadecimal digit, in either case.
pub open spec fn is_hex_digit(c: char) -> bool {
    ('0' <= c && c <= '9') || ('a' <= c && c <= 'f') || ('A' <= c && c <= 'F')
}

/// The value of a hexadecimal digit.
pub open spec fn digit_value(c: char) -> int {
    if '0' <= c && c <= '9' {
        c as int - '0' as int
    } else if 'a' <= c && c <= 'f' {
        c as int - 'a' as int + 10
    } else {
        c as int - 'A' as int + 10
    }
}

/// The lower-case hexadecimal digit for `n < 16`.
pub open spec fn digit_char(n: int) -> char {
    if n < 10 {
        ('0' as int + n) as char
    } else {
        ('a' as int + n - 10) as char
    }
}

/// Lower-case hex of a byte string: two digits per byte, high nibble first.
pub open spec fn hex_of(b: Seq<u8>) -> Seq<char> {
    Seq::new(
        2 * b.len(),
        |i: int|
            if i % 2 == 0 {
                digit_char(b[i / 2] as int / 16)
            } else {
                digit_char(b[i / 2] as int % 16)
            },
    )
}

/// A well-formed hex string: even length, hex digits only, either case.
pub open spec fn is_hex(s: Seq<char>) -> bool {
    s.len() % 2 == 0 && forall|i: int| 0 <= i < s.len() ==> is_hex_digit(#[trigger] s[i])
}

/// The bytes that a well-formed hex string denotes.
pub open spec fn bytes_of_hex(s: Seq<char>) -> Seq<u8> {
    Seq::new(
        s.len() / 2,
        |i: int| (16 * digit_value(s[2 * i]) + digit_value(s[2 * i + 1])) as u8,
    )
}

fn digit_char_exec(n: u8) -> (c: char)
    requires
        n < 16,
    ensures
        c == digit_char(n as int),
{
    if n < 10 {
        (n + 48) as char
    } else {
        (n + 87) as char
    }
}

/// Lower-case hex encoding of `b`, without prefix.
pub fn encode_hex(b: &[u8]) -> (r: String)
    ensures
        r@ == hex_of(b@),
{
    let mut r = String::new();
    let mut i: usize = 0;
    while i < b.len()
        invariant
            i <= b@.len(),
            r@ == hex_of(b@.subrange(0, i as int)),
        decreases b@.len() - i,
    {
        let x = b[i];
        r.push(digit_char_exec(x / 16));
        r.push(digit_char_exec(x % 16));
        proof {
            assert(b@.subrange(0, i + 1) =~= b@.subrange(0, i as int).push(x));
        }
        i = i + 1;
        assert(r@ =~= hex_of(b@.subrange(0, i as int)));
    }
    assert(b@.subrange(0, b@.len() as int) =~= b@);
    r
}

fn digit_value_exec(c: char) -> (r: Option<u8>)
    ensures
        r is Some <==> is_hex_digit(c),
        r is Some ==> r->Some_0 as int == digit_value(c),
{
    if '0' <= c && c <= '9' {
        Some((c as u32 - 48) as u8)
    } else if 'a' <= c && c <= 'f' {
        Some((c as u32 - 87) as u8)
    } else if 'A' <= c && c <= 'F' {
        Some((c as u32 - 55) as u8)
    } else {
        None
    }
}

/// Decodes a hex string of even length, accepting both cases.
pub fn decode_hex(s: &str) -> (r: Result<Vec<u8>, Error>)
    ensures
        r is Ok <==> is_hex(s@),
        r is Ok ==> r->Ok_0@ == bytes_of_hex(s@),
        r is Err ==> r->Err_0 == Error::MalformedHex,
{
    let n = s.unicode_len();
    if n % 2 != 0 {
        return Err(Error::MalformedHex);
    }
    let mut out: Vec<u8> = Vec::new();
    let mut i: usize = 0;
    while i < n
        invariant
            n == s@.len(),
            n % 2 == 0,
            i % 2 == 0,
            i <= n,
            forall|j: int| 0 <= j < i ==> is_hex_digit(#[trigger] s@[j]),
            out@.len() == i / 2,
            forall|k: int| 0 <= k < out@.len() ==> #[trigger] out@[k] == bytes_of_hex(s@)[k],
        decreases n - i,
    {
        let hi = s.get_char(i);
        let lo = s.get_char(i + 1);
        let h = match digit_value_exec(hi) {
            Some(h) => h,
            None => return Err(Error::MalformedHex),
        };
        let l = match digit_value_exec(lo) {
            Some(l) => l,
            None => return Err(Error::MalformedHex),
        };
        out.push(h * 16 + l);
        i = i + 2;
    }
    assert(out@ =~= bytes_of_hex(s@));
    Ok(out)
}

/// Every byte string encodes to a well-formed hex string that decodes back to it.
pub proof fn lemma_hex_round_trip(b: Seq<u8>)
    ensures
        is_hex(hex_of(b)),
        bytes_of_hex(hex_of(b)) == b,
{
    let h = hex_of(b);
    assert forall|i: int| 0 <= i < h.len() implies is_hex_digit(#[trigger] h[i]) by {
        let n = if i % 2 == 0 { b[i / 2] as int / 16 } else { b[i / 2] as int % 16 };
        assert(0 <= n < 16);
    }
    assert forall|k: int| 0 <= k < b.len() implies #[trigger] bytes_of_hex(h)[k] == b[k] by {
        assert(h[2 * k] == digit_char(b[k] as int / 16));
        assert(h[2 * k + 1] == digit_char(b[k] as int % 16));
    }
    assert(bytes_of_hex(h) =~= b);
}

/// Little-endian bytes of a 32-bit integer, least significant first.
pub open spec fn le_bytes(x: u32) -> Seq<u8> {
    seq![
        (x % 256) as u8,
        ((x / 256) % 256) as u8,
        ((x / 65536) % 256) as u8,
        (x / 16777216) as u8,
    ]
}

/// The integer that four little-endian bytes denote.
pub open spec fn le_value(b: Seq<u8>) -> int {
    b[0] + 256 * b[1] + 65536 * b[2] + 16777216 * b[3]
}

/// Hex of `x` in little-endian byte order: eight lower-case digits.
pub fn encode_u32_le(x: u32) -> (r: String)
    ensures
        r@ == hex_of(le_bytes(x)),
{
    let b: Vec<u8> = vec![
        (x % 256) as u8,
        ((x / 256) % 256) as u8,
        ((x / 65536) % 256) as u8,
        (x / 16777216) as u8,
    ];
    assert(b@ =~= le_bytes(x));
    encode_hex(b.as_slice())
}

/// Reads a 32-bit integer from eight hex digits in little-endian byte order.
pub fn decode_u32_le(s: &str) -> (r: Result<u32, Error>)
    ensures
        r is Ok <==> is_hex(s@) && s@.len() == 8,
        r is Ok ==> r->Ok_0 as int == le_value(bytes_of_hex(s@)),
        r is Err ==> r->Err_0 == Error::MalformedHex,
{
    let b = decode_hex(s)?;
    if b.len() != 4 {
        return Err(Error::MalformedHex);
    }
    Ok(b[0] as u32 + 256 * (b[1] as u32) + 65536 * (b[2] as u32) + 16777216 * (b[3] as u32))
}

/// The little-endian rendering of an integer reads back as the same integer.
pub proof fn lemma_u32_le_round_trip(x: u32)
    ensures
        le_bytes(x).len() == 4,
        le_value(le_bytes(x)) == x,
{
    let a = x as int;
    assert(a == a % 256 + 256 * ((a / 256) % 256) + 65536 * ((a / 65536) % 256) + 16777216 * (a
        / 16777216)) by (nonlinear_arith)
        requires
            0 <= a < 0x1_0000_0000,
    ;
}

} // verus!
