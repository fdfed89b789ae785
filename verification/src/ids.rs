//! Random identifiers: version 4 UUIDs drawn from the operating system's
//! random source, which may fail rather than panic.

use vstd::prelude::*;

verus! {

/// The lower-case hexadecimal digits, by value.
pub open spec fn hex_digits() -> Seq<char> {
    seq!['0', '1', '2', '3', '4', '5', '6', '7', '8', '9', 'a', 'b', 'c', 'd', 'e', 'f']
}

/// Byte `i` of a version 4 UUID built from random bytes `b`: the version
/// nibble of byte 6 set to 4, the top two bits of byte 8 set to `10`.
pub open spec fn v4_byte(b: Seq<u8>, i: int) -> int {
    if i == 6 {
        b[6] % 16 + 64
    } else if i == 8 {
        b[8] % 64 + 128
    } else {
        b[i] as int
    }
}

/// The 32 hex digits of the UUID built from `b`, high nibble first.
pub open spec fn uuid_hex(b: Seq<u8>) -> Seq<char> {
    Seq::new(
        32,
        |i: int|
            hex_digits()[if i % 2 == 0 {
                v4_byte(b, i / 2) / 16
            } else {
                v4_byte(b, i / 2) % 16
            }],
    )
}

/// The lower-case hyphenated text of the version 4 UUID built from `b`:
/// its hex digits in 8-4-4-4-12 groups.
pub open spec fn uuid_text(b: Seq<u8>) -> Seq<char> {
    let h = uuid_hex(b);
    h.subrange(0, 8) + seq!['-'] + h.subrange(8, 12) + seq!['-'] + h.subrange(12, 16) + seq!['-']
        + h.subrange(16, 20) + seq!['-'] + h.subrange(20, 32)
}

/// A lower-case hexadecimal digit.
pub open spec fn is_lower_hex(c: char) -> bool {
    ('0' <= c && c <= '9') || ('a' <= c && c <= 'f')
}

/// The shape of a version 4 UUID's text: 36 characters, hyphens between the
/// 8-4-4-4-12 groups, lower-case hex digits elsewhere, the version digit `4`
/// and a variant digit among `8`, `9`, `a`, `b`.
pub open spec fn is_v4_uuid_text(s: Seq<char>) -> bool {
    &&& s.len() == 36
    &&& s[8] == '-' && s[13] == '-' && s[18] == '-' && s[23] == '-'
    &&& forall|i: int|
        0 <= i < 36 && i != 8 && i != 13 && i != 18 && i != 23 ==> is_lower_hex(#[trigger] s[i])
    &&& s[14] == '4'
    &&& s[19] == '8' || s[19] == '9' || s[19] == 'a' || s[19] == 'b'
}

proof fn lemma_hex_digit(n: int)
    requires
        0 <= n < 16,
    ensures
        is_lower_hex(hex_digits()[n]),
{
    let h = hex_digits();
    if n == 0 {} else if n == 1 {} else if n == 2 {} else if n == 3 {} else if n == 4 {
    } else if n == 5 {} else if n == 6 {} else if n == 7 {} else if n == 8 {} else if n == 9 {
    } else if n == 10 {} else if n == 11 {} else if n == 12 {} else if n == 13 {
    } else if n == 14 {} else {}
}

/// The text of a UUID built from 16 random bytes has the version 4 shape.
pub proof fn lemma_uuid_text_is_v4(b: Seq<u8>)
    requires
        b.len() == 16,
    ensures
        is_v4_uuid_text(uuid_text(b)),
{
    let h = uuid_hex(b);
    let s = uuid_text(b);
    assert forall|j: int| 0 <= j < 32 implies is_lower_hex(#[trigger] h[j]) by {
        let v = v4_byte(b, j / 2);
        assert(0 <= v < 256);
        lemma_hex_digit(if j % 2 == 0 { v / 16 } else { v % 16 });
    }
    assert forall|i: int|
        0 <= i < 36 && i != 8 && i != 13 && i != 18 && i != 23 implies is_lower_hex(
        #[trigger] s[i],
    ) by {
        if i < 8 {
            assert(s[i] == h[i]);
        } else if i < 13 {
            assert(s[i] == h[i - 1]);
        } else if i < 18 {
            assert(s[i] == h[i - 2]);
        } else if i < 23 {
            assert(s[i] == h[i - 3]);
        } else {
            assert(s[i] == h[i - 4]);
        }
    }
    assert(s[14] == h[12]);
    assert(v4_byte(b, 6) / 16 == 4);
    assert(s[19] == h[16]);
    let w = v4_byte(b, 8) / 16;
    assert(8 <= w < 12);
    assert(h[16] == hex_digits()[w]);
}

/// Calls `getrandom::fill` on a 16-byte buffer: the bytes where it
/// succeeds, none where the operating system's random source fails. The
/// bytes are random, so nothing is promised of them.
#[verifier::external_body]
fn random_bytes() -> (r: Option<[u8; 16]>) {
    let mut bytes = [0u8; 16];
    getrandom::fill(&mut bytes).ok().map(|()| bytes)
}

/// Calls `uuid::Builder::from_random_bytes` and renders the UUID with
/// `to_string`: the version and variant bits are set and the bytes written
/// as lower-case hyphenated hex (see `uuid_text`).
#[verifier::external_body]
fn uuid_from_random_bytes(bytes: [u8; 16]) -> (s: String)
    ensures
        s@ == uuid_text(bytes@),
{
    uuid::Builder::from_random_bytes(bytes).into_uuid().to_string()
}

/// A fresh random version 4 UUID as text, or none where the operating
/// system's random source fails.
pub fn new_uuid() -> (r: Option<String>)
    ensures
        r matches Some(s) ==> is_v4_uuid_text(s@) && exists|b: Seq<u8>|
            b.len() == 16 && s@ == uuid_text(b),
{
    match random_bytes() {
        Some(b) => {
            let s = uuid_from_random_bytes(b);
            proof {
                lemma_uuid_text_is_v4(b@);
            }
            Some(s)
        },
        None => None,
    }
}

} // verus!
