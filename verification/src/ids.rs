//! Identifiers: UUIDs as 128-bit values and their textual forms.

use vstd::prelude::*;
use vstd::arithmetic::power::pow;
use vstd::arithmetic::div_mod::{lemma_basic_div, lemma_div_denominator, lemma_fundamental_div_mod};

verus! {

/// The lowercase hexadecimal digit for a value in `0..16`.
pub open spec fn hex_digit(n: int) -> char {
    seq!['0', '1', '2', '3', '4', '5', '6', '7', '8', '9', 'a', 'b', 'c', 'd', 'e', 'f'][n]
}

/// A lowercase hexadecimal digit.
pub open spec fn is_hex_lower(c: char) -> bool {
    ('0' <= c <= '9') || ('a' <= c <= 'f')
}

/// The digit for a value below 16 is a lowercase hexadecimal digit.
pub proof fn lemma_hex_digit(n: int)
    requires
        0 <= n < 16,
    ensures
        is_hex_lower(hex_digit(n)),
        hex_digit(n) != '-',
{
    let d = seq!['0', '1', '2', '3', '4', '5', '6', '7', '8', '9', 'a', 'b', 'c', 'd', 'e', 'f'];
    assert(d[0] == '0' && d[1] == '1' && d[2] == '2' && d[3] == '3' && d[4] == '4' && d[5] == '5'
        && d[6] == '6' && d[7] == '7' && d[8] == '8' && d[9] == '9' && d[10] == 'a' && d[11] == 'b'
        && d[12] == 'c' && d[13] == 'd' && d[14] == 'e' && d[15] == 'f');
}

/// The `k`-th hexadecimal digit (most significant first) of a 128-bit value.
pub open spec fn uuid_nibble(id: u128, k: int) -> int {
    (id as int / pow(16, (31 - k) as nat)) % 16
}

/// The 32 lowercase hexadecimal digits of a UUID, most significant first.
pub open spec fn uuid_simple(id: u128) -> Seq<char> {
    Seq::new(32, |k: int| hex_digit(uuid_nibble(id, k)))
}

/// The hyphenated lowercase text of a UUID (`8-4-4-4-12` digits).
pub open spec fn uuid_hyphenated(id: u128) -> Seq<char> {
    let d = uuid_simple(id);
    d.subrange(0, 8) + seq!['-'] + d.subrange(8, 12) + seq!['-'] + d.subrange(12, 16) + seq!['-']
        + d.subrange(16, 20) + seq!['-'] + d.subrange(20, 32)
}

/// The code point of a lowercase hexadecimal digit.
proof fn lemma_hex_digit_code(n: int)
    requires
        0 <= n < 16,
    ensures
        hex_digit(n) as int == if n < 10 { 48 + n } else { 87 + n },
{
    let d = seq!['0', '1', '2', '3', '4', '5', '6', '7', '8', '9', 'a', 'b', 'c', 'd', 'e', 'f'];
    assert(d[0] == '0' && d[1] == '1' && d[2] == '2' && d[3] == '3' && d[4] == '4' && d[5] == '5'
        && d[6] == '6' && d[7] == '7' && d[8] == '8' && d[9] == '9' && d[10] == 'a' && d[11] == 'b'
        && d[12] == 'c' && d[13] == 'd' && d[14] == 'e' && d[15] == 'f');
}

/// Two UUIDs whose digits agree from position `31 - j` on agree once
/// divided by `16^j`.
proof fn lemma_equal_nibbles_high_part(a: u128, b: u128, j: nat)
    requires
        j <= 32,
        forall|k: int| 0 <= k < 32 ==> uuid_nibble(a, k) == uuid_nibble(b, k),
    ensures
        a as int / pow(16, j) == b as int / pow(16, j),
    decreases 32 - j,
{
    if j == 32 {
        assert(pow(16, 32) == 0x1_0000_0000_0000_0000_0000_0000_0000_0000) by {
            reveal_with_fuel(pow, 33);
        }
        lemma_basic_div(a as int, pow(16, 32));
        lemma_basic_div(b as int, pow(16, 32));
    } else {
        lemma_equal_nibbles_high_part(a, b, j + 1);
        let p = pow(16, j);
        assert(pow(16, j + 1) == 16 * p) by {
            reveal(pow);
        }
        assert(p > 0) by {
            vstd::arithmetic::power::lemma_pow_positive(16, j);
        }
        lemma_div_denominator(a as int, p, 16);
        lemma_div_denominator(b as int, p, 16);
        assert(p * 16 == 16 * p) by (nonlinear_arith);
        lemma_fundamental_div_mod(a as int / p, 16);
        lemma_fundamental_div_mod(b as int / p, 16);
        let k = 31 - j;
        assert(uuid_nibble(a, k) == (a as int / p) % 16);
        assert(uuid_nibble(b, k) == (b as int / p) % 16);
    }
}

/// Different UUIDs have different texts.
pub proof fn lemma_uuid_text_injective(a: u128, b: u128)
    requires
        uuid_hyphenated(a) == uuid_hyphenated(b),
    ensures
        a == b,
{
    let da = uuid_simple(a);
    let db = uuid_simple(b);
    let h = uuid_hyphenated(a);
    assert(h.subrange(0, 8) == da.subrange(0, 8));
    assert(h.subrange(9, 13) == da.subrange(8, 12));
    assert(h.subrange(14, 18) == da.subrange(12, 16));
    assert(h.subrange(19, 23) == da.subrange(16, 20));
    assert(h.subrange(24, 36) == da.subrange(20, 32));
    assert(h.subrange(0, 8) == db.subrange(0, 8));
    assert(h.subrange(9, 13) == db.subrange(8, 12));
    assert(h.subrange(14, 18) == db.subrange(12, 16));
    assert(h.subrange(19, 23) == db.subrange(16, 20));
    assert(h.subrange(24, 36) == db.subrange(20, 32));
    assert forall|k: int| 0 <= k < 32 implies uuid_nibble(a, k) == uuid_nibble(b, k) by {
        if k < 8 {
            assert(da.subrange(0, 8)[k] == db.subrange(0, 8)[k]);
        } else if k < 12 {
            assert(da.subrange(8, 12)[k - 8] == db.subrange(8, 12)[k - 8]);
        } else if k < 16 {
            assert(da.subrange(12, 16)[k - 12] == db.subrange(12, 16)[k - 12]);
        } else if k < 20 {
            assert(da.subrange(16, 20)[k - 16] == db.subrange(16, 20)[k - 16]);
        } else {
            assert(da.subrange(20, 32)[k - 20] == db.subrange(20, 32)[k - 20]);
        }
        assert(da[k] == db[k]);
        lemma_hex_digit_code(uuid_nibble(a, k));
        lemma_hex_digit_code(uuid_nibble(b, k));
    }
    lemma_equal_nibbles_high_part(a, b, 0);
    assert(pow(16, 0) == 1) by {
        reveal(pow);
    }
}

/// A version-4 UUID: version digit `4`, variant digit one of `8`, `9`, `a`,
/// `b`.
pub open spec fn is_v4(id: u128) -> bool {
    uuid_nibble(id, 12) == 4 && 8 <= uuid_nibble(id, 16) < 12
}

/// What `uuid::Uuid::parse_str` makes of a text: the UUID's value, or nothing.
pub uninterp spec fn spec_parse_uuid(text: Seq<char>) -> Option<u128>;

/// `uuid::Uuid::to_string` on the UUID with the given value. Claimed: the text
/// is the hyphenated lowercase form (uuid's `Display` goes through
/// `LowerHex` and `format_hyphenated`), and `parse_str` reads it back.
#[verifier::external_body]
pub(crate) fn uuid_to_string(id: u128) -> (text: String)
    ensures
        text@ == uuid_hyphenated(id),
        spec_parse_uuid(text@) == Some(id),
{
    uuid::Uuid::from_u128(id).to_string()
}

/// `uuid::Uuid::parse_str`, giving the parsed UUID's 128-bit value. Claimed:
/// the result is the one named by `spec_parse_uuid`.
#[verifier::external_body]
pub(crate) fn parse_uuid(text: &str) -> (id: Option<u128>)
    ensures
        id == spec_parse_uuid(text@),
{
    uuid::Uuid::parse_str(text).ok().map(|u| u.as_u128())
}

/// `uuid::Uuid::new_v4`: a fresh random UUID, as its 128-bit value. Claimed
/// (the source masks the random bits and sets these): the version digit is
/// 4 and the variant digit is one of `8`, `9`, `a`, `b`. The other digits
/// are random and not claimed.
#[verifier::external_body]
pub(crate) fn new_uuid_v4() -> (id: u128)
    ensures
        is_v4(id),
{
    uuid::Uuid::new_v4().as_u128()
}

} // verus!
