//! Identifiers: 128-bit UUIDs, their text form, and fresh random ones.

use vstd::prelude::*;
use vstd::arithmetic::div_mod::lemma_mod_breakdown;
use vstd::arithmetic::power::pow;

verus! {

/// The lowercase hexadecimal digit for `d` in `0..16`.
pub open spec fn hex_char(d: int) -> char {
    if d < 10 {
        (d + '0' as int) as char
    } else {
        (d - 10 + 'a' as int) as char
    }
}

/// The value of a hexadecimal digit of either case.
pub open spec fn hex_digit_value(c: char) -> Option<int> {
    if '0' <= c && c <= '9' {
        Some(c as int - '0' as int)
    } else if 'a' <= c && c <= 'f' {
        Some(c as int - 'a' as int + 10)
    } else if 'A' <= c && c <= 'F' {
        Some(c as int - 'A' as int + 10)
    } else {
        None
    }
}

/// The number that a run of hexadecimal digits denotes (zero for no digits).
pub open spec fn hex_value(s: Seq<char>) -> Option<int>
    decreases s.len(),
{
    if s.len() == 0 {
        Some(0)
    } else {
        match (hex_value(s.drop_last()), hex_digit_value(s.last())) {
            (Some(v), Some(d)) => Some(16 * v + d),
            _ => None,
        }
    }
}

/// The last `n` lowercase hexadecimal digits of `v`, most significant first.
pub open spec fn hex_digits(v: nat, n: nat) -> Seq<char>
    decreases n,
{
    if n == 0 {
        Seq::empty()
    } else {
        hex_digits(v / 16, (n - 1) as nat).push(hex_char((v % 16) as int))
    }
}

/// The hyphenated lowercase form `8-4-4-4-12` that `Uuid`'s `Display` writes.
pub open spec fn uuid_text(v: u128) -> Seq<char> {
    let d = hex_digits(v as nat, 32);
    d.subrange(0, 8) + seq!['-'] + d.subrange(8, 12) + seq!['-'] + d.subrange(12, 16)
        + seq!['-'] + d.subrange(16, 20) + seq!['-'] + d.subrange(20, 32)
}

/// The 32 hexadecimal digits of a hyphenated form, when the hyphens stand
/// where they belong.
pub open spec fn unhyphenate(s: Seq<char>) -> Option<Seq<char>> {
    if s.len() == 36 && s[8] == '-' && s[13] == '-' && s[18] == '-' && s[23] == '-' {
        Some(s.subrange(0, 8) + s.subrange(9, 13) + s.subrange(14, 18) + s.subrange(19, 23)
            + s.subrange(24, 36))
    } else {
        None
    }
}

/// The value of 32 hexadecimal digits.
pub open spec fn hex32_value(s: Seq<char>) -> Option<u128> {
    match hex_value(s) {
        Some(v) => if s.len() == 32 { Some(v as u128) } else { None },
        None => None,
    }
}

/// The value of a hyphenated form.
pub open spec fn hyphenated_value(s: Seq<char>) -> Option<u128> {
    match unhyphenate(s) {
        Some(d) => hex32_value(d),
        None => None,
    }
}

/// ASCII lowercase of a character.
pub open spec fn ascii_lower(c: char) -> char {
    if 'A' <= c && c <= 'Z' {
        (c as int + 32) as char
    } else {
        c
    }
}

/// What `Uuid::parse_str` accepts: 32 hexadecimal digits, the hyphenated
/// form, the hyphenated form in braces, or `urn:uuid:` (in any case)
/// followed by the hyphenated form; digits in either case.
pub open spec fn uuid_value(s: Seq<char>) -> Option<u128> {
    if s.len() == 32 {
        hex32_value(s)
    } else if s.len() == 36 {
        hyphenated_value(s)
    } else if s.len() == 38 && s[0] == '{' && s[37] == '}' {
        hyphenated_value(s.subrange(1, 37))
    } else if s.len() == 45 && s.subrange(0, 9).map_values(|c: char| ascii_lower(c))
        == "urn:uuid:"@ {
        hyphenated_value(s.subrange(9, 45))
    } else {
        None
    }
}

/// `Uuid::parse_str`, taking the parsed identifier as a number.
#[verifier::external_body]
pub(crate) fn parse_uuid(s: &str) -> (res: Option<u128>)
    ensures
        res == uuid_value(s@),
{
    match uuid::Uuid::parse_str(s) {
        Ok(u) => Some(u.as_u128()),
        Err(_) => None,
    }
}

/// `Uuid::to_string` of the identifier with this number.
#[verifier::external_body]
pub(crate) fn uuid_to_string(v: u128) -> (s: String)
    ensures
        s@ == uuid_text(v),
{
    uuid::Uuid::from_u128(v).to_string()
}

/// A version 4 (random) UUID of the RFC variant: the version nibble (bits
/// 76 to 79) is 4 and the variant bits (62 and 63) are `10`.
pub open spec fn is_v4(v: u128) -> bool {
    (v >> 76u128) & 0xfu128 == 4 && (v >> 62u128) & 0x3u128 == 2
}

/// `Uuid::new_v4`: a fresh random identifier. The random number generator
/// decides the other 122 bits; `new_v4` masks the version and variant bits
/// of every result to those of a version 4 UUID.
#[verifier::external_body]
pub(crate) fn new_uuid() -> (v: u128)
    ensures
        is_v4(v),
{
    uuid::Uuid::new_v4().as_u128()
}

/// The identifier that the text `s` of a request path names, as
/// `Uuid::try_parse` reads it; `None` when `s` is not a UUID.
pub fn parse_path_uuid(s: &str) -> (res: Option<u128>)
    ensures
        res == uuid_value(s@),
{
    parse_uuid(s)
}

/// The digits of `hex_digits` read back give `v` modulo `16^n`.
pub proof fn lemma_hex_digits_value(v: nat, n: nat)
    ensures
        hex_digits(v, n).len() == n,
        hex_value(hex_digits(v, n)) == Some((v as int) % pow(16, n)),
    decreases n,
{
    if n == 0 {
        vstd::arithmetic::power::lemma_pow0(16);
    } else {
        lemma_hex_digits_value(v / 16, (n - 1) as nat);
        let d = hex_digits(v, n);
        assert(d.drop_last() =~= hex_digits(v / 16, (n - 1) as nat));
        let r = v % 16;
        assert(hex_digit_value(hex_char(r as int)) == Some(r as int));
        vstd::arithmetic::power::lemma_pow_positive(16, (n - 1) as nat);
        lemma_mod_breakdown(v as int, 16, pow(16, (n - 1) as nat));
        vstd::arithmetic::power::lemma_pow_adds(16, 1, (n - 1) as nat);
        vstd::arithmetic::power::lemma_pow1(16);
        assert(1 + (n - 1) == n);
    }
}

/// The text of a UUID parses back to the same UUID.
pub proof fn lemma_uuid_text_parses(v: u128)
    ensures
        uuid_text(v).len() == 36,
        uuid_value(uuid_text(v)) == Some(v),
{
    let d = hex_digits(v as nat, 32);
    lemma_hex_digits_value(v as nat, 32);
    assert(pow(16, 32) == 0x1_0000_0000_0000_0000_0000_0000_0000_0000int) by {
        reveal_with_fuel(pow, 33);
    }
    let t = uuid_text(v);
    assert(t.len() == 36);
    assert(unhyphenate(t) == Some(d)) by {
        assert(t[8] == '-' && t[13] == '-' && t[18] == '-' && t[23] == '-');
        assert(t.subrange(0, 8) + t.subrange(9, 13) + t.subrange(14, 18) + t.subrange(19, 23)
            + t.subrange(24, 36) =~= d);
    }
    assert((v as nat) % 0x1_0000_0000_0000_0000_0000_0000_0000_0000nat == v as nat);
}

} // verus!
