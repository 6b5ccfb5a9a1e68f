//! The identifiers of tenants, applications and device profiles: UUIDs, held as 128-bit numbers.
use vstd::prelude::*;

use crate::text::{all_hex, hex_digits, hex_sum, lemma_hex_digits, pow16};

verus! {

/// `uuid::Error`. It is carried along, and nothing is known of what is inside.
#[verifier::external_type_specification]
#[verifier::external_body]
pub struct ExUuidError(uuid::Error);

/// The hexadecimal digits of a text with hyphens behind the digits 8, 12, 16 and 20.
pub open spec fn without_hyphens(s: Seq<char>) -> Option<Seq<char>> {
    if s.len() == 36 && s[8] == '-' && s[13] == '-' && s[18] == '-' && s[23] == '-' {
        Some(
            s.subrange(0, 8) + s.subrange(9, 13) + s.subrange(14, 18) + s.subrange(19, 23)
                + s.subrange(24, 36),
        )
    } else {
        None
    }
}

/// Digits with hyphens behind the digits 8, 12, 16 and 20.
pub open spec fn with_hyphens(digits: Seq<char>) -> Seq<char> {
    digits.subrange(0, 8).push('-') + digits.subrange(8, 12).push('-') + digits.subrange(
        12,
        16,
    ).push('-') + digits.subrange(16, 20).push('-') + digits.subrange(20, 32)
}

/// A letter from A to Z in lower case; any other character as it is.
pub open spec fn ascii_lower(c: char) -> char {
    if 'A' <= c <= 'Z' {
        (c as u32 + 32) as char
    } else {
        c
    }
}

/// Whether a text starts with `urn:uuid:`, in whatever case.
pub open spec fn is_urn(s: Seq<char>) -> bool {
    s.len() >= 9 && s.take(9).map_values(|c: char| ascii_lower(c)) == "urn:uuid:"@
}

/// The digits of a UUID: all 32 of them alone, or with hyphens, which braces or the prefix
/// `urn:uuid:` may go with.
pub open spec fn uuid_digits(s: Seq<char>) -> Option<Seq<char>> {
    if s.len() == 32 {
        Some(s)
    } else if s.len() == 36 {
        without_hyphens(s)
    } else if s.len() == 38 && s[0] == '{' && s[37] == '}' {
        without_hyphens(s.subrange(1, 37))
    } else if s.len() == 45 && is_urn(s) {
        without_hyphens(s.skip(9))
    } else {
        None
    }
}

/// The UUID that a text stands for.
pub open spec fn uuid_parsed(s: Seq<char>) -> Option<u128> {
    match uuid_digits(s) {
        Some(digits) => if all_hex(digits) {
            Some(hex_sum(digits) as u128)
        } else {
            None
        },
        None => None,
    }
}

/// The text of a UUID: its digits in lower case, with hyphens.
pub open spec fn uuid_text(id: u128) -> Seq<char> {
    with_hyphens(hex_digits(id as nat, 32))
}

/// Reads a UUID, by the `FromStr` impl of `uuid::Uuid`: in the four ways that UUIDs are written,
/// with digits in either case.
#[verifier::external_body]
pub(crate) fn parse_uuid(s: &str) -> (r: Result<u128, uuid::Error>)
    ensures
        match r {
            Ok(id) => uuid_parsed(s@) == Some(id),
            Err(_) => uuid_parsed(s@) is None,
        },
{
    match s.parse::<uuid::Uuid>() {
        Ok(id) => Ok(id.as_u128()),
        Err(e) => Err(e),
    }
}

/// The text of a UUID, by the `Display` impl of `uuid::Uuid`: the digits in lower case, with
/// hyphens.
#[verifier::external_body]
pub(crate) fn uuid_to_text(id: u128) -> (r: String)
    ensures
        r@ == uuid_text(id),
{
    uuid::Uuid::from_u128(id).to_string()
}

/// The text of a UUID reads as that UUID.
pub proof fn law_uuid_round_trip(id: u128)
    ensures
        uuid_parsed(uuid_text(id)) == Some(id),
{
    let digits = hex_digits(id as nat, 32);
    lemma_hex_digits(id as nat, 32);
    assert(pow16(32) == 0x1_0000_0000_0000_0000_0000_0000_0000_0000) by {
        reveal_with_fuel(pow16, 33);
    }
    vstd::arithmetic::div_mod::lemma_small_mod(id as nat, pow16(32));
    let s = uuid_text(id);
    assert(s.len() == 36);
    assert(s[8] == '-' && s[13] == '-' && s[18] == '-' && s[23] == '-');
    assert(without_hyphens(s)->0 =~= digits);
}

} // verus!
