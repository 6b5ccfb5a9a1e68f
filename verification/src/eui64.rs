//! The identifiers of gateways and devices.
use vstd::prelude::*;
use vstd::string::is_ascii_spec_bytes;
use vstd::utf8::is_ascii_chars;

use crate::text::{
    all_hex, hex_digits, hex_sum, hex_value, lemma_hex_digits, lemma_hex_sum_bound, pow16,
    to_hex_digits,
};

verus! {

/// The 64-bit identifier of a gateway or a device.
#[derive(Clone, Copy, Debug, PartialEq, Eq, Structural)]
pub struct Eui64 {
    /// The eight bytes of the identifier as one number, the first byte the most significant.
    pub value: u64,
}

/// The identifier that a text stands for: sixteen hexadecimal digits, in either case.
pub open spec fn eui64_parsed(s: Seq<char>) -> Option<nat> {
    if s.len() == 16 && all_hex(s) {
        Some(hex_sum(s))
    } else {
        None
    }
}

/// The text of an identifier: sixteen hexadecimal digits in lower case.
pub open spec fn eui64_text(value: nat) -> Seq<char> {
    hex_digits(value, 16)
}

proof fn lemma_ascii_char(c: char)
    requires
        '\0' <= c <= '\u{7f}',
    ensures
        (c as u8) as char == c,
{
}

fn digit_value(b: u8) -> (r: Option<u8>)
    ensures
        match r {
            Some(d) => hex_value(b as char) == Some(d as nat),
            None => hex_value(b as char) is None,
        },
{
    if 48 <= b && b <= 57 {
        Some((b - 48) as u8)
    } else if 97 <= b && b <= 102 {
        Some((b - 87) as u8)
    } else if 65 <= b && b <= 70 {
        Some((b - 55) as u8)
    } else {
        None
    }
}

impl Eui64 {
    /// Reads an identifier.
    pub fn parse(s: &str) -> (r: Option<Eui64>)
        ensures
            match r {
                Some(e) => eui64_parsed(s@) == Some(e.value as nat),
                None => eui64_parsed(s@) is None,
            },
    {
        broadcast use is_ascii_spec_bytes;
        if !s.is_ascii() {
            proof {
                if all_hex(s@) {
                    assert forall|i: int| 0 <= i < s@.len() implies '\0' <= #[trigger] s@[i] <= '\u{7f}' by {
                        assert(hex_value(s@[i]) is Some);
                    }
                }
            }
            return None;
        }
        let bytes = s.as_bytes();
        if bytes.len() != 16 {
            return None;
        }
        let mut value: u64 = 0;
        let mut i: usize = 0;
        while i < 16
            invariant
                i <= 16,
                s@.len() == 16,
                bytes@ == Seq::new(16, |k: int| s@[k] as u8),
                is_ascii_chars(s@),
                all_hex(s@.take(i as int)),
                value == hex_sum(s@.take(i as int)),
            decreases 16 - i,
        {
            proof {
                lemma_hex_sum_bound(s@.take(i as int));
                reveal_with_fuel(pow16, 17);
                assert(s@.take(i + 1).drop_last() =~= s@.take(i as int));
                lemma_ascii_char(s@[i as int]);
            }
            match digit_value(bytes[i]) {
                Some(d) => {
                    assert(value < pow16(15));
                    value = value * 16 + d as u64;
                    assert forall|k: int| 0 <= k < i + 1 implies hex_value(#[trigger] s@.take(i + 1)[k]) is Some by {
                        if k < i {
                            assert(hex_value(s@.take(i as int)[k]) is Some);
                        }
                    }
                },
                None => {
                    assert(hex_value(s@[i as int]) is None);
                    return None;
                },
            }
            i += 1;
        }
        assert(s@.take(16) =~= s@);
        Some(Eui64 { value })
    }

    /// The text of the identifier.
    pub fn to_text(&self) -> (r: String)
        ensures
            r@ == eui64_text(self.value as nat),
    {
        to_hex_digits(self.value, 16)
    }
}

/// The text of an identifier reads as that identifier.
pub proof fn law_eui64_round_trip(e: Eui64)
    ensures
        eui64_parsed(eui64_text(e.value as nat)) == Some(e.value as nat),
{
    lemma_hex_digits(e.value as nat, 16);
    assert(pow16(16) == 0x1_0000_0000_0000_0000) by {
        reveal_with_fuel(pow16, 17);
    }
    vstd::arithmetic::div_mod::lemma_small_mod(e.value as nat, pow16(16));
}

} // verus!
