//! Text and bytes: joining, searching, trimming and hexadecimal digits.
use vstd::prelude::*;

verus! {

/// Whether `needle` stands in `b` at `i`.
pub open spec fn occurs_at(b: Seq<u8>, needle: Seq<u8>, i: int) -> bool {
    0 <= i && i + needle.len() <= b.len() && b.subrange(i, i + needle.len()) == needle
}

/// Whether `needle` stands anywhere in `b`.
pub open spec fn occurs(b: Seq<u8>, needle: Seq<u8>) -> bool {
    exists|i: int| occurs_at(b, needle, i)
}

/// Whether `b` ends with `suffix`.
pub open spec fn has_suffix(b: Seq<u8>, suffix: Seq<u8>) -> bool {
    occurs_at(b, suffix, b.len() - suffix.len())
}

/// Whether `needle` stands in `b` at `i`.
fn stands_at(b: &[u8], needle: &[u8], i: usize) -> (r: bool)
    requires
        i + needle@.len() <= b@.len(),
    ensures
        r == occurs_at(b@, needle@, i as int),
{
    let end: usize = b.len();
    let mut k: usize = 0;
    while k < needle.len()
        invariant
            k <= needle@.len(),
            end == b@.len(),
            i + needle@.len() <= b@.len(),
            forall|j: int| 0 <= j < k ==> b@[i + j] == needle@[j],
        decreases needle@.len() - k,
    {
        if b[i + k] != needle[k] {
            assert(b@.subrange(i as int, i + needle@.len())[k as int] != needle@[k as int]);
            return false;
        }
        k += 1;
    }
    assert(b@.subrange(i as int, i + needle@.len()) =~= needle@);
    true
}

/// Whether `needle` stands anywhere in `b`.
pub fn contains(b: &[u8], needle: &[u8]) -> (r: bool)
    ensures
        r == occurs(b@, needle@),
{
    if needle.len() > b.len() {
        return false;
    }
    let last: usize = b.len() - needle.len();
    let mut i: usize = 0;
    loop
        invariant
            i <= last,
            last == b@.len() - needle@.len(),
            forall|j: int| 0 <= j < i ==> !occurs_at(b@, needle@, j),
        decreases last - i,
    {
        if stands_at(b, needle, i) {
            return true;
        }
        if i == last {
            return false;
        }
        i += 1;
    }
}

/// Whether `b` ends with `suffix`.
pub fn ends_with(b: &[u8], suffix: &[u8]) -> (r: bool)
    ensures
        r == has_suffix(b@, suffix@),
{
    if suffix.len() > b.len() {
        return false;
    }
    stands_at(b, suffix, b.len() - suffix.len())
}

/// The texts one after the other.
pub fn join2(a: &str, b: &str) -> (r: String)
    ensures
        r@ == a@ + b@,
{
    let mut r = String::new();
    r.append(a);
    r.append(b);
    assert(r@ =~= a@ + b@);
    r
}

/// The texts one after the other.
pub fn join3(a: &str, b: &str, c: &str) -> (r: String)
    ensures
        r@ == a@ + b@ + c@,
{
    let mut r = join2(a, b);
    r.append(c);
    r
}

/// Whether a character is white space, as Unicode has it.
pub open spec fn is_white_space(c: char) -> bool {
    ||| 0x09 <= c as u32 <= 0x0d
    ||| c as u32 == 0x20
    ||| c as u32 == 0x85
    ||| c as u32 == 0xa0
    ||| c as u32 == 0x1680
    ||| 0x2000 <= c as u32 <= 0x200a
    ||| 0x2028 <= c as u32 <= 0x2029
    ||| c as u32 == 0x202f
    ||| c as u32 == 0x205f
    ||| c as u32 == 0x3000
}

/// The text without the white space at its start.
pub open spec fn trimmed_start(s: Seq<char>) -> Seq<char>
    decreases s.len(),
{
    if s.len() > 0 && is_white_space(s[0]) {
        trimmed_start(s.drop_first())
    } else {
        s
    }
}

/// The text without the white space at its end.
pub open spec fn trimmed_end(s: Seq<char>) -> Seq<char>
    decreases s.len(),
{
    if s.len() > 0 && is_white_space(s.last()) {
        trimmed_end(s.drop_last())
    } else {
        s
    }
}

/// The text without the white space at both ends.
pub open spec fn trimmed(s: Seq<char>) -> Seq<char> {
    trimmed_end(trimmed_start(s))
}

/// The text without the white space at both ends, by `str::trim`: white space is what Unicode has as
/// `White_Space`.
#[verifier::external_body]
pub(crate) fn trim(s: &str) -> (r: &str)
    ensures
        r@ == trimmed(s@),
{
    s.trim()
}

/// The character for a hexadecimal digit.
pub open spec fn hex_char(digit: nat) -> char {
    if digit < 10 {
        (digit + 48) as char
    } else {
        (digit + 87) as char
    }
}

/// The last `width` hexadecimal digits of a number, leading zeros included.
pub open spec fn hex_digits(n: nat, width: nat) -> Seq<char>
    decreases width,
{
    if width == 0 {
        Seq::empty()
    } else {
        hex_digits(n / 16, (width - 1) as nat).push(hex_char(n % 16))
    }
}

/// A number in hexadecimal, without leading zeros.
pub open spec fn hex_number(n: nat) -> Seq<char>
    decreases n,
{
    if n < 16 {
        seq![hex_char(n)]
    } else {
        hex_number(n / 16).push(hex_char(n % 16))
    }
}

/// The value of a hexadecimal digit, in either case.
pub open spec fn hex_value(c: char) -> Option<nat> {
    if '0' <= c <= '9' {
        Some((c as u32 - 48) as nat)
    } else if 'a' <= c <= 'f' {
        Some((c as u32 - 87) as nat)
    } else if 'A' <= c <= 'F' {
        Some((c as u32 - 55) as nat)
    } else {
        None
    }
}

/// Whether a text is made of hexadecimal digits.
pub open spec fn all_hex(s: Seq<char>) -> bool {
    forall|i: int| 0 <= i < s.len() ==> hex_value(#[trigger] s[i]) is Some
}

/// The number that hexadecimal digits stand for.
pub open spec fn hex_sum(s: Seq<char>) -> nat
    decreases s.len(),
{
    if s.len() == 0 {
        0
    } else {
        hex_sum(s.drop_last()) * 16 + hex_value(s.last())->0
    }
}

/// The powers of 16.
pub open spec fn pow16(n: nat) -> nat
    decreases n,
{
    if n == 0 {
        1
    } else {
        16 * pow16((n - 1) as nat)
    }
}

/// Hexadecimal digits stand for less than their number of digits allows.
pub(crate) proof fn lemma_hex_sum_bound(s: Seq<char>)
    requires
        all_hex(s),
    ensures
        hex_sum(s) < pow16(s.len()),
    decreases s.len(),
{
    if s.len() > 0 {
        assert(all_hex(s.drop_last()));
        assert(hex_value(s[s.len() - 1]) is Some);
        lemma_hex_sum_bound(s.drop_last());
    }
}

/// Hexadecimal digits stand for the number that they are the last digits of.
pub(crate) proof fn lemma_hex_digits(n: nat, width: nat)
    ensures
        hex_digits(n, width).len() == width,
        all_hex(hex_digits(n, width)),
        hex_sum(hex_digits(n, width)) == n % pow16(width),
        pow16(width) > 0,
    decreases width,
{
    if width == 0 {
        assert(n % 1 == 0);
    } else {
        let rest = hex_digits(n / 16, (width - 1) as nat);
        let all = hex_digits(n, width);
        lemma_hex_digits(n / 16, (width - 1) as nat);
        assert(all.drop_last() =~= rest);
        assert(hex_value(hex_char(n % 16)) == Some(n % 16));
        assert forall|i: int| 0 <= i < all.len() implies hex_value(#[trigger] all[i]) is Some by {
            if i < width - 1 {
                assert(hex_value(rest[i]) is Some);
            }
        }
        let p = pow16((width - 1) as nat) as int;
        vstd::arithmetic::div_mod::lemma_mod_breakdown(n as int, 16, p);
        assert(16 * p == pow16(width));
    }
}

/// The text for a hexadecimal digit.
fn hex_digit(digit: u8) -> (r: &'static str)
    requires
        digit < 16,
    ensures
        r@ == seq![hex_char(digit as nat)],
{
    proof {
        reveal_strlit("0"); reveal_strlit("1"); reveal_strlit("2"); reveal_strlit("3");
        reveal_strlit("4"); reveal_strlit("5"); reveal_strlit("6"); reveal_strlit("7");
        reveal_strlit("8"); reveal_strlit("9"); reveal_strlit("a"); reveal_strlit("b");
        reveal_strlit("c"); reveal_strlit("d"); reveal_strlit("e"); reveal_strlit("f");
    }
    let r = match digit {
        0 => "0",
        1 => "1",
        2 => "2",
        3 => "3",
        4 => "4",
        5 => "5",
        6 => "6",
        7 => "7",
        8 => "8",
        9 => "9",
        10 => "a",
        11 => "b",
        12 => "c",
        13 => "d",
        14 => "e",
        _ => "f",
    };
    assert(r@ =~= seq![hex_char(digit as nat)]);
    r
}

/// The last `width` hexadecimal digits of a number, leading zeros included.
pub fn to_hex_digits(n: u64, width: u8) -> (r: String)
    ensures
        r@ == hex_digits(n as nat, width as nat),
    decreases width,
{
    if width == 0 {
        String::new()
    } else {
        let mut r = to_hex_digits(n / 16, width - 1);
        r.append(hex_digit((n % 16) as u8));
        assert(r@ =~= hex_digits(n as nat, width as nat));
        r
    }
}

/// A number in hexadecimal, without leading zeros.
pub fn to_hex(n: u64) -> (r: String)
    ensures
        r@ == hex_number(n as nat),
    decreases n,
{
    if n < 16 {
        hex_digit(n as u8).to_string()
    } else {
        let mut r = to_hex(n / 16);
        r.append(hex_digit((n % 16) as u8));
        assert(r@ =~= hex_number(n as nat));
        r
    }
}

} // verus!
