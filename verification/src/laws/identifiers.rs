//! Numbers and identifiers as texts, and tags.
use vstd::arithmetic::div_mod::{lemma_div_denominator, lemma_fundamental_div_mod_converse};
use vstd::arithmetic::power::{lemma_pow0, lemma_pow1, lemma_pow_adds, lemma_pow_positive, pow};
use vstd::prelude::*;

use crate::eui64::Eui64;
use crate::tags::{as_map, distinct_keys, key_at, lemma_as_map, pairs_view, Tags};
use crate::text::{
    all_hex, hex_char, hex_digits, hex_number, hex_sum, hex_value, join2, join3, to_hex,
    to_hex_digits,
};

verus! {

/// The hexadecimal digits.
pub open spec fn digits() -> Seq<char> {
    "0123456789abcdef"@
}

/// A hexadecimal digit in lower case; any other character as it is.
pub open spec fn lower(c: char) -> char {
    match c {
        'A' => 'a',
        'B' => 'b',
        'C' => 'c',
        'D' => 'd',
        'E' => 'e',
        'F' => 'f',
        _ => c,
    }
}

/// Whether each character of a text is the hexadecimal digit of a number at its place, the last one
/// that of the ones.
pub open spec fn spells(n: int, s: Seq<char>) -> bool {
    forall|i: int|
        0 <= i < s.len() ==> #[trigger] s[i] == digits()[n / pow(16, (s.len() - 1 - i) as nat) % 16]
}

proof fn lemma_digits(d: nat)
    requires
        d < 16,
    ensures
        digits()[d as int] == hex_char(d),
        digits().len() == 16,
{
    reveal_strlit("0123456789abcdef");
}

proof fn lemma_spells_on(n: int, s: Seq<char>)
    requires
        n >= 0,
        spells(n / 16, s),
    ensures
        spells(n, s.push(hex_char((n % 16) as nat))),
{
    let all = s.push(hex_char((n % 16) as nat));
    assert forall|i: int| 0 <= i < all.len() implies #[trigger] all[i] == digits()[n / pow(
        16,
        (all.len() - 1 - i) as nat,
    ) % 16] by {
        let k = (all.len() - 1 - i) as nat;
        if k == 0 {
            lemma_pow0(16);
            assert(n / 1 == n);
            lemma_digits((n % 16) as nat);
        } else {
            let p = pow(16, (k - 1) as nat);
            lemma_pow_positive(16, (k - 1) as nat);
            lemma_pow_adds(16, 1, (k - 1) as nat);
            lemma_pow1(16);
            lemma_div_denominator(n, 16, p);
            assert(all[i] == s[i]);
        }
    }
}

proof fn lemma_hex_digits_spell(n: nat, width: nat)
    ensures
        hex_digits(n, width).len() == width,
        spells(n as int, hex_digits(n, width)),
    decreases width,
{
    if width > 0 {
        lemma_hex_digits_spell(n / 16, (width - 1) as nat);
        lemma_spells_on(n as int, hex_digits(n / 16, (width - 1) as nat));
    }
}

proof fn lemma_hex_number_spells(n: nat)
    ensures
        hex_number(n).len() > 0,
        spells(n as int, hex_number(n)),
        n < pow(16, hex_number(n).len()),
        n > 0 ==> n >= pow(16, (hex_number(n).len() - 1) as nat),
        n == 0 ==> hex_number(n).len() == 1,
    decreases n,
{
    lemma_pow1(16);
    lemma_pow0(16);
    if n < 16 {
        assert(spells(n as int / 16, Seq::<char>::empty()));
        lemma_spells_on(n as int, Seq::<char>::empty());
        assert(Seq::<char>::empty().push(hex_char(n)) =~= hex_number(n));
    } else {
        let rest = hex_number(n / 16);
        lemma_hex_number_spells(n / 16);
        lemma_spells_on(n as int, rest);
        lemma_pow_adds(16, 1, rest.len());
        lemma_pow_adds(16, 1, (rest.len() - 1) as nat);
    }
}

/// The last digits of a number are spelled, as many as are asked for.
pub proof fn law_hex_digits(n: u64, width: u8, r: String)
    requires
        call_ensures(to_hex_digits, (n, width), r),
    ensures
        r@.len() == width,
        spells(n as int, r@),
{
    lemma_hex_digits_spell(n as nat, width as nat);
}

/// All digits of a number are spelled, and no zero before them.
pub proof fn law_hex(n: u64, r: String)
    requires
        call_ensures(to_hex, (n,), r),
    ensures
        r@.len() > 0,
        spells(n as int, r@),
        n < pow(16, r@.len()),
        r@.len() > 1 ==> n >= pow(16, (r@.len() - 1) as nat),
{
    lemma_hex_number_spells(n as nat);
}

/// The text of an identifier has sixteen digits, and they spell it.
pub proof fn law_eui64_text(id: &Eui64, r: String)
    requires
        call_ensures(Eui64::to_text, (id,), r),
    ensures
        r@.len() == 16,
        spells(id.value as int, r@),
{
    lemma_hex_digits_spell(id.value as nat, 16);
}

proof fn lemma_read_back(s: Seq<char>)
    requires
        all_hex(s),
    ensures
        hex_digits(hex_sum(s), s.len()).len() == s.len(),
        forall|i: int|
            0 <= i < s.len() ==> #[trigger] hex_digits(hex_sum(s), s.len())[i] == lower(s[i]),
    decreases s.len(),
{
    if s.len() > 0 {
        let rest = s.drop_last();
        assert forall|i: int| 0 <= i < rest.len() implies hex_value(#[trigger] rest[i]) is Some by {
            assert(hex_value(s[i]) is Some);
        }
        lemma_read_back(rest);
        let c = s[s.len() - 1];
        let d = hex_value(c)->0;
        assert(hex_value(c) is Some && d < 16);
        assert(hex_sum(s) == hex_sum(rest) * 16 + d);
        lemma_fundamental_div_mod_converse(
            hex_sum(s) as int,
            16,
            hex_sum(rest) as int,
            d as int,
        );
        assert(hex_char(d) == lower(c));
    }
}

/// Exactly the texts of sixteen hexadecimal digits, in either case, are read as identifiers; the text
/// of an identifier that was read has the same digits, in lower case.
pub proof fn law_eui64_parse(s: &str, r: Option<Eui64>, text: String)
    requires
        call_ensures(Eui64::parse, (s,), r),
        r matches Some(id) ==> call_ensures(Eui64::to_text, (&id,), text),
    ensures
        r is Some <==> s@.len() == 16 && forall|i: int|
            0 <= i < 16 ==> digits().contains(lower(#[trigger] s@[i])),
        r is Some ==> text@ == s@.map_values(|c: char| lower(c)),
{
    reveal_strlit("0123456789abcdef");
    assert forall|c: char| #[trigger] hex_value(c) is Some <==> digits().contains(lower(c)) by {
        if let Some(d) = hex_value(c) {
            lemma_digits(d);
            assert(digits()[d as int] == lower(c));
        }
        if digits().contains(lower(c)) {
            let i = choose|i: int| 0 <= i < 16 && digits()[i] == lower(c);
            assert(digits()[i] == lower(c));
        }
    }
    if s@.len() == 16 && forall|i: int| 0 <= i < 16 ==> digits().contains(lower(#[trigger] s@[i])) {
        assert forall|i: int| 0 <= i < s@.len() implies hex_value(#[trigger] s@[i]) is Some by {
            assert(digits().contains(lower(s@[i])));
        }
        assert(all_hex(s@));
    }
    if r is Some {
        assert forall|i: int| 0 <= i < 16 implies digits().contains(lower(#[trigger] s@[i])) by {
            assert(hex_value(s@[i]) is Some);
        }
        lemma_read_back(s@);
        assert(text@ =~= s@.map_values(|c: char| lower(c)));
    }
}

/// Texts that are joined stand one behind the other.
pub proof fn law_joined(a: &str, b: &str, c: &str, two: String, three: String)
    requires
        call_ensures(join2, (a, b), two),
        call_ensures(join3, (a, b, c), three),
    ensures
        two@ == a@ + b@,
        three@ == a@ + (b@ + c@),
{
    assert(a@ + b@ + c@ =~= a@ + (b@ + c@));
}

/// There are no tags to begin with.
pub proof fn law_no_tags(r: Tags)
    requires
        call_ensures(Tags::new, (), r),
    ensures
        r@.len() == 0,
{
}

/// A tag that was set is there with its value; all other tags are there with theirs, and no others
/// are; and no key is there twice.
pub proof fn law_tag_set(tags: Tags, key: String, value: String, r: Tags)
    requires
        distinct_keys(tags@),
        call_ensures(Tags::with, (tags, key, value), r),
    ensures
        forall|i: int, j: int|
            0 <= i < j < r@.len() ==> (#[trigger] r@[i]).0 != (#[trigger] r@[j]).0,
        r@.contains((key@, value@)),
        forall|tag: (Seq<char>, Seq<char>)|
            tag.0 != key@ ==> (#[trigger] r@.contains(tag) <==> tags@.contains(tag)),
{
    let (old_map, new_map) = (as_map(tags@), as_map(r@));
    assert(new_map.contains_key(key@));
    let k = choose|i: int| key_at(r@, key@, i);
    lemma_as_map(r@, k);
    assert(r@[k] == (key@, value@));
    assert forall|tag: (Seq<char>, Seq<char>)| tag.0 != key@ implies (#[trigger] r@.contains(tag)
        <==> tags@.contains(tag)) by {
        if r@.contains(tag) {
            let i = choose|i: int| 0 <= i < r@.len() && r@[i] == tag;
            lemma_as_map(r@, i);
            assert(old_map.contains_key(tag.0));
            let j = choose|j: int| key_at(tags@, tag.0, j);
            lemma_as_map(tags@, j);
            assert(tags@[j] == tag);
        }
        if tags@.contains(tag) {
            let i = choose|i: int| 0 <= i < tags@.len() && tags@[i] == tag;
            lemma_as_map(tags@, i);
            assert(new_map.contains_key(tag.0));
            let j = choose|j: int| key_at(r@, tag.0, j);
            lemma_as_map(r@, j);
            assert(r@[j] == tag);
        }
    }
}

/// The tags can be read one by one.
pub proof fn law_tags_read(tags: &Tags, r: &Vec<(String, String)>)
    requires
        call_ensures(Tags::pairs, (tags,), r),
    ensures
        r@.len() == tags@.len(),
        forall|i: int|
            0 <= i < r@.len() ==> (#[trigger] r@[i]).0@ == tags@[i].0 && r@[i].1@ == tags@[i].1,
{
    assert(forall|i: int|
        0 <= i < r@.len() ==> pairs_view(r@)[i] == ((#[trigger] r@[i]).0@, r@[i].1@));
}

} // verus!
