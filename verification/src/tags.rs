//! Tags of devices: keys with their values, no key twice.
use vstd::prelude::*;

verus! {

/// Tags: keys with their values, in the order in which the keys came. No key occurs twice.
#[derive(Debug)]
pub struct Tags {
    pairs: Vec<(String, String)>,
}

/// Pairs of texts as mathematical values.
pub open spec fn pairs_view(pairs: Seq<(String, String)>) -> Seq<(Seq<char>, Seq<char>)> {
    Seq::new(pairs.len(), |i: int| (pairs[i].0@, pairs[i].1@))
}

/// Whether no key occurs twice.
pub open spec fn distinct_keys(pairs: Seq<(Seq<char>, Seq<char>)>) -> bool {
    forall|i: int, j: int|
        0 <= i < j < pairs.len() ==> (#[trigger] pairs[i]).0 != (#[trigger] pairs[j]).0
}

/// Whether `key` stands at `i`.
pub open spec fn key_at(pairs: Seq<(Seq<char>, Seq<char>)>, key: Seq<char>, i: int) -> bool {
    0 <= i < pairs.len() && pairs[i].0 == key
}

/// The tags as a map.
pub open spec fn as_map(pairs: Seq<(Seq<char>, Seq<char>)>) -> Map<Seq<char>, Seq<char>> {
    Map::new(
        |key: Seq<char>| exists|i: int| key_at(pairs, key, i),
        |key: Seq<char>| pairs[choose|i: int| key_at(pairs, key, i)].1,
    )
}

impl View for Tags {
    type V = Seq<(Seq<char>, Seq<char>)>;

    closed spec fn view(&self) -> Seq<(Seq<char>, Seq<char>)> {
        pairs_view(self.pairs@)
    }
}

impl Tags {
    #[verifier::type_invariant]
    spec fn wf(self) -> bool {
        distinct_keys(pairs_view(self.pairs@))
    }

    /// No tags.
    pub fn new() -> (r: Tags)
        ensures
            r@ == Seq::<(Seq<char>, Seq<char>)>::empty(),
    {
        let r = Tags { pairs: Vec::new() };
        assert(r@ =~= Seq::<(Seq<char>, Seq<char>)>::empty());
        r
    }

    /// The tags with `value` for `key`, whatever the value was before.
    pub fn with(self, key: String, value: String) -> (r: Tags)
        ensures
            as_map(r@) == as_map(self@).insert(key@, value@),
            distinct_keys(r@),
    {
        proof {
            use_type_invariant(&self);
        }
        let ghost before = self@;
        let mut pairs = self.pairs;
        let mut i: usize = 0;
        while i < pairs.len()
            invariant
                i <= pairs@.len(),
                before == self@,
                pairs_view(pairs@) == before,
                distinct_keys(before),
                forall|j: int| 0 <= j < i ==> (#[trigger] before[j]).0 != key@,
            decreases pairs@.len() - i,
        {
            if pairs[i].0 == key {
                proof {
                    lemma_as_map_updated(before, key@, value@, i as int);
                }
                let ghost after = before.update(i as int, (key@, value@));
                pairs.set(i, (key, value));
                assert(pairs_view(pairs@) =~= after);
                return Tags { pairs };
            }
            assert(before[i as int].0 == pairs@[i as int].0@);
            i += 1;
        }
        proof {
            lemma_as_map_pushed(before, key@, value@);
        }
        let ghost after = before.push((key@, value@));
        pairs.push((key, value));
        assert(pairs_view(pairs@) =~= after);
        Tags { pairs }
    }

    /// The keys with their values.
    pub fn pairs(&self) -> (r: &Vec<(String, String)>)
        ensures
            pairs_view(r@) == self@,
            distinct_keys(self@),
    {
        proof {
            use_type_invariant(self);
        }
        &self.pairs
    }
}

impl Clone for Tags {
    fn clone(&self) -> (r: Tags)
        ensures
            r@ == self@,
    {
        proof {
            use_type_invariant(self);
        }
        let pairs = copy_pairs(&self.pairs);
        Tags { pairs }
    }
}

/// A copy of pairs of texts.
pub(crate) fn copy_pairs(pairs: &Vec<(String, String)>) -> (r: Vec<(String, String)>)
    ensures
        pairs_view(r@) == pairs_view(pairs@),
{
    let mut r: Vec<(String, String)> = Vec::new();
    let mut i: usize = 0;
    while i < pairs.len()
        invariant
            i <= pairs@.len(),
            r@.len() == i,
            forall|k: int|
                0 <= k < i ==> (#[trigger] r@[k]).0@ == pairs@[k].0@ && r@[k].1@ == pairs@[k].1@,
        decreases pairs@.len() - i,
    {
        r.push((pairs[i].0.clone(), pairs[i].1.clone()));
        i += 1;
    }
    assert(pairs_view(r@) =~= pairs_view(pairs@));
    r
}

/// A tag is found under its key.
pub proof fn lemma_as_map(pairs: Seq<(Seq<char>, Seq<char>)>, i: int)
    requires
        distinct_keys(pairs),
        0 <= i < pairs.len(),
    ensures
        as_map(pairs).contains_key(pairs[i].0),
        as_map(pairs)[pairs[i].0] == pairs[i].1,
{
    let key = pairs[i].0;
    assert(key_at(pairs, key, i));
    let j = choose|j: int| key_at(pairs, key, j);
    assert(j == i);
}

proof fn lemma_as_map_updated(
    pairs: Seq<(Seq<char>, Seq<char>)>,
    key: Seq<char>,
    value: Seq<char>,
    i: int,
)
    requires
        distinct_keys(pairs),
        key_at(pairs, key, i),
    ensures
        distinct_keys(pairs.update(i, (key, value))),
        as_map(pairs.update(i, (key, value))) == as_map(pairs).insert(key, value),
{
    let after = pairs.update(i, (key, value));
    assert forall|k: Seq<char>| #![auto] as_map(after).contains_key(k) <==> as_map(pairs).insert(
        key,
        value,
    ).contains_key(k) by {
        if as_map(after).contains_key(k) {
            let j = choose|j: int| key_at(after, k, j);
            assert(key_at(pairs, k, j));
        }
        if as_map(pairs).contains_key(k) {
            let j = choose|j: int| key_at(pairs, k, j);
            assert(key_at(after, k, j));
        }
        assert(key_at(after, key, i));
    }
    assert forall|k: Seq<char>| #[trigger] as_map(after).contains_key(k) implies as_map(after)[k]
        == as_map(pairs).insert(key, value)[k] by {
        let j = choose|j: int| key_at(after, k, j);
        lemma_as_map(after, j);
        lemma_as_map(pairs, j);
    }
    assert(as_map(after) =~= as_map(pairs).insert(key, value));
}

proof fn lemma_as_map_pushed(
    pairs: Seq<(Seq<char>, Seq<char>)>,
    key: Seq<char>,
    value: Seq<char>,
)
    requires
        distinct_keys(pairs),
        forall|j: int| 0 <= j < pairs.len() ==> (#[trigger] pairs[j]).0 != key,
    ensures
        distinct_keys(pairs.push((key, value))),
        as_map(pairs.push((key, value))) == as_map(pairs).insert(key, value),
{
    let after = pairs.push((key, value));
    assert forall|k: Seq<char>| #![auto] as_map(after).contains_key(k) <==> as_map(pairs).insert(
        key,
        value,
    ).contains_key(k) by {
        if as_map(after).contains_key(k) {
            let j = choose|j: int| key_at(after, k, j);
            if j < pairs.len() {
                assert(key_at(pairs, k, j));
            }
        }
        if as_map(pairs).contains_key(k) {
            let j = choose|j: int| key_at(pairs, k, j);
            assert(key_at(after, k, j));
        }
        assert(key_at(after, key, pairs.len() as int));
    }
    assert forall|k: Seq<char>| #[trigger] as_map(after).contains_key(k) implies as_map(after)[k]
        == as_map(pairs).insert(key, value)[k] by {
        let j = choose|j: int| key_at(after, k, j);
        lemma_as_map(after, j);
        if j < pairs.len() {
            lemma_as_map(pairs, j);
        }
    }
    assert(as_map(after) =~= as_map(pairs).insert(key, value));
}

} // verus!
