//! The parameter mapping of a request, and its text form.

use crate::error::ApiError;
use crate::text::decimal_text;
use vstd::prelude::*;

verus! {

/// `key` is the key of the pair at index `i` of `pairs`.
pub open spec fn key_at(pairs: Seq<(String, String)>, key: Seq<char>, i: int) -> bool {
    0 <= i < pairs.len() && pairs[i].0@ == key
}

/// No two pairs share a key.
pub open spec fn distinct_keys(pairs: Seq<(String, String)>) -> bool {
    forall|i: int, j: int|
        0 <= i < j < pairs.len() ==> (#[trigger] pairs[i]).0@ != (#[trigger] pairs[j]).0@
}

/// The mapping that a list of pairs with distinct keys stands for.
pub open spec fn pairs_map(pairs: Seq<(String, String)>) -> Map<Seq<char>, Seq<char>> {
    Map::new(
        |key: Seq<char>| exists|i: int| key_at(pairs, key, i),
        |key: Seq<char>| pairs[choose|i: int| key_at(pairs, key, i)].1@,
    )
}

/// The text that `serde_json::to_string` writes for a map from strings to
/// strings: a JSON object whose members are in the order of their keys.
pub uninterp spec fn object_text(members: Map<Seq<char>, Seq<char>>) -> Seq<char>;

#[verifier::external_type_specification]
#[verifier::external_body]
pub struct ExJsonError(serde_json::Error);

/// `serde_json::to_string` on a `BTreeMap` built from the pairs.
///
/// The text depends on the mapping alone, because a `BTreeMap` is written
/// in key order. Writing a map whose keys and values are strings into a
/// `String` cannot fail.
#[verifier::external_body]
fn write_object(pairs: &Vec<(String, String)>) -> (r: Result<String, serde_json::Error>)
    requires
        distinct_keys(pairs@),
    ensures
        r is Ok,
        r matches Ok(text) ==> text@ == object_text(pairs_map(pairs@)),
{
    let members: std::collections::BTreeMap<&str, &str> =
        pairs.iter().map(|pair| (pair.0.as_str(), pair.1.as_str())).collect();
    serde_json::to_string(&members)
}

/// The decimal numerals of `ids`, with a comma between each two.
pub open spec fn joined_numerals(ids: Seq<u64>) -> Seq<char>
    decreases ids.len(),
{
    if ids.len() == 0 {
        Seq::empty()
    } else if ids.len() == 1 {
        decimal_text(ids[0] as nat)
    } else {
        joined_numerals(ids.drop_last()) + seq![','] + decimal_text(ids.last() as nat)
    }
}

/// A list of identifiers as the text of a JSON array: the numerals between
/// square brackets, with commas and no spaces.
pub open spec fn ids_text(ids: Seq<u64>) -> Seq<char> {
    seq!['['] + joined_numerals(ids) + seq![']']
}

/// `serde_json::to_string` on a slice of `u64`.
///
/// The crate writes a sequence in its compact form, which is what
/// [`ids_text`] describes, and writing integers into a `String` cannot fail.
#[verifier::external_body]
fn write_ids(ids: &[u64]) -> (r: Result<String, serde_json::Error>)
    ensures
        r is Ok,
        r matches Ok(text) ==> text@ == ids_text(ids@),
{
    serde_json::to_string(ids)
}

/// Writes a list of identifiers as the text of a JSON array.
pub fn encode_ids(ids: &[u64]) -> (r: Result<String, ApiError>)
    ensures
        r is Ok,
        r matches Ok(text) ==> text@ == ids_text(ids@),
{
    match write_ids(ids) {
        Ok(text) => Ok(text),
        Err(_) => Err(ApiError::Signing),
    }
}

/// Replacing the value of a key that is present keeps the keys distinct and
/// maps that key to the new value.
proof fn lemma_replaced(before: Seq<(String, String)>, i: int, pair: (String, String))
    requires
        distinct_keys(before),
        key_at(before, pair.0@, i),
    ensures
        distinct_keys(before.update(i, pair)),
        pairs_map(before.update(i, pair)) == pairs_map(before).insert(pair.0@, pair.1@),
{
    let after = before.update(i, pair);
    let wanted = pairs_map(before).insert(pair.0@, pair.1@);
    assert forall|a: int, b: int| 0 <= a < b < after.len() implies (#[trigger] after[a]).0@ != (
    #[trigger] after[b]).0@ by {
        assert(after[a].0@ == before[a].0@);
        assert(after[b].0@ == before[b].0@);
    }
    assert forall|q: Seq<char>|
        pairs_map(after).dom().contains(q) == wanted.dom().contains(q) by {
        if exists|j: int| key_at(after, q, j) {
            let j = choose|j: int| key_at(after, q, j);
            assert(key_at(before, q, j));
        }
        if exists|j: int| key_at(before, q, j) {
            let j = choose|j: int| key_at(before, q, j);
            assert(key_at(after, q, j));
        }
    }
    assert forall|q: Seq<char>| pairs_map(after).dom().contains(q) implies pairs_map(after)[q]
        == wanted[q] by {
        let j = choose|j: int| key_at(after, q, j);
        assert(key_at(before, q, j));
        let j0 = choose|j: int| key_at(before, q, j);
        assert(before[j0].0@ == before[j].0@);
        assert(j0 == j);
        if q == pair.0@ {
            assert(before[i].0@ == before[j].0@);
            assert(j == i);
        }
    }
    assert(pairs_map(after) =~= wanted);
}

/// Appending a pair with a new key keeps the keys distinct and adds the pair
/// to the mapping.
proof fn lemma_appended(before: Seq<(String, String)>, pair: (String, String))
    requires
        distinct_keys(before),
        forall|i: int| !key_at(before, pair.0@, i),
    ensures
        distinct_keys(before.push(pair)),
        pairs_map(before.push(pair)) == pairs_map(before).insert(pair.0@, pair.1@),
{
    let after = before.push(pair);
    let n = before.len() as int;
    let wanted = pairs_map(before).insert(pair.0@, pair.1@);
    assert forall|a: int, b: int| 0 <= a < b < after.len() implies (#[trigger] after[a]).0@ != (
    #[trigger] after[b]).0@ by {
        if b == n {
            assert(!key_at(before, pair.0@, a));
        } else {
            assert(after[a].0@ == before[a].0@);
            assert(after[b].0@ == before[b].0@);
        }
    }
    assert(key_at(after, pair.0@, n));
    assert forall|q: Seq<char>|
        pairs_map(after).dom().contains(q) == wanted.dom().contains(q) by {
        if exists|j: int| key_at(after, q, j) {
            let j = choose|j: int| key_at(after, q, j);
            if j < n {
                assert(key_at(before, q, j));
            }
        }
        if exists|j: int| key_at(before, q, j) {
            let j = choose|j: int| key_at(before, q, j);
            assert(key_at(after, q, j));
        }
    }
    assert forall|q: Seq<char>| pairs_map(after).dom().contains(q) implies pairs_map(after)[q]
        == wanted[q] by {
        let j = choose|j: int| key_at(after, q, j);
        if j < n {
            assert(key_at(before, q, j));
            let j0 = choose|j: int| key_at(before, q, j);
            assert(before[j0].0@ == before[j].0@);
            assert(j0 == j);
        }
    }
    assert(pairs_map(after) =~= wanted);
}

/// A mapping from string keys to string values, each key held once.
pub struct Params {
    pairs: Vec<(String, String)>,
}

impl View for Params {
    type V = Map<Seq<char>, Seq<char>>;

    closed spec fn view(&self) -> Map<Seq<char>, Seq<char>> {
        pairs_map(self.pairs@)
    }
}

impl Params {
    #[verifier::type_invariant]
    spec fn keys_are_distinct(self) -> bool {
        distinct_keys(self.pairs@)
    }

    /// The empty mapping.
    pub fn new() -> (r: Params)
        ensures
            r@ == Map::<Seq<char>, Seq<char>>::empty(),
    {
        let r = Params { pairs: Vec::new() };
        assert(r@ =~= Map::<Seq<char>, Seq<char>>::empty());
        r
    }

    fn position(&self, key: &String) -> (r: Option<usize>)
        ensures
            match r {
                Some(i) => key_at(self.pairs@, key@, i as int),
                None => forall|i: int| !key_at(self.pairs@, key@, i),
            },
    {
        let mut i: usize = 0;
        while i < self.pairs.len()
            invariant
                i <= self.pairs.len(),
                forall|j: int| 0 <= j < i ==> !key_at(self.pairs@, key@, j),
            decreases self.pairs.len() - i,
        {
            if self.pairs[i].0 == *key {
                return Some(i);
            }
            i += 1;
        }
        None
    }

    /// Maps `key` to `value`, in place of what `key` was mapped to before.
    pub fn insert(&mut self, key: &str, value: &str)
        ensures
            final(self)@ == old(self)@.insert(key@, value@),
    {
        proof {
            use_type_invariant(&*self);
        }
        let key = key.to_owned();
        let value = value.to_owned();
        let ghost before = self.pairs@;
        let found = self.position(&key);
        let mut taken = Params { pairs: Vec::new() };
        std::mem::swap(self, &mut taken);
        let mut pairs = taken.pairs;
        let ghost pair = (key, value);
        match found {
            Some(i) => {
                pairs.set(i, (key, value));
                proof {
                    lemma_replaced(before, i as int, pair);
                }
            },
            None => {
                pairs.push((key, value));
                proof {
                    lemma_appended(before, pair);
                }
            },
        }
        *self = Params { pairs };
    }

    /// What `key` is mapped to, if anything.
    pub fn get(&self, key: &str) -> (r: Option<&str>)
        ensures
            match r {
                Some(value) => self@.contains_key(key@) && self@[key@] == value@,
                None => !self@.contains_key(key@),
            },
    {
        proof {
            use_type_invariant(self);
        }
        let key = key.to_owned();
        match self.position(&key) {
            Some(i) => {
                proof {
                    let j = choose|j: int| key_at(self.pairs@, key@, j);
                    assert(j == i);
                }
                Some(self.pairs[i].1.as_str())
            },
            None => None,
        }
    }

    /// The mapping as the text of a JSON object.
    pub fn encode(&self) -> (r: Result<String, ApiError>)
        ensures
            r is Ok,
            r matches Ok(text) ==> text@ == object_text(self@),
    {
        proof {
            use_type_invariant(self);
        }
        match write_object(&self.pairs) {
            Ok(text) => Ok(text),
            Err(_) => Err(ApiError::Signing),
        }
    }
}

} // verus!
