//! Query parameters: a mapping from key to value that remembers the order in
//! which its keys arrived.

use vstd::prelude::*;
use vstd::string::*;

verus! {

/// One parameter as text: key and value.
pub type Pair = (Seq<char>, Seq<char>);

/// No key stands at two places.
pub open spec fn distinct_keys(pairs: Seq<Pair>) -> bool {
    forall|i: int, j: int|
        0 <= i < j < pairs.len() ==> (#[trigger] pairs[i]).0 != (#[trigger] pairs[j]).0
}

/// Whether some pair carries the key.
pub open spec fn has_key(pairs: Seq<Pair>, key: Seq<char>) -> bool {
    exists|i: int| 0 <= i < pairs.len() && (#[trigger] pairs[i]).0 == key
}

/// A place at which the key stands, if it stands anywhere.
pub open spec fn key_index(pairs: Seq<Pair>, key: Seq<char>) -> int {
    choose|i: int| 0 <= i < pairs.len() && (#[trigger] pairs[i]).0 == key
}

/// The value that the key maps to.
pub open spec fn value_of(pairs: Seq<Pair>, key: Seq<char>) -> Option<Seq<char>> {
    if has_key(pairs, key) {
        Some(pairs[key_index(pairs, key)].1)
    } else {
        None
    }
}

/// The pairs after `key` has been set to `value`: a known key keeps its
/// place and takes the new value, a new key goes to the end.
pub open spec fn with_pair(pairs: Seq<Pair>, key: Seq<char>, value: Seq<char>) -> Seq<Pair> {
    if has_key(pairs, key) {
        pairs.update(key_index(pairs, key), (key, value))
    } else {
        pairs.push((key, value))
    }
}

/// The pairs read as a mapping.
pub open spec fn as_map(pairs: Seq<Pair>) -> Map<Seq<char>, Seq<char>> {
    Map::new(
        |key: Seq<char>| has_key(pairs, key),
        |key: Seq<char>| pairs[key_index(pairs, key)].1,
    )
}

/// `key=value`.
pub open spec fn pair_text(pair: Pair) -> Seq<char> {
    pair.0 + seq!['='] + pair.1
}

/// The pairs as `key=value`, in order, with `&` between neighbours.
pub open spec fn query_text(pairs: Seq<Pair>) -> Seq<char>
    decreases pairs.len(),
{
    if pairs.len() == 0 {
        Seq::empty()
    } else if pairs.len() == 1 {
        pair_text(pairs[0])
    } else {
        query_text(pairs.drop_last()) + seq!['&'] + pair_text(pairs.last())
    }
}

/// Setting a key in pairs with distinct keys is insertion into the mapping
/// that the pairs stand for, and leaves the keys distinct.
pub proof fn with_pair_is_map_insert(pairs: Seq<Pair>, key: Seq<char>, value: Seq<char>)
    requires
        distinct_keys(pairs),
    ensures
        distinct_keys(with_pair(pairs, key, value)),
        as_map(with_pair(pairs, key, value)) == as_map(pairs).insert(key, value),
{
    let after = with_pair(pairs, key, value);
    let at = if has_key(pairs, key) {
        key_index(pairs, key)
    } else {
        pairs.len() as int
    };
    assert(after[at] == (key, value));
    assert(forall|i: int| 0 <= i < pairs.len() && i != at ==> after[i] == pairs[i]);
    assert forall|other: Seq<char>| has_key(after, other) <==> (other == key || has_key(
        pairs,
        other,
    )) by {
        if has_key(after, other) && other != key {
            let i = key_index(after, other);
            assert(pairs[i].0 == other);
        }
        if has_key(pairs, other) && other != key {
            let i = key_index(pairs, other);
            assert(after[i].0 == other);
        }
    }
    assert forall|other: Seq<char>| has_key(after, other) implies #[trigger] as_map(after)[other]
        == as_map(pairs).insert(key, value)[other] by {
        let i = key_index(after, other);
        if other == key {
            assert(after[at].0 == key);
        } else {
            let j = key_index(pairs, other);
            assert(after[j].0 == other);
        }
    }
    assert(as_map(after) =~= as_map(pairs).insert(key, value));
}

/// Behind a first pair, every further pair adds `&` and its `key=value`.
pub proof fn query_text_grows(pairs: Seq<Pair>, pair: Pair)
    requires
        pairs.len() > 0,
    ensures
        query_text(pairs.push(pair)) == query_text(pairs) + seq!['&'] + pair_text(pair),
{
    assert(pairs.push(pair).drop_last() =~= pairs);
}

/// Every pair stands in the query text as its `key=value`: the first at the
/// very start, each later one right behind an `&`. The place is handed back.
pub proof fn query_text_holds_pair(pairs: Seq<Pair>, i: int) -> (at: int)
    requires
        0 <= i < pairs.len(),
    ensures
        0 <= at,
        at + pair_text(pairs[i]).len() <= query_text(pairs).len(),
        query_text(pairs).subrange(at, at + pair_text(pairs[i]).len()) == pair_text(pairs[i]),
        i == 0 ==> at == 0,
        i > 0 ==> at > 0 && query_text(pairs)[at - 1] == '&',
    decreases pairs.len(),
{
    let whole = query_text(pairs);
    let this = pair_text(pairs[i]);
    if pairs.len() == 1 {
        assert(whole.subrange(0, this.len() as int) =~= this);
        0
    } else {
        let head = query_text(pairs.drop_last());
        if i == pairs.len() - 1 {
            let at = (head.len() + 1) as int;
            assert(whole.subrange(at, at + this.len()) =~= this);
            at
        } else {
            let at = query_text_holds_pair(pairs.drop_last(), i);
            assert(pairs.drop_last()[i] == pairs[i]);
            assert(whole.subrange(at, at + this.len()) =~= head.subrange(at, at + this.len()));
            if i > 0 {
                assert(whole[at - 1] == head[at - 1]);
            }
            at
        }
    }
}

/// A character that is neither `=` nor `&` and occurs in no key and no
/// value does not occur in the query text.
pub proof fn query_text_lacks(pairs: Seq<Pair>, c: char)
    requires
        c != '=',
        c != '&',
        forall|i: int|
            0 <= i < pairs.len() ==> !(#[trigger] pairs[i]).0.contains(c)
                && !pairs[i].1.contains(c),
    ensures
        !query_text(pairs).contains(c),
    decreases pairs.len(),
{
    if pairs.len() > 0 {
        let last = pairs.last();
        assert(!last.0.contains(c) && !last.1.contains(c));
        assert(!pair_text(last).contains(c)) by {
            if pair_text(last).contains(c) {
                let i = choose|i: int| 0 <= i < pair_text(last).len() && pair_text(last)[i] == c;
                if i < last.0.len() {
                    assert(last.0[i] == c);
                } else if i > last.0.len() {
                    assert(last.1[i - last.0.len() - 1] == c);
                }
            }
        }
        if pairs.len() > 1 {
            query_text_lacks(pairs.drop_last(), c);
            let head = query_text(pairs.drop_last());
            if query_text(pairs).contains(c) {
                let whole = query_text(pairs);
                let i = choose|i: int| 0 <= i < whole.len() && whole[i] == c;
                if i < head.len() {
                    assert(head[i] == c);
                } else if i > head.len() {
                    assert(pair_text(last)[i - head.len() - 1] == c);
                }
            }
        } else {
            assert(pairs[0] == last);
        }
    }
}

/// The query parameters of one request.
#[derive(Debug)]
pub struct QueryParams {
    entries: Vec<(String, String)>,
}

impl View for QueryParams {
    type V = Seq<Pair>;

    closed spec fn view(&self) -> Seq<Pair> {
        Seq::new(self.entries@.len(), |i: int| (self.entries@[i].0@, self.entries@[i].1@))
    }
}

impl QueryParams {
    #[verifier::type_invariant]
    closed spec fn keys_are_distinct(&self) -> bool {
        distinct_keys(self@)
    }

    /// The empty mapping.
    pub fn new() -> (params: QueryParams)
        ensures
            params@ == Seq::<Pair>::empty(),
            as_map(params@) == Map::<Seq<char>, Seq<char>>::empty(),
    {
        let params = QueryParams { entries: Vec::new() };
        assert(as_map(params@) =~= Map::<Seq<char>, Seq<char>>::empty());
        params
    }

    /// Number of keys.
    pub fn len(&self) -> (n: usize)
        ensures
            n == self@.len(),
    {
        self.entries.len()
    }

    /// Whether there is no key at all.
    pub fn is_empty(&self) -> (empty: bool)
        ensures
            empty <==> self@.len() == 0,
    {
        self.entries.len() == 0
    }

    /// Where `key` stands among the entries, if anywhere.
    fn find(&self, key: &String) -> (found: Option<usize>)
        ensures
            found is Some <==> has_key(self@, key@),
            found matches Some(i) ==> i < self@.len() && self@[i as int].0 == key@,
    {
        let mut i: usize = 0;
        while i < self.entries.len()
            invariant
                i <= self.entries.len(),
                forall|j: int| 0 <= j < i ==> (#[trigger] self@[j]).0 != key@,
            decreases self.entries.len() - i,
        {
            if self.entries[i].0 == *key {
                assert(self@[i as int].0 == key@);
                return Some(i);
            }
            i += 1;
        }
        None
    }

    /// Sets `key` to `value` and hands back the value it had before.
    pub fn insert(&mut self, key: String, value: String) -> (previous: Option<String>)
        ensures
            final(self)@ == with_pair(old(self)@, key@, value@),
            as_map(final(self)@) == as_map(old(self)@).insert(key@, value@),
            match previous {
                Some(before) => value_of(old(self)@, key@) == Some(before@),
                None => value_of(old(self)@, key@) is None,
            },
    {
        proof {
            use_type_invariant(&*self);
        }
        let found = self.find(&key);
        // The entries are changed outside the mapping and put back when the
        // change is complete.
        let mut entries: Vec<(String, String)> = Vec::new();
        core::mem::swap(&mut self.entries, &mut entries);
        let previous = match found {
            Some(i) => {
                let before = entries[i].1.clone();
                entries.set(i, (key, value));
                Some(before)
            },
            None => {
                entries.push((key, value));
                None
            },
        };
        proof {
            let after = Seq::new(entries@.len(), |i: int| (entries@[i].0@, entries@[i].1@));
            assert(after =~= with_pair(old(self)@, key@, value@));
            with_pair_is_map_insert(old(self)@, key@, value@);
        }
        core::mem::swap(&mut self.entries, &mut entries);
        previous
    }

    /// The parameters as they stand in a URL behind the `?`.
    pub fn query_string(&self) -> (text: String)
        ensures
            text@ == query_text(self@),
    {
        let mut text = String::new();
        let mut i: usize = 0;
        while i < self.entries.len()
            invariant
                i <= self.entries.len(),
                text@ == query_text(self@.take(i as int)),
            decreases self.entries.len() - i,
        {
            proof {
                reveal_strlit("&");
                reveal_strlit("=");
                assert(self@.take(i + 1).drop_last() =~= self@.take(i as int));
            }
            if i > 0 {
                text.append("&");
            }
            text.append(self.entries[i].0.as_str());
            text.append("=");
            text.append(self.entries[i].1.as_str());
            i += 1;
        }
        assert(self@.take(i as int) =~= self@);
        text
    }
}

} // verus!
