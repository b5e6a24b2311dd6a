//! Non-normative key/value context attached to domain objects.
use vstd::prelude::*;

use crate::text::{compare_text, text_equals, text_less, IntoText, TextOrder};

verus! {

/// Keys strictly increasing by code point, hence no key occurs twice.
pub open spec fn keys_increasing(s: Seq<(String, String)>) -> bool {
    forall|i: int, j: int| 0 <= i < j < s.len() ==> text_less(#[trigger] s[i].0@, #[trigger] s[j].0@)
}

/// The entry list holds key `k`.
pub open spec fn holds_key(s: Seq<(String, String)>, k: Seq<char>) -> bool {
    exists|i: int| 0 <= i < s.len() && #[trigger] s[i].0@ == k
}

/// The value stored under key `k`.
pub open spec fn value_under(s: Seq<(String, String)>, k: Seq<char>) -> Seq<char> {
    s[choose|i: int| 0 <= i < s.len() && #[trigger] s[i].0@ == k].1@
}

/// The map that an entry list stands for.
pub open spec fn entries_map(s: Seq<(String, String)>) -> Map<Seq<char>, Seq<char>> {
    Map::new(|k: Seq<char>| holds_key(s, k), |k: Seq<char>| value_under(s, k))
}

proof fn lemma_text_less_irreflexive(a: Seq<char>)
    ensures
        !text_less(a, a),
    decreases a.len(),
{
    if a.len() > 0 {
        lemma_text_less_irreflexive(a.drop_first());
    }
}

/// Distinct positions of an increasing entry list hold distinct keys.
proof fn lemma_keys_distinct(s: Seq<(String, String)>, i: int, j: int)
    requires
        keys_increasing(s),
        0 <= i < s.len(),
        0 <= j < s.len(),
        s[i].0@ == s[j].0@,
    ensures
        i == j,
{
    lemma_text_less_irreflexive(s[i].0@);
    if i < j {
        assert(text_less(s[i].0@, s[j].0@));
    } else if j < i {
        assert(text_less(s[j].0@, s[i].0@));
    }
}

/// Non-normative context that must never decide protocol truth.
#[derive(Debug, PartialEq, Eq)]
pub struct Metadata {
    entries: Vec<(String, String)>,
}

impl View for Metadata {
    type V = Map<Seq<char>, Seq<char>>;

    closed spec fn view(&self) -> Map<Seq<char>, Seq<char>> {
        entries_map(self.entries@)
    }
}

impl Clone for Metadata {
    fn clone(&self) -> (r: Self)
        ensures
            r@ == self@,
    {
        proof {
            use_type_invariant(self);
        }
        let mut entries: Vec<(String, String)> = Vec::new();
        let mut i: usize = 0;
        while i < self.entries.len()
            invariant
                i <= self.entries@.len(),
                entries@.len() == i,
                keys_increasing(self.entries@),
                forall|j: int| 0 <= j < i ==> #[trigger] entries@[j].0@ == self.entries@[j].0@ && entries@[j].1@ == self.entries@[j].1@,
            decreases self.entries@.len() - i,
        {
            entries.push((self.entries[i].0.clone(), self.entries[i].1.clone()));
            i = i + 1;
        }
        proof {
            assert forall|a: int, b: int| 0 <= a < b < entries@.len() implies text_less(#[trigger] entries@[a].0@, #[trigger] entries@[b].0@) by {
                assert(text_less(self.entries@[a].0@, self.entries@[b].0@));
            }
            assert forall|q: Seq<char>| #[trigger] entries_map(entries@).contains_key(q) == entries_map(self.entries@).contains_key(q) by {
                if holds_key(entries@, q) {
                    let j = choose|j: int| 0 <= j < entries@.len() && #[trigger] entries@[j].0@ == q;
                    assert(self.entries@[j].0@ == q);
                }
                if holds_key(self.entries@, q) {
                    let j = choose|j: int| 0 <= j < self.entries@.len() && #[trigger] self.entries@[j].0@ == q;
                    assert(entries@[j].0@ == q);
                }
            }
            assert forall|q: Seq<char>| #[trigger] entries_map(entries@).contains_key(q) implies entries_map(entries@)[q] == entries_map(self.entries@)[q] by {
                let j = choose|j: int| 0 <= j < entries@.len() && #[trigger] entries@[j].0@ == q;
                lemma_increasing_lookup(entries@, j);
                lemma_increasing_lookup(self.entries@, j);
            }
            assert(entries_map(entries@) =~= entries_map(self.entries@));
        }
        Metadata { entries }
    }
}

impl Default for Metadata {
    fn default() -> (r: Self)
        ensures
            r@ == Map::<Seq<char>, Seq<char>>::empty(),
    {
        Metadata::new()
    }
}

impl Metadata {
    #[verifier::type_invariant]
    spec fn wf(self) -> bool {
        keys_increasing(self.entries@)
    }

    /// The entries in increasing key order.
    pub closed spec fn entry_list(self) -> Seq<(String, String)> {
        self.entries@
    }

    pub fn new() -> (r: Self)
        ensures
            r@ == Map::<Seq<char>, Seq<char>>::empty(),
    {
        let r = Metadata { entries: Vec::new() };
        assert(r@ == Map::<Seq<char>, Seq<char>>::empty());
        r
    }

    /// Builds metadata from key/value pairs; a later pair overrides an earlier one with the same key.
    pub fn from_pairs<K: IntoText, V: IntoText>(pairs: Vec<(K, V)>) -> (r: Self)
        ensures
            r@ == pairs_map(pairs@),
    {
        let mut metadata = Metadata::new();
        let mut rest = pairs;
        let ghost all = pairs@;
        let ghost mut done: int = 0;
        while rest.len() > 0
            invariant
                0 <= done <= all.len(),
                rest@ == all.subrange(done, all.len() as int),
                metadata@ == pairs_map(all.subrange(0, done)),
            decreases rest.len(),
        {
            let (key, value) = rest.remove(0);
            proof {
                assert(all.subrange(0, done + 1).drop_last() == all.subrange(0, done));
                assert(all.subrange(0, done + 1).last() == all[done]);
                assert(rest@ == all.subrange(done + 1, all.len() as int));
            }
            metadata.insert(key.into_text(), value.into_text());
            proof {
                done = done + 1;
            }
        }
        assert(all.subrange(0, all.len() as int) == all);
        metadata
    }

    /// The entries in increasing key order.
    pub fn entries(&self) -> (r: &Vec<(String, String)>)
        ensures
            r@ == self.entry_list(),
            keys_increasing(r@),
            entries_map(r@) == self@,
    {
        proof {
            use_type_invariant(self);
        }
        &self.entries
    }

    pub fn get(&self, key: &str) -> (r: Option<&str>)
        ensures
            match r {
                Some(v) => self@.contains_key(key@) && v@ == self@[key@],
                None => !self@.contains_key(key@),
            },
    {
        let mut i: usize = 0;
        while i < self.entries.len()
            invariant
                i <= self.entries@.len(),
                forall|j: int| 0 <= j < i ==> self.entries@[j].0@ != key@,
            decreases self.entries@.len() - i,
        {
            if text_equals(self.entries[i].0.as_str(), key) {
                proof {
                    use_type_invariant(self);
                    let c = choose|j: int| 0 <= j < self.entries@.len() && #[trigger] self.entries@[j].0@ == key@;
                    lemma_keys_distinct(self.entries@, c, i as int);
                }
                return Some(self.entries[i].1.as_str());
            }
            i = i + 1;
        }
        None
    }

    pub fn is_empty(&self) -> (r: bool)
        ensures
            r == (self@ == Map::<Seq<char>, Seq<char>>::empty()),
    {
        if self.entries.len() == 0 {
            assert(self@ == Map::<Seq<char>, Seq<char>>::empty());
            true
        } else {
            assert(self@.contains_key(self.entries@[0].0@));
            false
        }
    }

    /// Stores `value` under `key`, replacing any earlier value.
    pub fn insert(&mut self, key: String, value: String)
        ensures
            final(self)@ == old(self)@.insert(key@, value@),
    {
        proof {
            use_type_invariant(&*self);
        }
        let mut entries: Vec<(String, String)> = Vec::new();
        std::mem::swap(&mut entries, &mut self.entries);
        let ghost old_entries = entries@;
        let mut p: usize = 0;
        let mut found = false;
        while p < entries.len()
            invariant_except_break
                !found,
            invariant
                entries@ == old_entries,
                p <= old_entries.len(),
                forall|i: int| 0 <= i < p ==> text_less(#[trigger] old_entries[i].0@, key@),
            ensures
                found ==> p < old_entries.len() && old_entries[p as int].0@ == key@,
                !found ==> p == old_entries.len() || text_less(key@, old_entries[p as int].0@),
                p <= old_entries.len(),
                forall|i: int| 0 <= i < p ==> text_less(#[trigger] old_entries[i].0@, key@),
            decreases old_entries.len() - p,
        {
            match compare_text(entries[p].0.as_str(), key.as_str()) {
                TextOrder::Less => {
                    p = p + 1;
                },
                TextOrder::Equal => {
                    found = true;
                    break;
                },
                TextOrder::Greater => {
                    break;
                },
            }
        }
        let ghost kv = (key, value);
        if found {
            entries.set(p, (key, value));
            proof {
                let new_entries = entries@;
                assert(new_entries == old_entries.update(p as int, kv));
                assert forall|i: int, j: int| 0 <= i < j < new_entries.len() implies text_less(
                    #[trigger] new_entries[i].0@,
                    #[trigger] new_entries[j].0@,
                ) by {
                    assert(text_less(old_entries[i].0@, old_entries[j].0@));
                }
                lemma_update_map(old_entries, p as int, kv);
            }
        } else {
            entries.insert(p, (key, value));
            proof {
                let new_entries = entries@;
                assert(new_entries == old_entries.insert(p as int, kv));
                assert forall|i: int, j: int| 0 <= i < j < new_entries.len() implies text_less(
                    #[trigger] new_entries[i].0@,
                    #[trigger] new_entries[j].0@,
                ) by {
                    if j < p {
                        assert(text_less(old_entries[i].0@, old_entries[j].0@));
                    } else if j == p {
                    } else if i < p {
                        assert(text_less(old_entries[i].0@, old_entries[j - 1].0@));
                    } else if i == p {
                        assert(text_less(kv.0@, old_entries[p as int].0@));
                        if j - 1 > p {
                            assert(text_less(old_entries[p as int].0@, old_entries[j - 1].0@));
                            lemma_text_less_transitive(kv.0@, old_entries[p as int].0@, old_entries[j - 1].0@);
                        }
                    } else {
                        assert(text_less(old_entries[i - 1].0@, old_entries[j - 1].0@));
                    }
                }
                lemma_insert_map(old_entries, p as int, kv);
            }
        }
        self.entries = entries;
    }
}

/// Mutable builder for [`Metadata`].
#[derive(Debug)]
pub struct MetadataBuilder {
    entries: Metadata,
}

impl View for MetadataBuilder {
    type V = Map<Seq<char>, Seq<char>>;

    closed spec fn view(&self) -> Map<Seq<char>, Seq<char>> {
        self.entries@
    }
}

impl Default for MetadataBuilder {
    fn default() -> (r: Self)
        ensures
            r@ == Map::<Seq<char>, Seq<char>>::empty(),
    {
        MetadataBuilder::new()
    }
}

impl MetadataBuilder {
    pub fn new() -> (r: Self)
        ensures
            r@ == Map::<Seq<char>, Seq<char>>::empty(),
    {
        MetadataBuilder { entries: Metadata::new() }
    }

    pub fn entry<K: IntoText, V: IntoText>(self, key: K, value: V) -> (r: Self)
        ensures
            r@ == self@.insert(key.text_view(), value.text_view()),
    {
        let mut entries = self.entries;
        entries.insert(key.into_text(), value.into_text());
        MetadataBuilder { entries }
    }

    pub fn build(self) -> (r: Metadata)
        ensures
            r@ == self@,
    {
        self.entries
    }
}

impl Metadata {
    pub fn builder() -> (r: MetadataBuilder)
        ensures
            r@ == Map::<Seq<char>, Seq<char>>::empty(),
    {
        MetadataBuilder::new()
    }
}

/// The map that a list of pairs stands for; a later pair overrides an earlier one.
pub open spec fn pairs_map<K: IntoText, V: IntoText>(s: Seq<(K, V)>) -> Map<Seq<char>, Seq<char>>
    decreases s.len(),
{
    if s.len() == 0 {
        Map::empty()
    } else {
        pairs_map(s.drop_last()).insert(s.last().0.text_view(), s.last().1.text_view())
    }
}

proof fn lemma_text_less_transitive(a: Seq<char>, b: Seq<char>, c: Seq<char>)
    requires
        text_less(a, b),
        text_less(b, c),
    ensures
        text_less(a, c),
    decreases a.len(),
{
    if a.len() > 0 && b.len() > 0 && c.len() > 0 && a[0] == b[0] && b[0] == c[0] {
        lemma_text_less_transitive(a.drop_first(), b.drop_first(), c.drop_first());
    }
}

/// In an increasing entry list, each position's key maps to that position's value.
proof fn lemma_increasing_lookup(s: Seq<(String, String)>, i: int)
    requires
        keys_increasing(s),
        0 <= i < s.len(),
    ensures
        entries_map(s).contains_key(s[i].0@),
        entries_map(s)[s[i].0@] == s[i].1@,
{
    assert(holds_key(s, s[i].0@));
    let c = choose|j: int| 0 <= j < s.len() && #[trigger] s[j].0@ == s[i].0@;
    lemma_keys_distinct(s, c, i);
}

/// Replacing the value at the position that holds a key sets that key in the map.
proof fn lemma_update_map(old: Seq<(String, String)>, p: int, kv: (String, String))
    requires
        keys_increasing(old),
        keys_increasing(old.update(p, kv)),
        0 <= p < old.len(),
        old[p].0@ == kv.0@,
    ensures
        entries_map(old.update(p, kv)) == entries_map(old).insert(kv.0@, kv.1@),
{
    let new = old.update(p, kv);
    let target = entries_map(old).insert(kv.0@, kv.1@);
    lemma_increasing_lookup(new, p);
    assert forall|q: Seq<char>| #[trigger] entries_map(new).contains_key(q) == target.contains_key(q) by {
        if q != kv.0@ {
            if holds_key(new, q) {
                let j = choose|j: int| 0 <= j < new.len() && #[trigger] new[j].0@ == q;
                assert(old[j].0@ == q);
            }
            if holds_key(old, q) {
                let i = choose|i: int| 0 <= i < old.len() && #[trigger] old[i].0@ == q;
                assert(new[i].0@ == q);
            }
        }
    }
    assert forall|q: Seq<char>| #[trigger] entries_map(new).contains_key(q) implies entries_map(new)[q] == target[q] by {
        if q != kv.0@ {
            let j = choose|j: int| 0 <= j < new.len() && #[trigger] new[j].0@ == q;
            lemma_increasing_lookup(new, j);
            lemma_increasing_lookup(old, j);
        }
    }
    assert(entries_map(new) =~= target);
}

/// Inserting a new key at its place in the order sets that key in the map.
proof fn lemma_insert_map(old: Seq<(String, String)>, p: int, kv: (String, String))
    requires
        keys_increasing(old),
        keys_increasing(old.insert(p, kv)),
        0 <= p <= old.len(),
    ensures
        entries_map(old.insert(p, kv)) == entries_map(old).insert(kv.0@, kv.1@),
{
    let new = old.insert(p, kv);
    let target = entries_map(old).insert(kv.0@, kv.1@);
    lemma_increasing_lookup(new, p);
    assert forall|q: Seq<char>| #[trigger] entries_map(new).contains_key(q) == target.contains_key(q) by {
        if q != kv.0@ {
            if holds_key(new, q) {
                let j = choose|j: int| 0 <= j < new.len() && #[trigger] new[j].0@ == q;
                if j < p {
                    assert(old[j].0@ == q);
                } else {
                    assert(old[j - 1].0@ == q);
                }
            }
            if holds_key(old, q) {
                let i = choose|i: int| 0 <= i < old.len() && #[trigger] old[i].0@ == q;
                if i < p {
                    assert(new[i].0@ == q);
                } else {
                    assert(new[i + 1].0@ == q);
                }
            }
        }
    }
    assert forall|q: Seq<char>| #[trigger] entries_map(new).contains_key(q) implies entries_map(new)[q] == target[q] by {
        if q != kv.0@ {
            let j = choose|j: int| 0 <= j < new.len() && #[trigger] new[j].0@ == q;
            lemma_increasing_lookup(new, j);
            if j < p {
                lemma_increasing_lookup(old, j);
            } else {
                lemma_increasing_lookup(old, j - 1);
            }
        }
    }
    assert(entries_map(new) =~= target);
}

} // verus!

verus! {

/// The key of the `i`-th pair.
pub open spec fn pair_key<K: IntoText, V: IntoText>(pairs: Seq<(K, V)>, i: int) -> Seq<char> {
    pairs[i].0.text_view()
}

/// Metadata built from pairs holds a key exactly when some pair has it, and then the value of
/// the last pair with that key; it is empty exactly when there are no pairs.
pub proof fn pairs_map_keeps_last_value<K: IntoText, V: IntoText>(pairs: Seq<(K, V)>, key: Seq<char>)
    ensures
        pairs_map(pairs).contains_key(key) <==> exists|i: int| 0 <= i < pairs.len() && #[trigger] pair_key(pairs, i) == key,
        pairs_map(pairs).contains_key(key) ==> exists|i: int|
            0 <= i < pairs.len() && #[trigger] pair_key(pairs, i) == key && pairs_map(pairs)[key] == pairs[i].1.text_view()
                && forall|j: int| i < j < pairs.len() ==> #[trigger] pair_key(pairs, j) != key,
        (pairs_map(pairs) == Map::<Seq<char>, Seq<char>>::empty()) <==> pairs.len() == 0,
    decreases pairs.len(),
{
    if pairs.len() > 0 {
        let rest = pairs.drop_last();
        let n = pairs.len() - 1;
        pairs_map_keeps_last_value(rest, key);
        assert forall|i: int| 0 <= i < n implies pair_key(rest, i) == pair_key(pairs, i) by {
            assert(rest[i] == pairs[i]);
        }
        assert(pair_key(pairs, n) == pairs.last().0.text_view());
        if pair_key(pairs, n) == key {
            assert(pairs_map(pairs)[key] == pairs[n].1.text_view());
        } else if pairs_map(rest).contains_key(key) {
            let i = choose|i: int|
                0 <= i < rest.len() && #[trigger] pair_key(rest, i) == key && pairs_map(rest)[key] == rest[i].1.text_view()
                    && forall|j: int| i < j < rest.len() ==> #[trigger] pair_key(rest, j) != key;
            assert(pair_key(pairs, i) == key);
            assert(rest[i] == pairs[i]);
            assert forall|j: int| i < j < pairs.len() implies #[trigger] pair_key(pairs, j) != key by {
                if j < n {
                    assert(pair_key(rest, j) != key);
                }
            }
        } else {
            assert forall|i: int| 0 <= i < pairs.len() implies #[trigger] pair_key(pairs, i) != key by {
                if i < n {
                    assert(pair_key(rest, i) == pair_key(pairs, i));
                }
            }
        }
        let last_key = pair_key(pairs, n);
        assert(pairs_map(pairs).contains_key(last_key));
        assert(!Map::<Seq<char>, Seq<char>>::empty().contains_key(last_key));
    }
}

} // verus!
