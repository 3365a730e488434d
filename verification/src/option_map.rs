//! A map from option names to values, for the options of a destination or a
//! job.

use vstd::prelude::*;
use crate::options::{
    pairs_view, lookup, remove_key, has_key, with_option, find_first, retain_other_names,
    lemma_lookup_some, lemma_remove_key, lemma_with_option_lookup, lemma_pairs_view_prefix,
};

verus! {

/// The names of the entries, in order.
pub open spec fn keys_of(s: Seq<(Seq<char>, Seq<char>)>) -> Seq<Seq<char>> {
    s.map_values(|p: (Seq<char>, Seq<char>)| p.0)
}

/// The map that a list of entries with distinct names denotes.
pub open spec fn entries_map(s: Seq<(Seq<char>, Seq<char>)>) -> Map<Seq<char>, Seq<char>> {
    Map::new(|k: Seq<char>| lookup(s, k) is Some, |k: Seq<char>| lookup(s, k)->0)
}

/// Option names mapped to values; no name occurs twice.
#[derive(Debug)]
pub struct OptionMap {
    entries: Vec<(String, String)>,
}

impl View for OptionMap {
    type V = Map<Seq<char>, Seq<char>>;

    open spec fn view(&self) -> Map<Seq<char>, Seq<char>> {
        entries_map(self.entries_view())
    }
}

proof fn lemma_keys_of_has_key(s: Seq<(Seq<char>, Seq<char>)>, k: Seq<char>)
    ensures
        keys_of(s).contains(k) <==> has_key(s, k),
{
    if has_key(s, k) {
        let i = choose|i: int| 0 <= i < s.len() && (#[trigger] s[i]).0 == k;
        assert(keys_of(s)[i] == k);
    }
}

proof fn lemma_distinct_after_remove(s: Seq<(Seq<char>, Seq<char>)>, name: Seq<char>)
    requires
        keys_of(s).no_duplicates(),
    ensures
        keys_of(remove_key(s, name)).no_duplicates(),
    decreases s.len(),
{
    if s.len() > 0 {
        let t = s.drop_last();
        assert(keys_of(t) =~= keys_of(s).drop_last());
        lemma_distinct_after_remove(t, name);
        let rt = remove_key(t, name);
        if s.last().0 != name {
            let x = s.last().0;
            lemma_remove_key(t, name);
            lemma_lookup_some(rt, x);
            lemma_lookup_some(t, x);
            if has_key(rt, x) {
                assert(lookup(rt, x) == lookup(t, x));
                let i = choose|i: int| 0 <= i < t.len() && (#[trigger] t[i]).0 == x;
                assert(keys_of(s)[i] == keys_of(s)[s.len() - 1]);
            }
            lemma_keys_of_has_key(rt, x);
            assert(keys_of(rt.push(s.last())) =~= keys_of(rt).push(x));
        }
    }
}

/// Entries with distinct names list their map: each names a key of it with
/// its value.
proof fn lemma_entries_list_map(s: Seq<(Seq<char>, Seq<char>)>)
    requires
        keys_of(s).no_duplicates(),
    ensures
        s.len() == entries_map(s).len(),
        entries_map(s).dom().finite(),
        forall|i: int|
            0 <= i < s.len() ==> entries_map(s).contains_key((#[trigger] s[i]).0)
                && entries_map(s)[s[i].0] == s[i].1,
{
    lemma_dom_is_key_set(s);
    keys_of(s).unique_seq_to_set();
    assert forall|i: int| 0 <= i < s.len() implies entries_map(s).contains_key((#[trigger] s[i]).0)
        && entries_map(s)[s[i].0] == s[i].1 by {
        let k = s[i].0;
        lemma_lookup_some(s, k);
        let j = choose|j: int| 0 <= j < s.len() && (#[trigger] s[j]) == (k, lookup(s, k)->0);
        if j != i {
            assert(keys_of(s)[i] == keys_of(s)[j]);
        }
    }
}

proof fn lemma_dom_is_key_set(s: Seq<(Seq<char>, Seq<char>)>)
    ensures
        entries_map(s).dom() =~= keys_of(s).to_set(),
{
    assert forall|k: Seq<char>| entries_map(s).dom().contains(k) <==> keys_of(s).to_set().contains(k) by {
        lemma_lookup_some(s, k);
        lemma_keys_of_has_key(s, k);
    }
}

impl OptionMap {
    /// The entries, as texts, in the order they are kept.
    pub closed spec fn entries_view(&self) -> Seq<(Seq<char>, Seq<char>)> {
        pairs_view(self.entries@)
    }

    #[verifier::type_invariant]
    closed spec fn names_distinct(&self) -> bool {
        keys_of(self.entries_view()).no_duplicates()
    }

    /// The map has finitely many keys.
    pub proof fn lemma_view_finite(&self)
        ensures
            self@.dom().finite(),
    {
        lemma_dom_is_key_set(self.entries_view());
    }

    /// An empty map.
    pub fn new() -> (r: Self)
        ensures
            r@ == Map::<Seq<char>, Seq<char>>::empty(),
            r@.dom().finite(),
    {
        let r = OptionMap { entries: Vec::new() };
        assert(r@ =~= Map::<Seq<char>, Seq<char>>::empty());
        r
    }

    /// Sets `key` to `value`, replacing any value it had.
    pub fn insert(&mut self, key: String, value: String)
        ensures
            final(self)@ == old(self)@.insert(key@, value@),
            final(self)@.dom().finite(),
            final(self)@.len() == if old(self)@.contains_key(key@) {
                old(self)@.len()
            } else {
                old(self)@.len() + 1
            },
    {
        proof {
            use_type_invariant(&*self);
            self.lemma_view_finite();
        }
        let ghost before = self.entries_view();
        let mut kept = retain_other_names(key.as_str(), &self.entries);
        kept.push((key, value));
        proof {
            let after = with_option(before, key@, value@);
            assert(pairs_view(kept@) =~= after);
            lemma_distinct_after_remove(before, key@);
            lemma_remove_key(before, key@);
            lemma_keys_of_has_key(remove_key(before, key@), key@);
            assert(keys_of(after) =~= keys_of(remove_key(before, key@)).push(key@));
            assert forall|k: Seq<char>| #![trigger lookup(after, k)]
                lookup(after, k) == if k == key@ { Some(value@) } else { lookup(before, k) } by {
                lemma_with_option_lookup(before, key@, value@, k);
            }
            assert(entries_map(after) =~= entries_map(before).insert(key@, value@));
        }
        self.entries = kept;
    }

    /// The value of `key`, if it has one.
    pub fn get(&self, key: &str) -> (r: Option<&String>)
        ensures
            match r {
                Some(v) => self@.contains_key(key@) && v@ == self@[key@],
                None => !self@.contains_key(key@),
            },
    {
        match find_first(key, self.entries.as_slice()) {
            Some(i) => Some(&self.entries[i].1),
            None => None,
        }
    }

    /// Whether `key` has a value.
    pub fn contains_key(&self, key: &str) -> (r: bool)
        ensures
            r == self@.contains_key(key@),
    {
        find_first(key, self.entries.as_slice()).is_some()
    }

    /// The number of keys.
    pub fn len(&self) -> (r: usize)
        ensures
            r == self@.len(),
    {
        proof {
            use_type_invariant(self);
            lemma_entries_list_map(self.entries_view());
        }
        self.entries.len()
    }

    /// Whether there are no keys.
    pub fn is_empty(&self) -> (r: bool)
        ensures
            r == (self@.len() == 0),
    {
        proof {
            use_type_invariant(self);
            lemma_entries_list_map(self.entries_view());
        }
        self.entries.len() == 0
    }

    /// The (key, value) pairs, each key once.
    pub fn pairs(&self) -> (r: &[(String, String)])
        ensures
            pairs_view(r@) == self.entries_view(),
            r@.len() == self@.len(),
            self@.dom().finite(),
            keys_of(pairs_view(r@)).no_duplicates(),
            forall|i: int|
                0 <= i < r@.len() ==> self@.contains_key((#[trigger] r@[i]).0@) && self@[r@[i].0@]
                    == r@[i].1@,
            forall|k: Seq<char>|
                #[trigger] self@.contains_key(k) ==> exists|i: int| 0 <= i < r@.len() && (#[trigger] r@[i]).0@ == k,
    {
        proof {
            use_type_invariant(self);
            lemma_entries_list_map(self.entries_view());
            lemma_dom_is_key_set(self.entries_view());
            assert forall|k: Seq<char>| #[trigger] self@.contains_key(k) implies exists|i: int|
                0 <= i < self.entries@.len() && (#[trigger] self.entries@[i]).0@ == k by {
                assert(keys_of(self.entries_view()).to_set().contains(k));
                let i = choose|i: int| 0 <= i < keys_of(self.entries_view()).len() && keys_of(self.entries_view())[i] == k;
                assert(self.entries_view()[i] == (self.entries@[i].0@, self.entries@[i].1@));
            }
            assert forall|i: int| 0 <= i < self.entries@.len() implies self@.contains_key(
                (#[trigger] self.entries@[i]).0@) && self@[self.entries@[i].0@] == self.entries@[i].1@ by {
                assert(self.entries_view()[i] == (self.entries@[i].0@, self.entries@[i].1@));
            }
        }
        self.entries.as_slice()
    }

    /// A copy with the same keys and values, listed in the same order.
    pub fn duplicate(&self) -> (r: Self)
        ensures
            r@ == self@,
            r.entries_view() == self.entries_view(),
    {
        proof {
            use_type_invariant(self);
        }
        let mut copy: Vec<(String, String)> = Vec::new();
        let mut i: usize = 0;
        while i < self.entries.len()
            invariant
                i <= self.entries@.len(),
                pairs_view(copy@) == pairs_view(self.entries@.subrange(0, i as int)),
            decreases self.entries@.len() - i,
        {
            let entry = &self.entries[i];
            let ghost before = copy@;
            copy.push((entry.0.clone(), entry.1.clone()));
            proof {
                lemma_pairs_view_prefix(self.entries@, i as int);
            }
            assert(pairs_view(copy@) =~= pairs_view(self.entries@.subrange(0, i + 1)));
            i = i + 1;
        }
        assert(self.entries@.subrange(0, self.entries@.len() as int) =~= self.entries@);
        OptionMap { entries: copy }
    }
}

/// After setting a key, reading it gives the value just set, and reading
/// any other key gives what it gave before.
pub proof fn lemma_read_after_insert(m: OptionMap, after: OptionMap, key: Seq<char>, value: Seq<char>, other: Seq<char>)
    requires
        after@ == m@.insert(key, value),
    ensures
        after@.contains_key(key) && after@[key] == value,
        other != key ==> (after@.contains_key(other) == m@.contains_key(other)),
        other != key && m@.contains_key(other) ==> after@[other] == m@[other],
{
}

impl Clone for OptionMap {
    fn clone(&self) -> (r: Self)
        ensures
            r@ == self@,
    {
        self.duplicate()
    }
}

} // verus!
