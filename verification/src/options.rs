//! Name/value option lists, as CUPS passes job and destination options.

use vstd::prelude::*;
use crate::text::{str_eq, int_text, i64_text, parse_i32, parse_i32_text, lemma_int_text_parses_back};

verus! {

/// An option list seen as a sequence of (name, value) texts.
pub open spec fn pairs_view(s: Seq<(String, String)>) -> Seq<(Seq<char>, Seq<char>)> {
    s.map_values(|p: (String, String)| (p.0@, p.1@))
}

/// `s` without any entry named `name`, the others kept in order.
pub open spec fn remove_key(s: Seq<(Seq<char>, Seq<char>)>, name: Seq<char>) -> Seq<(Seq<char>, Seq<char>)>
    decreases s.len(),
{
    if s.len() == 0 {
        s
    } else {
        let rest = remove_key(s.drop_last(), name);
        if s.last().0 == name {
            rest
        } else {
            rest.push(s.last())
        }
    }
}

/// The value of the first entry named `name`, if there is one.
pub open spec fn lookup(s: Seq<(Seq<char>, Seq<char>)>, name: Seq<char>) -> Option<Seq<char>>
    decreases s.len(),
{
    if s.len() == 0 {
        None
    } else {
        match lookup(s.drop_last(), name) {
            Some(v) => Some(v),
            None => if s.last().0 == name {
                Some(s.last().1)
            } else {
                None
            },
        }
    }
}

pub open spec fn has_key(s: Seq<(Seq<char>, Seq<char>)>, name: Seq<char>) -> bool {
    exists|i: int| 0 <= i < s.len() && (#[trigger] s[i]).0 == name
}

/// The list that `add_option` returns: every entry named `name` replaced by
/// one entry at the end.
pub open spec fn with_option(s: Seq<(Seq<char>, Seq<char>)>, name: Seq<char>, value: Seq<char>) -> Seq<(Seq<char>, Seq<char>)> {
    remove_key(s, name).push((name, value))
}

pub(crate) proof fn lemma_pairs_view_prefix(s: Seq<(String, String)>, i: int)
    requires
        0 <= i < s.len(),
    ensures
        pairs_view(s.subrange(0, i + 1)) == pairs_view(s.subrange(0, i)).push((s[i].0@, s[i].1@)),
        pairs_view(s.subrange(0, i + 1)).drop_last() == pairs_view(s.subrange(0, i)),
{
    assert(pairs_view(s.subrange(0, i + 1)) =~= pairs_view(s.subrange(0, i)).push((s[i].0@, s[i].1@)));
    assert(pairs_view(s.subrange(0, i + 1)).drop_last() =~= pairs_view(s.subrange(0, i)));
}

pub proof fn lemma_lookup_some(s: Seq<(Seq<char>, Seq<char>)>, name: Seq<char>)
    ensures
        lookup(s, name) is Some <==> has_key(s, name),
        lookup(s, name) is Some ==> exists|i: int| 0 <= i < s.len() && (#[trigger] s[i]) == (name, lookup(s, name)->0),
    decreases s.len(),
{
    if s.len() > 0 {
        lemma_lookup_some(s.drop_last(), name);
        if has_key(s.drop_last(), name) {
            let i = choose|i: int| 0 <= i < s.drop_last().len() && (#[trigger] s.drop_last()[i]).0 == name;
            assert(s[i] == s.drop_last()[i]);
        }
        if has_key(s, name) {
            let i = choose|i: int| 0 <= i < s.len() && (#[trigger] s[i]).0 == name;
            if i < s.len() - 1 {
                assert(s.drop_last()[i] == s[i]);
            }
        }
        if lookup(s.drop_last(), name) is Some {
            let i = choose|i: int| 0 <= i < s.drop_last().len() && (#[trigger] s.drop_last()[i]) == (name, lookup(s.drop_last(), name)->0);
            assert(s[i] == s.drop_last()[i]);
        }
    }
}

pub proof fn lemma_remove_key(s: Seq<(Seq<char>, Seq<char>)>, name: Seq<char>)
    ensures
        !has_key(remove_key(s, name), name),
        remove_key(s, name).len() <= s.len(),
        remove_key(s, name).len() < s.len() <==> has_key(s, name),
        lookup(remove_key(s, name), name) is None,
        forall|other: Seq<char>| other != name ==> #[trigger] lookup(remove_key(s, name), other) == lookup(s, other),
    decreases s.len(),
{
    if s.len() > 0 {
        let t = s.drop_last();
        lemma_remove_key(t, name);
        let r = remove_key(s, name);
        let rt = remove_key(t, name);
        if has_key(t, name) {
            let i = choose|i: int| 0 <= i < t.len() && (#[trigger] t[i]).0 == name;
            assert(s[i] == t[i]);
        }
        if has_key(s, name) && !has_key(t, name) {
            let i = choose|i: int| 0 <= i < s.len() && (#[trigger] s[i]).0 == name;
            if i < s.len() - 1 {
                assert(t[i] == s[i]);
            }
        }
        if s.last().0 != name {
            assert(r.drop_last() =~= rt);
            if has_key(r, name) {
                let i = choose|i: int| 0 <= i < r.len() && (#[trigger] r[i]).0 == name;
                assert(i < r.len() - 1);
                assert(rt[i] == r[i]);
            }
        }
        lemma_lookup_some(rt, name);
        lemma_lookup_some(r, name);
        assert forall|other: Seq<char>| other != name implies #[trigger] lookup(r, other) == lookup(s, other) by {
            assert(lookup(rt, other) == lookup(t, other));
            if s.last().0 != name {
                assert(r.drop_last() =~= rt);
                assert(r.last() == s.last());
            }
        }
    }
}

/// Reading an option back after `add_option` gives the value just set, and
/// leaves every other option's value as it was.
pub proof fn lemma_with_option_lookup(s: Seq<(Seq<char>, Seq<char>)>, name: Seq<char>, value: Seq<char>, other: Seq<char>)
    ensures
        lookup(with_option(s, name, value), name) == Some(value),
        other != name ==> lookup(with_option(s, name, value), other) == lookup(s, other),
{
    lemma_remove_key(s, name);
    let r = with_option(s, name, value);
    assert(r.drop_last() =~= remove_key(s, name));
    if other != name {
        assert(lookup(remove_key(s, name), other) == lookup(s, other));
    }
}

/// Setting the same option twice keeps only the second value: the list is
/// the one that setting it once to that value gives.
pub proof fn lemma_with_option_twice(s: Seq<(Seq<char>, Seq<char>)>, name: Seq<char>, v1: Seq<char>, v2: Seq<char>)
    ensures
        with_option(with_option(s, name, v1), name, v2) == with_option(s, name, v2),
{
    lemma_remove_key(s, name);
    let r = remove_key(s, name);
    let t = r.push((name, v1));
    assert(t.drop_last() =~= r);
    lemma_remove_key_absent(r, name);
    assert(remove_key(t, name) == remove_key(r, name));
}

proof fn lemma_remove_key_absent(s: Seq<(Seq<char>, Seq<char>)>, name: Seq<char>)
    requires
        !has_key(s, name),
    ensures
        remove_key(s, name) == s,
    decreases s.len(),
{
    if s.len() > 0 {
        let t = s.drop_last();
        assert(!has_key(t, name)) by {
            if has_key(t, name) {
                let i = choose|i: int| 0 <= i < t.len() && (#[trigger] t[i]).0 == name;
                assert(s[i] == t[i]);
            }
        }
        lemma_remove_key_absent(t, name);
        assert(s[s.len() - 1].0 != name);
        assert(t.push(s.last()) =~= s);
    }
}

/// Removing an option, then reading it, finds nothing; the flag tells whether
/// it was there.
pub proof fn lemma_remove_then_lookup(s: Seq<(Seq<char>, Seq<char>)>, name: Seq<char>)
    ensures
        lookup(remove_key(s, name), name) is None,
        has_key(s, name) <==> lookup(s, name) is Some,
{
    lemma_remove_key(s, name);
    lemma_lookup_some(s, name);
}

/// Adds an option to a list, replacing every option of the same name.
pub fn add_option(name: &str, value: &str, options: Vec<(String, String)>) -> (r: Vec<(String, String)>)
    ensures
        pairs_view(r@) == with_option(pairs_view(options@), name@, value@),
{
    let mut kept = retain_other_names(name, &options);
    kept.push((name.to_owned(), value.to_owned()));
    assert(pairs_view(kept@) =~= with_option(pairs_view(options@), name@, value@));
    kept
}

/// Adds an option whose value is an integer, written in decimal.
pub fn add_integer_option(name: &str, value: i32, options: Vec<(String, String)>) -> (r: Vec<(String, String)>)
    ensures
        pairs_view(r@) == with_option(pairs_view(options@), name@, int_text(value as int)),
{
    let text = i64_text(value as i64);
    add_option(name, text.as_str(), options)
}

pub(crate) fn retain_other_names(name: &str, options: &Vec<(String, String)>) -> (r: Vec<(String, String)>)
    ensures
        pairs_view(r@) == remove_key(pairs_view(options@), name@),
{
    let mut kept: Vec<(String, String)> = Vec::new();
    let mut i: usize = 0;
    proof {
        assert(pairs_view(options@.subrange(0, 0)) =~= Seq::<(Seq<char>, Seq<char>)>::empty());
    }
    while i < options.len()
        invariant
            i <= options@.len(),
            pairs_view(kept@) == remove_key(pairs_view(options@.subrange(0, i as int)), name@),
        decreases options@.len() - i,
    {
        let entry = &options[i];
        proof {
            lemma_pairs_view_prefix(options@, i as int);
        }
        let same = str_eq(entry.0.as_str(), name);
        if !same {
            let ghost before = kept@;
            let copy = (entry.0.clone(), entry.1.clone());
            kept.push(copy);
            assert(pairs_view(kept@) =~= pairs_view(before).push((entry.0@, entry.1@)));
        }
        i = i + 1;
    }
    assert(options@.subrange(0, options@.len() as int) =~= options@);
    kept
}

/// Removes every option of the given name; the flag tells whether there was one.
pub fn remove_option(name: &str, options: Vec<(String, String)>) -> (r: (Vec<(String, String)>, bool))
    ensures
        pairs_view(r.0@) == remove_key(pairs_view(options@), name@),
        r.1 == has_key(pairs_view(options@), name@),
{
    let initial_len = options.len();
    let kept = retain_other_names(name, &options);
    proof {
        lemma_remove_key(pairs_view(options@), name@);
    }
    let was_removed = kept.len() < initial_len;
    (kept, was_removed)
}

/// The position of the first option of the given name.
pub(crate) fn find_first(name: &str, options: &[(String, String)]) -> (r: Option<usize>)
    ensures
        match r {
            Some(i) => i < options@.len() && options@[i as int].0@ == name@
                && lookup(pairs_view(options@), name@) == Some(options@[i as int].1@),
            None => lookup(pairs_view(options@), name@) is None,
        },
{
    let mut i: usize = 0;
    proof {
        assert(pairs_view(options@.subrange(0, 0)) =~= Seq::<(Seq<char>, Seq<char>)>::empty());
    }
    while i < options.len()
        invariant
            i <= options@.len(),
            lookup(pairs_view(options@.subrange(0, i as int)), name@) is None,
        decreases options@.len() - i,
    {
        let entry = &options[i];
        proof {
            lemma_pairs_view_prefix(options@, i as int);
        }
        if str_eq(entry.0.as_str(), name) {
            proof {
                let p = pairs_view(options@.subrange(0, i as int + 1));
                assert(p.drop_last() == pairs_view(options@.subrange(0, i as int)));
                assert(p.last() == (entry.0@, entry.1@));
                assert(lookup(p, name@) == Some(entry.1@));
                lemma_lookup_prefix(pairs_view(options@), i as int + 1, name@);
                assert(pairs_view(options@).subrange(0, i as int + 1) =~= p);
            }
            return Some(i);
        }
        i = i + 1;
    }
    assert(options@.subrange(0, options@.len() as int) =~= options@);
    None
}

/// The value of the first option of the given name.
pub fn get_option<'a>(name: &str, options: &'a [(String, String)]) -> (r: Option<&'a str>)
    ensures
        match r {
            Some(v) => lookup(pairs_view(options@), name@) == Some(v@),
            None => lookup(pairs_view(options@), name@) is None,
        },
{
    match find_first(name, options) {
        Some(i) => Some(options[i].1.as_str()),
        None => None,
    }
}

/// The integer value of the first option of the given name, if it is one.
pub fn get_integer_option(name: &str, options: &[(String, String)]) -> (r: Option<i32>)
    ensures
        r == match lookup(pairs_view(options@), name@) {
            Some(v) => parse_i32_text(v),
            None => None,
        },
{
    match get_option(name, options) {
        Some(v) => parse_i32(v),
        None => None,
    }
}

/// A lookup that finds its answer in a prefix gives the same answer on the
/// whole list.
proof fn lemma_lookup_prefix(s: Seq<(Seq<char>, Seq<char>)>, k: int, name: Seq<char>)
    requires
        0 <= k <= s.len(),
        lookup(s.subrange(0, k), name) is Some,
    ensures
        lookup(s, name) == lookup(s.subrange(0, k), name),
    decreases s.len() - k,
{
    if k < s.len() {
        assert(s.subrange(0, k + 1).drop_last() =~= s.subrange(0, k));
        lemma_lookup_prefix(s, k + 1, name);
    } else {
        assert(s.subrange(0, k) =~= s);
    }
}

/// Reading back an integer option just written gives the same integer.
pub proof fn lemma_integer_option_round_trip(s: Seq<(Seq<char>, Seq<char>)>, name: Seq<char>, value: i32)
    ensures
        match lookup(with_option(s, name, int_text(value as int)), name) {
            Some(v) => parse_i32_text(v) == Some(value),
            None => false,
        },
{
    lemma_with_option_lookup(s, name, int_text(value as int), name);
    lemma_int_text_parses_back(value);
}

} // verus!
