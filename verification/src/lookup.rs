//! Name lookup in the `(name, value)` registries of [`crate::schema`].
//!
//! A registry is a vector of pairs; lookup returns the first pair whose name
//! has the same characters as the one sought.
use vstd::prelude::*;

verus! {

/// The first value stored under `name`, if any.
pub open spec fn spec_lookup<V>(entries: Seq<(String, V)>, name: Seq<char>) -> Option<V>
    decreases entries.len(),
{
    if entries.len() == 0 {
        None
    } else if entries[0].0@ == name {
        Some(entries[0].1)
    } else {
        spec_lookup(entries.drop_first(), name)
    }
}

/// Whether `name` occurs in a list of names.
pub open spec fn spec_contains_name(names: Seq<String>, name: Seq<char>) -> bool
    decreases names.len(),
{
    if names.len() == 0 {
        false
    } else if names[0]@ == name {
        true
    } else {
        spec_contains_name(names.drop_first(), name)
    }
}

/// One unfolding step of [`spec_lookup`] on a suffix, phrased over indices.
pub proof fn lemma_spec_lookup_step<V>(entries: Seq<(String, V)>, i: int, name: Seq<char>)
    requires
        0 <= i < entries.len(),
    ensures
        spec_lookup(entries.skip(i), name) == (if entries[i].0@ == name {
            Some(entries[i].1)
        } else {
            spec_lookup(entries.skip(i + 1), name)
        }),
{
    assert(entries.skip(i)[0] == entries[i]);
    assert(entries.skip(i).drop_first() =~= entries.skip(i + 1));
}

/// One unfolding step of [`spec_contains_name`] on a suffix.
pub proof fn lemma_spec_contains_name_step(names: Seq<String>, i: int, name: Seq<char>)
    requires
        0 <= i < names.len(),
    ensures
        spec_contains_name(names.skip(i), name) == (names[i]@ == name || spec_contains_name(
            names.skip(i + 1),
            name,
        )),
{
    assert(names.skip(i)[0] == names[i]);
    assert(names.skip(i).drop_first() =~= names.skip(i + 1));
}

/// Finds the first value stored under `name`.
pub fn lookup<'a, V>(entries: &'a Vec<(String, V)>, name: &String) -> (r: Option<&'a V>)
    ensures
        match r {
            Some(v) => spec_lookup(entries@, name@) == Some(*v),
            None => spec_lookup(entries@, name@) is None,
        },
{
    let n = entries.len();
    proof {
        assert(entries@.skip(0) =~= entries@);
    }
    for i in 0..n
        invariant
            n == entries.len(),
            spec_lookup(entries@, name@) == spec_lookup(entries@.skip(i as int), name@),
    {
        proof {
            lemma_spec_lookup_step(entries@, i as int, name@);
        }
        if entries[i].0 == *name {
            return Some(&entries[i].1);
        }
    }
    proof {
        assert(entries@.skip(n as int) =~= Seq::<(String, V)>::empty());
    }
    None
}

/// Whether `name` occurs in the list.
pub fn contains_name(names: &Vec<String>, name: &String) -> (r: bool)
    ensures
        r == spec_contains_name(names@, name@),
{
    let n = names.len();
    proof {
        assert(names@.skip(0) =~= names@);
    }
    for i in 0..n
        invariant
            n == names.len(),
            spec_contains_name(names@, name@) == spec_contains_name(
                names@.skip(i as int),
                name@,
            ),
    {
        proof {
            lemma_spec_contains_name_step(names@, i as int, name@);
        }
        if names[i] == *name {
            return true;
        }
    }
    proof {
        assert(names@.skip(n as int) =~= Seq::<String>::empty());
    }
    false
}

/// The set of name views a registry is keyed by.
pub open spec fn key_set<V>(entries: Seq<(String, V)>) -> Set<Seq<char>> {
    entries.map_values(|p: (String, V)| p.0@).to_set()
}

/// A registry keys only finitely many names.
pub proof fn lemma_key_set_finite<V>(entries: Seq<(String, V)>)
    ensures
        key_set(entries).finite(),
{
    broadcast use vstd::seq_lib::seq_to_set_is_finite;

}

/// A name that lookup resolves is one of the registry's keys.
pub proof fn lemma_lookup_some_in_key_set<V>(entries: Seq<(String, V)>, name: Seq<char>)
    requires
        spec_lookup(entries, name) is Some,
    ensures
        key_set(entries).contains(name),
    decreases entries.len(),
{
    let names = entries.map_values(|p: (String, V)| p.0@);
    if entries[0].0@ == name {
        assert(names[0] == name);
        assert(names.contains(name));
    } else {
        lemma_lookup_some_in_key_set(entries.drop_first(), name);
        let rest_names = entries.drop_first().map_values(|p: (String, V)| p.0@);
        assert(rest_names.contains(name));
        let j = choose|j: int| 0 <= j < rest_names.len() && rest_names[j] == name;
        assert(names[j + 1] == name);
        assert(names.contains(name));
    }
}

} // verus!
