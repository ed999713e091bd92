//! Selection of test cases by substrings of their names.

use vstd::prelude::*;
use crate::text::{contains, contains_seq};

verus! {

/// The character sequences of a list of strings.
pub open spec fn texts(v: Seq<String>) -> Seq<Seq<char>> {
    Seq::new(v.len(), |i: int| v[i]@)
}

/// A name is retained iff it contains every string of `includes` and none of
/// `excludes`. An empty `includes` retains every name that `excludes` lets through.
pub open spec fn retained(name: Seq<char>, includes: Seq<Seq<char>>, excludes: Seq<Seq<char>>) -> bool {
    &&& forall|i: int| 0 <= i < includes.len() ==> contains_seq(name, #[trigger] includes[i])
    &&& forall|j: int| 0 <= j < excludes.len() ==> !contains_seq(name, #[trigger] excludes[j])
}

/// Whether `name` contains every string of `patterns`.
pub fn contains_all(name: &str, patterns: &Vec<String>) -> (b: bool)
    ensures
        b == forall|i: int|
            0 <= i < patterns@.len() ==> contains_seq(name@, #[trigger] texts(patterns@)[i]),
{
    let mut i: usize = 0;
    while i < patterns.len()
        invariant
            i <= patterns@.len(),
            forall|k: int| 0 <= k < i ==> contains_seq(name@, #[trigger] texts(patterns@)[k]),
        decreases patterns@.len() - i,
    {
        if !contains(name, patterns[i].as_str()) {
            assert(!contains_seq(name@, texts(patterns@)[i as int]));
            return false;
        }
        i += 1;
    }
    true
}

/// Whether `name` contains at least one string of `patterns`.
pub fn contains_any(name: &str, patterns: &Vec<String>) -> (b: bool)
    ensures
        b == exists|i: int|
            0 <= i < patterns@.len() && contains_seq(name@, #[trigger] texts(patterns@)[i]),
{
    let mut i: usize = 0;
    while i < patterns.len()
        invariant
            i <= patterns@.len(),
            forall|k: int| 0 <= k < i ==> !contains_seq(name@, #[trigger] texts(patterns@)[k]),
        decreases patterns@.len() - i,
    {
        if contains(name, patterns[i].as_str()) {
            assert(contains_seq(name@, texts(patterns@)[i as int]));
            return true;
        }
        i += 1;
    }
    false
}

/// Whether the filter made of `includes` and `excludes` retains `name`.
pub fn passes(name: &str, includes: &Vec<String>, excludes: &Vec<String>) -> (b: bool)
    ensures
        b == retained(name@, texts(includes@), texts(excludes@)),
{
    !contains_any(name, excludes) && contains_all(name, includes)
}

} // verus!
