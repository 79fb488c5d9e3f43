//! Case-insensitive substring matching of device names against a set of
//! name patterns.  A pattern matches a device when it occurs, ignoring ASCII
//! case, somewhere inside the device's name.

use vstd::prelude::*;
use vstd::string::StrSliceExecFns;

verus! {

/// ASCII lowercase of one character: the letters 'A' through 'Z' map to
/// their lowercase counterparts, every other character is unchanged.
pub open spec fn lower_char(c: char) -> char {
    if 'A' <= c && c <= 'Z' {
        (((c as u8) + 32) as u8) as char
    } else {
        c
    }
}

/// Computes [`lower_char`].
pub fn ascii_lower(c: char) -> (r: char)
    ensures
        r == lower_char(c),
{
    let u: u32 = c as u32;
    if 65 <= u && u <= 90 {
        ((u as u8) + 32) as char
    } else {
        c
    }
}

/// The pattern occurs at offset `i` of the name, comparing character by
/// character with ASCII case ignored.
pub open spec fn match_at(name: Seq<char>, pat: Seq<char>, i: int) -> bool {
    &&& 0 <= i
    &&& i + pat.len() <= name.len()
    &&& forall|j: int| 0 <= j < pat.len() ==> lower_char(name[i + j]) == lower_char(#[trigger] pat[j])
}

/// The pattern occurs, ignoring ASCII case, somewhere inside the name.  An
/// empty pattern occurs in every name.
pub open spec fn contains_pattern(name: Seq<char>, pat: Seq<char>) -> bool {
    exists|i: int| match_at(name, pat, i)
}

/// Case-insensitive comparison of the whole pattern against the name at
/// offset `i`.
fn match_at_exec(name: &str, pat: &str, i: usize, m: usize) -> (b: bool)
    requires
        m == pat@.len(),
        i + m <= name@.len(),
        name@.len() <= usize::MAX,
    ensures
        b == match_at(name@, pat@, i as int),
{
    let mut j: usize = 0;
    while j < m
        invariant
            m == pat@.len(),
            i + m <= name@.len(),
            name@.len() <= usize::MAX,
            0 <= j <= m,
            forall|t: int| 0 <= t < j ==> lower_char(name@[i + t]) == lower_char(#[trigger] pat@[t]),
        decreases m - j,
    {
        let nc = ascii_lower(name.get_char(i + j));
        let pc = ascii_lower(pat.get_char(j));
        if nc != pc {
            assert(lower_char(name@[i + j as int]) != lower_char(pat@[j as int]));
            return false;
        }
        j += 1;
    }
    true
}

/// Whether `pat` occurs case-insensitively inside `name`: the substring
/// check behind device matching.
pub fn name_contains(name: &str, pat: &str) -> (b: bool)
    ensures
        b == contains_pattern(name@, pat@),
{
    let n = name.unicode_len();
    let m = pat.unicode_len();
    if m > n {
        assert forall|t: int| !match_at(name@, pat@, t) by {}
        return false;
    }
    let mut i: usize = 0;
    while i <= n - m
        invariant
            n == name@.len(),
            m == pat@.len(),
            m <= n,
            0 <= i <= n - m + 1,
            forall|t: int| 0 <= t < i ==> !match_at(name@, pat@, t),
        decreases n + 1 - i,
    {
        if match_at_exec(name, pat, i, m) {
            assert(contains_pattern(name@, pat@));
            return true;
        }
        i += 1;
    }
    assert forall|t: int| !match_at(name@, pat@, t) by {}
    false
}

/// The name matches some pattern of the list.
pub open spec fn matches_any(name: Seq<char>, pats: Seq<Seq<char>>) -> bool {
    exists|k: int| 0 <= k < pats.len() && contains_pattern(name, #[trigger] pats[k])
}

/// The character sequences of a list of strings.
pub open spec fn views_of(ss: Seq<String>) -> Seq<Seq<char>> {
    ss.map_values(|s: String| s@)
}

/// Whether the device name matches some pattern of the list.
pub fn matches_any_exec(name: &String, pats: &Vec<String>) -> (b: bool)
    ensures
        b == matches_any(name@, views_of(pats@)),
{
    let mut k: usize = 0;
    while k < pats.len()
        invariant
            0 <= k <= pats@.len(),
            forall|t: int| 0 <= t < k ==> !contains_pattern(name@, #[trigger] views_of(pats@)[t]),
        decreases pats@.len() - k,
    {
        if name_contains(name.as_str(), pats[k].as_str()) {
            assert(contains_pattern(name@, views_of(pats@)[k as int]));
            return true;
        }
        k += 1;
    }
    false
}

/// The sublist of `names` whose entries match some pattern of `pats`, in
/// their original order.
pub open spec fn matching_views(names: Seq<Seq<char>>, pats: Seq<Seq<char>>) -> Seq<Seq<char>>
    decreases names.len(),
{
    if names.len() == 0 {
        Seq::empty()
    } else if matches_any(names.last(), pats) {
        matching_views(names.drop_last(), pats).push(names.last())
    } else {
        matching_views(names.drop_last(), pats)
    }
}

/// Filters `inputs` to the devices whose name contains one of the `to_find`
/// patterns, ignoring ASCII case.  Order-preserving relative to `inputs`;
/// returns an empty list when nothing matches, and never fails.
pub fn find_inputs(inputs: &Vec<String>, to_find: &Vec<String>) -> (r: Vec<String>)
    ensures
        views_of(r@) == matching_views(views_of(inputs@), views_of(to_find@)),
{
    let ghost all = views_of(inputs@);
    let ghost pats = views_of(to_find@);
    let mut r: Vec<String> = Vec::new();
    let mut i: usize = 0;
    while i < inputs.len()
        invariant
            all == views_of(inputs@),
            pats == views_of(to_find@),
            0 <= i <= inputs@.len(),
            views_of(r@) == matching_views(all.take(i as int), pats),
        decreases inputs@.len() - i,
    {
        let matched = matches_any_exec(&inputs[i], to_find);
        proof {
            assert(all.take(i + 1).drop_last() =~= all.take(i as int));
            assert(all.take(i + 1).last() == inputs@[i as int]@);
        }
        if matched {
            r.push(inputs[i].clone());
            proof {
                assert(views_of(r@) =~= matching_views(all.take(i + 1), pats));
            }
        } else {
            proof {
                assert(views_of(r@) =~= matching_views(all.take(i + 1), pats));
            }
        }
        i += 1;
    }
    proof {
        assert(all.take(inputs@.len() as int) =~= all);
    }
    r
}

} // verus!
