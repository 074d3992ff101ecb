//! Text matching for the watch rules: substring search and case folding,
//! plus the verified list-matching helpers built on them.

use vstd::prelude::*;

verus! {

/// Whether `sub` occurs contiguously inside `s`.
pub open spec fn has_substring(s: Seq<char>, sub: Seq<char>) -> bool {
    exists|i: int| 0 <= i <= s.len() - sub.len() && #[trigger] s.subrange(i, i + sub.len()) == sub
}

/// Relies on str::contains: true exactly when the pattern occurs as a
/// sub-slice of the string.
#[verifier::external_body]
fn str_contains(s: &str, sub: &str) -> (r: bool)
    ensures
        r == has_substring(s@, sub@),
{
    s.contains(sub)
}

/// The uppercase form that str::to_uppercase produces, a function of the
/// characters alone.
pub uninterp spec fn upper_of(s: Seq<char>) -> Seq<char>;

/// Relies on str::to_uppercase: the result depends on the characters alone,
/// and an empty string stays empty.
#[verifier::external_body]
fn to_uppercase(s: &str) -> (r: String)
    ensures
        r@ == upper_of(s@),
        s@.len() == 0 ==> r@.len() == 0,
{
    s.to_uppercase()
}

/// Case-insensitive containment: whether the uppercase form of `text`
/// contains the uppercase form of `pat`.
pub fn contains_ignore_case(text: &str, pat: &str) -> (r: bool)
    ensures
        r == has_substring(upper_of(text@), upper_of(pat@)),
{
    let t = to_uppercase(text);
    let p = to_uppercase(pat);
    str_contains(t.as_str(), p.as_str())
}

/// Whether some string of `v` equals `s`.
pub open spec fn spec_contains_string(v: Seq<String>, s: Seq<char>) -> bool {
    exists|i: int| 0 <= i < v.len() && (#[trigger] v[i])@ == s
}

/// Whether some string of `v` equals `s`.
pub fn contains_string(v: &Vec<String>, s: &String) -> (r: bool)
    ensures
        r == spec_contains_string(v@, s@),
{
    let mut i: usize = 0;
    #[verifier::loop_isolation(false)]
    while i < v.len()
        invariant
            0 <= i <= v@.len(),
            forall|k: int| 0 <= k < i ==> (#[trigger] v@[k])@ != s@,
        decreases v@.len() - i,
    {
        if v[i] == *s {
            return true;
        }
        i += 1;
    }
    false
}

/// Whether the spot mode matches some watched mode, comparing uppercase
/// forms and accepting a containment match.
pub open spec fn spec_mode_watched(modes: Seq<String>, mode: Seq<char>) -> bool {
    exists|i: int| 0 <= i < modes.len() && has_substring(upper_of(mode), upper_of((#[trigger] modes[i])@))
}

/// Whether the spot mode matches some watched mode, comparing uppercase
/// forms and accepting a containment match.
pub fn mode_watched(modes: &Vec<String>, mode: &str) -> (r: bool)
    ensures
        r == spec_mode_watched(modes@, mode@),
{
    let mut i: usize = 0;
    #[verifier::loop_isolation(false)]
    while i < modes.len()
        invariant
            0 <= i <= modes@.len(),
            forall|k: int|
                0 <= k < i ==> !has_substring(upper_of(mode@), upper_of((#[trigger] modes@[k])@)),
        decreases modes@.len() - i,
    {
        if contains_ignore_case(mode, modes[i].as_str()) {
            return true;
        }
        i += 1;
    }
    false
}

/// Whether the satellite is watched: an empty watch list watches all;
/// otherwise the satellite name must contain some watched name,
/// case-insensitively.
pub open spec fn spec_satellite_watched(watch: Seq<String>, name: Seq<char>) -> bool {
    watch.len() == 0 || exists|i: int|
        0 <= i < watch.len() && has_substring(upper_of(name), upper_of((#[trigger] watch[i])@))
}

/// Whether the satellite is watched: an empty watch list watches all;
/// otherwise the satellite name must contain some watched name,
/// case-insensitively.
pub fn satellite_watched(watch: &Vec<String>, name: &str) -> (r: bool)
    ensures
        r == spec_satellite_watched(watch@, name@),
{
    if watch.len() == 0 {
        return true;
    }
    let mut i: usize = 0;
    #[verifier::loop_isolation(false)]
    while i < watch.len()
        invariant
            0 <= i <= watch@.len(),
            forall|k: int|
                0 <= k < i ==> !has_substring(upper_of(name@), upper_of((#[trigger] watch@[k])@)),
        decreases watch@.len() - i,
    {
        if contains_ignore_case(name, watch[i].as_str()) {
            return true;
        }
        i += 1;
    }
    false
}

} // verus!
