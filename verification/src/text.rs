//! Substring search on pipeline descriptors.
//!
//! A pipeline descriptor is opaque text. The only question asked of it is
//! whether a decoder's name stands in it as an element: followed by a space,
//! followed by `!`, or at the very end.

use vstd::prelude::*;

verus! {

/// `needle` stands in `haystack` at position `at`.
pub open spec fn occurs_at(haystack: Seq<char>, needle: Seq<char>, at: int) -> bool {
    &&& 0 <= at
    &&& at + needle.len() <= haystack.len()
    &&& haystack.subrange(at, at + needle.len()) == needle
}

/// `needle` stands somewhere in `haystack`.
pub open spec fn is_substring(haystack: Seq<char>, needle: Seq<char>) -> bool {
    exists|at: int| occurs_at(haystack, needle, at)
}

/// `haystack` ends with `needle`.
pub open spec fn is_suffix(haystack: Seq<char>, needle: Seq<char>) -> bool {
    occurs_at(haystack, needle, haystack.len() - needle.len())
}

/// `name` stands in `pipeline` at position `at` and is closed there by a
/// space, by `!`, or by the end of the text.
pub open spec fn element_at(pipeline: Seq<char>, name: Seq<char>, at: int) -> bool {
    &&& occurs_at(pipeline, name, at)
    &&& (at + name.len() == pipeline.len() || pipeline[at + name.len()] == ' ' || pipeline[at
        + name.len()] == '!')
}

/// `name` stands in `pipeline` as an element: somewhere it is followed by a
/// space or by `!`, or the text ends with it.
pub open spec fn names_element(pipeline: Seq<char>, name: Seq<char>) -> bool {
    exists|at: int| element_at(pipeline, name, at)
}

/// `str::contains` with a string pattern: true exactly when `needle` is a
/// contiguous part of `haystack`. This is what std documents; it is believed
/// here, not proved.
#[verifier::external_body]
fn str_contains(haystack: &str, needle: &str) -> (found: bool)
    ensures
        found == is_substring(haystack@, needle@),
{
    haystack.contains(needle)
}

/// `str::ends_with` with a string pattern: true exactly when the last
/// characters of `haystack` are those of `needle`. This is what std
/// documents; it is believed here, not proved.
#[verifier::external_body]
fn str_ends_with(haystack: &str, needle: &str) -> (found: bool)
    ensures
        found == is_suffix(haystack@, needle@),
{
    haystack.ends_with(needle)
}

/// An occurrence of `name` followed by `c` is an occurrence of `name + [c]`,
/// and the other way round.
proof fn lemma_followed_by(pipeline: Seq<char>, name: Seq<char>, c: char, at: int)
    ensures
        occurs_at(pipeline, name.push(c), at) <==> (occurs_at(pipeline, name, at) && at
            + name.len() < pipeline.len() && pipeline[at + name.len()] == c),
{
    let long = name.push(c);
    if occurs_at(pipeline, long, at) {
        let part = pipeline.subrange(at, at + long.len());
        assert(part[name.len() as int] == c);
        assert(pipeline.subrange(at, at + name.len()) =~= part.subrange(0, name.len() as int));
        assert(part.subrange(0, name.len() as int) =~= name);
    }
    if occurs_at(pipeline, name, at) && at + name.len() < pipeline.len() && pipeline[at
        + name.len()] == c {
        let part = pipeline.subrange(at, at + name.len());
        assert(pipeline.subrange(at, at + long.len()) =~= part.push(c));
    }
}

/// The three searches that `mentions_element` makes decide `names_element`.
proof fn lemma_three_searches(pipeline: Seq<char>, name: Seq<char>)
    ensures
        names_element(pipeline, name) <==> (is_substring(pipeline, name.push(' '))
            || is_substring(pipeline, name.push('!')) || is_suffix(pipeline, name)),
{
    if names_element(pipeline, name) {
        let at = choose|at: int| element_at(pipeline, name, at);
        lemma_followed_by(pipeline, name, ' ', at);
        lemma_followed_by(pipeline, name, '!', at);
        if at + name.len() == pipeline.len() {
            assert(is_suffix(pipeline, name));
        } else if pipeline[at + name.len()] == ' ' {
            assert(occurs_at(pipeline, name.push(' '), at));
        } else {
            assert(occurs_at(pipeline, name.push('!'), at));
        }
    }
    if is_substring(pipeline, name.push(' ')) {
        let at = choose|at: int| occurs_at(pipeline, name.push(' '), at);
        lemma_followed_by(pipeline, name, ' ', at);
        assert(element_at(pipeline, name, at));
    }
    if is_substring(pipeline, name.push('!')) {
        let at = choose|at: int| occurs_at(pipeline, name.push('!'), at);
        lemma_followed_by(pipeline, name, '!', at);
        assert(element_at(pipeline, name, at));
    }
    if is_suffix(pipeline, name) {
        assert(element_at(pipeline, name, pipeline.len() - name.len()));
    }
}

/// Whether `name` stands in `pipeline` as an element.
pub fn mentions_element(pipeline: &str, name: &str) -> (found: bool)
    ensures
        found == names_element(pipeline@, name@),
{
    let mut spaced = String::from_str(name);
    spaced.append(" ");
    let mut piped = String::from_str(name);
    piped.append("!");
    proof {
        reveal_strlit(" ");
        reveal_strlit("!");
        assert(spaced@ =~= name@.push(' '));
        assert(piped@ =~= name@.push('!'));
        lemma_three_searches(pipeline@, name@);
    }
    str_contains(pipeline, spaced.as_str()) || str_contains(pipeline, piped.as_str())
        || str_ends_with(pipeline, name)
}

/// `==` on two string slices, `<str as PartialEq>::eq`: true exactly when
/// they hold the same characters. Believed of std, not proved.
pub assume_specification[ <str as PartialEq>::eq ](a: &str, b: &str) -> (same: bool)
    ensures
        same == (a@ == b@),
;

/// The characters of a text that may be absent.
pub open spec fn text_of(text: Option<&str>) -> Option<Seq<char>> {
    match text {
        Some(t) => Some(t@),
        None => None,
    }
}

} // verus!
