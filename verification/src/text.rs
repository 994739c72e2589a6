//! Questions about text that the detection strategies ask.

use vstd::prelude::*;

verus! {

/// Whether `needle` stands in `haystack` at position `start`.
pub open spec fn occurs_at(needle: Seq<char>, haystack: Seq<char>, start: int) -> bool {
    &&& 0 <= start
    &&& start + needle.len() <= haystack.len()
    &&& haystack.subrange(start, start + needle.len()) == needle
}

/// Whether `needle` occurs somewhere in `haystack` as a run of consecutive
/// characters. Letter case counts.
pub open spec fn occurs_in(needle: Seq<char>, haystack: Seq<char>) -> bool {
    exists|start: int| occurs_at(needle, haystack, start)
}

/// The lower-case form that `str::to_lowercase` of the standard library
/// gives a text.
pub uninterp spec fn lowercase(text: Seq<char>) -> Seq<char>;

/// Calls `str::to_lowercase`. The result follows the Unicode lower-case
/// mapping, which is not restated here. Taken on trust: that it depends on the
/// text alone, which is all that naming it [`lowercase`] says.
#[verifier::external_body]
pub(crate) fn to_lowercase(text: &str) -> (lower: String)
    ensures
        lower@ == lowercase(text@),
{
    text.to_lowercase()
}

/// The characters of a text.
pub fn chars_of(text: &str) -> (chars: Vec<char>)
    ensures
        chars@ == text@,
{
    let mut chars: Vec<char> = Vec::new();
    for c in all: text.chars()
        invariant
            chars@ == all.seq().take(all.index() as int),
            all.seq() == text@,
    {
        chars.push(c);
    }
    chars
}

/// Tells whether `needle` stands in `haystack` at position `start`.
pub fn stands_at(needle: &Vec<char>, haystack: &Vec<char>, start: usize) -> (found: bool)
    ensures
        found == occurs_at(needle@, haystack@, start as int),
{
    if start > haystack.len() || needle.len() > haystack.len() - start {
        return false;
    }
    let ghost window = haystack@.subrange(start as int, start + needle.len());
    let mut i: usize = 0;
    while i < needle.len()
        invariant
            i <= needle.len(),
            start + needle.len() <= haystack.len(),
            window == haystack@.subrange(start as int, start + needle.len()),
            window.take(i as int) == needle@.take(i as int),
        decreases needle.len() - i,
    {
        if haystack[start + i] != needle[i] {
            assert(window[i as int] != needle@[i as int]);
            return false;
        }
        assert(window.take(i + 1) == window.take(i as int).push(window[i as int]));
        assert(needle@.take(i + 1) == needle@.take(i as int).push(needle@[i as int]));
        i += 1;
    }
    assert(window == window.take(i as int));
    assert(needle@ == needle@.take(i as int));
    true
}

/// Tells whether `needle` occurs somewhere in `haystack`.
pub fn occurs(needle: &Vec<char>, haystack: &Vec<char>) -> (found: bool)
    ensures
        found == occurs_in(needle@, haystack@),
{
    if needle.len() > haystack.len() {
        return false;
    }
    let last = haystack.len() - needle.len();
    let mut start: usize = 0;
    loop
        invariant
            last == haystack.len() - needle.len(),
            start <= last,
            forall|earlier: int| 0 <= earlier < start ==> !occurs_at(needle@, haystack@, earlier),
        decreases last - start,
    {
        if stands_at(needle, haystack, start) {
            return true;
        }
        if start == last {
            return false;
        }
        start += 1;
    }
}

/// Tells whether `text` begins with `prefix`.
pub fn begins_with(text: &Vec<char>, prefix: &Vec<char>) -> (found: bool)
    ensures
        found == prefix@.is_prefix_of(text@),
{
    stands_at(prefix, text, 0)
}

/// Tells whether `text` ends with `suffix`.
pub fn ends_with(text: &Vec<char>, suffix: &Vec<char>) -> (found: bool)
    ensures
        found == suffix@.is_suffix_of(text@),
{
    if suffix.len() > text.len() {
        false
    } else {
        stands_at(suffix, text, text.len() - suffix.len())
    }
}

/// Whether two texts hold the same characters.
pub fn same_text(a: &str, b: &str) -> (same: bool)
    ensures
        same == (a@ == b@),
{
    let x = chars_of(a);
    let y = chars_of(b);
    assert(y@.subrange(0, y@.len() as int) == y@);
    x.len() == y.len() && stands_at(&x, &y, 0)
}

} // verus!
