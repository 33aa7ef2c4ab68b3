use vstd::prelude::*;

verus! {

/// `pattern` occurs in `text` as a contiguous run of characters.
pub open spec fn has_substr(text: Seq<char>, pattern: Seq<char>) -> bool {
    exists|i: int| 0 <= i <= text.len() - pattern.len() && #[trigger] text.subrange(i, i + pattern.len()) == pattern
}

/// Occurrence is transitive: a phrase found in a part of a text is found in the text.
pub proof fn lemma_has_substr_transitive(text: Seq<char>, part: Seq<char>, phrase: Seq<char>)
    requires
        has_substr(text, part),
        has_substr(part, phrase),
    ensures
        has_substr(text, phrase),
{
    let i = choose|i: int| 0 <= i <= text.len() - part.len() && #[trigger] text.subrange(i, i + part.len()) == part;
    let j = choose|j: int| 0 <= j <= part.len() - phrase.len() && #[trigger] part.subrange(j, j + phrase.len()) == phrase;
    assert(text.subrange(i + j, i + j + phrase.len()) =~= part.subrange(j, j + phrase.len()));
}

/// The characters of `s`, in order.
pub fn chars_of(s: &str) -> (v: Vec<char>)
    ensures
        v@ == s@,
{
    let mut v: Vec<char> = Vec::new();
    for c in it: s.chars()
        invariant
            v@ == it.seq().take(it.index() as int),
    {
        v.push(c);
    }
    v
}

/// Whether `pattern` occurs in `text` starting at character position `start`.
fn occurs_at(text: &Vec<char>, pattern: &Vec<char>, start: usize) -> (b: bool)
    requires
        start + pattern.len() <= text.len(),
    ensures
        b == (text@.subrange(start as int, start + pattern.len()) == pattern@),
{
    let mut j: usize = 0;
    while j < pattern.len()
        invariant
            start + pattern.len() <= text.len(),
            j <= pattern.len(),
            forall|k: int| 0 <= k < j ==> text@[start + k] == pattern@[k],
        decreases pattern.len() - j,
    {
        if text[start + j] != pattern[j] {
            assert(text@.subrange(start as int, start + pattern.len())[j as int] != pattern@[j as int]);
            return false;
        }
        j = j + 1;
    }
    assert(text@.subrange(start as int, start + pattern.len()) =~= pattern@);
    true
}

/// Whether `pattern` occurs anywhere in `text`; the empty pattern occurs in every text.
pub fn contains_chars(text: &Vec<char>, pattern: &Vec<char>) -> (b: bool)
    ensures
        b == has_substr(text@, pattern@),
{
    if pattern.len() > text.len() {
        return false;
    }
    let last: usize = text.len() - pattern.len();
    let mut i: usize = 0;
    loop
        invariant
            last == text.len() - pattern.len(),
            pattern.len() <= text.len(),
            i <= last,
            forall|k: int| 0 <= k < i ==> #[trigger] text@.subrange(k, k + pattern.len()) != pattern@,
        decreases last - i,
    {
        if occurs_at(text, pattern, i) {
            return true;
        }
        if i == last {
            return false;
        }
        i = i + 1;
    }
}

/// Whether `pattern` occurs anywhere in `text`, compared character by character.
pub fn str_contains(text: &str, pattern: &str) -> (b: bool)
    ensures
        b == has_substr(text@, pattern@),
{
    let t = chars_of(text);
    let p = chars_of(pattern);
    contains_chars(&t, &p)
}

} // verus!
