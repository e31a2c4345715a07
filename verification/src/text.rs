//! Wake-word matching: case-sensitive containment of one text in another.

use vstd::prelude::*;

verus! {

/// `word` stands in `text` at position `at`, character for character.
pub open spec fn occurs_at(text: Seq<char>, word: Seq<char>, at: int) -> bool {
    &&& 0 <= at
    &&& at + word.len() <= text.len()
    &&& text.subrange(at, at + word.len()) =~= word
}

/// `word` stands somewhere in `text`. The empty word stands in every text.
pub open spec fn contains_word(text: Seq<char>, word: Seq<char>) -> bool {
    exists|at: int| occurs_at(text, word, at)
}

/// The characters of `s`, in order.
pub fn chars_of(s: &str) -> (v: Vec<char>)
    ensures
        v@ == s@,
{
    let mut v: Vec<char> = Vec::new();
    for c in it: s.chars()
        invariant
            it.seq() == s@,
            v@ == s@.take(it.index()),
    {
        v.push(c);
    }
    v
}

/// Whether `word` stands in `text` at position `at`.
fn matches_at(text: &Vec<char>, word: &Vec<char>, at: usize) -> (b: bool)
    requires
        at + word.len() <= text.len(),
    ensures
        b == occurs_at(text@, word@, at as int),
{
    let mut k: usize = 0;
    while k < word.len()
        invariant
            k <= word.len(),
            at + word.len() <= text.len(),
            forall|j: int| 0 <= j < k ==> text@[at + j] == word@[j],
        decreases word.len() - k,
    {
        if text[at + k] != word[k] {
            proof {
                let sub = text@.subrange(at as int, at + word.len());
                assert(sub[k as int] == text@[at + k]);
            }
            return false;
        }
        k += 1;
    }
    true
}

/// Whether `text` contains `word`: the test by which a transcript is searched for
/// the wake word. The match is case-sensitive and may begin at any character.
pub fn contains(text: &str, word: &str) -> (b: bool)
    ensures
        b == contains_word(text@, word@),
{
    let t = chars_of(text);
    let w = chars_of(word);
    if w.len() > t.len() {
        return false;
    }
    let last: usize = t.len() - w.len();
    let mut at: usize = 0;
    loop
        invariant
            last == t.len() - w.len(),
            w.len() <= t.len(),
            at <= last,
            t@ == text@,
            w@ == word@,
            forall|i: int| 0 <= i < at ==> !occurs_at(text@, word@, i),
        decreases last - at,
    {
        if matches_at(&t, &w, at) {
            return true;
        }
        if at == last {
            return false;
        }
        at += 1;
    }
}

} // verus!
