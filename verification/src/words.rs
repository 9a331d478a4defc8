//! The dictionary: an ordered, immutable list of 2048 distinct words, whose
//! positions are the 11-bit codes the codec works with.

use vstd::prelude::*;
use crate::error::Ip3Error;

verus! {

/// The word `w` stands somewhere in the dictionary `wl`.
pub open spec fn contains_word(wl: Seq<Seq<char>>, w: Seq<char>) -> bool {
    exists|i: int| 0 <= i < wl.len() && wl[i] == w
}

/// The position of `w` in `wl`; meaningful only when `contains_word` holds
/// (and unambiguous only when the entries are distinct).
pub open spec fn word_position(wl: Seq<Seq<char>>, w: Seq<char>) -> int {
    choose|i: int| 0 <= i < wl.len() && wl[i] == w
}

/// A well-formed dictionary: exactly 2048 entries, none empty, no repeats.
pub open spec fn wordlist_wf(wl: Seq<Seq<char>>) -> bool {
    &&& wl.len() == 2048
    &&& forall|i: int| 0 <= i < wl.len() ==> wl[i].len() > 0
    &&& forall|i: int, j: int| 0 <= i < wl.len() && 0 <= j < wl.len() && i != j ==> wl[i] != wl[j]
}

/// The fixed lookup table of the codec. Built once, never changed; its
/// invariant is `wordlist_wf` of the entries' views.
pub struct Wordlist {
    words: Vec<String>,
}

impl View for Wordlist {
    type V = Seq<Seq<char>>;

    closed spec fn view(&self) -> Seq<Seq<char>> {
        self.words.deep_view()
    }
}

impl Wordlist {
    /// The dictionary invariant, phrased on the view.
    pub open spec fn wf(&self) -> bool {
        wordlist_wf(self@)
    }

    /// Checks the shape of a candidate list and wraps it: `Some` exactly
    /// when there are 2048 entries, all non-empty and pairwise distinct.
    pub fn new(words: Vec<String>) -> (r: Option<Wordlist>)
        ensures
            r is Some <==> wordlist_wf(words.deep_view()),
            r matches Some(wl) ==> wl@ == words.deep_view() && wl.wf(),
    {
        let n = words.len();
        if n != 2048 {
            return None;
        }
        let mut i: usize = 0;
        while i < n
            invariant
                n == words@.len() == 2048,
                i <= n,
                forall|k: int| 0 <= k < i ==> words.deep_view()[k].len() > 0,
            decreases n - i,
        {
            if words[i].as_str().is_empty() {
                assert(words.deep_view()[i as int].len() == 0);
                return None;
            }
            i += 1;
        }
        let mut p: usize = 0;
        while p < n
            invariant
                n == words@.len() == 2048,
                p <= n,
                forall|k: int| 0 <= k < n ==> words.deep_view()[k].len() > 0,
                forall|k: int, l: int|
                    0 <= k < p && k < l < n ==> words.deep_view()[k] != words.deep_view()[l],
            decreases n - p,
        {
            let mut q: usize = p + 1;
            while q < n
                invariant
                    n == words@.len() == 2048,
                    p < q <= n,
                    forall|k: int, l: int|
                        0 <= k < p && k < l < n ==> words.deep_view()[k] != words.deep_view()[l],
                    forall|l: int| p < l < q ==> words.deep_view()[p as int] != words.deep_view()[l],
                decreases n - q,
            {
                if words[p] == words[q] {
                    assert(words.deep_view()[p as int] == words.deep_view()[q as int]);
                    return None;
                }
                q += 1;
            }
            p += 1;
        }
        let wl = Wordlist { words };
        assert forall|i: int, j: int|
            0 <= i < wl@.len() && 0 <= j < wl@.len() && i != j implies wl@[i] != wl@[j] by {
            if i < j {
                assert(wl@[i] != wl@[j]);
            } else {
                assert(wl@[j] != wl@[i]);
            }
        }
        Some(wl)
    }

    /// The entry at a position; position is the word's code.
    pub fn word_at(&self, i: usize) -> (w: &String)
        requires
            i < self@.len(),
        ensures
            w@ == self@[i as int],
    {
        &self.words[i]
    }
}

/// Whether a word is a member of the dictionary.
pub fn in_word_list(wl: &Wordlist, word: &str) -> (b: bool)
    ensures
        b == contains_word(wl@, word@),
{
    let w: String = word.to_owned();
    let n = wl.words.len();
    let mut i: usize = 0;
    while i < n
        invariant
            n == wl@.len(),
            w@ == word@,
            i <= n,
            forall|k: int| 0 <= k < i ==> wl@[k] != word@,
        decreases n - i,
    {
        if wl.words[i] == w {
            assert(wl@[i as int] == word@);
            return true;
        }
        i += 1;
    }
    false
}

/// The code of a word: its zero-based position in the dictionary, or
/// `WordNotFound` carrying the word when it is absent.
pub fn word_to_bytes(wl: &Wordlist, word: &str) -> (r: Result<usize, Ip3Error>)
    requires
        wl.wf(),
    ensures
        r is Ok <==> contains_word(wl@, word@),
        r matches Ok(i) ==> 0 <= i < 2048 && wl@[i as int] == word@ && i == word_position(
            wl@,
            word@,
        ),
        r matches Err(e) ==> (e matches Ip3Error::WordNotFound(w) && w@ == word@),
{
    let w: String = word.to_owned();
    let n = wl.words.len();
    let mut i: usize = 0;
    while i < n
        invariant
            n == wl@.len() == 2048,
            wl.wf(),
            w@ == word@,
            i <= n,
            forall|k: int| 0 <= k < i ==> wl@[k] != word@,
        decreases n - i,
    {
        if wl.words[i] == w {
            assert(wl@[i as int] == word@);
            proof {
                lemma_contains_position(wl@, word@);
                assert(word_position(wl@, word@) == i) by {
                    let j = word_position(wl@, word@);
                    if j != i {
                        assert(wl@[j] != wl@[i as int]);
                    }
                }
            }
            return Ok(i);
        }
        i += 1;
    }
    Err(Ip3Error::WordNotFound(w))
}

/// Membership and position agree: a word is in the dictionary exactly when
/// `word_position` names an entry holding that word.
pub proof fn lemma_contains_position(wl: Seq<Seq<char>>, w: Seq<char>)
    ensures
        contains_word(wl, w) <==> (0 <= word_position(wl, w) < wl.len() && wl[word_position(
            wl,
            w,
        )] == w),
{
    if contains_word(wl, w) {
        let i = word_position(wl, w);
        assert(0 <= i < wl.len() && wl[i] == w);
    }
}

/// In a well-formed dictionary every entry's position is its own index.
pub proof fn lemma_position_of_entry(wl: Seq<Seq<char>>, k: int)
    requires
        wordlist_wf(wl),
        0 <= k < wl.len(),
    ensures
        contains_word(wl, wl[k]),
        word_position(wl, wl[k]) == k,
{
    assert(0 <= k < wl.len() && wl[k] == wl[k]);
    assert(contains_word(wl, wl[k]));
    let i = word_position(wl, wl[k]);
    assert(0 <= i < wl.len() && wl[i] == wl[k]);
    if i != k {
        assert(wl[i] != wl[k]);
    }
}

} // verus!
