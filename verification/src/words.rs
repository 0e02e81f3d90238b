//! The word bank: filters a word corpus down to the words that a given
//! allowed-letter set can spell, and draws random practice words from the
//! filtered list.
use vstd::prelude::*;

use crate::chars::lower_char;

verus! {

/// Whether every character of the word, folded to lowercase, belongs to the
/// allowed-letter set.
pub open spec fn word_allowed(w: Seq<char>, allowed: Set<char>) -> bool {
    forall|i: int| 0 <= i < w.len() ==> allowed.contains(lower_char(#[trigger] w[i]))
}

/// The words of the corpus that the allowed-letter set can spell, in corpus
/// order.
pub open spec fn bank_words(corpus: Seq<Seq<char>>, allowed: Set<char>) -> Seq<Seq<char>> {
    corpus.filter(|w: Seq<char>| word_allowed(w, allowed))
}

/// The word handed out when the filtered list is empty: a deliberate fixed
/// fallback that keeps a degenerate level/layout combination usable.
pub open spec fn fallback_word() -> Seq<char> {
    seq!['h', 'e', 'l', 'l', 'o']
}

/// What `next_word` may return: a word of the bank, or the fixed fallback
/// when the bank is empty.
pub open spec fn drawn_from(w: Seq<char>, bank: Seq<Seq<char>>) -> bool {
    if bank.len() == 0 {
        w == fallback_word()
    } else {
        bank.contains(w)
    }
}

/// Relies on rand: `thread_rng` yields a generator and `Rng::gen_range`
/// returns a value of the given half-open range, panicking only on an empty
/// range, which the precondition rules out. Nothing more is assumed of the
/// drawn value.
#[verifier::external_body]
fn random_below(n: usize) -> (r: usize)
    requires
        n > 0,
    ensures
        r < n,
{
    rand::Rng::gen_range(&mut rand::thread_rng(), 0..n)
}

fn clone_word(w: &Vec<char>) -> (r: Vec<char>)
    ensures
        r@ == w@,
{
    let mut r: Vec<char> = Vec::new();
    let mut i: usize = 0;
    while i < w.len()
        invariant
            i <= w@.len(),
            r@ == w@.take(i as int),
        decreases w@.len() - i,
    {
        r.push(w[i]);
        proof {
            assert(w@.take(i + 1).drop_last() =~= w@.take(i as int));
            assert(r@ =~= w@.take(i + 1));
        }
        i += 1;
    }
    proof {
        assert(w@.take(w@.len() as int) =~= w@);
    }
    r
}

/// The filtered corpus of one practice session: rebuilt whenever the level or
/// the target layout changes.
pub struct WordList {
    pub words: Vec<Vec<char>>,
}

impl WordList {
    /// Whether the allowed-letter set can spell the word.
    fn is_valid(word: &Vec<char>, allowed_letters: &Vec<char>) -> (r: bool)
        ensures
            r == word_allowed(word@, allowed_letters@.to_set()),
    {
        let mut i: usize = 0;
        while i < word.len()
            invariant
                i <= word@.len(),
                forall|j: int|
                    0 <= j < i ==> allowed_letters@.to_set().contains(
                        lower_char(#[trigger] word@[j]),
                    ),
            decreases word@.len() - i,
        {
            let lc = crate::chars::to_lower(word[i]);
            if !crate::chars::contains_char(allowed_letters, lc) {
                proof {
                    assert(!allowed_letters@.to_set().contains(lower_char(word@[i as int])));
                }
                return false;
            }
            i += 1;
        }
        true
    }

    /// Filters the corpus down to the words that the allowed-letter set can
    /// spell; the filtered list is kept for the life of the bank.
    pub fn new(corpus: &Vec<Vec<char>>, allowed_letters: &Vec<char>) -> (r: Self)
        ensures
            r.words.deep_view() == bank_words(corpus.deep_view(), allowed_letters@.to_set()),
    {
        let ghost allowed = allowed_letters@.to_set();
        let ghost pred = |w: Seq<char>| word_allowed(w, allowed);
        let mut words: Vec<Vec<char>> = Vec::new();
        let mut i: usize = 0;
        while i < corpus.len()
            invariant
                i <= corpus@.len(),
                allowed == allowed_letters@.to_set(),
                pred == (|w: Seq<char>| word_allowed(w, allowed)),
                words.deep_view() == corpus.deep_view().take(i as int).filter(pred),
            decreases corpus@.len() - i,
        {
            let ghost pre = words.deep_view();
            let ghost cv = corpus.deep_view();
            let ghost el = corpus.deep_view()[i as int];
            let w = clone_word(&corpus[i]);
            proof {
                broadcast use vstd::seq::Seq::lemma_filter_push;

                assert(cv.take(i + 1) =~= cv.take(i as int).push(el));
                assert(el == corpus@[i as int]@);
                assert(w@ == el);
            }
            if Self::is_valid(&w, allowed_letters) {
                words.push(w);
                proof {
                    assert(words.deep_view() =~= pre.push(el));
                    assert(cv.take(i + 1).filter(pred) == pre.push(el));
                }
            } else {
                proof {
                    assert(cv.take(i + 1).filter(pred) == pre);
                }
            }
            i += 1;
        }
        proof {
            assert(corpus.deep_view().take(corpus@.len() as int) =~= corpus.deep_view());
        }
        WordList { words }
    }

    /// Draws a word from the filtered list at random; an empty list falls
    /// back to the fixed placeholder word.
    pub fn next_word(&self) -> (r: Vec<char>)
        ensures
            drawn_from(r@, self.words.deep_view()),
    {
        if self.words.len() == 0 {
            let w: Vec<char> = vec!['h', 'e', 'l', 'l', 'o'];
            proof {
                assert(w@ =~= fallback_word());
            }
            w
        } else {
            let i = random_below(self.words.len());
            let r = clone_word(&self.words[i]);
            proof {
                assert(self.words.deep_view()[i as int] == self.words@[i as int]@);
                assert(self.words.deep_view().contains(r@));
            }
            r
        }
    }
}

/// Every word of a bank built from an allowed-letter set consists solely of
/// characters whose folded forms the set contains.
pub proof fn lemma_bank_words_allowed(corpus: Seq<Seq<char>>, allowed: Set<char>, w: Seq<char>)
    requires
        bank_words(corpus, allowed).contains(w),
    ensures
        word_allowed(w, allowed),
{
    broadcast use vstd::seq_lib::group_filter_ensures;

    let bank = bank_words(corpus, allowed);
    let i = choose|i: int| 0 <= i < bank.len() && bank[i] == w;
    assert((|w2: Seq<char>| word_allowed(w2, allowed))(bank[i]));
}

} // verus!
