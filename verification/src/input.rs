//! The input tracker: the expected word, the characters the user has typed,
//! and the classified per-position diff between the two, coalesced into
//! maximal runs for display.
use vstd::prelude::*;

verus! {

/// Correctness class of one position of the typed attempt.
#[derive(Clone, Copy, Debug, PartialEq, Eq, Structural)]
pub enum LetterType {
    Valid,
    Invalid,
    Placeholder,
}

/// A maximal range of adjacent positions sharing one class.
#[derive(Debug)]
pub struct Run {
    pub text: Vec<char>,
    pub class: LetterType,
}

/// How many positions the classified diff covers: the longer of the two
/// texts.
pub open spec fn diff_len(exp: Seq<char>, ent: Seq<char>) -> int {
    if exp.len() >= ent.len() {
        exp.len() as int
    } else {
        ent.len() as int
    }
}

/// The character shown at one position: the typed character while the
/// attempt reaches the position, the expected character past its end.
pub open spec fn diff_char(exp: Seq<char>, ent: Seq<char>, i: int) -> char {
    if i < ent.len() {
        ent[i]
    } else {
        exp[i]
    }
}

/// The class of one position: equal characters are valid, differing or extra
/// trailing characters invalid, untyped remainder a placeholder.
pub open spec fn diff_class(exp: Seq<char>, ent: Seq<char>, i: int) -> LetterType {
    if i < ent.len() && i < exp.len() {
        if ent[i] == exp[i] {
            LetterType::Valid
        } else {
            LetterType::Invalid
        }
    } else if i < ent.len() {
        LetterType::Invalid
    } else {
        LetterType::Placeholder
    }
}

/// The classified diff, position by position.
pub open spec fn diff_pairs(exp: Seq<char>, ent: Seq<char>) -> Seq<(char, LetterType)> {
    Seq::new(
        diff_len(exp, ent) as nat,
        |i: int| (diff_char(exp, ent, i), diff_class(exp, ent, i)),
    )
}

/// The positions of one class over a text.
pub open spec fn pairs_of(text: Seq<char>, class: LetterType) -> Seq<(char, LetterType)> {
    text.map_values(|c: char| (c, class))
}

/// The positions a run covers.
pub open spec fn run_pairs(r: Run) -> Seq<(char, LetterType)> {
    pairs_of(r.text@, r.class)
}

/// All positions of a run sequence, in order.
pub open spec fn flat_runs(runs: Seq<Run>) -> Seq<(char, LetterType)>
    decreases runs.len(),
{
    if runs.len() == 0 {
        Seq::empty()
    } else {
        flat_runs(runs.drop_last()) + run_pairs(runs.last())
    }
}

/// Holds the expected word and the user's typed attempt.
pub struct WordInput {
    pub expected: Vec<char>,
    pub entered: Vec<char>,
}

impl WordInput {
    /// A fresh attempt at the given expected word.
    pub fn new(expected: Vec<char>) -> (r: Self)
        ensures
            r.expected@ == expected@,
            r.entered@ == Seq::<char>::empty(),
    {
        WordInput { expected, entered: Vec::new() }
    }

    /// Appends one typed character.
    pub fn push(&mut self, letter: char)
        ensures
            final(self).expected@ == old(self).expected@,
            final(self).entered@ == old(self).entered@.push(letter),
    {
        self.entered.push(letter);
    }

    /// Removes the last typed character; typing nothing yet leaves the
    /// attempt unchanged.
    pub fn pop(&mut self)
        ensures
            final(self).expected@ == old(self).expected@,
            final(self).entered@ == (if old(self).entered@.len() == 0 {
                old(self).entered@
            } else {
                old(self).entered@.drop_last()
            }),
    {
        if self.entered.len() > 0 {
            self.entered.pop();
        }
    }

    /// Whether the attempt matches the expected word exactly.
    pub fn is_correct(&self) -> (r: bool)
        ensures
            r == (self.expected@ == self.entered@),
    {
        if self.expected.len() != self.entered.len() {
            proof {
                assert(self.expected@ != self.entered@);
            }
            return false;
        }
        let mut i: usize = 0;
        while i < self.expected.len()
            invariant
                i <= self.expected@.len(),
                self.expected@.len() == self.entered@.len(),
                forall|j: int| 0 <= j < i ==> self.expected@[j] == self.entered@[j],
            decreases self.expected@.len() - i,
        {
            if self.expected[i] != self.entered[i] {
                proof {
                    assert(self.expected@ != self.entered@);
                }
                return false;
            }
            i += 1;
        }
        proof {
            assert(self.expected@ =~= self.entered@);
        }
        true
    }

    /// The per-position classified diff of the attempt against the expected
    /// word.
    fn diff_positions(&self) -> (r: Vec<(char, LetterType)>)
        ensures
            r@ == diff_pairs(self.expected@, self.entered@),
    {
        let ghost exp = self.expected@;
        let ghost ent = self.entered@;
        let n: usize = if self.expected.len() >= self.entered.len() {
            self.expected.len()
        } else {
            self.entered.len()
        };
        let mut r: Vec<(char, LetterType)> = Vec::new();
        let mut i: usize = 0;
        while i < n
            invariant
                i <= n,
                n == diff_len(exp, ent),
                exp == self.expected@,
                ent == self.entered@,
                r@ == diff_pairs(exp, ent).take(i as int),
            decreases n - i,
        {
            let ch: char;
            let c: LetterType;
            if i < self.entered.len() && i < self.expected.len() {
                ch = self.entered[i];
                c = if self.entered[i] == self.expected[i] {
                    LetterType::Valid
                } else {
                    LetterType::Invalid
                };
            } else if i < self.entered.len() {
                ch = self.entered[i];
                c = LetterType::Invalid;
            } else {
                ch = self.expected[i];
                c = LetterType::Placeholder;
            }
            r.push((ch, c));
            i += 1;
            proof {
                assert(r@ =~= diff_pairs(exp, ent).take(i as int));
            }
        }
        proof {
            assert(diff_pairs(exp, ent).take(n as int) =~= diff_pairs(exp, ent));
        }
        r
    }

    /// The classified diff of the attempt against the expected word,
    /// coalesced into maximal runs: concatenated in order, the runs cover
    /// every position exactly once; every run is non-empty; adjacent runs
    /// differ in class.
    pub fn classify(&self) -> (r: Vec<Run>)
        ensures
            flat_runs(r@) == diff_pairs(self.expected@, self.entered@),
            forall|j: int| 0 <= j < r@.len() ==> (#[trigger] r@[j]).text@.len() > 0,
            forall|j: int, k: int|
                0 <= j && k == j + 1 && k < r@.len() ==> (#[trigger] r@[j]).class != (
                #[trigger] r@[k]).class,
    {
        let positions = self.diff_positions();
        coalesce(&positions)
    }
}

/// Groups adjacent positions of one class into runs: concatenated in order,
/// the runs reproduce the positions exactly; every run is non-empty; adjacent
/// runs differ in class.
#[verifier::rlimit(100)]
fn coalesce(positions: &Vec<(char, LetterType)>) -> (r: Vec<Run>)
    ensures
        flat_runs(r@) == positions@,
        forall|j: int| 0 <= j < r@.len() ==> (#[trigger] r@[j]).text@.len() > 0,
        forall|j: int, k: int|
            0 <= j && k == j + 1 && k < r@.len() ==> (#[trigger] r@[j]).class != (
            #[trigger] r@[k]).class,
{
    let ghost pv = positions@;
    let mut runs: Vec<Run> = Vec::new();
    let mut buf: Vec<char> = Vec::new();
    let mut cls = LetterType::Valid;
    let mut i: usize = 0;
    while i < positions.len()
        invariant
            i <= pv.len(),
            pv == positions@,
            flat_runs(runs@) + pairs_of(buf@, cls) == pv.take(i as int),
            buf@.len() == 0 ==> (i == 0 && runs@.len() == 0),
            runs@.len() > 0 && buf@.len() > 0 ==> runs@[runs@.len() - 1].class != cls,
            forall|j: int| 0 <= j < runs@.len() ==> (#[trigger] runs@[j]).text@.len() > 0,
            forall|j: int, k: int|
                0 <= j && k == j + 1 && k < runs@.len() ==> (#[trigger] runs@[j]).class != (
                #[trigger] runs@[k]).class,
        decreases pv.len() - i,
    {
        let (ch, c) = positions[i];
        if buf.len() > 0 && c != cls {
            let ghost runs0 = runs@;
            let done = Run { text: buf, class: cls };
            let ghost doneg = done;
            runs.push(done);
            buf = Vec::new();
            proof {
                lemma_flat_push(runs0, doneg);
                assert(pairs_of(buf@, c) =~= Seq::<(char, LetterType)>::empty());
                assert(flat_runs(runs@) + pairs_of(buf@, c) =~= pv.take(i as int));
                let len0 = runs0.len() as int;
                assert forall|j: int, k: int|
                    0 <= j && k == j + 1 && k < runs@.len() implies (#[trigger] runs@[j]).class
                    != (#[trigger] runs@[k]).class by {
                    if k < len0 {
                        assert(runs@[j] == runs0[j]);
                        assert(runs@[k] == runs0[k]);
                    } else {
                        assert(runs@[k] == doneg);
                        assert(runs@[j] == runs0[len0 - 1]);
                    }
                }
            }
            cls = c;
        } else if buf.len() == 0 {
            cls = c;
        }
        let ghost buf1 = buf@;
        let ghost runs1 = runs@;
        buf.push(ch);
        i += 1;
        proof {
            lemma_pairs_of_push(buf1, cls, ch);
            assert(flat_runs(runs1) + pairs_of(buf1, cls) == pv.take(i - 1));
            assert(flat_runs(runs@) + pairs_of(buf@, cls) =~= (flat_runs(runs1) + pairs_of(
                buf1,
                cls,
            )).push((ch, cls)));
            assert(pv.take(i as int) =~= pv.take(i - 1).push(pv[i - 1]));
        }
    }
    if buf.len() > 0 {
        let ghost runs0 = runs@;
        let done = Run { text: buf, class: cls };
        let ghost doneg = done;
        runs.push(done);
        proof {
            lemma_flat_push(runs0, doneg);
            assert(flat_runs(runs@) =~= pv.take(pv.len() as int));
            let len0 = runs0.len() as int;
            assert forall|j: int, k: int|
                0 <= j && k == j + 1 && k < runs@.len() implies (#[trigger] runs@[j]).class != (
                #[trigger] runs@[k]).class by {
                if k < len0 {
                    assert(runs@[j] == runs0[j]);
                    assert(runs@[k] == runs0[k]);
                } else {
                    assert(runs@[k] == doneg);
                    assert(runs@[j] == runs0[len0 - 1]);
                }
            }
        }
    } else {
        proof {
            assert(flat_runs(runs@) + pairs_of(buf@, cls) =~= flat_runs(runs@));
        }
    }
    proof {
        assert(pv.take(pv.len() as int) =~= pv);
    }
    runs
}

proof fn lemma_flat_push(runs: Seq<Run>, r: Run)
    ensures
        flat_runs(runs.push(r)) == flat_runs(runs) + run_pairs(r),
{
    assert(runs.push(r).drop_last() =~= runs);
    assert(runs.push(r).last() == r);
}

proof fn lemma_pairs_of_push(text: Seq<char>, class: LetterType, ch: char)
    ensures
        pairs_of(text.push(ch), class) == pairs_of(text, class).push((ch, class)),
{
    assert(pairs_of(text.push(ch), class) =~= pairs_of(text, class).push((ch, class)));
}

/// Concatenating the classified positions reproduces the typed text followed
/// by the untyped remainder of the expected word; positions past the typed
/// text, and only they, are placeholders; the diff covers the longer of the
/// two texts.
pub proof fn lemma_diff_pairs_text(exp: Seq<char>, ent: Seq<char>)
    ensures
        diff_pairs(exp, ent).len() == diff_len(exp, ent),
        diff_pairs(exp, ent).map_values(|p: (char, LetterType)| p.0) == (if ent.len() >= exp.len() {
            ent
        } else {
            ent + exp.skip(ent.len() as int)
        }),
        forall|i: int|
            0 <= i < diff_len(exp, ent) ==> (diff_class(exp, ent, i) == LetterType::Placeholder
                <==> ent.len() <= i),
{
    if ent.len() >= exp.len() {
        assert(diff_pairs(exp, ent).map_values(|p: (char, LetterType)| p.0) =~= ent);
    } else {
        assert(diff_pairs(exp, ent).map_values(|p: (char, LetterType)| p.0) =~= ent + exp.skip(
            ent.len() as int,
        ));
    }
}

} // verus!
