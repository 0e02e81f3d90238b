//! Physical keyboard layouts: keys with their finger assignment, the ISO and
//! ANSI shapes, the source/target layout pair of a practice session, and the
//! per-level tables of unlocked key positions.
use vstd::prelude::*;

use crate::chars::lower_char;

pub mod colemak_dh;
pub mod qwerty;
pub mod qwertz;

verus! {

/// The finger that should press a key.
#[derive(Clone, Copy, Debug, PartialEq, Eq, Structural)]
pub enum Finger {
    Pinky,
    Ring,
    Middle,
    Index,
    Thumb,
}

/// One physical key position: either no character is assigned there, or a
/// character together with the finger that presses it.
#[derive(Clone, Copy, Debug, PartialEq, Eq, Structural)]
pub enum Key {
    Absent,
    Char(char, Finger),
}

/// An ISO-shaped layout: three letter rows of 12, 12 and 11 positions.
#[derive(Clone, Copy, Debug)]
pub struct IsoKeyboardLayout {
    pub row0: [Key; 12],
    pub row1: [Key; 12],
    pub row2: [Key; 11],
}

/// An ANSI-shaped layout: three letter rows of 13, 11 and 10 positions.
#[derive(Clone, Copy, Debug)]
pub struct AnsiKeyboardLayout {
    pub row0: [Key; 13],
    pub row1: [Key; 11],
    pub row2: [Key; 10],
}

/// A layout of either shape, owned.
#[derive(Clone, Copy, Debug)]
pub enum AnyKeyboardLayout {
    Iso(IsoKeyboardLayout),
    Ansi(AnsiKeyboardLayout),
}

/// The source/target layout pair of a session. The two layouts always have
/// the same shape: the variant carries both.
#[derive(Clone, Copy, Debug)]
pub enum KeyboardLayouts {
    Iso { source: IsoKeyboardLayout, target: IsoKeyboardLayout },
    Ansi { source: AnsiKeyboardLayout, target: AnsiKeyboardLayout },
}

impl KeyboardLayouts {
    /// The layout the learner is being trained on.
    pub fn target_layout(&self) -> (r: AnyKeyboardLayout)
        ensures
            r == (match *self {
                KeyboardLayouts::Iso { source: _, target } => AnyKeyboardLayout::Iso(target),
                KeyboardLayouts::Ansi { source: _, target } => AnyKeyboardLayout::Ansi(target),
            }),
    {
        match self {
            KeyboardLayouts::Iso { source: _, target } => AnyKeyboardLayout::Iso(*target),
            KeyboardLayouts::Ansi { source: _, target } => AnyKeyboardLayout::Ansi(*target),
        }
    }
}

/// Progressive difficulty tier: each level unlocks more key positions.
#[derive(Clone, Copy, Debug, PartialEq, Eq, Structural)]
pub enum Level {
    One,
    Two,
    Three,
    Four,
    Five,
    Six,
}

/// The ordinal of a level, starting at 0.
pub open spec fn level_index(level: Level) -> int {
    match level {
        Level::One => 0,
        Level::Two => 1,
        Level::Three => 2,
        Level::Four => 3,
        Level::Five => 4,
        Level::Six => 5,
    }
}

/// Unlocked positions of the top row at a level, for the ISO shape.
pub open spec fn spec_iso_row0(level: Level) -> Seq<u8> {
    match level {
        Level::One => seq![],
        Level::Two => seq![],
        Level::Three => seq![1u8, 2, 7, 8],
        Level::Four => seq![1u8, 2, 3, 6, 7, 8],
        Level::Five => seq![1u8, 2, 3, 4, 6, 7, 8],
        Level::Six => seq![0u8, 1, 2, 3, 4, 5, 6, 7, 8, 9, 10, 11],
    }
}

/// Unlocked positions of the home row at a level, for the ISO shape.
pub open spec fn spec_iso_row1(level: Level) -> Seq<u8> {
    match level {
        Level::One => seq![0u8, 1, 2, 3, 6, 7, 8, 9],
        Level::Two => seq![0u8, 1, 2, 3, 6, 7, 8, 9],
        Level::Three => seq![0u8, 1, 2, 3, 6, 7, 8, 9],
        Level::Four => seq![0u8, 1, 2, 3, 4, 5, 6, 7, 8, 9],
        Level::Five => seq![0u8, 1, 2, 3, 4, 5, 6, 7, 8, 9],
        Level::Six => seq![0u8, 1, 2, 3, 4, 5, 6, 7, 8, 9, 10, 11],
    }
}

/// Unlocked positions of the bottom row at a level, for the ISO shape.
pub open spec fn spec_iso_row2(level: Level) -> Seq<u8> {
    match level {
        Level::One => seq![],
        Level::Two => seq![3u8, 7],
        Level::Three => seq![3u8, 7],
        Level::Four => seq![3u8, 7],
        Level::Five => seq![2u8, 3, 4, 6, 7],
        Level::Six => seq![0u8, 1, 2, 3, 4, 5, 6, 7, 8, 9, 10],
    }
}

/// Unlocked positions of the top row at a level, for the ANSI shape. Below
/// the top level it matches the ISO table; the top level unlocks the full,
/// wider row.
pub open spec fn spec_ansi_row0(level: Level) -> Seq<u8> {
    match level {
        Level::Six => seq![0u8, 1, 2, 3, 4, 5, 6, 7, 8, 9, 10, 11, 12],
        _ => spec_iso_row0(level),
    }
}

/// Unlocked positions of the home row at a level, for the ANSI shape. Below
/// the top level it matches the ISO table; the top level unlocks the full,
/// narrower row.
pub open spec fn spec_ansi_row1(level: Level) -> Seq<u8> {
    match level {
        Level::Six => seq![0u8, 1, 2, 3, 4, 5, 6, 7, 8, 9, 10],
        _ => spec_iso_row1(level),
    }
}

/// Unlocked positions of the bottom row at a level, for the ANSI shape. The
/// bottom row differs from ISO because of the physical key offset between the
/// two shapes.
pub open spec fn spec_ansi_row2(level: Level) -> Seq<u8> {
    match level {
        Level::One => seq![],
        Level::Two => seq![2u8, 6],
        Level::Three => seq![2u8, 6],
        Level::Four => seq![2u8, 6],
        Level::Five => seq![1u8, 2, 3, 5, 6],
        Level::Six => seq![0u8, 1, 2, 3, 4, 5, 6, 7, 8, 9],
    }
}

/// The unlocked row positions of one shape at one level.
pub struct KeyIndices {
    pub row0: Vec<u8>,
    pub row1: Vec<u8>,
    pub row2: Vec<u8>,
}

impl KeyIndices {
    /// The unlocked positions for the ISO shape at a level.
    pub fn iso(level: Level) -> (r: Self)
        ensures
            r.row0@ == spec_iso_row0(level),
            r.row1@ == spec_iso_row1(level),
            r.row2@ == spec_iso_row2(level),
    {
        let r = match level {
            Level::One => KeyIndices {
                row0: vec![],
                row1: vec![0u8, 1, 2, 3, 6, 7, 8, 9],
                row2: vec![],
            },
            Level::Two => KeyIndices {
                row0: vec![],
                row1: vec![0u8, 1, 2, 3, 6, 7, 8, 9],
                row2: vec![3u8, 7],
            },
            Level::Three => KeyIndices {
                row0: vec![1u8, 2, 7, 8],
                row1: vec![0u8, 1, 2, 3, 6, 7, 8, 9],
                row2: vec![3u8, 7],
            },
            Level::Four => KeyIndices {
                row0: vec![1u8, 2, 3, 6, 7, 8],
                row1: vec![0u8, 1, 2, 3, 4, 5, 6, 7, 8, 9],
                row2: vec![3u8, 7],
            },
            Level::Five => KeyIndices {
                row0: vec![1u8, 2, 3, 4, 6, 7, 8],
                row1: vec![0u8, 1, 2, 3, 4, 5, 6, 7, 8, 9],
                row2: vec![2u8, 3, 4, 6, 7],
            },
            Level::Six => KeyIndices {
                row0: vec![0u8, 1, 2, 3, 4, 5, 6, 7, 8, 9, 10, 11],
                row1: vec![0u8, 1, 2, 3, 4, 5, 6, 7, 8, 9, 10, 11],
                row2: vec![0u8, 1, 2, 3, 4, 5, 6, 7, 8, 9, 10],
            },
        };
        proof {
            assert(r.row0@ =~= spec_iso_row0(level));
            assert(r.row1@ =~= spec_iso_row1(level));
            assert(r.row2@ =~= spec_iso_row2(level));
        }
        r
    }

    /// The unlocked positions for the ANSI shape at a level.
    pub fn ansi(level: Level) -> (r: Self)
        ensures
            r.row0@ == spec_ansi_row0(level),
            r.row1@ == spec_ansi_row1(level),
            r.row2@ == spec_ansi_row2(level),
    {
        let r = match level {
            Level::One => KeyIndices {
                row0: vec![],
                row1: vec![0u8, 1, 2, 3, 6, 7, 8, 9],
                row2: vec![],
            },
            Level::Two => KeyIndices {
                row0: vec![],
                row1: vec![0u8, 1, 2, 3, 6, 7, 8, 9],
                row2: vec![2u8, 6],
            },
            Level::Three => KeyIndices {
                row0: vec![1u8, 2, 7, 8],
                row1: vec![0u8, 1, 2, 3, 6, 7, 8, 9],
                row2: vec![2u8, 6],
            },
            Level::Four => KeyIndices {
                row0: vec![1u8, 2, 3, 6, 7, 8],
                row1: vec![0u8, 1, 2, 3, 4, 5, 6, 7, 8, 9],
                row2: vec![2u8, 6],
            },
            Level::Five => KeyIndices {
                row0: vec![1u8, 2, 3, 4, 6, 7, 8],
                row1: vec![0u8, 1, 2, 3, 4, 5, 6, 7, 8, 9],
                row2: vec![1u8, 2, 3, 5, 6],
            },
            Level::Six => KeyIndices {
                row0: vec![0u8, 1, 2, 3, 4, 5, 6, 7, 8, 9, 10, 11, 12],
                row1: vec![0u8, 1, 2, 3, 4, 5, 6, 7, 8, 9, 10],
                row2: vec![0u8, 1, 2, 3, 4, 5, 6, 7, 8, 9],
            },
        };
        proof {
            assert(r.row0@ =~= spec_ansi_row0(level));
            assert(r.row1@ =~= spec_ansi_row1(level));
            assert(r.row2@ =~= spec_ansi_row2(level));
        }
        r
    }

    /// How many positions are unlocked in total.
    pub fn size(&self) -> (r: usize)
        requires
            self.row0@.len() + self.row1@.len() + self.row2@.len() <= usize::MAX,
        ensures
            r == self.row0@.len() + self.row1@.len() + self.row2@.len(),
    {
        self.row0.len() + self.row1.len() + self.row2.len()
    }
}

/// A sequence without repeated elements.
pub open spec fn nodup(s: Seq<char>) -> bool {
    forall|i: int, j: int| 0 <= i < j < s.len() ==> s[i] != s[j]
}

/// The lowercased characters found at the listed positions of a row.
/// Positions holding `Key::Absent` contribute nothing.
pub open spec fn row_letters(row: Seq<Key>, idxs: Seq<u8>) -> Set<char>
    decreases idxs.len(),
{
    if idxs.len() == 0 {
        Set::empty()
    } else {
        let rest = row_letters(row, idxs.drop_last());
        if (idxs.last() as int) < row.len() {
            match row[idxs.last() as int] {
                Key::Char(c, _) => rest.insert(lower_char(c)),
                Key::Absent => rest,
            }
        } else {
            rest
        }
    }
}

/// The lowercase letters of the target layout at the positions a level
/// unlocks: the set of letters available for practice words.
pub open spec fn allowed_letters(layouts: KeyboardLayouts, level: Level) -> Set<char> {
    match layouts {
        KeyboardLayouts::Iso { source: _, target } => row_letters(
            target.row0@,
            spec_iso_row0(level),
        ).union(row_letters(target.row1@, spec_iso_row1(level))).union(
            row_letters(target.row2@, spec_iso_row2(level)),
        ),
        KeyboardLayouts::Ansi { source: _, target } => row_letters(
            target.row0@,
            spec_ansi_row0(level),
        ).union(row_letters(target.row1@, spec_ansi_row1(level))).union(
            row_letters(target.row2@, spec_ansi_row2(level)),
        ),
    }
}

fn collect_row_letters<const N: usize>(row: &[Key; N], idxs: &Vec<u8>, letters: &mut Vec<char>)
    requires
        forall|i: int| 0 <= i < idxs@.len() ==> (idxs@[i] as int) < N,
        nodup(old(letters)@),
    ensures
        nodup(final(letters)@),
        forall|c: char|
            final(letters)@.contains(c) <==> (old(letters)@.contains(c) || row_letters(
                row@,
                idxs@,
            ).contains(c)),
{
    let ghost letters0 = letters@;
    let mut k: usize = 0;
    while k < idxs.len()
        invariant
            k <= idxs@.len(),
            forall|i: int| 0 <= i < idxs@.len() ==> (idxs@[i] as int) < N,
            nodup(letters@),
            forall|c: char|
                letters@.contains(c) <==> (letters0.contains(c) || row_letters(
                    row@,
                    idxs@.take(k as int),
                ).contains(c)),
        decreases idxs@.len() - k,
    {
        let ghost pre = letters@;
        let ghost cur = row_letters(row@, idxs@.take(k + 1));
        let ghost prev = row_letters(row@, idxs@.take(k as int));
        proof {
            broadcast use vstd::array::group_array_axioms;

            assert(idxs@.take(k + 1).drop_last() =~= idxs@.take(k as int));
            assert(idxs@.take(k + 1).last() == idxs@[k as int]);
            assert(row@.len() == N as int);
        }
        let i = idxs[k] as usize;
        match row[i] {
            Key::Char(c, _) => {
                let lc = crate::chars::to_lower(c);
                proof {
                    assert(cur == prev.insert(lc));
                }
                if !crate::chars::contains_char(letters, lc) {
                    letters.push(lc);
                    proof {
                        broadcast use vstd::seq_lib::lemma_seq_contains_after_push;

                        assert forall|c2: char|
                            letters@.contains(c2) <==> (letters0.contains(c2) || cur.contains(
                                c2,
                            )) by {
                            assert(pre.contains(c2) <==> (letters0.contains(c2) || prev.contains(
                                c2,
                            )));
                            assert(letters@.contains(c2) <==> (pre.contains(c2) || c2 == lc));
                            assert(cur.contains(c2) <==> (prev.contains(c2) || c2 == lc));
                        }
                    }
                } else {
                    proof {
                        assert forall|c2: char|
                            letters@.contains(c2) <==> (letters0.contains(c2) || cur.contains(
                                c2,
                            )) by {
                            assert(pre.contains(c2) <==> (letters0.contains(c2) || prev.contains(
                                c2,
                            )));
                            assert(cur.contains(c2) <==> (prev.contains(c2) || c2 == lc));
                        }
                    }
                }
            },
            Key::Absent => {
                proof {
                    assert(cur == prev);
                    assert forall|c2: char|
                        letters@.contains(c2) <==> (letters0.contains(c2) || cur.contains(
                            c2,
                        )) by {
                        assert(letters@.contains(c2) <==> (letters0.contains(c2) || prev.contains(
                            c2,
                        )));
                    }
                }
            },
        }
        k += 1;
        proof {
            assert(row_letters(row@, idxs@.take(k as int)) == cur);
            assert forall|c2: char|
                letters@.contains(c2) <==> (letters0.contains(c2) || row_letters(
                    row@,
                    idxs@.take(k as int),
                ).contains(c2)) by {
                assert(letters@.contains(c2) <==> (letters0.contains(c2) || cur.contains(c2)));
            }
        }
    }
    proof {
        assert(idxs@.take(idxs@.len() as int) =~= idxs@);
    }
}

impl KeyboardLayouts {
    /// The letters the learner may practice at a level: the lowercased
    /// characters of the target layout at the unlocked positions, without
    /// duplicates.
    pub fn allowed_target_letters(&self, level: Level) -> (r: Vec<char>)
        ensures
            nodup(r@),
            forall|c: char| r@.contains(c) <==> allowed_letters(*self, level).contains(c),
    {
        let mut letters: Vec<char> = Vec::new();
        proof {
            lemma_level_indices_bounds(level);
        }
        match self {
            KeyboardLayouts::Iso { source: _, target } => {
                let idx = KeyIndices::iso(level);
                collect_row_letters(&target.row0, &idx.row0, &mut letters);
                collect_row_letters(&target.row1, &idx.row1, &mut letters);
                collect_row_letters(&target.row2, &idx.row2, &mut letters);
            },
            KeyboardLayouts::Ansi { source: _, target } => {
                let idx = KeyIndices::ansi(level);
                collect_row_letters(&target.row0, &idx.row0, &mut letters);
                collect_row_letters(&target.row1, &idx.row1, &mut letters);
                collect_row_letters(&target.row2, &idx.row2, &mut letters);
            },
        }
        letters
    }
}

/// Whether every element of `s` is below `bound`, written recursively so that
/// it can be evaluated by unfolding on the concrete level tables.
pub open spec fn seq_all_below(s: Seq<u8>, bound: u8) -> bool
    decreases s.len(),
{
    if s.len() == 0 {
        true
    } else {
        s.last() < bound && seq_all_below(s.drop_last(), bound)
    }
}

proof fn lemma_seq_all_below(s: Seq<u8>, bound: u8)
    requires
        seq_all_below(s, bound),
    ensures
        forall|i: int| 0 <= i < s.len() ==> s[i] < bound,
    decreases s.len(),
{
    if s.len() > 0 {
        lemma_seq_all_below(s.drop_last(), bound);
        assert forall|i: int| 0 <= i < s.len() implies s[i] < bound by {
            if i < s.len() - 1 {
                assert(s.drop_last()[i] == s[i]);
            }
        }
    }
}

/// Every unlocked position of every level table fits its row: below the row
/// lengths 12/12/11 for ISO and 13/11/10 for ANSI.
pub proof fn lemma_level_indices_bounds(level: Level)
    ensures
        forall|i: int| 0 <= i < spec_iso_row0(level).len() ==> spec_iso_row0(level)[i] < 12,
        forall|i: int| 0 <= i < spec_iso_row1(level).len() ==> spec_iso_row1(level)[i] < 12,
        forall|i: int| 0 <= i < spec_iso_row2(level).len() ==> spec_iso_row2(level)[i] < 11,
        forall|i: int| 0 <= i < spec_ansi_row0(level).len() ==> spec_ansi_row0(level)[i] < 13,
        forall|i: int| 0 <= i < spec_ansi_row1(level).len() ==> spec_ansi_row1(level)[i] < 11,
        forall|i: int| 0 <= i < spec_ansi_row2(level).len() ==> spec_ansi_row2(level)[i] < 10,
{
    reveal_with_fuel(seq_all_below, 15);
    match level {
        Level::One => {
            assert(seq_all_below(spec_iso_row0(Level::One), 12));
            assert(seq_all_below(spec_iso_row1(Level::One), 12));
            assert(seq_all_below(spec_iso_row2(Level::One), 11));
            assert(seq_all_below(spec_ansi_row0(Level::One), 13));
            assert(seq_all_below(spec_ansi_row1(Level::One), 11));
            assert(seq_all_below(spec_ansi_row2(Level::One), 10));
        },
        Level::Two => {
            assert(seq_all_below(spec_iso_row0(Level::Two), 12));
            assert(seq_all_below(spec_iso_row1(Level::Two), 12));
            assert(seq_all_below(spec_iso_row2(Level::Two), 11));
            assert(seq_all_below(spec_ansi_row0(Level::Two), 13));
            assert(seq_all_below(spec_ansi_row1(Level::Two), 11));
            assert(seq_all_below(spec_ansi_row2(Level::Two), 10));
        },
        Level::Three => {
            assert(seq_all_below(spec_iso_row0(Level::Three), 12));
            assert(seq_all_below(spec_iso_row1(Level::Three), 12));
            assert(seq_all_below(spec_iso_row2(Level::Three), 11));
            assert(seq_all_below(spec_ansi_row0(Level::Three), 13));
            assert(seq_all_below(spec_ansi_row1(Level::Three), 11));
            assert(seq_all_below(spec_ansi_row2(Level::Three), 10));
        },
        Level::Four => {
            assert(seq_all_below(spec_iso_row0(Level::Four), 12));
            assert(seq_all_below(spec_iso_row1(Level::Four), 12));
            assert(seq_all_below(spec_iso_row2(Level::Four), 11));
            assert(seq_all_below(spec_ansi_row0(Level::Four), 13));
            assert(seq_all_below(spec_ansi_row1(Level::Four), 11));
            assert(seq_all_below(spec_ansi_row2(Level::Four), 10));
        },
        Level::Five => {
            assert(seq_all_below(spec_iso_row0(Level::Five), 12));
            assert(seq_all_below(spec_iso_row1(Level::Five), 12));
            assert(seq_all_below(spec_iso_row2(Level::Five), 11));
            assert(seq_all_below(spec_ansi_row0(Level::Five), 13));
            assert(seq_all_below(spec_ansi_row1(Level::Five), 11));
            assert(seq_all_below(spec_ansi_row2(Level::Five), 10));
        },
        Level::Six => {
            assert(seq_all_below(spec_iso_row0(Level::Six), 12));
            assert(seq_all_below(spec_iso_row1(Level::Six), 12));
            assert(seq_all_below(spec_iso_row2(Level::Six), 11));
            assert(seq_all_below(spec_ansi_row0(Level::Six), 13));
            assert(seq_all_below(spec_ansi_row1(Level::Six), 11));
            assert(seq_all_below(spec_ansi_row2(Level::Six), 10));
        },
    }
    lemma_seq_all_below(spec_iso_row0(level), 12);
    lemma_seq_all_below(spec_iso_row1(level), 12);
    lemma_seq_all_below(spec_iso_row2(level), 11);
    lemma_seq_all_below(spec_ansi_row0(level), 13);
    lemma_seq_all_below(spec_ansi_row1(level), 11);
    lemma_seq_all_below(spec_ansi_row2(level), 10);
}

/// Whether `x` occurs in `s`, written as a recursive boolean so that it can
/// be evaluated by computation on the concrete level tables.
pub open spec fn seq_has(s: Seq<u8>, x: u8) -> bool
    decreases s.len(),
{
    if s.len() == 0 {
        false
    } else {
        s.last() == x || seq_has(s.drop_last(), x)
    }
}

/// Whether every element of `a` occurs in `b`, written recursively so that it
/// can be evaluated by computation on the concrete level tables.
pub open spec fn seq_within(a: Seq<u8>, b: Seq<u8>) -> bool
    decreases a.len(),
{
    if a.len() == 0 {
        true
    } else {
        seq_has(b, a.last()) && seq_within(a.drop_last(), b)
    }
}

proof fn lemma_seq_has_contains(s: Seq<u8>, x: u8)
    ensures
        seq_has(s, x) <==> s.contains(x),
    decreases s.len(),
{
    if s.len() > 0 {
        lemma_seq_has_contains(s.drop_last(), x);
        if s.last() == x {
            assert(s[s.len() - 1] == x);
        } else if s.drop_last().contains(x) {
            let i = choose|i: int| 0 <= i < s.drop_last().len() && s.drop_last()[i] == x;
            assert(s[i] == x);
        } else if s.contains(x) {
            let i = choose|i: int| 0 <= i < s.len() && s[i] == x;
            if i < s.len() - 1 {
                assert(s.drop_last()[i] == x);
            }
        }
    }
}

proof fn lemma_seq_within_subset(a: Seq<u8>, b: Seq<u8>)
    requires
        seq_within(a, b),
    ensures
        forall|x: u8| a.contains(x) ==> b.contains(x),
    decreases a.len(),
{
    if a.len() > 0 {
        lemma_seq_within_subset(a.drop_last(), b);
        lemma_seq_has_contains(b, a.last());
        assert forall|x: u8| a.contains(x) implies b.contains(x) by {
            let i = choose|i: int| 0 <= i < a.len() && a[i] == x;
            if i < a.len() - 1 {
                assert(a.drop_last()[i] == x);
            }
        }
    }
}

/// Every position that a level unlocks stays unlocked at the next level, for
/// both the ISO and the ANSI tables.
pub proof fn lemma_unlocked_positions_monotonic(a: Level, b: Level)
    requires
        level_index(a) + 1 == level_index(b),
    ensures
        forall|x: u8| spec_iso_row0(a).contains(x) ==> spec_iso_row0(b).contains(x),
        forall|x: u8| spec_iso_row1(a).contains(x) ==> spec_iso_row1(b).contains(x),
        forall|x: u8| spec_iso_row2(a).contains(x) ==> spec_iso_row2(b).contains(x),
        forall|x: u8| spec_ansi_row0(a).contains(x) ==> spec_ansi_row0(b).contains(x),
        forall|x: u8| spec_ansi_row1(a).contains(x) ==> spec_ansi_row1(b).contains(x),
        forall|x: u8| spec_ansi_row2(a).contains(x) ==> spec_ansi_row2(b).contains(x),
{
    reveal_with_fuel(seq_within, 15);
    reveal_with_fuel(seq_has, 15);
    match a {
        Level::One => {
            assert(seq_within(spec_iso_row0(Level::One), spec_iso_row0(Level::Two)));
            assert(seq_within(spec_iso_row1(Level::One), spec_iso_row1(Level::Two)));
            assert(seq_within(spec_iso_row2(Level::One), spec_iso_row2(Level::Two)));
            assert(seq_within(spec_ansi_row0(Level::One), spec_ansi_row0(Level::Two)));
            assert(seq_within(spec_ansi_row1(Level::One), spec_ansi_row1(Level::Two)));
            assert(seq_within(spec_ansi_row2(Level::One), spec_ansi_row2(Level::Two)));
        },
        Level::Two => {
            assert(seq_within(spec_iso_row0(Level::Two), spec_iso_row0(Level::Three)));
            assert(seq_within(spec_iso_row1(Level::Two), spec_iso_row1(Level::Three)));
            assert(seq_within(spec_iso_row2(Level::Two), spec_iso_row2(Level::Three)));
            assert(seq_within(spec_ansi_row0(Level::Two), spec_ansi_row0(Level::Three)));
            assert(seq_within(spec_ansi_row1(Level::Two), spec_ansi_row1(Level::Three)));
            assert(seq_within(spec_ansi_row2(Level::Two), spec_ansi_row2(Level::Three)));
        },
        Level::Three => {
            assert(seq_within(spec_iso_row0(Level::Three), spec_iso_row0(Level::Four)));
            assert(seq_within(spec_iso_row1(Level::Three), spec_iso_row1(Level::Four)));
            assert(seq_within(spec_iso_row2(Level::Three), spec_iso_row2(Level::Four)));
            assert(seq_within(spec_ansi_row0(Level::Three), spec_ansi_row0(Level::Four)));
            assert(seq_within(spec_ansi_row1(Level::Three), spec_ansi_row1(Level::Four)));
            assert(seq_within(spec_ansi_row2(Level::Three), spec_ansi_row2(Level::Four)));
        },
        Level::Four => {
            assert(seq_within(spec_iso_row0(Level::Four), spec_iso_row0(Level::Five)));
            assert(seq_within(spec_iso_row1(Level::Four), spec_iso_row1(Level::Five)));
            assert(seq_within(spec_iso_row2(Level::Four), spec_iso_row2(Level::Five)));
            assert(seq_within(spec_ansi_row0(Level::Four), spec_ansi_row0(Level::Five)));
            assert(seq_within(spec_ansi_row1(Level::Four), spec_ansi_row1(Level::Five)));
            assert(seq_within(spec_ansi_row2(Level::Four), spec_ansi_row2(Level::Five)));
        },
        Level::Five => {
            assert(seq_within(spec_iso_row0(Level::Five), spec_iso_row0(Level::Six)));
            assert(seq_within(spec_iso_row1(Level::Five), spec_iso_row1(Level::Six)));
            assert(seq_within(spec_iso_row2(Level::Five), spec_iso_row2(Level::Six)));
            assert(seq_within(spec_ansi_row0(Level::Five), spec_ansi_row0(Level::Six)));
            assert(seq_within(spec_ansi_row1(Level::Five), spec_ansi_row1(Level::Six)));
            assert(seq_within(spec_ansi_row2(Level::Five), spec_ansi_row2(Level::Six)));
        },
        Level::Six => {
            assert(false);
        },
    }
    lemma_seq_within_subset(spec_iso_row0(a), spec_iso_row0(b));
    lemma_seq_within_subset(spec_iso_row1(a), spec_iso_row1(b));
    lemma_seq_within_subset(spec_iso_row2(a), spec_iso_row2(b));
    lemma_seq_within_subset(spec_ansi_row0(a), spec_ansi_row0(b));
    lemma_seq_within_subset(spec_ansi_row1(a), spec_ansi_row1(b));
    lemma_seq_within_subset(spec_ansi_row2(a), spec_ansi_row2(b));
}

/// The top level unlocks every position of every row, in both shapes.
pub proof fn lemma_level_six_unlocks_all()
    ensures
        forall|x: u8| x < 12 ==> spec_iso_row0(Level::Six).contains(x),
        forall|x: u8| x < 12 ==> spec_iso_row1(Level::Six).contains(x),
        forall|x: u8| x < 11 ==> spec_iso_row2(Level::Six).contains(x),
        forall|x: u8| x < 13 ==> spec_ansi_row0(Level::Six).contains(x),
        forall|x: u8| x < 11 ==> spec_ansi_row1(Level::Six).contains(x),
        forall|x: u8| x < 10 ==> spec_ansi_row2(Level::Six).contains(x),
{
    assert forall|x: u8| x < 12 implies spec_iso_row0(Level::Six).contains(x) by {
        assert(spec_iso_row0(Level::Six)[x as int] == x);
    }
    assert forall|x: u8| x < 12 implies spec_iso_row1(Level::Six).contains(x) by {
        assert(spec_iso_row1(Level::Six)[x as int] == x);
    }
    assert forall|x: u8| x < 11 implies spec_iso_row2(Level::Six).contains(x) by {
        assert(spec_iso_row2(Level::Six)[x as int] == x);
    }
    assert forall|x: u8| x < 13 implies spec_ansi_row0(Level::Six).contains(x) by {
        assert(spec_ansi_row0(Level::Six)[x as int] == x);
    }
    assert forall|x: u8| x < 11 implies spec_ansi_row1(Level::Six).contains(x) by {
        assert(spec_ansi_row1(Level::Six)[x as int] == x);
    }
    assert forall|x: u8| x < 10 implies spec_ansi_row2(Level::Six).contains(x) by {
        assert(spec_ansi_row2(Level::Six)[x as int] == x);
    }
}

} // verus!
