//! The Qwertz layout in both shapes.
use vstd::prelude::*;

use crate::layout::{AnsiKeyboardLayout, Finger, IsoKeyboardLayout, Key};

verus! {

/// Qwertz in the ISO shape.
#[verifier::rlimit(100)]
pub fn iso() -> (r: IsoKeyboardLayout)
    ensures
        r.row0@ == seq![
            Key::Char('Q', Finger::Pinky),
            Key::Char('W', Finger::Ring),
            Key::Char('E', Finger::Middle),
            Key::Char('R', Finger::Index),
            Key::Char('T', Finger::Index),
            Key::Char('Z', Finger::Index),
            Key::Char('U', Finger::Index),
            Key::Char('I', Finger::Middle),
            Key::Char('O', Finger::Ring),
            Key::Char('P', Finger::Pinky),
            Key::Absent,
            Key::Absent,
        ],
        r.row1@ == seq![
            Key::Char('A', Finger::Pinky),
            Key::Char('S', Finger::Ring),
            Key::Char('D', Finger::Middle),
            Key::Char('F', Finger::Index),
            Key::Char('G', Finger::Index),
            Key::Char('H', Finger::Index),
            Key::Char('J', Finger::Index),
            Key::Char('K', Finger::Middle),
            Key::Char('L', Finger::Ring),
            Key::Absent,
            Key::Absent,
            Key::Absent,
        ],
        r.row2@ == seq![
            Key::Absent,
            Key::Char('Y', Finger::Pinky),
            Key::Char('X', Finger::Ring),
            Key::Char('C', Finger::Middle),
            Key::Char('V', Finger::Index),
            Key::Char('B', Finger::Index),
            Key::Char('N', Finger::Index),
            Key::Char('M', Finger::Index),
            Key::Absent,
            Key::Absent,
            Key::Absent,
        ],
        crate::mapper::fold_distinct(crate::mapper::iso_keys(r)),
{
    let r = IsoKeyboardLayout {
        row0: [
            Key::Char('Q', Finger::Pinky),
            Key::Char('W', Finger::Ring),
            Key::Char('E', Finger::Middle),
            Key::Char('R', Finger::Index),
            Key::Char('T', Finger::Index),
            Key::Char('Z', Finger::Index),
            Key::Char('U', Finger::Index),
            Key::Char('I', Finger::Middle),
            Key::Char('O', Finger::Ring),
            Key::Char('P', Finger::Pinky),
            Key::Absent,
            Key::Absent,
        ],
        row1: [
            Key::Char('A', Finger::Pinky),
            Key::Char('S', Finger::Ring),
            Key::Char('D', Finger::Middle),
            Key::Char('F', Finger::Index),
            Key::Char('G', Finger::Index),
            Key::Char('H', Finger::Index),
            Key::Char('J', Finger::Index),
            Key::Char('K', Finger::Middle),
            Key::Char('L', Finger::Ring),
            Key::Absent,
            Key::Absent,
            Key::Absent,
        ],
        row2: [
            Key::Absent,
            Key::Char('Y', Finger::Pinky),
            Key::Char('X', Finger::Ring),
            Key::Char('C', Finger::Middle),
            Key::Char('V', Finger::Index),
            Key::Char('B', Finger::Index),
            Key::Char('N', Finger::Index),
            Key::Char('M', Finger::Index),
            Key::Absent,
            Key::Absent,
            Key::Absent,
        ],
    };
    proof {
        assert(r.row0@ =~= seq![
            Key::Char('Q', Finger::Pinky),
            Key::Char('W', Finger::Ring),
            Key::Char('E', Finger::Middle),
            Key::Char('R', Finger::Index),
            Key::Char('T', Finger::Index),
            Key::Char('Z', Finger::Index),
            Key::Char('U', Finger::Index),
            Key::Char('I', Finger::Middle),
            Key::Char('O', Finger::Ring),
            Key::Char('P', Finger::Pinky),
            Key::Absent,
            Key::Absent,
        ]);
        assert(r.row1@ =~= seq![
            Key::Char('A', Finger::Pinky),
            Key::Char('S', Finger::Ring),
            Key::Char('D', Finger::Middle),
            Key::Char('F', Finger::Index),
            Key::Char('G', Finger::Index),
            Key::Char('H', Finger::Index),
            Key::Char('J', Finger::Index),
            Key::Char('K', Finger::Middle),
            Key::Char('L', Finger::Ring),
            Key::Absent,
            Key::Absent,
            Key::Absent,
        ]);
        assert(r.row2@ =~= seq![
            Key::Absent,
            Key::Char('Y', Finger::Pinky),
            Key::Char('X', Finger::Ring),
            Key::Char('C', Finger::Middle),
            Key::Char('V', Finger::Index),
            Key::Char('B', Finger::Index),
            Key::Char('N', Finger::Index),
            Key::Char('M', Finger::Index),
            Key::Absent,
            Key::Absent,
            Key::Absent,
        ]);
        reveal_with_fuel(crate::mapper::fold_distinct_rec, 40);
        reveal_with_fuel(crate::mapper::clashes_none, 40);
        assert(crate::mapper::fold_distinct_rec(crate::mapper::iso_keys(r)));
        crate::mapper::lemma_fold_distinct_rec(crate::mapper::iso_keys(r));
    }
    r
}

/// Qwertz in the ANSI shape.
#[verifier::rlimit(100)]
pub fn ansi() -> (r: AnsiKeyboardLayout)
    ensures
        r.row0@ == seq![
            Key::Char('Q', Finger::Pinky),
            Key::Char('W', Finger::Ring),
            Key::Char('E', Finger::Middle),
            Key::Char('R', Finger::Index),
            Key::Char('T', Finger::Index),
            Key::Char('Z', Finger::Index),
            Key::Char('U', Finger::Index),
            Key::Char('I', Finger::Middle),
            Key::Char('O', Finger::Ring),
            Key::Char('P', Finger::Pinky),
            Key::Absent,
            Key::Absent,
            Key::Absent,
        ],
        r.row1@ == seq![
            Key::Char('A', Finger::Pinky),
            Key::Char('S', Finger::Ring),
            Key::Char('D', Finger::Middle),
            Key::Char('F', Finger::Index),
            Key::Char('G', Finger::Index),
            Key::Char('H', Finger::Index),
            Key::Char('J', Finger::Index),
            Key::Char('K', Finger::Middle),
            Key::Char('L', Finger::Ring),
            Key::Absent,
            Key::Absent,
        ],
        r.row2@ == seq![
            Key::Char('Y', Finger::Pinky),
            Key::Char('X', Finger::Ring),
            Key::Char('C', Finger::Middle),
            Key::Char('V', Finger::Index),
            Key::Char('B', Finger::Index),
            Key::Char('N', Finger::Index),
            Key::Char('M', Finger::Index),
            Key::Absent,
            Key::Absent,
            Key::Absent,
        ],
        crate::mapper::fold_distinct(crate::mapper::ansi_keys(r)),
{
    let r = AnsiKeyboardLayout {
        row0: [
            Key::Char('Q', Finger::Pinky),
            Key::Char('W', Finger::Ring),
            Key::Char('E', Finger::Middle),
            Key::Char('R', Finger::Index),
            Key::Char('T', Finger::Index),
            Key::Char('Z', Finger::Index),
            Key::Char('U', Finger::Index),
            Key::Char('I', Finger::Middle),
            Key::Char('O', Finger::Ring),
            Key::Char('P', Finger::Pinky),
            Key::Absent,
            Key::Absent,
            Key::Absent,
        ],
        row1: [
            Key::Char('A', Finger::Pinky),
            Key::Char('S', Finger::Ring),
            Key::Char('D', Finger::Middle),
            Key::Char('F', Finger::Index),
            Key::Char('G', Finger::Index),
            Key::Char('H', Finger::Index),
            Key::Char('J', Finger::Index),
            Key::Char('K', Finger::Middle),
            Key::Char('L', Finger::Ring),
            Key::Absent,
            Key::Absent,
        ],
        row2: [
            Key::Char('Y', Finger::Pinky),
            Key::Char('X', Finger::Ring),
            Key::Char('C', Finger::Middle),
            Key::Char('V', Finger::Index),
            Key::Char('B', Finger::Index),
            Key::Char('N', Finger::Index),
            Key::Char('M', Finger::Index),
            Key::Absent,
            Key::Absent,
            Key::Absent,
        ],
    };
    proof {
        assert(r.row0@ =~= seq![
            Key::Char('Q', Finger::Pinky),
            Key::Char('W', Finger::Ring),
            Key::Char('E', Finger::Middle),
            Key::Char('R', Finger::Index),
            Key::Char('T', Finger::Index),
            Key::Char('Z', Finger::Index),
            Key::Char('U', Finger::Index),
            Key::Char('I', Finger::Middle),
            Key::Char('O', Finger::Ring),
            Key::Char('P', Finger::Pinky),
            Key::Absent,
            Key::Absent,
            Key::Absent,
        ]);
        assert(r.row1@ =~= seq![
            Key::Char('A', Finger::Pinky),
            Key::Char('S', Finger::Ring),
            Key::Char('D', Finger::Middle),
            Key::Char('F', Finger::Index),
            Key::Char('G', Finger::Index),
            Key::Char('H', Finger::Index),
            Key::Char('J', Finger::Index),
            Key::Char('K', Finger::Middle),
            Key::Char('L', Finger::Ring),
            Key::Absent,
            Key::Absent,
        ]);
        assert(r.row2@ =~= seq![
            Key::Char('Y', Finger::Pinky),
            Key::Char('X', Finger::Ring),
            Key::Char('C', Finger::Middle),
            Key::Char('V', Finger::Index),
            Key::Char('B', Finger::Index),
            Key::Char('N', Finger::Index),
            Key::Char('M', Finger::Index),
            Key::Absent,
            Key::Absent,
            Key::Absent,
        ]);
        reveal_with_fuel(crate::mapper::fold_distinct_rec, 40);
        reveal_with_fuel(crate::mapper::clashes_none, 40);
        assert(crate::mapper::fold_distinct_rec(crate::mapper::ansi_keys(r)));
        crate::mapper::lemma_fold_distinct_rec(crate::mapper::ansi_keys(r));
    }
    r
}

} // verus!
