//! The Colemak-DH layout in both shapes. The ISO variant uses the angle
//! arrangement: the bottom-row letters shift one position left onto the extra
//! ISO key, which leaves the position right of V without a letter.
use vstd::prelude::*;

use crate::layout::{AnsiKeyboardLayout, Finger, IsoKeyboardLayout, Key};

verus! {

/// Colemak-DH in the ISO shape.
#[verifier::rlimit(100)]
pub fn iso() -> (r: IsoKeyboardLayout)
    ensures
        r.row0@ == seq![
            Key::Char('Q', Finger::Pinky),
            Key::Char('W', Finger::Ring),
            Key::Char('F', Finger::Middle),
            Key::Char('P', Finger::Index),
            Key::Char('B', Finger::Index),
            Key::Char('J', Finger::Index),
            Key::Char('L', Finger::Index),
            Key::Char('U', Finger::Middle),
            Key::Char('Y', Finger::Ring),
            Key::Absent,
            Key::Absent,
            Key::Absent,
        ],
        r.row1@ == seq![
            Key::Char('A', Finger::Pinky),
            Key::Char('R', Finger::Ring),
            Key::Char('S', Finger::Middle),
            Key::Char('T', Finger::Index),
            Key::Char('G', Finger::Index),
            Key::Char('M', Finger::Index),
            Key::Char('N', Finger::Index),
            Key::Char('E', Finger::Middle),
            Key::Char('I', Finger::Ring),
            Key::Char('O', Finger::Pinky),
            Key::Absent,
            Key::Absent,
        ],
        r.row2@ == seq![
            Key::Char('Z', Finger::Pinky),
            Key::Char('X', Finger::Ring),
            Key::Char('C', Finger::Middle),
            Key::Char('D', Finger::Index),
            Key::Char('V', Finger::Index),
            Key::Absent,
            Key::Char('K', Finger::Index),
            Key::Char('H', Finger::Index),
            Key::Absent,
            Key::Absent,
            Key::Absent,
        ],
        crate::mapper::fold_distinct(crate::mapper::iso_keys(r)),
{
    let r = IsoKeyboardLayout {
        row0: [
            Key::Char('Q', Finger::Pinky),
            Key::Char('W', Finger::Ring),
            Key::Char('F', Finger::Middle),
            Key::Char('P', Finger::Index),
            Key::Char('B', Finger::Index),
            Key::Char('J', Finger::Index),
            Key::Char('L', Finger::Index),
            Key::Char('U', Finger::Middle),
            Key::Char('Y', Finger::Ring),
            Key::Absent,
            Key::Absent,
            Key::Absent,
        ],
        row1: [
            Key::Char('A', Finger::Pinky),
            Key::Char('R', Finger::Ring),
            Key::Char('S', Finger::Middle),
            Key::Char('T', Finger::Index),
            Key::Char('G', Finger::Index),
            Key::Char('M', Finger::Index),
            Key::Char('N', Finger::Index),
            Key::Char('E', Finger::Middle),
            Key::Char('I', Finger::Ring),
            Key::Char('O', Finger::Pinky),
            Key::Absent,
            Key::Absent,
        ],
        row2: [
            Key::Char('Z', Finger::Pinky),
            Key::Char('X', Finger::Ring),
            Key::Char('C', Finger::Middle),
            Key::Char('D', Finger::Index),
            Key::Char('V', Finger::Index),
            Key::Absent,
            Key::Char('K', Finger::Index),
            Key::Char('H', Finger::Index),
            Key::Absent,
            Key::Absent,
            Key::Absent,
        ],
    };
    proof {
        assert(r.row0@ =~= seq![
            Key::Char('Q', Finger::Pinky),
            Key::Char('W', Finger::Ring),
            Key::Char('F', Finger::Middle),
            Key::Char('P', Finger::Index),
            Key::Char('B', Finger::Index),
            Key::Char('J', Finger::Index),
            Key::Char('L', Finger::Index),
            Key::Char('U', Finger::Middle),
            Key::Char('Y', Finger::Ring),
            Key::Absent,
            Key::Absent,
            Key::Absent,
        ]);
        assert(r.row1@ =~= seq![
            Key::Char('A', Finger::Pinky),
            Key::Char('R', Finger::Ring),
            Key::Char('S', Finger::Middle),
            Key::Char('T', Finger::Index),
            Key::Char('G', Finger::Index),
            Key::Char('M', Finger::Index),
            Key::Char('N', Finger::Index),
            Key::Char('E', Finger::Middle),
            Key::Char('I', Finger::Ring),
            Key::Char('O', Finger::Pinky),
            Key::Absent,
            Key::Absent,
        ]);
        assert(r.row2@ =~= seq![
            Key::Char('Z', Finger::Pinky),
            Key::Char('X', Finger::Ring),
            Key::Char('C', Finger::Middle),
            Key::Char('D', Finger::Index),
            Key::Char('V', Finger::Index),
            Key::Absent,
            Key::Char('K', Finger::Index),
            Key::Char('H', Finger::Index),
            Key::Absent,
            Key::Absent,
            Key::Absent,
        ]);
        reveal_with_fuel(crate::mapper::fold_distinct_rec, 40);
        reveal_with_fuel(crate::mapper::clashes_none, 40);
        assert(crate::mapper::fold_distinct_rec(crate::mapper::iso_keys(r)));
        crate::mapper::lemma_fold_distinct_rec(crate::mapper::iso_keys(r));
    }
    r
}

/// Colemak-DH in the ANSI shape.
#[verifier::rlimit(100)]
pub fn ansi() -> (r: AnsiKeyboardLayout)
    ensures
        r.row0@ == seq![
            Key::Char('Q', Finger::Pinky),
            Key::Char('W', Finger::Ring),
            Key::Char('F', Finger::Middle),
            Key::Char('P', Finger::Index),
            Key::Char('B', Finger::Index),
            Key::Char('J', Finger::Index),
            Key::Char('L', Finger::Index),
            Key::Char('U', Finger::Middle),
            Key::Char('Y', Finger::Ring),
            Key::Absent,
            Key::Absent,
            Key::Absent,
            Key::Absent,
        ],
        r.row1@ == seq![
            Key::Char('A', Finger::Pinky),
            Key::Char('R', Finger::Ring),
            Key::Char('S', Finger::Middle),
            Key::Char('T', Finger::Index),
            Key::Char('G', Finger::Index),
            Key::Char('M', Finger::Index),
            Key::Char('N', Finger::Index),
            Key::Char('E', Finger::Middle),
            Key::Char('I', Finger::Ring),
            Key::Char('O', Finger::Pinky),
            Key::Absent,
        ],
        r.row2@ == seq![
            Key::Char('Z', Finger::Pinky),
            Key::Char('X', Finger::Ring),
            Key::Char('C', Finger::Middle),
            Key::Char('D', Finger::Index),
            Key::Char('V', Finger::Index),
            Key::Char('K', Finger::Index),
            Key::Char('H', Finger::Index),
            Key::Absent,
            Key::Absent,
            Key::Absent,
        ],
        crate::mapper::fold_distinct(crate::mapper::ansi_keys(r)),
{
    let r = AnsiKeyboardLayout {
        row0: [
            Key::Char('Q', Finger::Pinky),
            Key::Char('W', Finger::Ring),
            Key::Char('F', Finger::Middle),
            Key::Char('P', Finger::Index),
            Key::Char('B', Finger::Index),
            Key::Char('J', Finger::Index),
            Key::Char('L', Finger::Index),
            Key::Char('U', Finger::Middle),
            Key::Char('Y', Finger::Ring),
            Key::Absent,
            Key::Absent,
            Key::Absent,
            Key::Absent,
        ],
        row1: [
            Key::Char('A', Finger::Pinky),
            Key::Char('R', Finger::Ring),
            Key::Char('S', Finger::Middle),
            Key::Char('T', Finger::Index),
            Key::Char('G', Finger::Index),
            Key::Char('M', Finger::Index),
            Key::Char('N', Finger::Index),
            Key::Char('E', Finger::Middle),
            Key::Char('I', Finger::Ring),
            Key::Char('O', Finger::Pinky),
            Key::Absent,
        ],
        row2: [
            Key::Char('Z', Finger::Pinky),
            Key::Char('X', Finger::Ring),
            Key::Char('C', Finger::Middle),
            Key::Char('D', Finger::Index),
            Key::Char('V', Finger::Index),
            Key::Char('K', Finger::Index),
            Key::Char('H', Finger::Index),
            Key::Absent,
            Key::Absent,
            Key::Absent,
        ],
    };
    proof {
        assert(r.row0@ =~= seq![
            Key::Char('Q', Finger::Pinky),
            Key::Char('W', Finger::Ring),
            Key::Char('F', Finger::Middle),
            Key::Char('P', Finger::Index),
            Key::Char('B', Finger::Index),
            Key::Char('J', Finger::Index),
            Key::Char('L', Finger::Index),
            Key::Char('U', Finger::Middle),
            Key::Char('Y', Finger::Ring),
            Key::Absent,
            Key::Absent,
            Key::Absent,
            Key::Absent,
        ]);
        assert(r.row1@ =~= seq![
            Key::Char('A', Finger::Pinky),
            Key::Char('R', Finger::Ring),
            Key::Char('S', Finger::Middle),
            Key::Char('T', Finger::Index),
            Key::Char('G', Finger::Index),
            Key::Char('M', Finger::Index),
            Key::Char('N', Finger::Index),
            Key::Char('E', Finger::Middle),
            Key::Char('I', Finger::Ring),
            Key::Char('O', Finger::Pinky),
            Key::Absent,
        ]);
        assert(r.row2@ =~= seq![
            Key::Char('Z', Finger::Pinky),
            Key::Char('X', Finger::Ring),
            Key::Char('C', Finger::Middle),
            Key::Char('D', Finger::Index),
            Key::Char('V', Finger::Index),
            Key::Char('K', Finger::Index),
            Key::Char('H', Finger::Index),
            Key::Absent,
            Key::Absent,
            Key::Absent,
        ]);
        reveal_with_fuel(crate::mapper::fold_distinct_rec, 40);
        reveal_with_fuel(crate::mapper::clashes_none, 40);
        assert(crate::mapper::fold_distinct_rec(crate::mapper::ansi_keys(r)));
        crate::mapper::lemma_fold_distinct_rec(crate::mapper::ansi_keys(r));
    }
    r
}

} // verus!
