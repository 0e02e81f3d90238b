//! The layout mapper: a translation table from source-layout characters to
//! target-layout keys, built position by position from a same-shape layout
//! pair. Typed characters arrive lowercase, while layouts carry their display
//! characters, so the table is keyed by the folded source character.
use vstd::prelude::*;

use crate::chars::lower_char;
use crate::layout::{
    AnsiKeyboardLayout, AnyKeyboardLayout, Finger, IsoKeyboardLayout, Key, KeyboardLayouts,
};

verus! {

/// Error of building a mapper from two layouts of different shapes.
#[derive(Clone, Copy, Debug, PartialEq, Eq, Structural)]
pub struct ShapeMismatch;

/// The table that a list of (folded source character, target key) entries
/// denotes; a later entry for the same character wins.
pub open spec fn map_of_entries(s: Seq<(char, Key)>) -> Map<char, Key>
    decreases s.len(),
{
    if s.len() == 0 {
        Map::empty()
    } else {
        map_of_entries(s.drop_last()).insert(s.last().0, s.last().1)
    }
}

/// `m` extended with one aligned row pair: every position whose source key is
/// a character adds an entry from its folded character to the target key at
/// the same position; absent source positions are skipped.
pub open spec fn row_mapped(m: Map<char, Key>, src: Seq<Key>, tgt: Seq<Key>) -> Map<char, Key>
    decreases src.len(),
{
    if src.len() == 0 || src.len() != tgt.len() {
        m
    } else {
        let prev = row_mapped(m, src.drop_last(), tgt.drop_last());
        match src.last() {
            Key::Char(c, _) => prev.insert(lower_char(c), tgt.last()),
            Key::Absent => prev,
        }
    }
}

/// The translation table of an ISO layout pair.
pub open spec fn iso_mapper(source: IsoKeyboardLayout, target: IsoKeyboardLayout) -> Map<
    char,
    Key,
> {
    row_mapped(
        row_mapped(row_mapped(Map::empty(), source.row0@, target.row0@), source.row1@, target.row1@),
        source.row2@,
        target.row2@,
    )
}

/// The translation table of an ANSI layout pair.
pub open spec fn ansi_mapper(source: AnsiKeyboardLayout, target: AnsiKeyboardLayout) -> Map<
    char,
    Key,
> {
    row_mapped(
        row_mapped(row_mapped(Map::empty(), source.row0@, target.row0@), source.row1@, target.row1@),
        source.row2@,
        target.row2@,
    )
}

/// The translation table of a layout pair of either shape.
pub open spec fn layouts_mapper(layouts: KeyboardLayouts) -> Map<char, Key> {
    match layouts {
        KeyboardLayouts::Iso { source, target } => iso_mapper(source, target),
        KeyboardLayouts::Ansi { source, target } => ansi_mapper(source, target),
    }
}

/// Translates source-layout characters into target-layout keys.
pub struct LayoutMapper {
    pub entries: Vec<(char, Key)>,
}

impl View for LayoutMapper {
    type V = Map<char, Key>;

    open spec fn view(&self) -> Map<char, Key> {
        map_of_entries(self.entries@)
    }
}

fn map_row<const N: usize>(source: &[Key; N], target: &[Key; N], entries: &mut Vec<(char, Key)>)
    ensures
        map_of_entries(final(entries)@) == row_mapped(
            map_of_entries(old(entries)@),
            source@,
            target@,
        ),
{
    let ghost m0 = map_of_entries(old(entries)@);
    let mut i: usize = 0;
    while i < N
        invariant
            i <= N,
            map_of_entries(entries@) == row_mapped(m0, source@.take(i as int), target@.take(i as int)),
        decreases N - i,
    {
        let ghost pre = entries@;
        proof {
            broadcast use vstd::array::group_array_axioms;

            assert(source@.take(i + 1).drop_last() =~= source@.take(i as int));
            assert(target@.take(i + 1).drop_last() =~= target@.take(i as int));
            assert(source@.take(i + 1).last() == source@[i as int]);
            assert(target@.take(i + 1).last() == target@[i as int]);
        }
        match source[i] {
            Key::Char(c, _) => {
                let lc = crate::chars::to_lower(c);
                let t = target[i];
                entries.push((lc, t));
                proof {
                    assert(entries@.drop_last() =~= pre);
                    assert(map_of_entries(entries@) == map_of_entries(pre).insert(lc, t));
                }
            },
            Key::Absent => {},
        }
        i += 1;
        proof {
            assert(map_of_entries(entries@) == row_mapped(
                m0,
                source@.take(i as int),
                target@.take(i as int),
            ));
        }
    }
    proof {
        broadcast use vstd::array::group_array_axioms;

        assert(source@.take(N as int) =~= source@);
        assert(target@.take(N as int) =~= target@);
    }
}

impl LayoutMapper {
    /// Builds the translation table of an ISO layout pair.
    pub fn from_iso(source: &IsoKeyboardLayout, target: &IsoKeyboardLayout) -> (r: Self)
        ensures
            r@ == iso_mapper(*source, *target),
    {
        let mut entries: Vec<(char, Key)> = Vec::new();
        map_row(&source.row0, &target.row0, &mut entries);
        map_row(&source.row1, &target.row1, &mut entries);
        map_row(&source.row2, &target.row2, &mut entries);
        LayoutMapper { entries }
    }

    /// Builds the translation table of an ANSI layout pair.
    pub fn from_ansi(source: &AnsiKeyboardLayout, target: &AnsiKeyboardLayout) -> (r: Self)
        ensures
            r@ == ansi_mapper(*source, *target),
    {
        let mut entries: Vec<(char, Key)> = Vec::new();
        map_row(&source.row0, &target.row0, &mut entries);
        map_row(&source.row1, &target.row1, &mut entries);
        map_row(&source.row2, &target.row2, &mut entries);
        LayoutMapper { entries }
    }

    /// Builds the translation table of a session's layout pair.
    pub fn from(layouts: &KeyboardLayouts) -> (r: Self)
        ensures
            r@ == layouts_mapper(*layouts),
    {
        match layouts {
            KeyboardLayouts::Iso { source, target } => Self::from_iso(source, target),
            KeyboardLayouts::Ansi { source, target } => Self::from_ansi(source, target),
        }
    }

    /// Builds the translation table of two layouts of either shape. The
    /// layouts must have the same shape; a mixed pair is rejected.
    pub fn build(source: &AnyKeyboardLayout, target: &AnyKeyboardLayout) -> (r: Result<
        Self,
        ShapeMismatch,
    >)
        ensures
            (match (*source, *target) {
                (AnyKeyboardLayout::Iso(s), AnyKeyboardLayout::Iso(t)) => match r {
                    Ok(m) => m@ == iso_mapper(s, t),
                    Err(_) => false,
                },
                (AnyKeyboardLayout::Ansi(s), AnyKeyboardLayout::Ansi(t)) => match r {
                    Ok(m) => m@ == ansi_mapper(s, t),
                    Err(_) => false,
                },
                _ => r == Err::<LayoutMapper, ShapeMismatch>(ShapeMismatch),
            }),
    {
        match (source, target) {
            (AnyKeyboardLayout::Iso(s), AnyKeyboardLayout::Iso(t)) => Ok(Self::from_iso(s, t)),
            (AnyKeyboardLayout::Ansi(s), AnyKeyboardLayout::Ansi(t)) => Ok(Self::from_ansi(s, t)),
            _ => Err(ShapeMismatch),
        }
    }

    /// Translates one typed character: the target key recorded for its folded
    /// form, or nothing when the table has no entry for it.
    pub fn map(&self, c: char) -> (r: Option<Key>)
        ensures
            (if self@.dom().contains(lower_char(c)) {
                r == Some(self@[lower_char(c)])
            } else {
                r == Option::<Key>::None
            }),
    {
        let key = crate::chars::to_lower(c);
        let mut i: usize = self.entries.len();
        proof {
            assert(self.entries@.take(self.entries@.len() as int) =~= self.entries@);
        }
        while i > 0
            invariant
                i <= self.entries@.len(),
                key == lower_char(c),
                map_of_entries(self.entries@).get(key) == map_of_entries(
                    self.entries@.take(i as int),
                ).get(key),
            decreases i,
        {
            i -= 1;
            let e = self.entries[i];
            proof {
                assert(self.entries@.take(i + 1).drop_last() =~= self.entries@.take(i as int));
                assert(self.entries@.take(i + 1).last() == self.entries@[i as int]);
            }
            if e.0 == key {
                proof {
                    assert(map_of_entries(self.entries@.take(i + 1)).get(key) == Some(e.1));
                    assert(map_of_entries(self.entries@).get(key) == Some(e.1));
                }
                return Some(e.1);
            }
        }
        proof {
            assert(self.entries@.take(0) =~= Seq::<(char, Key)>::empty());
        }
        None
    }
}

/// Whether the key is a character whose folded form is `ch`.
pub open spec fn key_folds_to(k: Key, ch: char) -> bool {
    match k {
        Key::Char(c, _) => lower_char(c) == ch,
        Key::Absent => false,
    }
}

/// Whether some position of the row holds a character folding to `ch`.
pub open spec fn row_has_folded(row: Seq<Key>, ch: char) -> bool {
    exists|i: int| 0 <= i < row.len() && key_folds_to(row[i], ch)
}

proof fn lemma_row_has_folded_step(src: Seq<Key>, ch: char)
    requires
        src.len() > 0,
    ensures
        row_has_folded(src, ch) <==> (row_has_folded(src.drop_last(), ch) || key_folds_to(
            src.last(),
            ch,
        )),
{
    if row_has_folded(src.drop_last(), ch) {
        let i = choose|i: int|
            0 <= i < src.drop_last().len() && key_folds_to(src.drop_last()[i], ch);
        assert(src.drop_last()[i] == src[i]);
        assert(row_has_folded(src, ch));
    }
    if key_folds_to(src.last(), ch) {
        assert(key_folds_to(src[src.len() - 1], ch));
        assert(row_has_folded(src, ch));
    }
    if row_has_folded(src, ch) && !key_folds_to(src.last(), ch) {
        let i = choose|i: int| 0 <= i < src.len() && key_folds_to(src[i], ch);
        assert(i < src.len() - 1);
        assert(src.drop_last()[i] == src[i]);
        assert(row_has_folded(src.drop_last(), ch));
    }
}

proof fn lemma_row_mapped_dom(m: Map<char, Key>, src: Seq<Key>, tgt: Seq<Key>, ch: char)
    requires
        src.len() == tgt.len(),
    ensures
        row_mapped(m, src, tgt).dom().contains(ch) <==> (m.dom().contains(ch) || row_has_folded(
            src,
            ch,
        )),
    decreases src.len(),
{
    if src.len() == 0 {
        assert(!row_has_folded(src, ch));
    } else {
        lemma_row_mapped_dom(m, src.drop_last(), tgt.drop_last(), ch);
        lemma_row_has_folded_step(src, ch);
    }
}

/// Whether two keys both carry characters with the same folded form.
pub open spec fn keys_fold_clash(a: Key, b: Key) -> bool {
    match (a, b) {
        (Key::Char(c1, _), Key::Char(c2, _)) => lower_char(c1) == lower_char(c2),
        _ => false,
    }
}

/// No two distinct positions of the sequence carry characters with the same
/// folded form. Real layouts satisfy this: each letter appears once.
pub open spec fn fold_distinct(keys: Seq<Key>) -> bool {
    forall|i: int, j: int|
        0 <= i < j < keys.len() ==> !keys_fold_clash(#[trigger] keys[i], #[trigger] keys[j])
}

/// All keys of an ISO layout, row by row.
pub open spec fn iso_keys(l: IsoKeyboardLayout) -> Seq<Key> {
    l.row0@ + l.row1@ + l.row2@
}

/// All keys of an ANSI layout, row by row.
pub open spec fn ansi_keys(l: AnsiKeyboardLayout) -> Seq<Key> {
    l.row0@ + l.row1@ + l.row2@
}

/// Whether `k` clashes with no key of the sequence, written recursively so
/// that it can be evaluated by unfolding on the concrete layouts.
pub open spec fn clashes_none(keys: Seq<Key>, k: Key) -> bool
    decreases keys.len(),
{
    if keys.len() == 0 {
        true
    } else {
        !keys_fold_clash(keys.last(), k) && clashes_none(keys.drop_last(), k)
    }
}

/// `fold_distinct`, written recursively so that it can be evaluated by
/// unfolding on the concrete layouts.
pub open spec fn fold_distinct_rec(keys: Seq<Key>) -> bool
    decreases keys.len(),
{
    if keys.len() == 0 {
        true
    } else {
        clashes_none(keys.drop_last(), keys.last()) && fold_distinct_rec(keys.drop_last())
    }
}

proof fn lemma_clashes_none(keys: Seq<Key>, k: Key)
    requires
        clashes_none(keys, k),
    ensures
        forall|i: int| 0 <= i < keys.len() ==> !keys_fold_clash(#[trigger] keys[i], k),
    decreases keys.len(),
{
    if keys.len() > 0 {
        lemma_clashes_none(keys.drop_last(), k);
        assert forall|i: int| 0 <= i < keys.len() implies !keys_fold_clash(
            #[trigger] keys[i],
            k,
        ) by {
            if i < keys.len() - 1 {
                assert(keys.drop_last()[i] == keys[i]);
            }
        }
    }
}

/// The recursive and the quantified forms of fold-distinctness agree.
pub proof fn lemma_fold_distinct_rec(keys: Seq<Key>)
    requires
        fold_distinct_rec(keys),
    ensures
        fold_distinct(keys),
    decreases keys.len(),
{
    if keys.len() > 0 {
        lemma_fold_distinct_rec(keys.drop_last());
        lemma_clashes_none(keys.drop_last(), keys.last());
        assert forall|i: int, j: int|
            0 <= i < j < keys.len() implies !keys_fold_clash(
            #[trigger] keys[i],
            #[trigger] keys[j],
        ) by {
            assert(keys.drop_last()[i] == keys[i]);
            if j < keys.len() - 1 {
                assert(keys.drop_last()[j] == keys[j]);
            } else {
                assert(keys[j] == keys.last());
            }
        }
    }
}

proof fn lemma_fold_unique(keys: Seq<Key>, i: int, j: int, ch: char)
    requires
        fold_distinct(keys),
        0 <= i < keys.len(),
        0 <= j < keys.len(),
        key_folds_to(keys[i], ch),
        key_folds_to(keys[j], ch),
    ensures
        i == j,
{
    if i < j {
        assert(keys_fold_clash(keys[i], keys[j]));
    }
    if j < i {
        assert(keys_fold_clash(keys[j], keys[i]));
    }
}

proof fn lemma_row_mapped_identity(m: Map<char, Key>, src: Seq<Key>, ch: char)
    ensures
        row_has_folded(src, ch) ==> (row_mapped(m, src, src).dom().contains(ch) && exists|i: int|
            0 <= i < src.len() && key_folds_to(src[i], ch) && row_mapped(m, src, src)[ch] == src[i]),
        !row_has_folded(src, ch) ==> row_mapped(m, src, src).get(ch) == m.get(ch),
    decreases src.len(),
{
    if src.len() > 0 {
        lemma_row_mapped_identity(m, src.drop_last(), ch);
        lemma_row_has_folded_step(src, ch);
        let dl = src.drop_last();
        let prev = row_mapped(m, dl, dl);
        let cur = row_mapped(m, src, src);
        match src.last() {
            Key::Char(c, _) => {
                if lower_char(c) == ch {
                    assert(key_folds_to(src[src.len() - 1], ch));
                    assert(cur[ch] == src[src.len() - 1]);
                } else {
                    assert(cur.get(ch) == prev.get(ch));
                    if row_has_folded(src, ch) {
                        let i = choose|i: int|
                            0 <= i < dl.len() && key_folds_to(dl[i], ch) && row_mapped(
                                m,
                                dl,
                                dl,
                            )[ch] == dl[i];
                        assert(src[i] == dl[i]);
                        assert(cur[ch] == src[i]);
                    }
                }
            },
            Key::Absent => {
                if row_has_folded(src, ch) {
                    let i = choose|i: int|
                        0 <= i < dl.len() && key_folds_to(dl[i], ch) && row_mapped(m, dl, dl)[ch]
                            == dl[i];
                    assert(src[i] == dl[i]);
                    assert(cur[ch] == src[i]);
                }
            },
        }
    }
}

proof fn lemma_rows_identity(a: Seq<Key>, b: Seq<Key>, c2: Seq<Key>, c: char, f: Finger)
    requires
        fold_distinct(a + b + c2),
        (a + b + c2).contains(Key::Char(c, f)),
    ensures
        row_mapped(row_mapped(row_mapped(Map::empty(), a, a), b, b), c2, c2).dom().contains(
            lower_char(c),
        ),
        row_mapped(row_mapped(row_mapped(Map::empty(), a, a), b, b), c2, c2)[lower_char(c)]
            == Key::Char(c, f),
{
    let ch = lower_char(c);
    let keys = a + b + c2;
    let p = choose|p: int| 0 <= p < keys.len() && keys[p] == Key::Char(c, f);
    assert(key_folds_to(keys[p], ch));
    let m1 = row_mapped(Map::empty(), a, a);
    let m2 = row_mapped(m1, b, b);
    let m3 = row_mapped(m2, c2, c2);
    lemma_row_mapped_identity(Map::empty(), a, ch);
    lemma_row_mapped_identity(m1, b, ch);
    lemma_row_mapped_identity(m2, c2, ch);
    if p < a.len() {
        assert(a[p] == keys[p]);
        assert(row_has_folded(a, ch));
    } else if p < a.len() + b.len() {
        assert(b[p - a.len()] == keys[p]);
        assert(row_has_folded(b, ch));
    } else {
        assert(c2[p - a.len() - b.len()] == keys[p]);
        assert(row_has_folded(c2, ch));
    }
    if row_has_folded(c2, ch) {
        let i = choose|i: int|
            0 <= i < c2.len() && key_folds_to(c2[i], ch) && row_mapped(m2, c2, c2)[ch] == c2[i];
        assert(keys[a.len() + b.len() + i] == c2[i]);
        lemma_fold_unique(keys, a.len() + b.len() + i, p, ch);
        assert(m3[ch] == Key::Char(c, f));
    } else if row_has_folded(b, ch) {
        let i = choose|i: int|
            0 <= i < b.len() && key_folds_to(b[i], ch) && row_mapped(m1, b, b)[ch] == b[i];
        assert(keys[a.len() + i] == b[i]);
        lemma_fold_unique(keys, a.len() + i, p, ch);
        assert(m3.get(ch) == m2.get(ch));
        assert(m2[ch] == Key::Char(c, f));
        assert(m2.dom().contains(ch));
    } else {
        assert(row_has_folded(a, ch));
        let i = choose|i: int|
            0 <= i < a.len() && key_folds_to(a[i], ch) && row_mapped(Map::empty(), a, a)[ch]
                == a[i];
        assert(keys[i] == a[i]);
        lemma_fold_unique(keys, i, p, ch);
        assert(m3.get(ch) == m2.get(ch));
        assert(m2.get(ch) == m1.get(ch));
        assert(m1[ch] == Key::Char(c, f));
        assert(m1.dom().contains(ch));
    }
}

/// Mapping an ISO layout to itself is the identity on the layout's
/// characters: the table sends each character's folded form back to that
/// character's own key.
pub proof fn lemma_identity_mapper_iso(l: IsoKeyboardLayout, c: char, f: Finger)
    requires
        fold_distinct(iso_keys(l)),
        iso_keys(l).contains(Key::Char(c, f)),
    ensures
        iso_mapper(l, l).dom().contains(lower_char(c)),
        iso_mapper(l, l)[lower_char(c)] == Key::Char(c, f),
{
    lemma_rows_identity(l.row0@, l.row1@, l.row2@, c, f);
}

/// Mapping an ANSI layout to itself is the identity on the layout's
/// characters: the table sends each character's folded form back to that
/// character's own key.
pub proof fn lemma_identity_mapper_ansi(l: AnsiKeyboardLayout, c: char, f: Finger)
    requires
        fold_distinct(ansi_keys(l)),
        ansi_keys(l).contains(Key::Char(c, f)),
    ensures
        ansi_mapper(l, l).dom().contains(lower_char(c)),
        ansi_mapper(l, l)[lower_char(c)] == Key::Char(c, f),
{
    lemma_rows_identity(l.row0@, l.row1@, l.row2@, c, f);
}

/// Which characters the translation table is defined for: exactly those whose
/// folded form appears, folded, at a non-absent source position of the pair.
pub proof fn lemma_mapper_defined(layouts: KeyboardLayouts, c: char)
    ensures
        layouts_mapper(layouts).dom().contains(lower_char(c)) <==> (match layouts {
            KeyboardLayouts::Iso { source, target: _ } => row_has_folded(
                source.row0@,
                lower_char(c),
            ) || row_has_folded(source.row1@, lower_char(c)) || row_has_folded(
                source.row2@,
                lower_char(c),
            ),
            KeyboardLayouts::Ansi { source, target: _ } => row_has_folded(
                source.row0@,
                lower_char(c),
            ) || row_has_folded(source.row1@, lower_char(c)) || row_has_folded(
                source.row2@,
                lower_char(c),
            ),
        }),
{
    let ch = lower_char(c);
    match layouts {
        KeyboardLayouts::Iso { source, target } => {
            let m1 = row_mapped(Map::empty(), source.row0@, target.row0@);
            let m2 = row_mapped(m1, source.row1@, target.row1@);
            lemma_row_mapped_dom(Map::empty(), source.row0@, target.row0@, ch);
            lemma_row_mapped_dom(m1, source.row1@, target.row1@, ch);
            lemma_row_mapped_dom(m2, source.row2@, target.row2@, ch);
            assert(!Map::<char, Key>::empty().dom().contains(ch));
        },
        KeyboardLayouts::Ansi { source, target } => {
            let m1 = row_mapped(Map::empty(), source.row0@, target.row0@);
            let m2 = row_mapped(m1, source.row1@, target.row1@);
            lemma_row_mapped_dom(Map::empty(), source.row0@, target.row0@, ch);
            lemma_row_mapped_dom(m1, source.row1@, target.row1@, ch);
            lemma_row_mapped_dom(m2, source.row2@, target.row2@, ch);
            assert(!Map::<char, Key>::empty().dom().contains(ch));
        },
    }
}

} // verus!
