//! Patterns: sparse collections of symbols on the grid.
//!
//! A pattern holds its symbols in the order in which they were last written.
//! A well-formed pattern has at most one symbol on each cell, and every edit
//! of a cell first takes away the symbol that stands there.

use vstd::prelude::*;
use crate::grid::{Position, HEIGHT, WIDTH};
use crate::symbol::{lemma_symbol_cycles, Datos};

verus! {

/// No two symbols of `s` stand on the same cell.
pub open spec fn unique_positions(s: Seq<Datos>) -> bool {
    forall|i: int, j: int| 0 <= i < j < s.len() ==> s[i].pos != s[j].pos
}

/// Every symbol of `s` stands on a cell of the grid.
pub open spec fn on_grid(s: Seq<Datos>) -> bool {
    forall|i: int| 0 <= i < s.len() ==> (#[trigger] s[i]).pos.in_grid()
}

/// The symbols of `s` stand on cells of the grid, each on a cell of its own.
pub open spec fn well_formed(s: Seq<Datos>) -> bool {
    unique_positions(s) && on_grid(s)
}

/// `i` is the first index of `s` whose symbol stands on `pos`.
pub open spec fn first_at(s: Seq<Datos>, pos: Position, i: int) -> bool {
    &&& 0 <= i < s.len()
    &&& s[i].pos == pos
    &&& forall|j: int| 0 <= j < i ==> (#[trigger] s[j]).pos != pos
}

/// Some symbol of `s` stands on `pos`.
pub open spec fn occupied(s: Seq<Datos>, pos: Position) -> bool {
    exists|i: int| 0 <= i < s.len() && (#[trigger] s[i]).pos == pos
}

/// The first index of `s` whose symbol stands on `pos`, where `pos` is
/// occupied.
pub open spec fn slot_of(s: Seq<Datos>, pos: Position) -> int {
    choose|i: int| first_at(s, pos, i)
}

/// The symbol that stands on `pos`, if there is one.
pub open spec fn symbol_at(s: Seq<Datos>, pos: Position) -> Option<Datos> {
    if occupied(s, pos) {
        Some(s[slot_of(s, pos)])
    } else {
        None
    }
}

/// The symbols of `s` without the one that stands on `pos`.
pub open spec fn without(s: Seq<Datos>, pos: Position) -> Seq<Datos> {
    if occupied(s, pos) {
        s.remove(slot_of(s, pos))
    } else {
        s
    }
}

/// An edit of one cell of a pattern.
#[derive(Clone, Copy, Debug, PartialEq, Eq, Structural)]
pub enum CellEdit {
    /// Give the symbol the next shape; an empty cell gets a fresh symbol.
    CycleType,
    /// Give the symbol the next colour; an empty cell stays empty.
    CycleColor,
    /// Give the symbol the next size; an empty cell stays empty.
    CycleSize,
    /// Take the symbol away; an empty cell stays empty.
    Clear,
}

/// The symbols after the shape on `pos` was cycled.
pub open spec fn type_cycled(s: Seq<Datos>, pos: Position) -> Seq<Datos> {
    match symbol_at(s, pos) {
        Some(d) => without(s, pos).push(d.with_next_type()),
        None => s.push(Datos::fresh(pos)),
    }
}

/// The symbols after the colour on `pos` was cycled.
pub open spec fn color_cycled(s: Seq<Datos>, pos: Position) -> Seq<Datos> {
    match symbol_at(s, pos) {
        Some(d) => without(s, pos).push(d.with_next_color()),
        None => s,
    }
}

/// The symbols after the size on `pos` was cycled.
pub open spec fn size_cycled(s: Seq<Datos>, pos: Position) -> Seq<Datos> {
    match symbol_at(s, pos) {
        Some(d) => without(s, pos).push(d.with_next_size()),
        None => s,
    }
}

/// The symbols after `edit` was applied to the cell `pos`.
pub open spec fn edited(s: Seq<Datos>, edit: CellEdit, pos: Position) -> Seq<Datos> {
    match edit {
        CellEdit::CycleType => type_cycled(s, pos),
        CellEdit::CycleColor => color_cycled(s, pos),
        CellEdit::CycleSize => size_cycled(s, pos),
        CellEdit::Clear => without(s, pos),
    }
}

/// The symbols after a sequence of edits, each with its cell, was applied
/// from first to last.
pub open spec fn edited_all(s: Seq<Datos>, edits: Seq<(CellEdit, Position)>) -> Seq<Datos>
    decreases edits.len(),
{
    if edits.len() == 0 {
        s
    } else {
        edited(edited_all(s, edits.drop_last()), edits.last().0, edits.last().1)
    }
}

/// An occupied cell has exactly one first slot, and `slot_of` names it.
pub proof fn lemma_slot_of(s: Seq<Datos>, pos: Position, i: int)
    requires
        first_at(s, pos, i),
    ensures
        occupied(s, pos),
        slot_of(s, pos) == i,
        symbol_at(s, pos) == Some(s[i]),
        without(s, pos) == s.remove(i),
{
    let k = slot_of(s, pos);
    assert(first_at(s, pos, k));
    if k < i {
        assert(s[k].pos != pos);
    } else if i < k {
        assert(s[i].pos != pos);
    }
}

/// On an occupied cell stands a symbol of the pattern, at the cell's slot.
pub proof fn lemma_occupied_slot(s: Seq<Datos>, pos: Position)
    requires
        occupied(s, pos),
    ensures
        first_at(s, pos, slot_of(s, pos)),
{
    let w = choose|i: int| 0 <= i < s.len() && (#[trigger] s[i]).pos == pos;
    lemma_first_exists(s, pos, w);
}

/// If a symbol at index `w` stands on `pos`, some index is the first such.
proof fn lemma_first_exists(s: Seq<Datos>, pos: Position, w: int)
    requires
        0 <= w < s.len(),
        s[w].pos == pos,
    ensures
        first_at(s, pos, slot_of(s, pos)),
    decreases w,
{
    if forall|j: int| 0 <= j < w ==> (#[trigger] s[j]).pos != pos {
        assert(first_at(s, pos, w));
    } else {
        let j = choose|j: int| 0 <= j < w && (#[trigger] s[j]).pos == pos;
        lemma_first_exists(s, pos, j);
    }
}

/// Taking the symbol of a cell away leaves the cell empty and the other
/// cells as they were, and keeps a pattern well-formed.
pub proof fn lemma_without(s: Seq<Datos>, pos: Position)
    ensures
        unique_positions(s) ==> !occupied(without(s, pos), pos),
        unique_positions(s) ==> unique_positions(without(s, pos)),
        on_grid(s) ==> on_grid(without(s, pos)),
        forall|other: Position|
            other != pos ==> #[trigger] symbol_at(without(s, pos), other) == symbol_at(s, other),
        without(s, pos).len() == (if occupied(s, pos) {
            s.len() - 1
        } else {
            s.len() as int
        }),
{
    let t = without(s, pos);
    if occupied(s, pos) {
        lemma_occupied_slot(s, pos);
        let k = slot_of(s, pos);
        assert(t == s.remove(k));
        assert(forall|i: int| 0 <= i < k ==> t[i] == s[i]);
        assert(forall|i: int| k <= i < t.len() ==> t[i] == s[i + 1]);
        if unique_positions(s) {
            assert forall|i: int| 0 <= i < t.len() implies (#[trigger] t[i]).pos != pos by {
                if i < k {
                    assert(s[i].pos != s[k].pos);
                } else {
                    assert(s[k].pos != s[i + 1].pos);
                }
            }
            assert forall|i: int, j: int| 0 <= i < j < t.len() implies t[i].pos != t[j].pos by {
                let si = if i < k { i } else { i + 1 };
                let sj = if j < k { j } else { j + 1 };
                assert(t[i] == s[si]);
                assert(t[j] == s[sj]);
                assert(s[si].pos != s[sj].pos);
            }
        }
        if on_grid(s) {
            assert forall|i: int| 0 <= i < t.len() implies (#[trigger] t[i]).pos.in_grid() by {
                let si = if i < k { i } else { i + 1 };
                assert(t[i] == s[si]);
            }
        }
        assert forall|other: Position| other != pos implies #[trigger] symbol_at(t, other)
            == symbol_at(s, other) by {
            if occupied(s, other) {
                lemma_occupied_slot(s, other);
                let m = slot_of(s, other);
                let tm = if m < k { m } else { m - 1 };
                assert(t[tm] == s[m]);
                assert forall|j: int| 0 <= j < tm implies (#[trigger] t[j]).pos != other by {
                    let sj = if j < k { j } else { j + 1 };
                    assert(t[j] == s[sj]);
                }
                assert(first_at(t, other, tm));
                lemma_slot_of(t, other, tm);
            } else {
                if occupied(t, other) {
                    let w = choose|i: int| 0 <= i < t.len() && (#[trigger] t[i]).pos == other;
                    let sw = if w < k { w } else { w + 1 };
                    assert(t[w] == s[sw]);
                    assert(s[sw].pos == other);
                }
            }
        }
    } else {
        assert(t == s);
    }
}

/// Writing a symbol behind the others puts it on its cell, if that cell was
/// empty, and leaves the other cells as they were.
pub proof fn lemma_push(s: Seq<Datos>, d: Datos)
    ensures
        !occupied(s, d.pos) ==> symbol_at(s.push(d), d.pos) == Some(d),
        !occupied(s, d.pos) && unique_positions(s) ==> unique_positions(s.push(d)),
        on_grid(s) && d.pos.in_grid() ==> on_grid(s.push(d)),
        forall|other: Position|
            other != d.pos ==> #[trigger] symbol_at(s.push(d), other) == symbol_at(s, other),
{
    let t = s.push(d);
    assert(forall|i: int| 0 <= i < s.len() ==> t[i] == s[i]);
    assert(t[s.len() as int] == d);
    if !occupied(s, d.pos) {
        assert forall|j: int| 0 <= j < s.len() implies (#[trigger] t[j]).pos != d.pos by {
            assert(t[j] == s[j]);
        }
        assert(first_at(t, d.pos, s.len() as int));
        lemma_slot_of(t, d.pos, s.len() as int);
        if unique_positions(s) {
            assert forall|i: int, j: int| 0 <= i < j < t.len() implies t[i].pos != t[j].pos by {
                assert(t[i] == s[i]);
                if j < s.len() {
                    assert(t[j] == s[j]);
                }
            }
        }
    }
    if on_grid(s) && d.pos.in_grid() {
        assert forall|i: int| 0 <= i < t.len() implies (#[trigger] t[i]).pos.in_grid() by {
            if i < s.len() {
                assert(t[i] == s[i]);
            }
        }
    }
    assert forall|other: Position| other != d.pos implies #[trigger] symbol_at(t, other)
        == symbol_at(s, other) by {
        if occupied(s, other) {
            lemma_occupied_slot(s, other);
            let m = slot_of(s, other);
            assert(t[m] == s[m]);
            assert forall|j: int| 0 <= j < m implies (#[trigger] t[j]).pos != other by {
                assert(t[j] == s[j]);
            }
            assert(first_at(t, other, m));
            lemma_slot_of(t, other, m);
        } else {
            if occupied(t, other) {
                let w = choose|i: int| 0 <= i < t.len() && (#[trigger] t[i]).pos == other;
                if w < s.len() {
                    assert(t[w] == s[w]);
                }
            }
        }
    }
}

/// What an edit does to a pattern in which no two symbols share a cell: the
/// edited cell holds what the edit asks for, every other cell holds what it
/// held, and still no two symbols share a cell. Symbols that stood on the
/// grid stand on the grid after an edit of a cell of the grid.
pub proof fn lemma_edited(s: Seq<Datos>, edit: CellEdit, pos: Position)
    requires
        unique_positions(s),
    ensures
        unique_positions(edited(s, edit, pos)),
        on_grid(s) && pos.in_grid() ==> well_formed(edited(s, edit, pos)),
        symbol_at(edited(s, edit, pos), pos) == (match (edit, symbol_at(s, pos)) {
            (CellEdit::CycleType, Some(d)) => Some(d.with_next_type()),
            (CellEdit::CycleType, None) => Some(Datos::fresh(pos)),
            (CellEdit::CycleColor, Some(d)) => Some(d.with_next_color()),
            (CellEdit::CycleSize, Some(d)) => Some(d.with_next_size()),
            _ => None,
        }),
        forall|other: Position|
            other != pos ==> #[trigger] symbol_at(edited(s, edit, pos), other) == symbol_at(
                s,
                other,
            ),
{
    lemma_without(s, pos);
    let rest = without(s, pos);
    match symbol_at(s, pos) {
        Some(d) => {
            lemma_occupied_slot(s, pos);
            assert(d.pos == pos);
            lemma_push(rest, d.with_next_type());
            lemma_push(rest, d.with_next_color());
            lemma_push(rest, d.with_next_size());
        },
        None => {
            assert(rest == s);
            lemma_push(s, Datos::fresh(pos));
        },
    }
}

/// However many cells are edited, and in whatever order, no two symbols of
/// the pattern come to share a cell. Where the edited cells lie on the grid,
/// a well-formed pattern stays well-formed.
pub proof fn lemma_edited_all(s: Seq<Datos>, edits: Seq<(CellEdit, Position)>)
    requires
        unique_positions(s),
    ensures
        unique_positions(edited_all(s, edits)),
        on_grid(s) && (forall|k: int| 0 <= k < edits.len() ==> (#[trigger] edits[k]).1.in_grid())
            ==> well_formed(edited_all(s, edits)),
    decreases edits.len(),
{
    if edits.len() > 0 {
        let before = edits.drop_last();
        if forall|k: int| 0 <= k < edits.len() ==> (#[trigger] edits[k]).1.in_grid() {
            assert forall|k: int| 0 <= k < before.len() implies (
            #[trigger] before[k]).1.in_grid() by {
                assert(before[k] == edits[k]);
            }
            assert(edits[edits.len() - 1].1.in_grid());
        }
        lemma_edited_all(s, before);
        lemma_edited(edited_all(s, before), edits.last().0, edits.last().1);
    }
}

/// Cycling the shape of an occupied cell twice, its colour three times or
/// its size three times gives the cell the symbol that it had.
pub proof fn lemma_cycles_return(s: Seq<Datos>, pos: Position)
    requires
        unique_positions(s),
        occupied(s, pos),
    ensures
        symbol_at(type_cycled(type_cycled(s, pos), pos), pos) == symbol_at(s, pos),
        symbol_at(color_cycled(color_cycled(color_cycled(s, pos), pos), pos), pos) == symbol_at(
            s,
            pos,
        ),
        symbol_at(size_cycled(size_cycled(size_cycled(s, pos), pos), pos), pos) == symbol_at(
            s,
            pos,
        ),
{
    let d = symbol_at(s, pos).unwrap();
    lemma_edited(s, CellEdit::CycleType, pos);
    lemma_edited(type_cycled(s, pos), CellEdit::CycleType, pos);
    lemma_edited(s, CellEdit::CycleColor, pos);
    lemma_edited(color_cycled(s, pos), CellEdit::CycleColor, pos);
    lemma_edited(color_cycled(color_cycled(s, pos), pos), CellEdit::CycleColor, pos);
    lemma_edited(s, CellEdit::CycleSize, pos);
    lemma_edited(size_cycled(s, pos), CellEdit::CycleSize, pos);
    lemma_edited(size_cycled(size_cycled(s, pos), pos), CellEdit::CycleSize, pos);
    lemma_symbol_cycles(d);
}

/// A sparse collection of symbols, in the order in which they were written.
#[derive(Debug)]
pub struct Pattern(pub Vec<Datos>);

impl View for Pattern {
    type V = Seq<Datos>;

    open spec fn view(&self) -> Seq<Datos> {
        self.0@
    }
}

impl Clone for Pattern {
    fn clone(&self) -> (r: Pattern)
        ensures
            r@ == self@,
    {
        let mut symbols: Vec<Datos> = Vec::new();
        let mut i: usize = 0;
        while i < self.0.len()
            invariant
                i <= self.0.len(),
                symbols@ == self.0@.take(i as int),
            decreases self.0.len() - i,
        {
            symbols.push(self.0[i]);
            assert(self.0@.take(i + 1) == self.0@.take(i as int).push(self.0@[i as int]));
            i = i + 1;
        }
        assert(self.0@.take(self.0.len() as int) == self.0@);
        Pattern(symbols)
    }
}

impl Pattern {
    /// At most one symbol stands on each cell, and each on a cell of the grid.
    pub open spec fn wf(&self) -> bool {
        well_formed(self@)
    }

    /// The pattern without symbols.
    pub fn new() -> (r: Pattern)
        ensures
            r@ == Seq::<Datos>::empty(),
            r.wf(),
    {
        Pattern(Vec::new())
    }

    /// Whether the pattern is well-formed.
    pub fn is_well_formed(&self) -> (r: bool)
        ensures
            r == self.wf(),
    {
        let n = self.0.len();
        let mut i: usize = 0;
        while i < n
            invariant
                i <= n,
                n == self@.len(),
                forall|a: int| 0 <= a < i ==> (#[trigger] self@[a]).pos.in_grid(),
                forall|a: int, b: int| 0 <= a < b < i ==> self@[a].pos != self@[b].pos,
            decreases n - i,
        {
            let pos = self.0[i].pos;
            if pos.x >= WIDTH || pos.y >= HEIGHT {
                return false;
            }
            let mut j: usize = 0;
            while j < i
                invariant
                    j <= i,
                    i < n,
                    n == self@.len(),
                    pos == self@[i as int].pos,
                    forall|a: int| 0 <= a < j ==> (#[trigger] self@[a]).pos != pos,
                decreases i - j,
            {
                if self.0[j].pos == pos {
                    return false;
                }
                j = j + 1;
            }
            i = i + 1;
        }
        true
    }

    /// The number of symbols.
    pub fn len(&self) -> (r: usize)
        ensures
            r == self@.len(),
    {
        self.0.len()
    }

    /// The symbol at index `i`, in the order in which the symbols were written.
    pub fn get(&self, i: usize) -> (r: Option<Datos>)
        ensures
            r == (if i < self@.len() {
                Some(self@[i as int])
            } else {
                None
            }),
    {
        if i < self.0.len() {
            Some(self.0[i])
        } else {
            None
        }
    }

    /// The first index whose symbol stands on `pos`.
    pub fn slot(&self, pos: Position) -> (r: Option<usize>)
        ensures
            r matches Some(i) ==> first_at(self@, pos, i as int) && i == slot_of(self@, pos),
            r.is_some() == occupied(self@, pos),
    {
        let mut i: usize = 0;
        while i < self.0.len()
            invariant
                i <= self.0.len(),
                forall|j: int| 0 <= j < i ==> (#[trigger] self@[j]).pos != pos,
            decreases self.0.len() - i,
        {
            if self.0[i].pos == pos {
                proof {
                    lemma_slot_of(self@, pos, i as int);
                }
                return Some(i);
            }
            i = i + 1;
        }
        None
    }

    /// The symbol that stands on `pos`, if there is one.
    pub fn symbol_at(&self, pos: Position) -> (r: Option<Datos>)
        ensures
            r == symbol_at(self@, pos),
    {
        match self.slot(pos) {
            Some(i) => Some(self.0[i]),
            None => None,
        }
    }

    /// Gives the symbol on `pos` the next shape. An empty cell gets a
    /// straight, blue symbol of medium size.
    pub fn cycle_type_at(&mut self, pos: Position)
        ensures
            final(self)@ == type_cycled(old(self)@, pos),
            unique_positions(old(self)@) ==> unique_positions(final(self)@),
            old(self).wf() && pos.in_grid() ==> final(self).wf(),
    {
        proof {
            if unique_positions(self@) {
                lemma_edited(self@, CellEdit::CycleType, pos);
            }
        }
        match self.slot(pos) {
            Some(i) => {
                let d = self.0.remove(i);
                self.0.push(d.cycle_type());
            },
            None => {
                self.0.push(Datos::new(pos));
            },
        }
    }

    /// Gives the symbol on `pos` the next colour. An empty cell stays empty.
    pub fn cycle_color_at(&mut self, pos: Position)
        ensures
            final(self)@ == color_cycled(old(self)@, pos),
            unique_positions(old(self)@) ==> unique_positions(final(self)@),
            old(self).wf() && pos.in_grid() ==> final(self).wf(),
    {
        proof {
            if unique_positions(self@) {
                lemma_edited(self@, CellEdit::CycleColor, pos);
            }
        }
        match self.slot(pos) {
            Some(i) => {
                let d = self.0.remove(i);
                self.0.push(d.cycle_color());
            },
            None => {},
        }
    }

    /// Gives the symbol on `pos` the next size. An empty cell stays empty.
    pub fn cycle_size_at(&mut self, pos: Position)
        ensures
            final(self)@ == size_cycled(old(self)@, pos),
            unique_positions(old(self)@) ==> unique_positions(final(self)@),
            old(self).wf() && pos.in_grid() ==> final(self).wf(),
    {
        proof {
            if unique_positions(self@) {
                lemma_edited(self@, CellEdit::CycleSize, pos);
            }
        }
        match self.slot(pos) {
            Some(i) => {
                let d = self.0.remove(i);
                self.0.push(d.cycle_size());
            },
            None => {},
        }
    }

    /// Takes the symbol on `pos` away. An empty cell stays empty.
    pub fn clear_at(&mut self, pos: Position)
        ensures
            final(self)@ == without(old(self)@, pos),
            unique_positions(old(self)@) ==> unique_positions(final(self)@),
            old(self).wf() ==> final(self).wf(),
    {
        proof {
            lemma_without(self@, pos);
        }
        match self.slot(pos) {
            Some(i) => {
                self.0.remove(i);
            },
            None => {},
        }
    }

    /// Applies one edit to the cell `pos`.
    pub fn apply(&mut self, edit: CellEdit, pos: Position)
        ensures
            final(self)@ == edited(old(self)@, edit, pos),
            unique_positions(old(self)@) ==> unique_positions(final(self)@),
            old(self).wf() && pos.in_grid() ==> final(self).wf(),
    {
        match edit {
            CellEdit::CycleType => self.cycle_type_at(pos),
            CellEdit::CycleColor => self.cycle_color_at(pos),
            CellEdit::CycleSize => self.cycle_size_at(pos),
            CellEdit::Clear => self.clear_at(pos),
        }
    }
}

/// What a pattern entry holds: the symbols of its pattern and its tag.
pub struct EntryView {
    pub symbols: Seq<Datos>,
    pub valid: bool,
}

impl EntryView {
    /// The entry without symbols, tagged valid.
    pub open spec fn empty() -> EntryView {
        EntryView { symbols: Seq::empty(), valid: true }
    }

    /// The pattern of the entry is well-formed.
    pub open spec fn wf(self) -> bool {
        well_formed(self.symbols)
    }

    /// The entry after `edit` was applied to the cell `pos` of its pattern.
    pub open spec fn edited(self, edit: CellEdit, pos: Position) -> EntryView {
        EntryView { symbols: edited(self.symbols, edit, pos), valid: self.valid }
    }

    /// The entry with the opposite tag.
    pub open spec fn toggled(self) -> EntryView {
        EntryView { symbols: self.symbols, valid: !self.valid }
    }
}

/// A pattern with the tag that the user gave it. The tag says nothing about
/// the symbols.
#[derive(Debug)]
pub struct PatternParent {
    pub data: Pattern,
    pub valid: bool,
}

impl View for PatternParent {
    type V = EntryView;

    open spec fn view(&self) -> EntryView {
        EntryView { symbols: self.data@, valid: self.valid }
    }
}

impl Clone for PatternParent {
    fn clone(&self) -> (r: PatternParent)
        ensures
            r@ == self@,
    {
        PatternParent { data: self.data.clone(), valid: self.valid }
    }
}

impl PatternParent {
    /// The pattern of the entry is well-formed.
    pub open spec fn wf(&self) -> bool {
        self@.wf()
    }

    /// The entry without symbols, tagged valid.
    pub fn new() -> (r: PatternParent)
        ensures
            r@ == EntryView::empty(),
            r.wf(),
    {
        PatternParent { data: Pattern::new(), valid: true }
    }

    /// Whether the pattern of the entry is well-formed.
    pub fn is_well_formed(&self) -> (r: bool)
        ensures
            r == self.wf(),
    {
        self.data.is_well_formed()
    }

    /// The pattern of the entry.
    pub fn pattern(&self) -> (r: &Pattern)
        ensures
            r@ == self@.symbols,
    {
        &self.data
    }

    /// The tag of the entry.
    pub fn is_valid(&self) -> (r: bool)
        ensures
            r == self@.valid,
    {
        self.valid
    }

    /// Applies one edit to the cell `pos` of the pattern.
    pub fn apply(&mut self, edit: CellEdit, pos: Position)
        ensures
            final(self)@ == old(self)@.edited(edit, pos),
            old(self).wf() && pos.in_grid() ==> final(self).wf(),
    {
        self.data.apply(edit, pos);
    }

    /// Flips the tag and leaves the pattern as it is.
    pub fn toggle_valid(&mut self)
        ensures
            final(self)@ == old(self)@.toggled(),
    {
        self.valid = !self.valid;
    }
}

} // verus!
