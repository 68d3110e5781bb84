//! The window and the selection over the gallery.
//!
//! The gallery is shown as a grid of `rows` rows and `columns_per_row`
//! columns, filled row by row. The window is the range of gallery indices
//! from `render_start` to `render_end`, both included. The selection is one
//! gallery index. Every operation takes the length of the gallery, and none
//! does anything while the gallery is empty, except that the shape of the
//! grid can always be changed.

use vstd::prelude::*;
use vstd::math::{max, min};
use vstd::arithmetic::div_mod::{
    lemma_fundamental_div_mod,
    lemma_fundamental_div_mod_converse,
    lemma_mod_add_multiples_vanish,
    lemma_mod_sub_multiples_vanish,
    lemma_small_mod,
};

verus! {

/// The window, the shape of the grid that shows it, and the selection.
#[derive(Clone, Copy, Debug, PartialEq, Eq, Structural)]
pub struct Viewport {
    pub render_start: usize,
    pub render_end: usize,
    pub rows: usize,
    pub columns_per_row: usize,
    pub selected_index: usize,
}

/// A change of the shape of the grid by one row or one column.
#[derive(Clone, Copy, Debug, PartialEq, Eq, Structural)]
pub enum Resize {
    FewerRows,
    MoreRows,
    FewerColumns,
    MoreColumns,
}

/// How a gallery index stands to the window and the selection.
#[derive(Clone, Copy, Debug, PartialEq, Eq, Structural)]
pub enum Mark {
    /// The index lies outside the window.
    Outside,
    /// The index lies inside the window and is not selected.
    Shown,
    /// The index lies inside the window and is selected.
    Selected,
}

impl Viewport {
    /// The grid has at least one row and one column.
    pub open spec fn shaped(self) -> bool {
        self.rows >= 1 && self.columns_per_row >= 1
    }

    /// The number of entries that the grid can show.
    pub open spec fn slots(self) -> int {
        self.rows * self.columns_per_row
    }

    /// The number of gallery indices in the window.
    pub open spec fn window_len(self) -> int {
        self.render_end - self.render_start + 1
    }

    /// The grid is shaped and the window ends inside a gallery of `len`
    /// entries.
    pub open spec fn bounded(self, len: nat) -> bool {
        &&& self.shaped()
        &&& len > 0 ==> self.render_end < len
    }

    /// The window fits a gallery of `len` entries: it lies inside the gallery
    /// and holds as many entries as the grid can show, or the whole gallery
    /// if that is less. While the gallery is empty, window and selection
    /// rest at index 0.
    pub open spec fn frames(self, len: nat) -> bool {
        &&& self.shaped()
        &&& len > 0 ==> {
            &&& self.render_start <= self.render_end < len
            &&& self.window_len() == min(self.slots(), len as int)
        }
        &&& len == 0 ==> self.render_start == 0 && self.render_end == 0 && self.selected_index
            == 0
    }

    /// The selection lies inside the window.
    pub open spec fn selection_visible(self) -> bool {
        self.render_start <= self.selected_index <= self.render_end
    }

    /// How the gallery index `index` stands to the window and the selection.
    pub open spec fn mark_of(self, index: int) -> Mark {
        if self.render_start <= index <= self.render_end {
            if index == self.selected_index {
                Mark::Selected
            } else {
                Mark::Shown
            }
        } else {
            Mark::Outside
        }
    }

    /// The row of the grid on which a gallery index falls.
    pub open spec fn row_of(self, index: int) -> int {
        index / (self.columns_per_row as int)
    }

    /// The column of the grid on which a gallery index falls.
    pub open spec fn column_of(self, index: int) -> int {
        index % (self.columns_per_row as int)
    }

    /// The viewport whose window ends at `end` and reaches back over as many
    /// entries as the grid can show, but not past index 0.
    pub open spec fn window_ending(self, end: int) -> Viewport {
        Viewport {
            render_start: max(0, end - (self.slots() - 1)) as usize,
            render_end: end as usize,
            ..self
        }
    }

    /// The viewport after the window moved `step` entries towards the end of
    /// a gallery of `len` entries, as far as the gallery reaches.
    pub open spec fn stepped_right(self, len: nat, step: nat) -> Viewport {
        if len == 0 {
            self
        } else {
            self.window_ending(min(self.render_end + step, len - 1))
        }
    }

    /// The viewport after the window moved `step` entries towards the start
    /// of a gallery of `len` entries, as far as a full window allows.
    pub open spec fn stepped_left(self, len: nat, step: nat) -> Viewport {
        if len == 0 {
            self
        } else {
            self.window_ending(
                max(self.render_end - step, min(self.slots(), len as int) - 1),
            )
        }
    }

    /// The viewport with one row or column more or less. The grid keeps at
    /// least one row and one column, and a count that has reached the largest
    /// value of its type stays there.
    pub open spec fn reshaped(self, change: Resize) -> Viewport {
        match change {
            Resize::FewerRows => Viewport { rows: max(self.rows - 1, 1) as usize, ..self },
            Resize::MoreRows => Viewport {
                rows: min(self.rows + 1, usize::MAX as int) as usize,
                ..self
            },
            Resize::FewerColumns => Viewport {
                columns_per_row: max(self.columns_per_row - 1, 1) as usize,
                ..self
            },
            Resize::MoreColumns => Viewport {
                columns_per_row: min(self.columns_per_row + 1, usize::MAX as int) as usize,
                ..self
            },
        }
    }

    /// The viewport after a change of shape: the window is set right for the
    /// new shape by one step right and one step left, each of one entry.
    pub open spec fn resized(self, len: nat, change: Resize) -> Viewport {
        self.reshaped(change).stepped_right(len, 1).stepped_left(len, 1)
    }

    /// The viewport after a new entry became the last of `len` entries: the
    /// selection and the end of the window are on it.
    pub open spec fn focused_on_last(self, len: nat) -> Viewport {
        Viewport {
            selected_index: (len - 1) as usize,
            render_end: (len - 1) as usize,
            ..self
        }.stepped_right(len, 1)
    }

    /// The viewport after a move of the selection to the left: one index
    /// back, unless that index lies on another row.
    pub open spec fn selected_left(self, len: nat) -> Viewport {
        let target = self.selected_index - 1;
        if len > 0 && target >= 0 && self.row_of(target) == self.row_of(
            self.selected_index as int,
        ) {
            Viewport { selected_index: target as usize, ..self }
        } else {
            self
        }
    }

    /// The viewport after a move of the selection to the right: one index
    /// on, unless that index starts a row.
    pub open spec fn selected_right(self, len: nat) -> Viewport {
        let target = self.selected_index + 1;
        if len > 0 && target <= usize::MAX && self.column_of(target) != 0 {
            Viewport { selected_index: target as usize, ..self }
        } else {
            self
        }
    }

    /// The viewport after a move of the selection upwards: one row back,
    /// stopping at index 0, unless that changes the column. A selection that
    /// then lies before the window pulls the window one row back.
    pub open spec fn selected_up(self, len: nat) -> Viewport {
        if len == 0 {
            self
        } else {
            let target = max(self.selected_index - self.columns_per_row, 0);
            let moved = if self.column_of(target) == self.column_of(self.selected_index as int) {
                Viewport { selected_index: target as usize, ..self }
            } else {
                self
            };
            if moved.selected_index < moved.render_start {
                moved.stepped_left(len, self.columns_per_row as nat)
            } else {
                moved
            }
        }
    }

    /// The viewport after a move of the selection downwards: one row on,
    /// unless that changes the column or leaves the gallery. A selection
    /// that then lies behind the window pulls the window one row on.
    pub open spec fn selected_down(self, len: nat) -> Viewport {
        if len == 0 {
            self
        } else {
            let target = self.selected_index + self.columns_per_row;
            let moved = if self.column_of(target) == self.column_of(self.selected_index as int)
                && target <= len - 1 {
                Viewport { selected_index: target as usize, ..self }
            } else {
                self
            };
            if moved.selected_index > moved.render_end {
                moved.stepped_right(len, self.columns_per_row as nat)
            } else {
                moved
            }
        }
    }

    /// Two rows of two columns over an empty gallery.
    pub fn new() -> (r: Viewport)
        ensures
            r == (Viewport {
                render_start: 0,
                render_end: 0,
                rows: 2,
                columns_per_row: 2,
                selected_index: 0,
            }),
            r.frames(0),
    {
        Viewport { render_start: 0, render_end: 0, rows: 2, columns_per_row: 2, selected_index: 0 }
    }

    /// The number of entries that the grid can show, or the largest value of
    /// the type if that number is larger still.
    pub fn capacity(&self) -> (r: usize)
        ensures
            r == min(self.slots(), usize::MAX as int),
    {
        match self.rows.checked_mul(self.columns_per_row) {
            Some(slots) => slots,
            None => usize::MAX,
        }
    }

    /// Whether the window fits a gallery of `len` entries.
    pub fn fits(&self, len: usize) -> (r: bool)
        ensures
            r == self.frames(len as nat),
    {
        if self.rows < 1 || self.columns_per_row < 1 {
            return false;
        }
        if len == 0 {
            return self.render_start == 0 && self.render_end == 0 && self.selected_index == 0;
        }
        if self.render_start > self.render_end || self.render_end >= len {
            return false;
        }
        let capacity = self.capacity();
        let full = if capacity < len {
            capacity
        } else {
            len
        };
        self.render_end - self.render_start + 1 == full
    }

    /// How the gallery index `index` stands to the window and the selection.
    pub fn mark(&self, index: usize) -> (r: Mark)
        ensures
            r == self.mark_of(index as int),
    {
        if self.render_start <= index && index <= self.render_end {
            if index == self.selected_index {
                Mark::Selected
            } else {
                Mark::Shown
            }
        } else {
            Mark::Outside
        }
    }

    /// The gallery indices that are drawn, as a range that leaves its end
    /// out: the window, cut off at the end of a gallery of `len` entries.
    pub fn visible_range(&self, len: usize) -> (r: (usize, usize))
        ensures
            r.1 == min(self.render_end + 1, len as int),
            r.0 == min(self.render_start as int, r.1 as int),
            self.frames(len as nat) && len > 0 ==> r.0 == self.render_start && r.1
                == self.render_end + 1,
    {
        let past = self.render_end.saturating_add(1);
        let end = if past < len {
            past
        } else {
            len
        };
        let start = if self.render_start < end {
            self.render_start
        } else {
            end
        };
        (start, end)
    }

    /// The row and the column of the grid on which the entry is drawn that
    /// stands `offset` entries behind the start of the window.
    pub fn cell_of(&self, offset: usize) -> (r: (usize, usize))
        requires
            self.shaped(),
        ensures
            r.0 == self.row_of(offset as int),
            r.1 == self.column_of(offset as int),
            r.1 < self.columns_per_row,
            offset < self.slots() ==> r.0 < self.rows,
    {
        proof {
            lemma_cell_on_grid(*self, offset as int);
        }
        (offset / self.columns_per_row, offset % self.columns_per_row)
    }

    /// Ends the window at `end` and starts it as far back as the grid can
    /// show, but not before index 0.
    fn end_window_at(&mut self, end: usize)
        requires
            old(self).shaped(),
        ensures
            *final(self) == old(self).window_ending(end as int),
    {
        proof {
            lemma_slots(*self);
        }
        self.render_end = end;
        self.render_start = match self.rows.checked_mul(self.columns_per_row) {
            Some(slots) => end.saturating_sub(slots - 1),
            None => 0,
        };
    }

    /// Moves the window `step_size` entries towards the end of the gallery.
    pub fn step_right(&mut self, len: usize, step_size: usize)
        requires
            old(self).shaped(),
        ensures
            *final(self) == old(self).stepped_right(len as nat, step_size as nat),
            old(self).bounded(len as nat) ==> final(self).bounded(len as nat),
            old(self).frames(len as nat) ==> final(self).frames(len as nat),
    {
        proof {
            lemma_slots(*self);
            lemma_stepped_right(*self, len as nat, step_size as nat);
        }
        if len > 0 {
            let reach = self.render_end.saturating_add(step_size);
            let end = if reach < len - 1 {
                reach
            } else {
                len - 1
            };
            self.end_window_at(end);
        }
    }

    /// Moves the window `step_size` entries towards the start of the gallery.
    pub fn step_left(&mut self, len: usize, step_size: usize)
        requires
            old(self).shaped(),
        ensures
            *final(self) == old(self).stepped_left(len as nat, step_size as nat),
            old(self).bounded(len as nat) && len > 0 ==> final(self).frames(len as nat),
            old(self).frames(len as nat) ==> final(self).frames(len as nat),
    {
        proof {
            lemma_slots(*self);
            lemma_stepped_left(*self, len as nat, step_size as nat);
        }
        if len > 0 {
            let capacity = self.capacity();
            let full = if capacity < len {
                capacity
            } else {
                len
            };
            let reach = self.render_end.saturating_sub(step_size);
            let end = if reach > full - 1 {
                reach
            } else {
                full - 1
            };
            self.end_window_at(end);
        }
    }

    /// Adds or takes away one row or column and sets the window right.
    pub fn resize(&mut self, len: usize, change: Resize)
        requires
            old(self).shaped(),
        ensures
            *final(self) == old(self).resized(len as nat, change),
            old(self).frames(len as nat) ==> final(self).frames(len as nat),
    {
        match change {
            Resize::FewerRows => {
                if self.rows > 1 {
                    self.rows = self.rows - 1;
                }
            },
            Resize::MoreRows => {
                self.rows = self.rows.saturating_add(1);
            },
            Resize::FewerColumns => {
                if self.columns_per_row > 1 {
                    self.columns_per_row = self.columns_per_row - 1;
                }
            },
            Resize::MoreColumns => {
                self.columns_per_row = self.columns_per_row.saturating_add(1);
            },
        }
        assert(*self == old(self).reshaped(change));
        self.step_right(len, 1);
        self.step_left(len, 1);
    }

    /// Puts the selection and the end of the window on the last entry of a
    /// gallery that has just grown to `len` entries.
    pub fn focus_last(&mut self, len: usize)
        requires
            old(self).shaped(),
            len > 0,
        ensures
            *final(self) == old(self).focused_on_last(len as nat),
            final(self).frames(len as nat),
            final(self).selection_visible(),
            final(self).selected_index == len - 1,
            final(self).render_end == len - 1,
    {
        self.selected_index = len - 1;
        self.render_end = len - 1;
        proof {
            lemma_slots(*self);
            lemma_stepped_right(*self, len as nat, 1);
        }
        self.step_right(len, 1);
    }

    /// Moves the selection one entry to the left within its row.
    pub fn select_left(&mut self, len: usize)
        requires
            old(self).shaped(),
        ensures
            *final(self) == old(self).selected_left(len as nat),
            old(self).frames(len as nat) ==> final(self).frames(len as nat),
    {
        if len > 0 && self.selected_index > 0 {
            let target = self.selected_index - 1;
            if target / self.columns_per_row == self.selected_index / self.columns_per_row {
                self.selected_index = target;
            }
        }
    }

    /// Moves the selection one entry to the right within its row.
    pub fn select_right(&mut self, len: usize)
        requires
            old(self).shaped(),
        ensures
            *final(self) == old(self).selected_right(len as nat),
            old(self).frames(len as nat) ==> final(self).frames(len as nat),
    {
        if len > 0 {
            match self.selected_index.checked_add(1) {
                Some(target) => {
                    if target % self.columns_per_row != 0 {
                        self.selected_index = target;
                    }
                },
                None => {},
            }
        }
    }

    /// Moves the selection one row up and lets the window follow.
    pub fn select_up(&mut self, len: usize)
        requires
            old(self).shaped(),
        ensures
            *final(self) == old(self).selected_up(len as nat),
            old(self).frames(len as nat) ==> final(self).frames(len as nat),
    {
        if len > 0 {
            let target = self.selected_index.saturating_sub(self.columns_per_row);
            if target % self.columns_per_row == self.selected_index % self.columns_per_row {
                self.selected_index = target;
            }
            if self.selected_index < self.render_start {
                self.step_left(len, self.columns_per_row);
            }
        }
    }

    /// Moves the selection one row down and lets the window follow.
    pub fn select_down(&mut self, len: usize)
        requires
            old(self).shaped(),
        ensures
            *final(self) == old(self).selected_down(len as nat),
            old(self).frames(len as nat) ==> final(self).frames(len as nat),
    {
        if len > 0 {
            match self.selected_index.checked_add(self.columns_per_row) {
                Some(target) => {
                    if target % self.columns_per_row == self.selected_index % self.columns_per_row
                        && target <= len - 1 {
                        self.selected_index = target;
                    }
                },
                None => {},
            }
            if self.selected_index > self.render_end {
                self.step_right(len, self.columns_per_row);
            }
        }
    }
}

/// A shaped grid can show at least one entry, at least one row of them and
/// at least one column of them.
pub proof fn lemma_slots(v: Viewport)
    requires
        v.shaped(),
    ensures
        v.slots() >= 1,
        v.slots() >= v.rows,
        v.slots() >= v.columns_per_row,
{
    assert(v.rows * v.columns_per_row >= v.rows && v.rows * v.columns_per_row
        >= v.columns_per_row) by (nonlinear_arith)
        requires
            v.rows >= 1,
            v.columns_per_row >= 1,
    ;
}

/// A step to the right keeps the end of the window inside the gallery, and a
/// window that fits the gallery still fits it after the step.
pub proof fn lemma_stepped_right(v: Viewport, len: nat, step: nat)
    requires
        v.shaped(),
    ensures
        v.stepped_right(len, step).shaped(),
        v.stepped_right(len, step).rows == v.rows,
        v.stepped_right(len, step).columns_per_row == v.columns_per_row,
        v.stepped_right(len, step).selected_index == v.selected_index,
        len > 0 && len <= usize::MAX ==> v.stepped_right(len, step).render_end < len,
        v.bounded(len) && len <= usize::MAX ==> v.stepped_right(len, step).bounded(len),
        v.frames(len) && len <= usize::MAX ==> v.stepped_right(len, step).frames(len),
{
    lemma_slots(v);
}

/// A step to the left makes the window fit the gallery, whatever the shape
/// of the grid was when the window was last set.
pub proof fn lemma_stepped_left(v: Viewport, len: nat, step: nat)
    requires
        v.shaped(),
    ensures
        v.stepped_left(len, step).shaped(),
        v.stepped_left(len, step).rows == v.rows,
        v.stepped_left(len, step).columns_per_row == v.columns_per_row,
        v.stepped_left(len, step).selected_index == v.selected_index,
        v.bounded(len) && len > 0 && len <= usize::MAX ==> v.stepped_left(len, step).frames(len),
        v.frames(len) && len <= usize::MAX ==> v.stepped_left(len, step).frames(len),
{
    lemma_slots(v);
}

/// The viewport that a commit leaves has its window fitted to the gallery,
/// and its selection on the last entry and inside the window.
pub proof fn lemma_focused_on_last(v: Viewport, len: nat)
    requires
        v.shaped(),
        0 < len <= usize::MAX,
    ensures
        v.focused_on_last(len).frames(len),
        v.focused_on_last(len).selection_visible(),
        v.focused_on_last(len).selected_index == len - 1,
        v.focused_on_last(len).render_end == len - 1,
        v.focused_on_last(len).rows == v.rows,
        v.focused_on_last(len).columns_per_row == v.columns_per_row,
{
    lemma_slots(v);
}

/// A change of shape leaves a fitting window fitting.
pub proof fn lemma_resized(v: Viewport, len: nat, change: Resize)
    requires
        v.frames(len),
        len <= usize::MAX,
    ensures
        v.reshaped(change).shaped(),
        v.resized(len, change).frames(len),
        v.resized(len, change).rows == v.reshaped(change).rows,
        v.resized(len, change).columns_per_row == v.reshaped(change).columns_per_row,
        v.resized(len, change).selected_index == v.selected_index,
{
    let reshaped = v.reshaped(change);
    lemma_stepped_right(reshaped, len, 1);
    lemma_stepped_left(reshaped.stepped_right(len, 1), len, 1);
}

/// After a step of the window, and after a change of the grid's shape, the
/// window of a gallery that is not empty lies inside the gallery and holds
/// as many entries as the grid can then show, or the whole gallery if that
/// is less.
pub proof fn lemma_window_fits(v: Viewport, len: nat, step: nat, change: Resize)
    requires
        v.frames(len),
        0 < len <= usize::MAX,
    ensures
        v.stepped_right(len, step).render_end < len,
        v.stepped_right(len, step).window_len() == min(v.slots(), len as int),
        v.stepped_left(len, step).render_end < len,
        v.stepped_left(len, step).window_len() == min(v.slots(), len as int),
        v.resized(len, change).render_end < len,
        v.resized(len, change).window_len() == min(v.reshaped(change).slots(), len as int),
{
    lemma_stepped_right(v, len, step);
    lemma_stepped_left(v, len, step);
    lemma_resized(v, len, change);
}

/// A step of the window leaves the selection on its index. A selection that
/// lay inside the window lies inside it after a step to the right unless the
/// start of the window has passed it, and after a step to the left unless the
/// end of the window has passed it.
pub proof fn lemma_selection_after_step(v: Viewport, len: nat, step: nat)
    requires
        v.frames(len),
        0 < len <= usize::MAX,
        v.selection_visible(),
    ensures
        v.stepped_right(len, step).selected_index == v.selected_index,
        v.stepped_right(len, step).selection_visible() <==> v.selected_index + v.slots() > min(
            v.render_end + step,
            len - 1,
        ),
        v.stepped_left(len, step).selected_index == v.selected_index,
        v.stepped_left(len, step).selection_visible() <==> v.selected_index <= max(
            v.render_end - step,
            min(v.slots(), len as int) - 1,
        ),
{
    lemma_slots(v);
}

/// Where the window ends after a change of shape, and when a selection that
/// lay inside the window still lies inside it: the window keeps its end,
/// reaching on to the end of a full window where the grid has grown, except
/// that a window at the very end of a gallery larger than the grid moves one
/// entry back.
pub proof fn lemma_selection_after_resize(v: Viewport, len: nat, change: Resize)
    requires
        v.frames(len),
        0 < len <= usize::MAX,
        v.selection_visible(),
    ensures
        v.resized(len, change).selected_index == v.selected_index,
        v.resized(len, change).render_end == (if v.render_end + 1 < len {
            max(v.render_end as int, min(v.reshaped(change).slots(), len as int) - 1)
        } else {
            max(len - 2, min(v.reshaped(change).slots(), len as int) - 1)
        }),
        v.resized(len, change).selection_visible() <==> v.resized(len, change).render_end + 1
            - v.reshaped(change).slots() <= v.selected_index <= v.resized(len, change).render_end,
{
    let reshaped = v.reshaped(change);
    lemma_slots(reshaped);
    lemma_stepped_right(reshaped, len, 1);
    lemma_stepped_left(reshaped.stepped_right(len, 1), len, 1);
}

/// Two neighbouring indices lie on the same row of the grid unless the
/// second of them starts a row.
pub proof fn lemma_row_neighbours(index: int, columns: int)
    requires
        index >= 1,
        columns >= 1,
    ensures
        ((index - 1) / columns == index / columns) <==> index % columns != 0,
{
    let q = index / columns;
    let r = index % columns;
    lemma_fundamental_div_mod(index, columns);
    assert(columns * q == q * columns) by (nonlinear_arith);
    if r >= 1 {
        lemma_fundamental_div_mod_converse(index - 1, columns, q, r - 1);
    } else {
        assert((q - 1) * columns + (columns - 1) == q * columns - 1) by (nonlinear_arith);
        lemma_fundamental_div_mod_converse(index - 1, columns, q - 1, columns - 1);
    }
}

/// An index keeps its column when it moves by a whole row.
pub proof fn lemma_column_kept(index: int, columns: int)
    requires
        index >= 0,
        columns >= 1,
    ensures
        (index + columns) % columns == index % columns,
        (index - columns) % columns == index % columns,
{
    lemma_mod_add_multiples_vanish(index, columns);
    lemma_mod_sub_multiples_vanish(index, columns);
}

/// What the four moves do to the selection of a gallery that is not empty.
/// To the left it goes one index back unless it stands in the first column;
/// to the right it goes one index on unless it stands in the last column;
/// upwards it goes one row back unless it stands on the first row; downwards
/// it goes one row on unless the gallery has no entry there. Moves to the
/// left and to the right leave the window where it is.
pub proof fn lemma_selection_moves(v: Viewport, len: nat)
    requires
        v.shaped(),
        0 < len <= usize::MAX,
    ensures
        v.selected_left(len) == (Viewport {
            selected_index: if v.column_of(v.selected_index as int) != 0 {
                (v.selected_index - 1) as usize
            } else {
                v.selected_index
            },
            ..v
        }),
        v.selected_right(len) == (Viewport {
            selected_index: if v.selected_index < usize::MAX && v.column_of(v.selected_index + 1)
                != 0 {
                (v.selected_index + 1) as usize
            } else {
                v.selected_index
            },
            ..v
        }),
        v.selected_up(len).selected_index == (if v.selected_index >= v.columns_per_row {
            v.selected_index - v.columns_per_row
        } else {
            v.selected_index as int
        }),
        v.selected_down(len).selected_index == (if v.selected_index + v.columns_per_row < len {
            v.selected_index + v.columns_per_row
        } else {
            v.selected_index as int
        }),
{
    let sel = v.selected_index as int;
    let columns = v.columns_per_row as int;
    if sel >= 1 {
        lemma_row_neighbours(sel, columns);
    } else {
        lemma_small_mod(0, columns as nat);
    }
    lemma_column_kept(sel, columns);
    if sel < columns {
        lemma_small_mod(sel as nat, columns as nat);
        lemma_small_mod(0, columns as nat);
    }
    let up_target = max(sel - columns, 0);
    let up_moved = if v.column_of(up_target) == v.column_of(sel) {
        Viewport { selected_index: up_target as usize, ..v }
    } else {
        v
    };
    lemma_stepped_left(up_moved, len, columns as nat);
    let down_target = sel + columns;
    let down_moved = if v.column_of(down_target) == v.column_of(sel) && down_target <= len - 1 {
        Viewport { selected_index: down_target as usize, ..v }
    } else {
        v
    };
    lemma_stepped_right(down_moved, len, columns as nat);
}

/// A move of the selection up or down keeps a fitting window fitting, and a
/// selection that lay inside the window lies inside it after the move.
pub proof fn lemma_vertical_moves(v: Viewport, len: nat)
    requires
        v.frames(len),
        0 < len <= usize::MAX,
    ensures
        v.selected_up(len).frames(len),
        v.selected_down(len).frames(len),
        v.selection_visible() ==> v.selected_up(len).selection_visible(),
        v.selection_visible() ==> v.selected_down(len).selection_visible(),
{
    lemma_slots(v);
    lemma_selection_moves(v, len);
    let sel = v.selected_index as int;
    let columns = v.columns_per_row as int;
    let up_moved = Viewport {
        selected_index: (if sel >= columns {
            sel - columns
        } else {
            sel
        }) as usize,
        ..v
    };
    lemma_column_kept(sel, columns);
    if sel < columns {
        lemma_small_mod(sel as nat, columns as nat);
        lemma_small_mod(0, columns as nat);
    }
    lemma_slots(up_moved);
    lemma_stepped_left(up_moved, len, columns as nat);
    let down_moved = Viewport {
        selected_index: (if sel + columns < len {
            sel + columns
        } else {
            sel
        }) as usize,
        ..v
    };
    lemma_slots(down_moved);
    lemma_stepped_right(down_moved, len, columns as nat);
}

/// An entry that the grid has room for is drawn on one of its rows and
/// columns.
pub proof fn lemma_cell_on_grid(v: Viewport, offset: int)
    requires
        v.shaped(),
        0 <= offset,
    ensures
        0 <= v.column_of(offset) < v.columns_per_row,
        0 <= v.row_of(offset),
        offset < v.slots() ==> v.row_of(offset) < v.rows,
{
    let columns = v.columns_per_row as int;
    let rows = v.rows as int;
    let row = offset / columns;
    lemma_fundamental_div_mod(offset, columns);
    assert(0 <= offset % columns < columns);
    assert(0 <= row) by (nonlinear_arith)
        requires
            offset == columns * row + offset % columns,
            0 <= offset,
            0 <= offset % columns < columns,
            columns >= 1,
    ;
    if offset < v.slots() && row >= rows {
        assert(columns * row >= rows * columns) by (nonlinear_arith)
            requires
                row >= rows,
                columns >= 1,
        ;
    }
}

/// Every entry of a fitting window is drawn on the grid: its place behind
/// the start of the window names a row and a column that the grid has.
pub proof fn lemma_window_on_grid(v: Viewport, len: nat, index: int)
    requires
        v.frames(len),
        len > 0,
        v.render_start <= index <= v.render_end,
    ensures
        0 <= v.row_of(index - v.render_start) < v.rows,
        0 <= v.column_of(index - v.render_start) < v.columns_per_row,
{
    lemma_cell_on_grid(v, index - v.render_start);
}

} // verus!
