//! The editor: one state value and the transitions that commands make on it.
//!
//! The state holds the edit buffer, the gallery of committed entries, the
//! cursor on the grid, the mode, and the window and selection over the
//! gallery. Commands that need a gallery entry do nothing where there is no
//! such entry.

use vstd::prelude::*;
use crate::grid::{advance, lemma_moved_in_grid, Position, SymbolDirection, HEIGHT, WIDTH};
use crate::key::{command_of, decode, Command, Key, Mode};
use crate::pattern::{lemma_edited, CellEdit, EntryView, Pattern, PatternParent};
use crate::viewport::{
    lemma_focused_on_last,
    lemma_resized,
    lemma_selection_moves,
    lemma_stepped_left,
    lemma_stepped_right,
    lemma_vertical_moves,
    Viewport,
};

verus! {

/// What the editor holds, as plain values.
pub struct AppView {
    /// The editor has not been told to stop.
    pub running: bool,
    /// The pattern that cell edits work on.
    pub mode: Mode,
    /// The cell under the cursor.
    pub cursor: Position,
    /// The entry that is being written.
    pub buffer: EntryView,
    /// The committed entries, oldest first.
    pub gallery: Seq<EntryView>,
    /// The index of the entry that was committed last.
    pub pattern_index: nat,
    /// The window and the selection over the gallery.
    pub viewport: Viewport,
}

impl AppView {
    /// The state that the editor starts in.
    pub open spec fn initial() -> AppView {
        AppView {
            running: true,
            mode: Mode::Viewing,
            cursor: Position { x: 0, y: 0 },
            buffer: EntryView::empty(),
            gallery: Seq::empty(),
            pattern_index: 0,
            viewport: Viewport {
                render_start: 0,
                render_end: 0,
                rows: 2,
                columns_per_row: 2,
                selected_index: 0,
            },
        }
    }

    /// The state is consistent: the cursor is on the grid, every pattern is
    /// well-formed, the window fits the gallery, and the remembered index
    /// names an entry once there is one.
    pub open spec fn wf(self) -> bool {
        &&& self.cursor.in_grid()
        &&& self.buffer.wf()
        &&& forall|i: int| 0 <= i < self.gallery.len() ==> (#[trigger] self.gallery[i]).wf()
        &&& self.gallery.len() <= usize::MAX
        &&& self.viewport.frames(self.gallery.len())
        &&& self.gallery.len() > 0 ==> self.pattern_index < self.gallery.len()
        &&& self.gallery.len() == 0 ==> self.pattern_index == 0
    }

    /// The selection names an entry of the gallery.
    pub open spec fn selection_exists(self) -> bool {
        self.viewport.selected_index < self.gallery.len()
    }

    /// The state after one cell edit under the cursor. In editing mode the
    /// edit goes to the edit buffer, in viewing mode to the selected entry.
    pub open spec fn edited(self, edit: CellEdit) -> AppView {
        match self.mode {
            Mode::Editing => AppView { buffer: self.buffer.edited(edit, self.cursor), ..self },
            Mode::Viewing => if self.selection_exists() {
                let at = self.viewport.selected_index as int;
                AppView {
                    gallery: self.gallery.update(at, self.gallery[at].edited(edit, self.cursor)),
                    ..self
                }
            } else {
                self
            },
        }
    }

    /// The state after the tag of the active entry was flipped.
    pub open spec fn toggled(self) -> AppView {
        match self.mode {
            Mode::Editing => AppView { buffer: self.buffer.toggled(), ..self },
            Mode::Viewing => if self.selection_exists() {
                let at = self.viewport.selected_index as int;
                AppView { gallery: self.gallery.update(at, self.gallery[at].toggled()), ..self }
            } else {
                self
            },
        }
    }

    /// The state after the edit buffer was appended to the gallery and
    /// emptied. Window and selection are still where they were.
    pub open spec fn saved(self) -> AppView {
        AppView { gallery: self.gallery.push(self.buffer), buffer: EntryView::empty(), ..self }
    }

    /// The state after a commit: the edit buffer is the new last entry of the
    /// gallery, the buffer is empty and tagged valid, and the remembered
    /// index, the selection and the end of the window are on the new entry.
    pub open spec fn committed(self) -> AppView {
        AppView {
            gallery: self.gallery.push(self.buffer),
            buffer: EntryView::empty(),
            pattern_index: self.gallery.len(),
            viewport: self.viewport.focused_on_last(self.gallery.len() + 1),
            ..self
        }
    }

    /// The state after the remembered entry was overwritten with the edit
    /// buffer.
    pub open spec fn modified(self) -> AppView {
        if self.pattern_index < self.gallery.len() {
            AppView { gallery: self.gallery.update(self.pattern_index as int, self.buffer), ..self }
        } else {
            self
        }
    }

    /// The state after the remembered entry was copied into the edit buffer.
    /// Where there is no such entry, the buffer becomes empty and valid.
    pub open spec fn loaded(self) -> AppView {
        if self.pattern_index < self.gallery.len() {
            AppView { buffer: self.gallery[self.pattern_index as int], ..self }
        } else {
            AppView { buffer: EntryView::empty(), ..self }
        }
    }

    /// The state after a move of the selection over the gallery.
    pub open spec fn selected(self, direction: SymbolDirection) -> AppView {
        let len = self.gallery.len();
        AppView {
            viewport: match direction {
                SymbolDirection::Left => self.viewport.selected_left(len),
                SymbolDirection::Right => self.viewport.selected_right(len),
                SymbolDirection::Up => self.viewport.selected_up(len),
                SymbolDirection::Down => self.viewport.selected_down(len),
            },
            ..self
        }
    }

    /// The state after a command.
    pub open spec fn after(self, command: Command) -> AppView {
        let len = self.gallery.len();
        match command {
            Command::Quit => AppView { running: false, ..self },
            Command::MoveCursor(direction) => AppView {
                cursor: self.cursor.moved(direction),
                ..self
            },
            Command::Edit(edit) => self.edited(edit),
            Command::Commit => self.committed(),
            Command::StepLeft => AppView { viewport: self.viewport.stepped_left(len, 1), ..self },
            Command::StepRight => AppView { viewport: self.viewport.stepped_right(len, 1), ..self },
            Command::Modify => self.modified(),
            Command::Load => self.loaded(),
            Command::SetMode(mode) => AppView { mode, ..self },
            Command::Resize(change) => AppView {
                viewport: self.viewport.resized(len, change),
                ..self
            },
            Command::ToggleValid => self.toggled(),
            Command::Select(direction) => self.selected(direction),
        }
    }

    /// The state after a key press. A key without a command changes nothing.
    pub open spec fn after_key(self, key: Key) -> AppView {
        match command_of(key) {
            Some(command) => self.after(command),
            None => self,
        }
    }

    /// The state after a sequence of commands, from first to last.
    pub open spec fn after_all(self, commands: Seq<Command>) -> AppView
        decreases commands.len(),
    {
        if commands.len() == 0 {
            self
        } else {
            self.after_all(commands.drop_last()).after(commands.last())
        }
    }
}

/// The editor.
#[derive(Debug)]
pub struct App {
    running: bool,
    mode: Mode,
    current_pos: Position,
    data_big: PatternParent,
    patterns: Vec<PatternParent>,
    pattern_index: usize,
    viewport: Viewport,
}

impl View for App {
    type V = AppView;

    closed spec fn view(&self) -> AppView {
        AppView {
            running: self.running,
            mode: self.mode,
            cursor: self.current_pos,
            buffer: self.data_big@,
            gallery: self.patterns@.map_values(|entry: PatternParent| entry@),
            pattern_index: self.pattern_index as nat,
            viewport: self.viewport,
        }
    }
}

impl App {
    /// The state is consistent.
    pub open spec fn wf(&self) -> bool {
        self@.wf()
    }

    /// The editor in its first state: running, in viewing mode, the cursor on
    /// the top left cell, buffer and gallery empty, two rows of two columns.
    pub fn new() -> (r: App)
        ensures
            r@ == AppView::initial(),
            r.wf(),
    {
        let r = App {
            running: true,
            mode: Mode::Viewing,
            current_pos: Position::origin(),
            data_big: PatternParent::new(),
            patterns: Vec::new(),
            pattern_index: 0,
            viewport: Viewport::new(),
        };
        assert(r@.gallery =~= Seq::<EntryView>::empty());
        r
    }

    /// Whether the state is consistent. Every state that `new` and the
    /// commands lead to is.
    pub fn is_consistent(&self) -> (r: bool)
        ensures
            r == self.wf(),
    {
        if self.current_pos.x >= WIDTH || self.current_pos.y >= HEIGHT {
            return false;
        }
        if !self.data_big.is_well_formed() {
            return false;
        }
        let len = self.patterns.len();
        let mut i: usize = 0;
        while i < len
            invariant
                i <= len,
                len == self.patterns@.len(),
                forall|k: int| 0 <= k < i ==> (#[trigger] self@.gallery[k]).wf(),
            decreases len - i,
        {
            if !self.patterns[i].is_well_formed() {
                assert(!self@.gallery[i as int].wf());
                return false;
            }
            i = i + 1;
        }
        if !self.viewport.fits(len) {
            return false;
        }
        if len > 0 {
            self.pattern_index < len
        } else {
            self.pattern_index == 0
        }
    }

    /// The editor has not been told to stop.
    pub fn is_running(&self) -> (r: bool)
        ensures
            r == self@.running,
    {
        self.running
    }

    /// The pattern that cell edits work on.
    pub fn mode(&self) -> (r: Mode)
        ensures
            r == self@.mode,
    {
        self.mode
    }

    /// The cell under the cursor.
    pub fn cursor(&self) -> (r: Position)
        ensures
            r == self@.cursor,
    {
        self.current_pos
    }

    /// The entry that is being written.
    pub fn buffer(&self) -> (r: &PatternParent)
        ensures
            r@ == self@.buffer,
    {
        &self.data_big
    }

    /// The pattern of the edit buffer.
    pub fn active_pattern(&self) -> (r: &Pattern)
        ensures
            r@ == self@.buffer.symbols,
    {
        &self.data_big.data
    }

    /// The pattern of the selected gallery entry.
    pub fn active_viewed_pattern(&self) -> (r: &Pattern)
        requires
            self@.selection_exists(),
        ensures
            r@ == self@.gallery[self@.viewport.selected_index as int].symbols,
    {
        &self.patterns[self.viewport.selected_index].data
    }

    /// The number of committed entries.
    pub fn gallery_len(&self) -> (r: usize)
        ensures
            r == self@.gallery.len(),
    {
        self.patterns.len()
    }

    /// The committed entry at `index`, if there is one.
    pub fn entry(&self, index: usize) -> (r: Option<&PatternParent>)
        ensures
            index < self@.gallery.len() ==> r.is_some() && r.unwrap()@
                == self@.gallery[index as int],
            index >= self@.gallery.len() ==> r.is_none(),
    {
        if index < self.patterns.len() {
            Some(&self.patterns[index])
        } else {
            None
        }
    }

    /// The selected entry of the gallery, if the selection names one.
    pub fn selected_entry(&self) -> (r: Option<&PatternParent>)
        ensures
            self@.selection_exists() ==> r.is_some() && r.unwrap()@
                == self@.gallery[self@.viewport.selected_index as int],
            !self@.selection_exists() ==> r.is_none(),
    {
        self.entry(self.viewport.selected_index)
    }

    /// The index of the entry that was committed last.
    pub fn pattern_index(&self) -> (r: usize)
        ensures
            r == self@.pattern_index,
    {
        self.pattern_index
    }

    /// The window and the selection over the gallery.
    pub fn viewport(&self) -> (r: Viewport)
        ensures
            r == self@.viewport,
    {
        self.viewport
    }

    /// Applies one cell edit under the cursor to the active pattern.
    pub fn edit(&mut self, edit: CellEdit)
        requires
            old(self).wf(),
        ensures
            final(self)@ == old(self)@.edited(edit),
            final(self).wf(),
    {
        match self.mode {
            Mode::Editing => {
                self.data_big.apply(edit, self.current_pos);
            },
            Mode::Viewing => {
                let at = self.viewport.selected_index;
                if at < self.patterns.len() {
                    let ghost before = self.patterns@;
                    assert(self@.gallery[at as int].wf());
                    let entry = &mut self.patterns[at];
                    entry.apply(edit, self.current_pos);
                    assert(self.patterns@ == before.update(at as int, self.patterns@[at as int]));
                    assert(self@.gallery =~= old(self)@.gallery.update(
                        at as int,
                        old(self)@.gallery[at as int].edited(edit, self.current_pos),
                    ));
                }
            },
        }
    }

    /// Flips the tag of the active entry.
    pub fn toggle_valid(&mut self)
        requires
            old(self).wf(),
        ensures
            final(self)@ == old(self)@.toggled(),
            final(self).wf(),
    {
        match self.mode {
            Mode::Editing => {
                self.data_big.toggle_valid();
            },
            Mode::Viewing => {
                let at = self.viewport.selected_index;
                if at < self.patterns.len() {
                    let ghost before = self.patterns@;
                    assert(self@.gallery[at as int].wf());
                    let entry = &mut self.patterns[at];
                    entry.toggle_valid();
                    assert(self.patterns@ == before.update(at as int, self.patterns@[at as int]));
                    assert(self@.gallery =~= old(self)@.gallery.update(
                        at as int,
                        old(self)@.gallery[at as int].toggled(),
                    ));
                }
            },
        }
    }

    /// Appends the edit buffer to the gallery, empties the buffer, and puts
    /// the selection and the end of the window on the new entry.
    pub fn commit(&mut self)
        requires
            old(self).wf(),
        ensures
            final(self)@ == old(self)@.committed(),
            final(self).wf(),
            final(self)@.gallery.len() == old(self)@.gallery.len() + 1,
            final(self)@.gallery.drop_last() == old(self)@.gallery,
            final(self)@.gallery.last() == old(self)@.buffer,
            final(self)@.buffer.symbols.len() == 0,
            final(self)@.buffer.valid,
            final(self)@.viewport.selected_index == old(self)@.gallery.len(),
            final(self)@.viewport.render_end == old(self)@.gallery.len(),
            final(self)@.viewport.selection_visible(),
            final(self)@.pattern_index == old(self)@.gallery.len(),
    {
        save_pattern(self);
        self.pattern_index = self.patterns.len() - 1;
        self.viewport.focus_last(self.patterns.len());
        assert(self@.gallery =~= old(self)@.gallery.push(old(self)@.buffer));
        assert(self@.gallery.drop_last() =~= old(self)@.gallery);
    }

    /// Makes the transition that a command asks for.
    pub fn apply(&mut self, command: Command)
        requires
            old(self).wf(),
        ensures
            final(self)@ == old(self)@.after(command),
            final(self).wf(),
    {
        match command {
            Command::Quit => {
                self.running = false;
            },
            Command::MoveCursor(direction) => {
                self.current_pos = advance(self.current_pos, direction);
            },
            Command::Edit(edit) => {
                self.edit(edit);
            },
            Command::Commit => {
                self.commit();
            },
            Command::StepLeft => {
                step_left(self, 1);
            },
            Command::StepRight => {
                step_right(self, 1);
            },
            Command::Modify => {
                modify_pattern(self);
            },
            Command::Load => {
                set_pattern(self);
            },
            Command::SetMode(mode) => {
                self.mode = mode;
            },
            Command::Resize(change) => {
                self.viewport.resize(self.patterns.len(), change);
            },
            Command::ToggleValid => {
                self.toggle_valid();
            },
            Command::Select(direction) => {
                let len = self.patterns.len();
                match direction {
                    SymbolDirection::Left => self.viewport.select_left(len),
                    SymbolDirection::Right => self.viewport.select_right(len),
                    SymbolDirection::Up => self.viewport.select_up(len),
                    SymbolDirection::Down => self.viewport.select_down(len),
                }
            },
        }
    }
}

/// Appends a copy of the edit buffer to the gallery and empties the buffer.
/// The window is left for the caller to set.
fn save_pattern(app: &mut App)
    requires
        old(app).wf(),
    ensures
        final(app)@ == old(app)@.saved(),
        final(app).patterns@.len() == old(app).patterns@.len() + 1,
        final(app)@.cursor.in_grid(),
        final(app)@.buffer.wf(),
        forall|i: int|
            0 <= i < final(app)@.gallery.len() ==> (#[trigger] final(app)@.gallery[i]).wf(),
        final(app).viewport.shaped(),
{
    let entry = app.data_big.clone();
    app.patterns.push(entry);
    app.data_big = PatternParent::new();
    assert(app@.gallery =~= old(app)@.gallery.push(old(app)@.buffer));
}

/// Moves the window `step_size` entries towards the start of the gallery.
pub fn step_left(app: &mut App, step_size: usize)
    requires
        old(app).wf(),
    ensures
        final(app)@ == (AppView {
            viewport: old(app)@.viewport.stepped_left(
                old(app)@.gallery.len(),
                step_size as nat,
            ),
            ..old(app)@
        }),
        final(app).wf(),
{
    app.viewport.step_left(app.patterns.len(), step_size);
}

/// Moves the window `step_size` entries towards the end of the gallery.
pub fn step_right(app: &mut App, step_size: usize)
    requires
        old(app).wf(),
    ensures
        final(app)@ == (AppView {
            viewport: old(app)@.viewport.stepped_right(
                old(app)@.gallery.len(),
                step_size as nat,
            ),
            ..old(app)@
        }),
        final(app).wf(),
{
    app.viewport.step_right(app.patterns.len(), step_size);
}

/// Overwrites the remembered gallery entry with a copy of the edit buffer.
/// Does nothing while the gallery is empty.
pub fn modify_pattern(app: &mut App)
    requires
        old(app).wf(),
    ensures
        final(app)@ == old(app)@.modified(),
        final(app).wf(),
{
    if app.pattern_index < app.patterns.len() {
        let entry = app.data_big.clone();
        app.patterns.set(app.pattern_index, entry);
        assert(app@.gallery =~= old(app)@.gallery.update(
            app.pattern_index as int,
            old(app)@.buffer,
        ));
    }
}

/// Copies the remembered gallery entry into the edit buffer. While the
/// gallery is empty the buffer becomes empty and valid.
pub fn set_pattern(app: &mut App)
    requires
        old(app).wf(),
    ensures
        final(app)@ == old(app)@.loaded(),
        final(app).wf(),
{
    let next_pattern = if app.pattern_index < app.patterns.len() {
        assert(app@.gallery[app.pattern_index as int].wf());
        app.patterns[app.pattern_index].clone()
    } else {
        PatternParent::new()
    };
    app.data_big = next_pattern;
}

/// Makes the transition that a key press asks for. A key that stands for no
/// command changes nothing.
pub fn on_key_event(app: &mut App, key: Key)
    requires
        old(app).wf(),
    ensures
        final(app)@ == old(app)@.after_key(key),
        final(app).wf(),
{
    match decode(key) {
        Some(command) => app.apply(command),
        None => {},
    }
}

/// A commit appends exactly one entry to the gallery, which holds the symbols
/// and the tag of the edit buffer; the entries before it stay as they were,
/// the edit buffer holds no symbol afterwards, and the selection is on the
/// new entry and inside the window.
pub proof fn lemma_committed(s: AppView)
    requires
        s.wf(),
        s.gallery.len() < usize::MAX,
    ensures
        s.committed().gallery.len() == s.gallery.len() + 1,
        s.committed().gallery.drop_last() == s.gallery,
        s.committed().gallery.last().symbols.len() == s.buffer.symbols.len(),
        s.committed().gallery.last() == s.buffer,
        s.committed().buffer.symbols.len() == 0,
        s.committed().buffer.valid,
        s.committed().viewport.selected_index == s.gallery.len(),
        s.committed().viewport.render_end == s.gallery.len(),
        s.committed().viewport.selection_visible(),
        s.committed().wf(),
{
    let after = s.committed();
    assert(after.gallery.drop_last() =~= s.gallery);
    lemma_focused_on_last(s.viewport, s.gallery.len() + 1);
    assert forall|i: int| 0 <= i < after.gallery.len() implies (
    #[trigger] after.gallery[i]).wf() by {
        if i < s.gallery.len() {
            assert(after.gallery[i] == s.gallery[i]);
        }
    }
}

/// Every command leads from a consistent state to a consistent state. In
/// such a state no pattern, in the edit buffer or in the gallery, holds two
/// symbols on one cell.
pub proof fn lemma_after_wf(s: AppView, command: Command)
    requires
        s.wf(),
        s.gallery.len() < usize::MAX,
    ensures
        s.after(command).wf(),
        s.after(command).gallery.len() == (if command == Command::Commit {
            s.gallery.len() + 1
        } else {
            s.gallery.len()
        }),
{
    let len = s.gallery.len();
    let after = s.after(command);
    match command {
        Command::Quit => {},
        Command::MoveCursor(direction) => {
            lemma_moved_in_grid(s.cursor, direction);
        },
        Command::Edit(edit) => {
            match s.mode {
                Mode::Editing => {
                    lemma_edited(s.buffer.symbols, edit, s.cursor);
                },
                Mode::Viewing => {
                    if s.selection_exists() {
                        let at = s.viewport.selected_index as int;
                        assert(s.gallery[at].wf());
                        lemma_edited(s.gallery[at].symbols, edit, s.cursor);
                        assert forall|i: int| 0 <= i < after.gallery.len() implies (
                        #[trigger] after.gallery[i]).wf() by {
                            if i != at {
                                assert(after.gallery[i] == s.gallery[i]);
                            }
                        }
                    }
                },
            }
        },
        Command::Commit => {
            lemma_committed(s);
        },
        Command::StepLeft => {
            lemma_stepped_left(s.viewport, len, 1);
        },
        Command::StepRight => {
            lemma_stepped_right(s.viewport, len, 1);
        },
        Command::Modify => {
            if s.pattern_index < len {
                assert forall|i: int| 0 <= i < after.gallery.len() implies (
                #[trigger] after.gallery[i]).wf() by {
                    if i != s.pattern_index {
                        assert(after.gallery[i] == s.gallery[i]);
                    }
                }
            }
        },
        Command::Load => {
            if s.pattern_index < len {
                assert(s.gallery[s.pattern_index as int].wf());
            }
        },
        Command::SetMode(_) => {},
        Command::Resize(change) => {
            lemma_resized(s.viewport, len, change);
        },
        Command::ToggleValid => {
            match s.mode {
                Mode::Editing => {},
                Mode::Viewing => {
                    if s.selection_exists() {
                        let at = s.viewport.selected_index as int;
                        assert(s.gallery[at].wf());
                        assert forall|i: int| 0 <= i < after.gallery.len() implies (
                        #[trigger] after.gallery[i]).wf() by {
                            if i != at {
                                assert(after.gallery[i] == s.gallery[i]);
                            }
                        }
                    }
                },
            }
        },
        Command::Select(direction) => {
            if len > 0 {
                lemma_vertical_moves(s.viewport, len);
                lemma_selection_moves(s.viewport, len);
            }
        },
    }
}

/// However many commands are given, and in whatever order, a consistent
/// state stays consistent, as long as the gallery has room for the commits.
pub proof fn lemma_after_all_wf(s: AppView, commands: Seq<Command>)
    requires
        s.wf(),
        s.gallery.len() + commands.len() <= usize::MAX,
    ensures
        s.after_all(commands).wf(),
        s.after_all(commands).gallery.len() <= s.gallery.len() + commands.len(),
    decreases commands.len(),
{
    if commands.len() > 0 {
        lemma_after_all_wf(s, commands.drop_last());
        lemma_after_wf(s.after_all(commands.drop_last()), commands.last());
    }
}

} // verus!
