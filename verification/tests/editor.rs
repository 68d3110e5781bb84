use pattern_gallery::app::{modify_pattern, on_key_event, set_pattern, step_left, step_right, App};
use pattern_gallery::grid::Position;
use pattern_gallery::key::{Command, Key, Mode};
use pattern_gallery::pattern::Pattern;
use pattern_gallery::symbol::{Datos, PyramidType, SymbolColor, SymbolSize};
use pattern_gallery::viewport::{Mark, Viewport};

fn at(x: usize, y: usize) -> Position {
    Position::new(x, y).unwrap()
}

fn press(app: &mut App, keys: &str) {
    for c in keys.chars() {
        on_key_event(app, Key::Char(c));
    }
}

fn view(start: usize, end: usize, rows: usize, columns: usize, selected: usize) -> Viewport {
    Viewport {
        render_start: start,
        render_end: end,
        rows,
        columns_per_row: columns,
        selected_index: selected,
    }
}

fn no_cell_twice(p: &Pattern) -> bool {
    for i in 0..p.0.len() {
        for j in 0..i {
            if p.0[i].pos == p.0[j].pos {
                return false;
            }
        }
    }
    true
}

fn with_entries(count: usize) -> App {
    let mut app = App::new();
    for _ in 0..count {
        on_key_event(&mut app, Key::Enter);
    }
    app
}

#[test]
fn the_editor_starts_empty_in_viewing_mode() {
    let app = App::new();
    assert!(app.is_running());
    assert_eq!(app.mode(), Mode::Viewing);
    assert_eq!(app.cursor(), at(0, 0));
    assert_eq!(app.active_pattern().len(), 0);
    assert!(app.buffer().is_valid());
    assert_eq!(app.gallery_len(), 0);
    assert!(app.entry(0).is_none());
    assert!(app.selected_entry().is_none());
    assert_eq!(app.pattern_index(), 0);
    assert_eq!(app.viewport(), view(0, 0, 2, 2, 0));
    assert!(app.is_consistent());
}

#[test]
fn commit_moves_the_buffer_into_the_gallery() {
    let mut app = App::new();
    on_key_event(&mut app, Key::Char('e'));
    assert_eq!(app.mode(), Mode::Editing);
    on_key_event(&mut app, Key::Right);
    on_key_event(&mut app, Key::Down);
    assert_eq!(app.cursor(), at(1, 1));
    on_key_event(&mut app, Key::Char('r'));
    assert_eq!(app.active_pattern().len(), 1);
    assert_eq!(
        app.active_pattern().get(0),
        Some(Datos {
            pos: at(1, 1),
            pyramid_type: PyramidType::Straight,
            color: SymbolColor::Blue,
            size: SymbolSize::Medium,
        })
    );
    assert_eq!(app.gallery_len(), 0);
    on_key_event(&mut app, Key::Char('r'));
    assert_eq!(
        app.active_pattern().symbol_at(at(1, 1)).map(|d| d.pyramid_type),
        Some(PyramidType::Angled)
    );
    on_key_event(&mut app, Key::Enter);
    assert_eq!(app.gallery_len(), 1);
    let entry = app.entry(0).unwrap();
    assert_eq!(entry.pattern().len(), 1);
    assert_eq!(
        entry.pattern().get(0),
        Some(Datos {
            pos: at(1, 1),
            pyramid_type: PyramidType::Angled,
            color: SymbolColor::Blue,
            size: SymbolSize::Medium,
        })
    );
    assert!(entry.is_valid());
    assert_eq!(app.active_pattern().len(), 0);
    assert!(app.buffer().is_valid());
    assert_eq!(app.viewport(), view(0, 0, 2, 2, 0));
    assert_eq!(app.pattern_index(), 0);
    assert!(app.is_consistent());
}

#[test]
fn commit_appends_one_entry_with_all_symbols_of_the_buffer() {
    let mut app = with_entries(2);
    press(&mut app, "er");
    on_key_event(&mut app, Key::Right);
    press(&mut app, "rc");
    on_key_event(&mut app, Key::Down);
    press(&mut app, "rs");
    press(&mut app, "i");
    assert_eq!(app.active_pattern().len(), 3);
    let symbols: Vec<Datos> = app.active_pattern().0.clone();
    on_key_event(&mut app, Key::Enter);
    assert_eq!(app.gallery_len(), 3);
    assert_eq!(app.entry(0).unwrap().pattern().len(), 0);
    assert_eq!(app.entry(1).unwrap().pattern().len(), 0);
    assert_eq!(app.entry(2).unwrap().pattern().len(), 3);
    assert_eq!(app.entry(2).unwrap().pattern().0, symbols);
    assert!(!app.entry(2).unwrap().is_valid());
    assert_eq!(app.active_pattern().len(), 0);
    assert!(app.buffer().is_valid());
    assert_eq!(app.viewport().selected_index, 2);
    assert_eq!(app.viewport().render_end, 2);
    assert_eq!(app.pattern_index(), 2);
    assert!(app.is_consistent());
}

#[test]
fn commits_move_window_and_selection_to_the_new_entry() {
    let mut app = App::new();
    let expected = [
        view(0, 0, 2, 2, 0),
        view(0, 1, 2, 2, 1),
        view(0, 2, 2, 2, 2),
        view(0, 3, 2, 2, 3),
        view(1, 4, 2, 2, 4),
        view(2, 5, 2, 2, 5),
    ];
    for (count, v) in expected.iter().enumerate() {
        on_key_event(&mut app, Key::Enter);
        assert_eq!(app.gallery_len(), count + 1);
        assert_eq!(app.viewport(), *v);
        assert_eq!(app.viewport().mark(count), Mark::Selected);
        assert_eq!(app.pattern_index(), count);
        assert!(app.is_consistent());
    }
}

#[test]
fn quit_stops_the_editor() {
    let mut app = App::new();
    on_key_event(&mut app, Key::Esc);
    assert!(!app.is_running());
    let mut other = App::new();
    press(&mut other, "q");
    assert!(!other.is_running());
    assert_eq!(other.gallery_len(), 0);
}

#[test]
fn keys_without_a_command_change_nothing() {
    let mut app = with_entries(3);
    press(&mut app, "er");
    let before = (app.viewport(), app.cursor(), app.mode(), app.gallery_len());
    on_key_event(&mut app, Key::Other);
    press(&mut app, "xyzQ0 ");
    assert_eq!((app.viewport(), app.cursor(), app.mode(), app.gallery_len()), before);
    assert_eq!(app.active_pattern().len(), 1);
    assert!(app.is_running());
}

#[test]
fn the_cursor_moves_over_the_torus() {
    let mut app = App::new();
    on_key_event(&mut app, Key::Left);
    assert_eq!(app.cursor(), at(2, 0));
    on_key_event(&mut app, Key::Up);
    assert_eq!(app.cursor(), at(2, 2));
    on_key_event(&mut app, Key::Right);
    assert_eq!(app.cursor(), at(0, 2));
    on_key_event(&mut app, Key::Down);
    assert_eq!(app.cursor(), at(0, 0));
    for _ in 0..3 {
        on_key_event(&mut app, Key::Right);
    }
    assert_eq!(app.cursor(), at(0, 0));
}

#[test]
fn edits_in_viewing_mode_go_to_the_selected_entry() {
    let mut app = with_entries(3);
    assert_eq!(app.mode(), Mode::Viewing);
    assert_eq!(app.viewport().selected_index, 2);
    press(&mut app, "rcs");
    assert_eq!(app.active_pattern().len(), 0);
    assert_eq!(app.entry(0).unwrap().pattern().len(), 0);
    assert_eq!(app.entry(1).unwrap().pattern().len(), 0);
    assert_eq!(
        app.entry(2).unwrap().pattern().get(0),
        Some(Datos {
            pos: at(0, 0),
            pyramid_type: PyramidType::Straight,
            color: SymbolColor::Yellow,
            size: SymbolSize::Large,
        })
    );
    assert_eq!(app.active_viewed_pattern().len(), 1);
    press(&mut app, "A");
    assert_eq!(app.viewport().selected_index, 2);
    press(&mut app, "W");
    assert_eq!(app.viewport().selected_index, 0);
    press(&mut app, "r");
    assert_eq!(app.entry(0).unwrap().pattern().len(), 1);
    assert_eq!(app.selected_entry().unwrap().pattern().len(), 1);
    on_key_event(&mut app, Key::Backspace);
    assert_eq!(app.entry(0).unwrap().pattern().len(), 0);
    assert_eq!(app.entry(2).unwrap().pattern().len(), 1);
    assert!(app.is_consistent());
}

#[test]
fn clear_in_editing_mode_goes_to_the_buffer() {
    let mut app = with_entries(1);
    press(&mut app, "r");
    press(&mut app, "er");
    assert_eq!(app.active_pattern().len(), 1);
    on_key_event(&mut app, Key::Backspace);
    assert_eq!(app.active_pattern().len(), 0);
    assert_eq!(app.entry(0).unwrap().pattern().len(), 1);
    on_key_event(&mut app, Key::Backspace);
    assert_eq!(app.active_pattern().len(), 0);
    assert_eq!(app.entry(0).unwrap().pattern().len(), 1);
}

#[test]
fn edits_in_viewing_mode_need_a_selected_entry() {
    let mut app = App::new();
    press(&mut app, "rcsi");
    on_key_event(&mut app, Key::Backspace);
    assert_eq!(app.active_pattern().len(), 0);
    assert!(app.buffer().is_valid());
    assert_eq!(app.gallery_len(), 0);
    assert!(app.is_consistent());
}

#[test]
fn the_tag_of_the_active_entry_is_flipped() {
    let mut app = with_entries(2);
    press(&mut app, "i");
    assert!(app.entry(0).unwrap().is_valid());
    assert!(!app.entry(1).unwrap().is_valid());
    assert!(app.buffer().is_valid());
    press(&mut app, "ei");
    assert!(!app.buffer().is_valid());
    assert!(!app.entry(1).unwrap().is_valid());
    press(&mut app, "i");
    assert!(app.buffer().is_valid());
    press(&mut app, "vi");
    assert!(app.entry(1).unwrap().is_valid());
}

#[test]
fn a_commit_resets_the_tag_of_the_buffer() {
    let mut app = App::new();
    press(&mut app, "ei");
    assert!(!app.buffer().is_valid());
    on_key_event(&mut app, Key::Enter);
    assert!(!app.entry(0).unwrap().is_valid());
    assert!(app.buffer().is_valid());
}

#[test]
fn stepping_keys_move_the_window_by_one() {
    let mut app = with_entries(6);
    assert_eq!(app.viewport(), view(2, 5, 2, 2, 5));
    press(&mut app, "a");
    assert_eq!(app.viewport(), view(1, 4, 2, 2, 5));
    press(&mut app, "aaa");
    assert_eq!(app.viewport(), view(0, 3, 2, 2, 5));
    press(&mut app, "d");
    assert_eq!(app.viewport(), view(1, 4, 2, 2, 5));
    press(&mut app, "ddd");
    assert_eq!(app.viewport(), view(2, 5, 2, 2, 5));
    step_left(&mut app, 2);
    assert_eq!(app.viewport(), view(0, 3, 2, 2, 5));
    step_right(&mut app, 7);
    assert_eq!(app.viewport(), view(2, 5, 2, 2, 5));
    assert!(app.is_consistent());
}

#[test]
fn commands_on_an_empty_gallery_do_nothing() {
    let mut app = App::new();
    press(&mut app, "adADWSm");
    step_left(&mut app, 3);
    step_right(&mut app, 3);
    modify_pattern(&mut app);
    assert_eq!(app.viewport(), view(0, 0, 2, 2, 0));
    assert_eq!(app.gallery_len(), 0);
    press(&mut app, ".,");
    assert_eq!(app.viewport(), view(0, 0, 3, 3, 0));
    press(&mut app, "><><><");
    assert_eq!(app.viewport(), view(0, 0, 1, 1, 0));
    assert!(app.is_consistent());
}

#[test]
fn modify_overwrites_the_entry_committed_last() {
    let mut app = App::new();
    press(&mut app, "er");
    on_key_event(&mut app, Key::Enter);
    on_key_event(&mut app, Key::Right);
    press(&mut app, "rrc");
    on_key_event(&mut app, Key::Enter);
    assert_eq!(app.pattern_index(), 1);
    press(&mut app, "rsi");
    let symbols: Vec<Datos> = app.active_pattern().0.clone();
    press(&mut app, "m");
    assert_eq!(app.gallery_len(), 2);
    assert_eq!(app.entry(0).unwrap().pattern().len(), 1);
    assert_eq!(app.entry(0).unwrap().pattern().get(0).unwrap().pos, at(0, 0));
    assert_eq!(app.entry(1).unwrap().pattern().0, symbols);
    assert!(!app.entry(1).unwrap().is_valid());
    assert_eq!(app.active_pattern().0, symbols);
    assert!(!app.buffer().is_valid());
    assert_eq!(app.viewport(), view(0, 1, 2, 2, 1));
    assert!(app.is_consistent());
}

#[test]
fn load_copies_the_entry_committed_last() {
    let mut app = App::new();
    press(&mut app, "erci");
    on_key_event(&mut app, Key::Enter);
    assert_eq!(app.active_pattern().len(), 0);
    press(&mut app, "r");
    on_key_event(&mut app, Key::Down);
    press(&mut app, "r");
    assert_eq!(app.active_pattern().len(), 2);
    set_pattern(&mut app);
    assert_eq!(app.active_pattern().len(), 1);
    assert_eq!(
        app.active_pattern().get(0),
        Some(Datos {
            pos: at(0, 0),
            pyramid_type: PyramidType::Straight,
            color: SymbolColor::Yellow,
            size: SymbolSize::Medium,
        })
    );
    assert!(!app.buffer().is_valid());
    assert_eq!(app.gallery_len(), 1);
    app.apply(Command::Load);
    assert_eq!(app.active_pattern().len(), 1);
    assert!(app.is_consistent());
}

#[test]
fn load_empties_the_buffer_while_the_gallery_is_empty() {
    let mut app = App::new();
    press(&mut app, "eri");
    assert_eq!(app.active_pattern().len(), 1);
    assert!(!app.buffer().is_valid());
    set_pattern(&mut app);
    assert_eq!(app.active_pattern().len(), 0);
    assert!(app.buffer().is_valid());
}

#[test]
fn down_on_a_short_last_row() {
    let mut app = with_entries(7);
    press(&mut app, ",");
    assert_eq!(app.viewport(), view(0, 5, 2, 3, 6));
    press(&mut app, "S");
    assert_eq!(app.viewport().selected_index, 6);
    assert_eq!(app.viewport(), view(1, 6, 2, 3, 6));
    press(&mut app, "W");
    assert_eq!(app.viewport().selected_index, 3);
    assert_eq!(app.viewport(), view(1, 6, 2, 3, 3));
    press(&mut app, "S");
    assert_eq!(app.viewport().selected_index, 6);
    assert_eq!(app.viewport(), view(1, 6, 2, 3, 6));
    press(&mut app, "WD");
    assert_eq!(app.viewport().selected_index, 4);
    press(&mut app, "S");
    assert_eq!(app.viewport().selected_index, 4);
    press(&mut app, "DS");
    assert_eq!(app.viewport().selected_index, 5);
    assert!(app.is_consistent());
}

#[test]
fn a_selection_past_the_end_names_no_entry() {
    let mut app = with_entries(7);
    press(&mut app, ",");
    press(&mut app, "D");
    assert_eq!(app.viewport().selected_index, 7);
    assert!(app.selected_entry().is_none());
    press(&mut app, "rcsi");
    on_key_event(&mut app, Key::Backspace);
    for index in 0..7 {
        assert_eq!(app.entry(index).unwrap().pattern().len(), 0);
        assert!(app.entry(index).unwrap().is_valid());
    }
    assert_eq!(app.active_pattern().len(), 0);
    press(&mut app, "D");
    assert_eq!(app.viewport().selected_index, 8);
    press(&mut app, "D");
    assert_eq!(app.viewport().selected_index, 8);
    press(&mut app, "AA");
    assert_eq!(app.viewport().selected_index, 6);
    assert!(app.selected_entry().is_some());
    assert!(app.is_consistent());
}

#[test]
fn resizing_keys_keep_the_window_fitted() {
    let mut app = with_entries(10);
    assert_eq!(app.viewport(), view(6, 9, 2, 2, 9));
    press(&mut app, ".");
    assert_eq!(app.viewport(), view(3, 8, 3, 2, 9));
    press(&mut app, ",");
    assert_eq!(app.viewport(), view(0, 8, 3, 3, 9));
    press(&mut app, ".");
    assert_eq!(app.viewport(), view(0, 9, 4, 3, 9));
    press(&mut app, ">");
    assert_eq!(app.viewport(), view(0, 8, 3, 3, 9));
    press(&mut app, "<");
    assert_eq!(app.viewport(), view(3, 8, 3, 2, 9));
    press(&mut app, ">>>>");
    assert_eq!(app.viewport(), view(7, 8, 1, 2, 9));
    press(&mut app, "<<");
    assert_eq!(app.viewport(), view(8, 8, 1, 1, 9));
    assert!(app.is_consistent());
}

#[test]
fn no_sequence_of_keys_breaks_the_state() {
    let keys = [
        Key::Esc,
        Key::Left,
        Key::Right,
        Key::Up,
        Key::Down,
        Key::Backspace,
        Key::Enter,
        Key::Other,
        Key::Char('r'),
        Key::Char('c'),
        Key::Char('s'),
        Key::Char('a'),
        Key::Char('d'),
        Key::Char('m'),
        Key::Char('e'),
        Key::Char('v'),
        Key::Char('>'),
        Key::Char('<'),
        Key::Char('.'),
        Key::Char(','),
        Key::Char('i'),
        Key::Char('A'),
        Key::Char('D'),
        Key::Char('W'),
        Key::Char('S'),
        Key::Char('r'),
        Key::Char('r'),
        Key::Char('x'),
    ];
    let mut app = App::new();
    let mut seed: u64 = 2024;
    for round in 0..4000 {
        seed = seed.wrapping_mul(6364136223846793005).wrapping_add(1442695040888963407);
        let key = keys[((seed >> 33) % keys.len() as u64) as usize];
        let before = app.gallery_len();
        on_key_event(&mut app, key);
        let grown = key == Key::Enter && app.gallery_len() == before + 1;
        assert!(app.gallery_len() == before || grown);
        assert!(no_cell_twice(app.active_pattern()));
        for index in 0..app.gallery_len() {
            assert!(no_cell_twice(app.entry(index).unwrap().pattern()));
        }
        let v = app.viewport();
        assert!(v.rows >= 1 && v.columns_per_row >= 1);
        if app.gallery_len() > 0 {
            assert!(v.render_start <= v.render_end && v.render_end < app.gallery_len());
            assert_eq!(v.render_end - v.render_start + 1, v.capacity().min(app.gallery_len()));
            assert!(app.pattern_index() < app.gallery_len());
        }
        if round % 50 == 0 {
            assert!(app.is_consistent());
        }
    }
    assert!(app.is_consistent());
    assert!(!app.is_running());
}
