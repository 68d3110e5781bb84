use pattern_gallery::viewport::{Mark, Resize, Viewport};

fn view(start: usize, end: usize, rows: usize, columns: usize, selected: usize) -> Viewport {
    Viewport {
        render_start: start,
        render_end: end,
        rows,
        columns_per_row: columns,
        selected_index: selected,
    }
}

#[test]
fn a_new_viewport_shows_two_rows_of_two() {
    let v = Viewport::new();
    assert_eq!(v, view(0, 0, 2, 2, 0));
    assert_eq!(v.capacity(), 4);
    assert!(v.fits(0));
    assert!(v.fits(1));
    assert!(!v.fits(2));
}

#[test]
fn capacity_stops_at_the_largest_value() {
    assert_eq!(view(0, 0, 3, 5, 0).capacity(), 15);
    assert_eq!(view(0, 0, usize::MAX, 1, 0).capacity(), usize::MAX);
    assert_eq!(view(0, 0, usize::MAX, 2, 0).capacity(), usize::MAX);
    assert_eq!(view(0, 0, usize::MAX, usize::MAX, 0).capacity(), usize::MAX);
}

#[test]
fn step_right_moves_the_window_to_the_end_and_no_further() {
    let mut v = view(0, 3, 2, 2, 0);
    v.step_right(10, 1);
    assert_eq!(v, view(1, 4, 2, 2, 0));
    v.step_right(10, 2);
    assert_eq!(v, view(3, 6, 2, 2, 0));
    v.step_right(10, 5);
    assert_eq!(v, view(6, 9, 2, 2, 0));
    v.step_right(10, 1);
    assert_eq!(v, view(6, 9, 2, 2, 0));
    v.step_right(10, usize::MAX);
    assert_eq!(v, view(6, 9, 2, 2, 0));
}

#[test]
fn step_left_moves_the_window_to_the_start_and_no_further() {
    let mut v = view(6, 9, 2, 2, 9);
    v.step_left(10, 1);
    assert_eq!(v, view(5, 8, 2, 2, 9));
    v.step_left(10, 2);
    assert_eq!(v, view(3, 6, 2, 2, 9));
    v.step_left(10, 5);
    assert_eq!(v, view(0, 3, 2, 2, 9));
    v.step_left(10, 1);
    assert_eq!(v, view(0, 3, 2, 2, 9));
    v.step_left(10, usize::MAX);
    assert_eq!(v, view(0, 3, 2, 2, 9));
}

#[test]
fn a_small_gallery_fills_a_part_of_the_window() {
    let mut v = view(0, 2, 2, 2, 2);
    assert!(v.fits(3));
    v.step_left(3, 1);
    assert_eq!(v, view(0, 2, 2, 2, 2));
    v.step_right(3, 1);
    assert_eq!(v, view(0, 2, 2, 2, 2));
}

#[test]
fn steps_do_nothing_on_an_empty_gallery() {
    let mut v = Viewport::new();
    v.step_left(0, 1);
    assert_eq!(v, Viewport::new());
    v.step_right(0, 1);
    assert_eq!(v, Viewport::new());
    v.select_left(0);
    v.select_right(0);
    v.select_up(0);
    v.select_down(0);
    assert_eq!(v, Viewport::new());
}

#[test]
fn the_shape_changes_on_an_empty_gallery_too() {
    let mut v = Viewport::new();
    v.resize(0, Resize::MoreRows);
    assert_eq!(v, view(0, 0, 3, 2, 0));
    v.resize(0, Resize::MoreColumns);
    assert_eq!(v, view(0, 0, 3, 3, 0));
    v.resize(0, Resize::FewerRows);
    v.resize(0, Resize::FewerColumns);
    assert_eq!(v, view(0, 0, 2, 2, 0));
    assert!(v.fits(0));
}

#[test]
fn the_grid_keeps_one_row_and_one_column() {
    let mut v = Viewport::new();
    v.resize(0, Resize::FewerRows);
    assert_eq!(v.rows, 1);
    v.resize(0, Resize::FewerRows);
    assert_eq!(v.rows, 1);
    v.resize(0, Resize::FewerColumns);
    assert_eq!(v.columns_per_row, 1);
    v.resize(0, Resize::FewerColumns);
    assert_eq!(v.columns_per_row, 1);
    assert_eq!(v.capacity(), 1);
}

#[test]
fn a_count_at_the_largest_value_stays_there() {
    let mut v = view(0, 0, usize::MAX, usize::MAX, 0);
    v.resize(0, Resize::MoreRows);
    v.resize(0, Resize::MoreColumns);
    assert_eq!(v, view(0, 0, usize::MAX, usize::MAX, 0));
    v.resize(0, Resize::FewerRows);
    assert_eq!(v.rows, usize::MAX - 1);
}

#[test]
fn resize_sets_the_window_right() {
    let mut v = view(3, 6, 2, 2, 6);
    assert!(v.fits(10));
    v.resize(10, Resize::MoreRows);
    assert_eq!(v, view(1, 6, 3, 2, 6));
    assert!(v.fits(10));
    v.resize(10, Resize::MoreColumns);
    assert_eq!(v, view(0, 8, 3, 3, 6));
    assert!(v.fits(10));
    v.resize(10, Resize::MoreRows);
    assert_eq!(v, view(0, 9, 4, 3, 6));
    assert!(v.fits(10));
    v.resize(10, Resize::FewerRows);
    assert_eq!(v, view(0, 8, 3, 3, 6));
    v.resize(10, Resize::FewerColumns);
    assert_eq!(v, view(3, 8, 3, 2, 6));
    v.resize(10, Resize::FewerRows);
    assert_eq!(v, view(5, 8, 2, 2, 6));
    assert!(v.fits(10));
}

#[test]
fn a_window_at_the_end_moves_one_entry_back_on_resize() {
    let mut v = view(6, 9, 2, 2, 9);
    v.resize(10, Resize::MoreRows);
    assert_eq!(v, view(3, 8, 3, 2, 9));
    assert!(v.fits(10));
    assert_eq!(v.mark(9), Mark::Outside);
}

#[test]
fn focus_last_puts_selection_and_window_on_the_new_entry() {
    let mut v = Viewport::new();
    v.focus_last(1);
    assert_eq!(v, view(0, 0, 2, 2, 0));
    v.focus_last(2);
    assert_eq!(v, view(0, 1, 2, 2, 1));
    v.focus_last(5);
    assert_eq!(v, view(1, 4, 2, 2, 4));
    assert!(v.fits(5));
    assert_eq!(v.mark(4), Mark::Selected);
}

#[test]
fn a_step_can_leave_the_selection_behind() {
    let mut v = view(1, 4, 2, 2, 4);
    assert!(v.fits(5));
    assert_eq!(v.mark(4), Mark::Selected);
    v.step_left(5, 1);
    assert_eq!(v, view(0, 3, 2, 2, 4));
    assert!(v.fits(5));
    assert_eq!(v.mark(4), Mark::Outside);
    let mut w = view(0, 3, 2, 2, 0);
    w.step_right(5, 1);
    assert_eq!(w, view(1, 4, 2, 2, 0));
    assert_eq!(w.mark(0), Mark::Outside);
}

#[test]
fn left_stays_on_the_row() {
    let mut v = view(0, 5, 2, 3, 5);
    v.select_left(7);
    assert_eq!(v.selected_index, 4);
    v.select_left(7);
    assert_eq!(v.selected_index, 3);
    v.select_left(7);
    assert_eq!(v.selected_index, 3);
    let mut w = view(0, 5, 2, 3, 0);
    w.select_left(7);
    assert_eq!(w.selected_index, 0);
    let mut single = view(0, 1, 2, 1, 1);
    single.select_left(7);
    assert_eq!(single.selected_index, 1);
}

#[test]
fn right_stays_on_the_row() {
    let mut v = view(0, 5, 2, 3, 3);
    v.select_right(7);
    assert_eq!(v.selected_index, 4);
    v.select_right(7);
    assert_eq!(v.selected_index, 5);
    v.select_right(7);
    assert_eq!(v.selected_index, 5);
    let mut single = view(0, 1, 2, 1, 0);
    single.select_right(7);
    assert_eq!(single.selected_index, 0);
    let mut last = view(0, 0, 1, 2, usize::MAX);
    last.select_right(7);
    assert_eq!(last.selected_index, usize::MAX);
}

#[test]
fn right_can_pass_the_end_of_a_short_last_row() {
    let mut v = view(1, 6, 2, 3, 6);
    v.select_right(7);
    assert_eq!(v.selected_index, 7);
    v.select_right(7);
    assert_eq!(v.selected_index, 8);
    v.select_right(7);
    assert_eq!(v.selected_index, 8);
    assert_eq!(v.render_start, 1);
    assert_eq!(v.render_end, 6);
}

#[test]
fn down_is_refused_on_a_short_last_row() {
    let mut v = view(1, 6, 2, 3, 6);
    v.select_down(7);
    assert_eq!(v, view(1, 6, 2, 3, 6));
    let mut w = view(1, 6, 2, 3, 4);
    w.select_down(7);
    assert_eq!(w, view(1, 6, 2, 3, 4));
    let mut u = view(1, 6, 2, 3, 5);
    u.select_down(7);
    assert_eq!(u, view(1, 6, 2, 3, 5));
}

#[test]
fn down_keeps_the_column() {
    let mut v = view(0, 5, 2, 3, 3);
    assert_eq!(3 % 3, 6 % 3);
    v.select_down(7);
    assert_eq!(v.selected_index, 6);
    assert_eq!(v, view(1, 6, 2, 3, 6));
    let mut w = view(0, 5, 2, 3, 1);
    w.select_down(7);
    assert_eq!(w, view(0, 5, 2, 3, 4));
    let mut far = view(0, 0, 1, 2, usize::MAX - 1);
    far.select_down(1);
    assert_eq!(far.selected_index, usize::MAX - 1);
}

#[test]
fn down_pulls_the_window_one_row_on() {
    let mut v = view(0, 3, 2, 2, 2);
    v.select_down(10);
    assert_eq!(v, view(2, 5, 2, 2, 4));
    v.select_down(10);
    assert_eq!(v, view(4, 7, 2, 2, 6));
    v.select_down(10);
    assert_eq!(v, view(6, 9, 2, 2, 8));
    v.select_down(10);
    assert_eq!(v, view(6, 9, 2, 2, 8));
}

#[test]
fn up_keeps_the_column_and_pulls_the_window_back() {
    let mut v = view(6, 9, 2, 2, 7);
    v.select_up(10);
    assert_eq!(v, view(4, 7, 2, 2, 5));
    v.select_up(10);
    assert_eq!(v, view(2, 5, 2, 2, 3));
    v.select_up(10);
    assert_eq!(v, view(0, 3, 2, 2, 1));
    v.select_up(10);
    assert_eq!(v, view(0, 3, 2, 2, 1));
    let mut w = view(0, 3, 2, 2, 0);
    w.select_up(10);
    assert_eq!(w, view(0, 3, 2, 2, 0));
}

#[test]
fn up_pulls_the_window_back_to_a_selection_before_it() {
    let mut v = view(3, 6, 2, 2, 1);
    v.select_up(10);
    assert_eq!(v, view(1, 4, 2, 2, 1));
    v.select_up(10);
    assert_eq!(v, view(1, 4, 2, 2, 1));
}

#[test]
fn marks_tell_window_and_selection() {
    let v = view(2, 5, 2, 2, 3);
    assert_eq!(v.mark(0), Mark::Outside);
    assert_eq!(v.mark(1), Mark::Outside);
    assert_eq!(v.mark(2), Mark::Shown);
    assert_eq!(v.mark(3), Mark::Selected);
    assert_eq!(v.mark(5), Mark::Shown);
    assert_eq!(v.mark(6), Mark::Outside);
    let w = view(2, 5, 2, 2, 7);
    assert_eq!(w.mark(7), Mark::Outside);
}

#[test]
fn the_visible_range_ends_with_the_gallery() {
    assert_eq!(view(2, 5, 2, 2, 3).visible_range(10), (2, 6));
    assert_eq!(view(0, 2, 2, 2, 0).visible_range(3), (0, 3));
    assert_eq!(Viewport::new().visible_range(0), (0, 0));
    assert_eq!(Viewport::new().visible_range(1), (0, 1));
    assert_eq!(view(5, 9, 2, 2, 0).visible_range(3), (3, 3));
    assert_eq!(view(0, usize::MAX, 2, 2, 0).visible_range(3), (0, 3));
}

#[test]
fn entries_are_drawn_row_by_row() {
    let v = view(0, 5, 2, 3, 0);
    assert_eq!(v.cell_of(0), (0, 0));
    assert_eq!(v.cell_of(1), (0, 1));
    assert_eq!(v.cell_of(2), (0, 2));
    assert_eq!(v.cell_of(3), (1, 0));
    assert_eq!(v.cell_of(5), (1, 2));
    let (start, end) = v.visible_range(6);
    for index in start..end {
        let (row, column) = v.cell_of(index - start);
        assert!(row < v.rows && column < v.columns_per_row);
    }
}

#[test]
fn fits_tells_a_fitting_window() {
    assert!(view(1, 4, 2, 2, 4).fits(5));
    assert!(view(0, 3, 2, 2, 4).fits(5));
    assert!(view(0, 2, 2, 2, 0).fits(3));
    assert!(!view(0, 2, 2, 2, 0).fits(4));
    assert!(!view(1, 4, 2, 2, 4).fits(4));
    assert!(!view(2, 4, 2, 2, 4).fits(5));
    assert!(!view(4, 3, 2, 2, 4).fits(5));
    assert!(!view(1, 4, 0, 2, 4).fits(5));
    assert!(!view(1, 4, 2, 0, 4).fits(5));
    assert!(!view(0, 0, 2, 2, 1).fits(0));
    assert!(!view(0, 1, 2, 2, 0).fits(0));
    assert!(view(0, 4, usize::MAX, usize::MAX, 0).fits(5));
}

#[test]
fn the_window_fits_after_every_step_and_resize() {
    let len = 23;
    let mut v = Viewport::new();
    v.focus_last(len);
    let mut seed: u64 = 99;
    for _ in 0..3000 {
        seed = seed.wrapping_mul(6364136223846793005).wrapping_add(1442695040888963407);
        let step = ((seed >> 20) % 7) as usize;
        match (seed >> 40) % 10 {
            0 => v.step_left(len, step),
            1 => v.step_right(len, step),
            2 => v.resize(len, Resize::MoreRows),
            3 => v.resize(len, Resize::FewerRows),
            4 => v.resize(len, Resize::MoreColumns),
            5 => v.resize(len, Resize::FewerColumns),
            6 => v.select_left(len),
            7 => v.select_right(len),
            8 => v.select_up(len),
            _ => v.select_down(len),
        }
        assert!(v.rows >= 1 && v.columns_per_row >= 1);
        assert!(v.render_start <= v.render_end && v.render_end < len);
        assert_eq!(v.render_end - v.render_start + 1, v.capacity().min(len));
        assert!(v.fits(len));
    }
}

#[test]
fn vertical_moves_keep_the_selection_in_the_window() {
    let len = 31;
    let mut v = Viewport::new();
    v.focus_last(len);
    v.resize(len, Resize::MoreColumns);
    v.step_right(len, 1);
    assert_eq!(v.mark(v.selected_index), Mark::Selected);
    let mut seed: u64 = 7;
    for _ in 0..2000 {
        seed = seed.wrapping_mul(6364136223846793005).wrapping_add(1442695040888963407);
        if (seed >> 40) % 2 == 0 {
            v.select_up(len);
        } else {
            v.select_down(len);
        }
        assert!(v.fits(len));
        assert_eq!(v.mark(v.selected_index), Mark::Selected);
        assert!(v.selected_index < len);
    }
}
