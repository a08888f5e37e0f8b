use ratatui_table::{TableSelection, TableState};

#[test]
fn new() {
    let state = TableState::new();
    assert_eq!(state.offset, 0);
    assert_eq!(state.selection, None);
}

#[test]
fn with_offset() {
    assert_eq!(TableState::new().with_offset(1).offset, 1);
}

#[test]
fn with_selected_row_some() {
    let s = TableState::new().with_selected_row(Some(1));
    assert_eq!(s.selection, Some(TableSelection::Row(1)));
}

#[test]
fn with_selected_row_preserves_column() {
    let s = TableState::new()
        .with_selected_column(Some(2))
        .with_selected_row(Some(1));
    assert_eq!(
        s.selection,
        Some(TableSelection::Cell { row: 1, column: 2 })
    );
}

#[test]
fn with_selected_row_none_does_not_reset_offset() {
    // Builder must not route through select_row — offset must stay put.
    let s = TableState::new().with_offset(5).with_selected_row(None);
    assert_eq!(s.offset, 5);
    assert_eq!(s.selection, None);
}

#[test]
fn with_selected_column_some() {
    let s = TableState::new().with_selected_column(Some(1));
    assert_eq!(s.selection, Some(TableSelection::Column(1)));
}

#[test]
fn with_selected_column_preserves_row() {
    let s = TableState::new()
        .with_selected_row(Some(3))
        .with_selected_column(Some(1));
    assert_eq!(
        s.selection,
        Some(TableSelection::Cell { row: 3, column: 1 })
    );
}

#[test]
fn with_selected_cell_some() {
    let s = TableState::new().with_selected_cell(Some((1, 5)));
    assert_eq!(
        s.selection,
        Some(TableSelection::Cell { row: 1, column: 5 })
    );
}

#[test]
fn with_selected_cell_none() {
    let s = TableState::new().with_offset(4).with_selected_cell(None);
    assert_eq!(s.selection, None);
    // with_selected_cell(None) clears selection but does NOT reset offset
    assert_eq!(s.offset, 4);
}

#[test]
fn with_selection_replaces_whole() {
    let sel = TableSelection::Cell { row: 2, column: 3 };
    let s = TableState::new().with_selection(Some(sel));
    assert_eq!(s.selection, Some(sel));
}

#[test]
fn offset_getter_and_mut() {
    let mut s = TableState::new();
    assert_eq!(s.offset(), 0);
    *s.offset_mut() = 5;
    assert_eq!(s.offset(), 5);
}

#[test]
fn selection_getter_and_mut() {
    let mut s = TableState::new();
    assert_eq!(s.selection(), None);
    *s.selection_mut() = Some(TableSelection::Row(7));
    assert_eq!(s.selection(), Some(TableSelection::Row(7)));
}

#[test]
fn selected_row_only() {
    let s = TableState::new().with_selected_row(Some(3));
    assert_eq!(s.selected_row(), Some(3));
    assert_eq!(s.selected_column(), None);
    assert_eq!(s.selected_cell(), None);
}

#[test]
fn selected_column_only() {
    let s = TableState::new().with_selected_column(Some(2));
    assert_eq!(s.selected_row(), None);
    assert_eq!(s.selected_column(), Some(2));
    assert_eq!(s.selected_cell(), None);
}

#[test]
fn selected_cell_getters() {
    let s = TableState::new().with_selected_cell(Some((4, 7)));
    assert_eq!(s.selected_row(), Some(4));
    assert_eq!(s.selected_column(), Some(7));
    assert_eq!(s.selected_cell(), Some((4, 7)));
}

#[test]
fn select_row_from_none() {
    let mut s = TableState::new();
    s.select_row(Some(2));
    assert_eq!(s.selection, Some(TableSelection::Row(2)));
}

#[test]
fn select_row_upgrades_to_cell() {
    let mut s = TableState::new().with_selected_column(Some(3));
    s.select_row(Some(1));
    assert_eq!(
        s.selection,
        Some(TableSelection::Cell { row: 1, column: 3 })
    );
}

#[test]
fn select_row_none_from_cell_keeps_column() {
    let mut s = TableState::new().with_selected_cell(Some((2, 4)));
    s.select_row(None);
    assert_eq!(s.selection, Some(TableSelection::Column(4)));
    assert_eq!(s.offset, 0);
}

#[test]
fn select_row_none_from_row_clears() {
    let mut s = TableState::new().with_selected_row(Some(5)).with_offset(3);
    s.select_row(None);
    assert_eq!(s.selection, None);
    assert_eq!(s.offset, 0);
}

#[test]
fn select_column_from_none() {
    let mut s = TableState::new();
    s.select_column(Some(2));
    assert_eq!(s.selection, Some(TableSelection::Column(2)));
}

#[test]
fn select_column_upgrades_to_cell() {
    let mut s = TableState::new().with_selected_row(Some(5));
    s.select_column(Some(2));
    assert_eq!(
        s.selection,
        Some(TableSelection::Cell { row: 5, column: 2 })
    );
}

#[test]
fn select_column_none_from_cell_keeps_row() {
    let mut s = TableState::new().with_selected_cell(Some((3, 7)));
    s.select_column(None);
    assert_eq!(s.selection, Some(TableSelection::Row(3)));
}

#[test]
fn select_column_none_does_not_reset_offset() {
    let mut s = TableState::new()
        .with_offset(5)
        .with_selected_column(Some(2));
    s.select_column(None);
    assert_eq!(s.offset, 5);
}

#[test]
fn select_cell_and_clear() {
    let mut s = TableState::new();
    s.select_cell(Some((1, 5)));
    assert_eq!(s.selected_cell(), Some((1, 5)));
    s.select_cell(None);
    assert_eq!(s.selection, None);
    assert_eq!(s.offset, 0);
}

#[test]
fn set_selection_replaces_whole() {
    let mut s = TableState::new().with_selected_row(Some(10)).with_offset(3);
    s.set_selection(Some(TableSelection::Column(3)));
    assert_eq!(s.selection, Some(TableSelection::Column(3)));
    assert_eq!(s.selected_row(), None);
    // set_selection never touches offset
    assert_eq!(s.offset, 3);
}

#[test]
fn navigation_rows() {
    let mut s = TableState::new();

    s.select_first_row();
    assert_eq!(s.selected_row(), Some(0));

    s.select_previous_row(); // saturates at 0
    assert_eq!(s.selected_row(), Some(0));

    s.select_next_row();
    assert_eq!(s.selected_row(), Some(1));

    s.select_last_row();
    assert_eq!(s.selected_row(), Some(usize::MAX));

    s.select_next_row(); // saturates at usize::MAX
    assert_eq!(s.selected_row(), Some(usize::MAX));

    s.select_previous_row();
    assert_eq!(s.selected_row(), Some(usize::MAX - 1));
}

#[test]
fn select_next_row_from_empty() {
    let mut s = TableState::new();
    s.select_next_row();
    assert_eq!(s.selected_row(), Some(0));
}

#[test]
fn select_previous_row_from_empty() {
    let mut s = TableState::new();
    s.select_previous_row();
    assert_eq!(s.selected_row(), Some(usize::MAX));
}

#[test]
fn first_last_row_preserve_column() {
    let mut s = TableState::new().with_selected_column(Some(4));
    s.select_first_row();
    assert_eq!(
        s.selection,
        Some(TableSelection::Cell { row: 0, column: 4 })
    );
    s.select_last_row();
    assert_eq!(
        s.selection,
        Some(TableSelection::Cell {
            row: usize::MAX,
            column: 4
        })
    );
}

#[test]
fn navigation_columns() {
    let mut s = TableState::new();

    s.select_first_column();
    assert_eq!(s.selected_column(), Some(0));

    s.select_previous_column(); // saturates at 0
    assert_eq!(s.selected_column(), Some(0));

    s.select_next_column();
    assert_eq!(s.selected_column(), Some(1));

    s.select_last_column();
    assert_eq!(s.selected_column(), Some(usize::MAX));

    s.select_previous_column();
    assert_eq!(s.selected_column(), Some(usize::MAX - 1));
}

#[test]
fn first_last_column_preserve_row() {
    let mut s = TableState::new().with_selected_row(Some(2));
    s.select_first_column();
    assert_eq!(
        s.selection,
        Some(TableSelection::Cell { row: 2, column: 0 })
    );
    s.select_last_column();
    assert_eq!(
        s.selection,
        Some(TableSelection::Cell {
            row: 2,
            column: usize::MAX
        })
    );
}

#[test]
fn scroll_down_up() {
    let mut s = TableState::new();
    s.select_row(Some(2));
    s.scroll_down_by(4);
    assert_eq!(s.selected_row(), Some(6));

    s.scroll_up_by(4);
    assert_eq!(s.selected_row(), Some(2));

    s.scroll_up_by(10); // saturates at 0
    assert_eq!(s.selected_row(), Some(0));
}

#[test]
fn scroll_right_left() {
    let mut s = TableState::new().with_selected_column(Some(12));
    s.scroll_right_by(4);
    assert_eq!(s.selected_column(), Some(16));

    s.scroll_left_by(20); // saturates at 0
    assert_eq!(s.selected_column(), Some(0));

    s.scroll_right_by(100);
    assert_eq!(s.selected_column(), Some(100));

    s.scroll_left_by(20);
    assert_eq!(s.selected_column(), Some(80));
}

#[test]
fn clamp_row() {
    let mut s = TableState::new().with_selected_row(Some(usize::MAX));
    s.clamp(5, 3);
    assert_eq!(s.selected_row(), Some(4));
}

#[test]
fn clamp_column() {
    let mut s = TableState::new().with_selected_column(Some(usize::MAX));
    s.clamp(5, 3);
    assert_eq!(s.selected_column(), Some(2));
}

#[test]
fn clamp_cell() {
    let mut s = TableState::new().with_selected_cell(Some((usize::MAX, usize::MAX)));
    s.clamp(5, 3);
    assert_eq!(s.selected_cell(), Some((4, 2)));
}

#[test]
fn clamp_zero_rows_drops_row_and_resets_offset() {
    let mut s = TableState::new().with_offset(10).with_selected_row(Some(2));
    s.clamp(0, 1);
    assert_eq!(s.selection, None);
    assert_eq!(s.offset, 0);
}

#[test]
fn clamp_zero_rows_demotes_cell_to_column() {
    let mut s = TableState::new().with_selected_cell((2, 1));
    s.clamp(0, 3);
    assert_eq!(s.selection, Some(TableSelection::Column(1)));
}

#[test]
fn clamp_zero_columns_demotes_cell_to_row() {
    let mut s = TableState::new().with_selected_cell((2, 1));
    s.clamp(5, 0);
    assert_eq!(s.selection, Some(TableSelection::Row(2)));
}

#[test]
fn clamp_leaves_offset_alone_when_in_range() {
    let mut s = TableState::new().with_offset(10).with_selected_row(Some(2));
    s.clamp(5, 1);
    assert_eq!(s.offset, 10);
}

#[test]
fn usize_converts_to_row() {
    assert_eq!(TableSelection::from(3), TableSelection::Row(3));
    assert_eq!(Into::<TableSelection>::into(5usize), TableSelection::Row(5));
}

#[test]
fn row_accessor() {
    assert_eq!(TableSelection::Row(2).row(), Some(2));
    assert_eq!(TableSelection::Cell { row: 2, column: 4 }.row(), Some(2));
    assert_eq!(TableSelection::Column(4).row(), None);
}

#[test]
fn column_accessor() {
    assert_eq!(TableSelection::Column(4).column(), Some(4));
    assert_eq!(TableSelection::Cell { row: 2, column: 4 }.column(), Some(4));
    assert_eq!(TableSelection::Row(2).column(), None);
}

/// The builders accept a bare index as well as an `Option`, so call sites need no wrapping.
#[test]
fn builders_accept_bare_indices() {
    let state = TableState::new()
        .with_selected_row(3)
        .with_selected_column(1);
    assert_eq!(state.selected_cell(), Some((3, 1)));
    assert_eq!(
        TableState::new().with_selected_cell((2, 4)).selected_cell(),
        Some((2, 4))
    );
    assert_eq!(
        TableState::new()
            .with_selection(TableSelection::Row(1))
            .selection(),
        Some(TableSelection::Row(1))
    );
}

#[test]
fn deprecated_aliases_match_their_replacements() {
    // Each alias must be observationally identical to the method it forwards to, including
    // the offset reset that `select(None)` performs.
    let mut old = TableState::new().with_selected(2);
    let mut new = TableState::new().with_selected_row(2);
    assert_eq!(old.selected(), new.selected_row());

    for (apply_old, apply_new) in [
        (
            TableState::select_next as fn(&mut TableState),
            TableState::select_next_row as fn(&mut TableState),
        ),
        (TableState::select_previous, TableState::select_previous_row),
        (TableState::select_first, TableState::select_first_row),
        (TableState::select_last, TableState::select_last_row),
    ] {
        apply_old(&mut old);
        apply_new(&mut new);
        assert_eq!(old, new);
    }

    old.select(None);
    new.select_row(None);
    assert_eq!(old, new);
}

