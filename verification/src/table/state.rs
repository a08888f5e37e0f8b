//! The selection and scroll state of a table.
//!
//! A selection has two independent axes, a row and a column; each is either absent or an
//! index. [`TableSelection`] names the three non-empty combinations, and `None` stands for the
//! fourth. Every setter here changes one axis, both axes, or the offset, as its contract states
//! over [`row_of`] and [`column_of`].
use vstd::prelude::*;
use vstd::std_specs::convert::FromSpecImpl;

use crate::convert::converts_to;

verus! {

/// What is currently selected in a table.
///
/// - `Row`: a full row is highlighted; no column is active.
/// - `Column`: a full column is highlighted; no row is active.
/// - `Cell`: a specific (row, column) intersection is highlighted.
///
/// Held by [`TableState`]. Use the component setters on that type (`select_row`,
/// `select_column`) to change one axis at a time, or `set_selection` to replace the whole value.
#[derive(Debug, Clone, Copy, PartialEq, Eq, Structural, Hash)]
pub enum TableSelection {
    /// The row at this index is selected. No column is active.
    Row(usize),
    /// The column at this index is selected. No row is active.
    Column(usize),
    /// The intersection of a row and a column is selected.
    Cell {
        /// Index of the selected row.
        row: usize,
        /// Index of the selected column.
        column: usize,
    },
}

/// The row axis of a possibly empty selection.
pub open spec fn row_of(selection: Option<TableSelection>) -> Option<usize> {
    match selection {
        Some(TableSelection::Row(row)) => Some(row),
        Some(TableSelection::Cell { row, .. }) => Some(row),
        _ => None,
    }
}

/// The column axis of a possibly empty selection.
pub open spec fn column_of(selection: Option<TableSelection>) -> Option<usize> {
    match selection {
        Some(TableSelection::Column(column)) => Some(column),
        Some(TableSelection::Cell { column, .. }) => Some(column),
        _ => None,
    }
}

/// The selection whose row axis is `row` and whose column axis is `column`.
pub open spec fn selection_from_axes(row: Option<usize>, column: Option<usize>) -> Option<
    TableSelection,
> {
    match (row, column) {
        (Some(r), Some(c)) => Some(TableSelection::Cell { row: r, column: c }),
        (Some(r), None) => Some(TableSelection::Row(r)),
        (None, Some(c)) => Some(TableSelection::Column(c)),
        (None, None) => None,
    }
}

/// `index` clamped into `0..count`: dropped when there is nothing to index, else capped at
/// the last index.
pub open spec fn clamped_index(index: Option<usize>, count: usize) -> Option<usize> {
    if count == 0 {
        None
    } else {
        match index {
            Some(i) => Some(
                if i < count {
                    i
                } else {
                    (count - 1) as usize
                },
            ),
            None => None,
        }
    }
}

/// The index after "next": one past `index` (saturating), or 0 when there is none.
pub open spec fn next_index(index: Option<usize>) -> usize {
    match index {
        Some(i) => i.saturating_add(1),
        None => 0,
    }
}

/// The index after "previous": one before `index` (saturating at 0), or `usize::MAX` when
/// there is none.
pub open spec fn previous_index(index: Option<usize>) -> usize {
    match index {
        Some(i) => i.saturating_sub(1),
        None => usize::MAX,
    }
}

/// The index `amount` steps forward from `index` (0 when there is none), saturating.
pub open spec fn index_forward(index: Option<usize>, amount: u16) -> usize {
    match index {
        Some(i) => i.saturating_add(amount as usize),
        None => (0usize).saturating_add(amount as usize),
    }
}

/// The index `amount` steps back from `index` (0 when there is none), saturating at 0.
pub open spec fn index_back(index: Option<usize>, amount: u16) -> usize {
    match index {
        Some(i) => i.saturating_sub(amount as usize),
        None => 0,
    }
}

impl From<usize> for TableSelection {
    /// Converts a bare index to `TableSelection::Row`.
    fn from(value: usize) -> (r: Self) {
        TableSelection::Row(value)
    }
}

impl FromSpecImpl<usize> for TableSelection {
    open spec fn obeys_from_spec() -> bool {
        true
    }

    open spec fn from_spec(v: usize) -> Self {
        TableSelection::Row(v)
    }
}

impl TableSelection {
    /// Returns the row index if this selection includes one.
    pub fn row(&self) -> (r: Option<usize>)
        ensures
            r == row_of(Some(*self)),
    {
        match *self {
            TableSelection::Row(row) => Some(row),
            TableSelection::Cell { row, .. } => Some(row),
            TableSelection::Column(_) => None,
        }
    }

    /// Returns the column index if this selection includes one.
    pub fn column(&self) -> (r: Option<usize>)
        ensures
            r == column_of(Some(*self)),
    {
        match *self {
            TableSelection::Column(column) => Some(column),
            TableSelection::Cell { column, .. } => Some(column),
            TableSelection::Row(_) => None,
        }
    }

    /// Returns a new selection with the row component set to `row`.
    ///
    /// The single place all row-component transition logic lives:
    ///
    /// | current      | `row = Some(r)` | `row = None`  |
    /// |--------------|-----------------|---------------|
    /// | `None`       | `Row(r)`        | `None`        |
    /// | `Row(_)`     | `Row(r)`        | `None`        |
    /// | `Column(c)`  | `Cell{r, c}`    | `Column(c)`   |
    /// | `Cell{_, c}` | `Cell{r, c}`    | `Column(c)`   |
    pub(crate) fn with_row(selection: Option<Self>, row: Option<usize>) -> (r: Option<Self>)
        ensures
            r == selection_from_axes(row, column_of(selection)),
    {
        match row {
            Some(r) => Some(
                match selection {
                    Some(TableSelection::Column(c)) => TableSelection::Cell { row: r, column: c },
                    Some(TableSelection::Cell { column: c, .. }) => TableSelection::Cell {
                        row: r,
                        column: c,
                    },
                    _ => TableSelection::Row(r),
                },
            ),
            None => match selection {
                Some(TableSelection::Column(c)) => Some(TableSelection::Column(c)),
                Some(TableSelection::Cell { column: c, .. }) => Some(TableSelection::Column(c)),
                _ => None,
            },
        }
    }

    /// Returns a new selection with the column component set to `column`.
    ///
    /// Mirror image of `with_row`:
    ///
    /// | current      | `column = Some(c)` | `column = None` |
    /// |--------------|--------------------|-----------------|
    /// | `None`       | `Column(c)`        | `None`          |
    /// | `Row(r)`     | `Cell{r, c}`       | `Row(r)` (kept) |
    /// | `Column(_)`  | `Column(c)`        | `None`          |
    /// | `Cell{r, _}` | `Cell{r, c}`       | `Row(r)`        |
    pub(crate) fn with_column(selection: Option<Self>, column: Option<usize>) -> (r: Option<Self>)
        ensures
            r == selection_from_axes(row_of(selection), column),
    {
        match column {
            Some(c) => Some(
                match selection {
                    Some(TableSelection::Row(r)) => TableSelection::Cell { row: r, column: c },
                    Some(TableSelection::Cell { row: r, .. }) => TableSelection::Cell {
                        row: r,
                        column: c,
                    },
                    _ => TableSelection::Column(c),
                },
            ),
            None => match selection {
                Some(TableSelection::Row(r)) => Some(TableSelection::Row(r)),
                Some(TableSelection::Cell { row: r, .. }) => Some(TableSelection::Row(r)),
                _ => None,
            },
        }
    }
}

/// State of a table widget.
///
/// This state can be used to scroll through the rows and select one of them. When the table is
/// rendered, the selected row, column and cell are highlighted and the table is shifted so that
/// the selected row is visible.
///
/// The state consists of two fields:
/// - `offset`: the index of the first row to be displayed
/// - `selection`: what is selected (a row, a column, or a cell) or `None`
///
/// Every accessor names the axis it acts on. `selected_row` and `selected_column` read one
/// component out of the selection; `selection` returns the whole [`TableSelection`]. The
/// unqualified `selected`/`select` names are aliases of the row-axis methods.
#[derive(Debug, Clone, Copy, PartialEq, Eq, Structural, Hash)]
pub struct TableState {
    /// Index of the first row to be displayed.
    pub offset: usize,
    /// What is selected, if anything.
    pub selection: Option<TableSelection>,
}

impl TableState {
    /// The state that `select_row(row)` leaves behind: the row axis becomes `row`, the column
    /// axis stays, and clearing the row also scrolls back to the top.
    pub open spec fn after_select_row(self, row: Option<usize>) -> TableState {
        TableState {
            offset: if row is None {
                0
            } else {
                self.offset
            },
            selection: selection_from_axes(row, column_of(self.selection)),
        }
    }

    /// The state that `select_column(column)` leaves behind: the column axis becomes
    /// `column`, the row axis and the offset stay.
    pub open spec fn after_select_column(self, column: Option<usize>) -> TableState {
        TableState {
            offset: self.offset,
            selection: selection_from_axes(row_of(self.selection), column),
        }
    }

    /// The state that `select_cell(indexes)` leaves behind.
    pub open spec fn after_select_cell(self, indexes: Option<(usize, usize)>) -> TableState {
        match indexes {
            Some((row, column)) => TableState {
                offset: self.offset,
                selection: Some(TableSelection::Cell { row, column }),
            },
            None => TableState { offset: 0, selection: None },
        }
    }

    /// The state that `clamp(row_count, column_count)` leaves behind: each axis is clamped
    /// into its range (and dropped when the range is empty); losing every row also scrolls
    /// back to the top.
    pub open spec fn after_clamp(self, row_count: usize, column_count: usize) -> TableState {
        TableState {
            offset: if row_count == 0 {
                0
            } else {
                self.offset
            },
            selection: selection_from_axes(
                clamped_index(row_of(self.selection), row_count),
                clamped_index(column_of(self.selection), column_count),
            ),
        }
    }
}

impl Default for TableState {
    /// No selection, offset 0.
    fn default() -> (r: Self)
        ensures
            r.offset == 0,
            r.selection is None,
    {
        TableState { offset: 0, selection: None }
    }
}

impl TableState {
    /// Creates a new `TableState` with no selection and offset 0.
    pub fn new() -> (r: Self)
        ensures
            r.offset == 0,
            r.selection is None,
    {
        TableState { offset: 0, selection: None }
    }

    /// Sets the index of the first row to be displayed (fluent).
    #[must_use]
    pub fn with_offset(self, offset: usize) -> (r: Self)
        ensures
            r.offset == offset,
            r.selection == self.selection,
    {
        let mut s = self;
        s.offset = offset;
        s
    }

    /// Sets the selected row, preserving any existing column selection (fluent).
    ///
    /// Assigns the selection directly: does **not** reset `offset` even when passed `None`.
    /// Use `select_row` if you need the offset reset on deselection.
    #[must_use]
    pub fn with_selected_row<T>(self, selected: T) -> (r: Self) where T: Into<Option<usize>>
        ensures
            exists|row: Option<usize>|
                #[trigger] converts_to(selected, row) && r == (TableState {
                    offset: self.offset,
                    selection: selection_from_axes(row, column_of(self.selection)),
                }),
    {
        let row: Option<usize> = selected.into();
        let mut s = self;
        s.selection = TableSelection::with_row(s.selection, row);
        assert(converts_to(selected, row));
        s
    }

    /// Sets the selected column, preserving any existing row selection (fluent).
    ///
    /// Assigns the selection directly: never resets `offset`.
    #[must_use]
    pub fn with_selected_column<T>(self, selected: T) -> (r: Self) where T: Into<Option<usize>>
        ensures
            exists|column: Option<usize>|
                #[trigger] converts_to(selected, column) && r == (TableState {
                    offset: self.offset,
                    selection: selection_from_axes(row_of(self.selection), column),
                }),
    {
        let column: Option<usize> = selected.into();
        let mut s = self;
        s.selection = TableSelection::with_column(s.selection, column);
        assert(converts_to(selected, column));
        s
    }

    /// Sets the selected cell by (row, column) pair (fluent).
    ///
    /// Passing `None` clears both axes. Does **not** reset `offset`; use `select_cell` if you
    /// need that.
    #[must_use]
    pub fn with_selected_cell<T>(self, selected: T) -> (r: Self) where
        T: Into<Option<(usize, usize)>>,
        ensures
            exists|cell: Option<(usize, usize)>|
                #[trigger] converts_to(selected, cell) && r == (TableState {
                    offset: self.offset,
                    selection: match cell {
                        Some((row, column)) => Some(TableSelection::Cell { row, column }),
                        None => None,
                    },
                }),
    {
        let cell: Option<(usize, usize)> = selected.into();
        let mut s = self;
        s.selection = match cell {
            Some((row, column)) => Some(TableSelection::Cell { row, column }),
            None => None,
        };
        assert(converts_to(selected, cell));
        s
    }

    /// Replaces the whole selection (fluent).
    ///
    /// Does **not** preserve either axis. Does **not** reset `offset`.
    #[must_use]
    pub fn with_selection<T>(self, selection: T) -> (r: Self) where
        T: Into<Option<TableSelection>>,
        ensures
            exists|new_selection: Option<TableSelection>|
                #[trigger] converts_to(selection, new_selection) && r == (TableState {
                    offset: self.offset,
                    selection: new_selection,
                }),
    {
        let new_selection: Option<TableSelection> = selection.into();
        let mut s = self;
        s.selection = new_selection;
        assert(converts_to(selection, new_selection));
        s
    }

    /// Index of the first row to be displayed.
    pub fn offset(&self) -> (r: usize)
        ensures
            r == self.offset,
    {
        self.offset
    }

    /// Mutable reference to the index of the first row to be displayed.
    pub fn offset_mut(&mut self) -> (r: &mut usize)
        ensures
            *r == old(self).offset,
            final(self).offset == *final(r),
            final(self).selection == old(self).selection,
    {
        &mut self.offset
    }

    /// The full selection, or `None` if nothing is selected.
    pub fn selection(&self) -> (r: Option<TableSelection>)
        ensures
            r == self.selection,
    {
        self.selection
    }

    /// Mutable reference to the full selection.
    ///
    /// Prefer the component setters for single-axis changes; reach for this only when
    /// replacing the entire value in one assignment.
    pub fn selection_mut(&mut self) -> (r: &mut Option<TableSelection>)
        ensures
            *r == old(self).selection,
            final(self).selection == *final(r),
            final(self).offset == old(self).offset,
    {
        &mut self.selection
    }

    /// Selected row index, or `None` if no row is part of the current selection.
    ///
    /// Returns `None` for a column-only selection.
    pub fn selected_row(&self) -> (r: Option<usize>)
        ensures
            r == row_of(self.selection),
    {
        match self.selection {
            Some(selection) => selection.row(),
            None => None,
        }
    }

    /// Selected column index, or `None` if no column is part of the current selection.
    ///
    /// Returns `None` for a row-only selection.
    pub fn selected_column(&self) -> (r: Option<usize>)
        ensures
            r == column_of(self.selection),
    {
        match self.selection {
            Some(selection) => selection.column(),
            None => None,
        }
    }

    /// Selected (row, column) pair, or `None` if the selection is not a `Cell`.
    ///
    /// Returns `None` for row-only and column-only selections.
    pub fn selected_cell(&self) -> (r: Option<(usize, usize)>)
        ensures
            r == (match self.selection {
                Some(TableSelection::Cell { row, column }) => Some((row, column)),
                _ => None,
            }),
    {
        match self.selection {
            Some(TableSelection::Cell { row, column }) => Some((row, column)),
            _ => None,
        }
    }

    /// Replaces the whole selection.
    ///
    /// Does **not** preserve either axis and does **not** reset `offset`.
    pub fn set_selection<T>(&mut self, selection: T) where T: Into<Option<TableSelection>>
        ensures
            exists|new_selection: Option<TableSelection>|
                #[trigger] converts_to(selection, new_selection) && *final(self) == (TableState {
                    offset: old(self).offset,
                    selection: new_selection,
                }),
    {
        let new_selection: Option<TableSelection> = selection.into();
        self.selection = new_selection;
        assert(converts_to(selection, new_selection));
    }

    /// Sets the selected row, preserving any existing column selection.
    ///
    /// This is a *component* setter: it changes the row axis and leaves the column axis
    /// alone, so it can never produce a `Column` out of `Some`. Passing `None` clears the row
    /// axis, which demotes a cell selection to column-only, and resets `offset` to 0.
    ///
    /// | current      | `row = Some(r)` | `row = None` |
    /// |--------------|-----------------|--------------|
    /// | `None`       | `Row(r)`        | `None`       |
    /// | `Row(_)`     | `Row(r)`        | `None`       |
    /// | `Column(c)`  | `Cell{r, c}`    | `Column(c)`  |
    /// | `Cell{_, c}` | `Cell{r, c}`    | `Column(c)`  |
    pub fn select_row(&mut self, row: Option<usize>)
        ensures
            *final(self) == old(self).after_select_row(row),
    {
        if row.is_none() {
            self.offset = 0;
        }
        self.selection = TableSelection::with_row(self.selection, row);
    }

    /// Sets the selected column, preserving any existing row selection.
    ///
    /// The mirror image of `select_row`, except that it does **not** reset `offset`: the
    /// column axis does not affect vertical scrolling.
    pub fn select_column(&mut self, column: Option<usize>)
        ensures
            *final(self) == old(self).after_select_column(column),
    {
        self.selection = TableSelection::with_column(self.selection, column);
    }

    /// Sets the selected cell by (row, column) pair.
    ///
    /// Passing `None` clears both axes and resets `offset` to 0.
    pub fn select_cell(&mut self, indexes: Option<(usize, usize)>)
        ensures
            *final(self) == old(self).after_select_cell(indexes),
    {
        if let Some((row, column)) = indexes {
            self.selection = Some(TableSelection::Cell { row, column });
        } else {
            self.offset = 0;
            self.selection = None;
        }
    }

    /// Selects the next row, or row 0 if no row is currently selected.
    ///
    /// The index may exceed the actual row count; it is clamped on the next render.
    pub fn select_next_row(&mut self)
        ensures
            *final(self) == old(self).after_select_row(
                Some(next_index(row_of(old(self).selection))),
            ),
    {
        let next = match self.selected_row() {
            Some(i) => i.saturating_add(1),
            None => 0,
        };
        self.select_row(Some(next));
    }

    /// Selects the previous row, or `usize::MAX` (clamped on render) if no row is selected.
    pub fn select_previous_row(&mut self)
        ensures
            *final(self) == old(self).after_select_row(
                Some(previous_index(row_of(old(self).selection))),
            ),
    {
        let prev = match self.selected_row() {
            Some(i) => i.saturating_sub(1),
            None => usize::MAX,
        };
        self.select_row(Some(prev));
    }

    /// Selects the next column, or column 0 if no column is currently selected.
    ///
    /// The index may exceed the actual column count; it is clamped on the next render.
    pub fn select_next_column(&mut self)
        ensures
            *final(self) == old(self).after_select_column(
                Some(next_index(column_of(old(self).selection))),
            ),
    {
        let next = match self.selected_column() {
            Some(i) => i.saturating_add(1),
            None => 0,
        };
        self.select_column(Some(next));
    }

    /// Selects the previous column, or `usize::MAX` (clamped on render) if no column is
    /// selected.
    pub fn select_previous_column(&mut self)
        ensures
            *final(self) == old(self).after_select_column(
                Some(previous_index(column_of(old(self).selection))),
            ),
    {
        let prev = match self.selected_column() {
            Some(i) => i.saturating_sub(1),
            None => usize::MAX,
        };
        self.select_column(Some(prev));
    }

    /// Selects the first row (index 0), preserving any existing column selection.
    pub fn select_first_row(&mut self)
        ensures
            *final(self) == old(self).after_select_row(Some(0)),
    {
        self.selection = TableSelection::with_row(self.selection, Some(0));
    }

    /// Selects the last row (`usize::MAX`, clamped on render), preserving any column
    /// selection.
    pub fn select_last_row(&mut self)
        ensures
            *final(self) == old(self).after_select_row(Some(usize::MAX)),
    {
        self.selection = TableSelection::with_row(self.selection, Some(usize::MAX));
    }

    /// Selects the first column (index 0), preserving any existing row selection.
    pub fn select_first_column(&mut self)
        ensures
            *final(self) == old(self).after_select_column(Some(0)),
    {
        self.selection = TableSelection::with_column(self.selection, Some(0));
    }

    /// Selects the last column (`usize::MAX`, clamped on render), preserving any row
    /// selection.
    pub fn select_last_column(&mut self)
        ensures
            *final(self) == old(self).after_select_column(Some(usize::MAX)),
    {
        self.selection = TableSelection::with_column(self.selection, Some(usize::MAX));
    }

    /// Moves the row selection down by `amount`, saturating at `usize::MAX`.
    pub fn scroll_down_by(&mut self, amount: u16)
        ensures
            *final(self) == old(self).after_select_row(
                Some(index_forward(row_of(old(self).selection), amount)),
            ),
    {
        let current = match self.selected_row() {
            Some(i) => i,
            None => 0,
        };
        let next = current.saturating_add(amount as usize);
        self.select_row(Some(next));
    }

    /// Moves the row selection up by `amount`, saturating at 0.
    pub fn scroll_up_by(&mut self, amount: u16)
        ensures
            *final(self) == old(self).after_select_row(
                Some(index_back(row_of(old(self).selection), amount)),
            ),
    {
        let current = match self.selected_row() {
            Some(i) => i,
            None => 0,
        };
        let prev = current.saturating_sub(amount as usize);
        self.select_row(Some(prev));
    }

    /// Moves the column selection right by `amount`, saturating at `usize::MAX`.
    pub fn scroll_right_by(&mut self, amount: u16)
        ensures
            *final(self) == old(self).after_select_column(
                Some(index_forward(column_of(old(self).selection), amount)),
            ),
    {
        let current = match self.selected_column() {
            Some(i) => i,
            None => 0,
        };
        let next = current.saturating_add(amount as usize);
        self.select_column(Some(next));
    }

    /// Moves the column selection left by `amount`, saturating at 0.
    pub fn scroll_left_by(&mut self, amount: u16)
        ensures
            *final(self) == old(self).after_select_column(
                Some(index_back(column_of(old(self).selection), amount)),
            ),
    {
        let current = match self.selected_column() {
            Some(i) => i,
            None => 0,
        };
        let prev = current.saturating_sub(amount as usize);
        self.select_column(Some(prev));
    }

    /// Alias of `selected_row`; prefer `selected_row`. Behaves exactly as it does.
    pub fn selected(&self) -> (r: Option<usize>)
        ensures
            r == row_of(self.selection),
    {
        self.selected_row()
    }

    /// Alias of `select_row`; prefer `select_row`. Behaves exactly as it does.
    pub fn select(&mut self, index: Option<usize>)
        ensures
            *final(self) == old(self).after_select_row(index),
    {
        self.select_row(index);
    }

    /// Alias of `with_selected_row`; prefer `with_selected_row`. Behaves exactly as it does.
    #[must_use]
    pub fn with_selected<T>(self, selected: T) -> (r: Self) where T: Into<Option<usize>>
        ensures
            exists|row: Option<usize>|
                #[trigger] converts_to(selected, row) && r == (TableState {
                    offset: self.offset,
                    selection: selection_from_axes(row, column_of(self.selection)),
                }),
    {
        self.with_selected_row(selected)
    }

    /// Alias of `select_next_row`; prefer `select_next_row`. Behaves exactly as it does.
    pub fn select_next(&mut self)
        ensures
            *final(self) == old(self).after_select_row(
                Some(next_index(row_of(old(self).selection))),
            ),
    {
        self.select_next_row();
    }

    /// Alias of `select_previous_row`; prefer `select_previous_row`. Behaves exactly as it does.
    pub fn select_previous(&mut self)
        ensures
            *final(self) == old(self).after_select_row(
                Some(previous_index(row_of(old(self).selection))),
            ),
    {
        self.select_previous_row();
    }

    /// Alias of `select_first_row`; prefer `select_first_row`. Behaves exactly as it does.
    pub fn select_first(&mut self)
        ensures
            *final(self) == old(self).after_select_row(Some(0)),
    {
        self.select_first_row();
    }

    /// Alias of `select_last_row`; prefer `select_last_row`. Behaves exactly as it does.
    pub fn select_last(&mut self)
        ensures
            *final(self) == old(self).after_select_row(Some(usize::MAX)),
    {
        self.select_last_row();
    }

    /// Clamps the selection to valid indices and adjusts the offset.
    ///
    /// Called by the renderer once it knows `row_count` and `column_count`. Indices past the
    /// end (such as the `usize::MAX` that `select_last_row` / `select_last_column` write) are
    /// rewritten to the actual last index. Zero rows or columns drop that axis entirely: a
    /// `Cell` demotes rather than vanishing, and dropping the row axis resets the offset.
    pub fn clamp(&mut self, row_count: usize, column_count: usize)
        ensures
            *final(self) == old(self).after_clamp(row_count, column_count),
    {
        if row_count == 0 {
            self.select_row(None);
        } else {
            let last = row_count - 1;
            let row = match self.selected_row() {
                Some(row) => Some(
                    if row < last {
                        row
                    } else {
                        last
                    },
                ),
                None => None,
            };
            self.selection = TableSelection::with_row(self.selection, row);
        }
        if column_count == 0 {
            self.select_column(None);
        } else {
            let last = column_count - 1;
            let column = match self.selected_column() {
                Some(column) => Some(
                    if column < last {
                        column
                    } else {
                        last
                    },
                ),
                None => None,
            };
            self.selection = TableSelection::with_column(self.selection, column);
        }
    }
}

/// A selection is determined by its two axes: rebuilding it from its row and column gives it
/// back.
pub proof fn lemma_axes_determine_selection(selection: Option<TableSelection>)
    ensures
        selection_from_axes(row_of(selection), column_of(selection)) == selection,
{
}

/// Every pair of axes is the pair of exactly one selection: the selection built from `row` and
/// `column` has that row and that column.
pub proof fn lemma_selection_has_its_axes(row: Option<usize>, column: Option<usize>)
    ensures
        row_of(selection_from_axes(row, column)) == row,
        column_of(selection_from_axes(row, column)) == column,
{
}

/// `select_row` is a component setter: the row axis becomes `row`, the column axis is kept, a
/// row given as `Some` never leaves a column-only selection, and the offset is reset exactly
/// when the row is cleared.
pub proof fn lemma_select_row_sets_only_the_row(state: TableState, row: Option<usize>)
    ensures
        row_of(state.after_select_row(row).selection) == row,
        column_of(state.after_select_row(row).selection) == column_of(state.selection),
        row is Some ==> !(state.after_select_row(row).selection matches Some(
            TableSelection::Column(_),
        )),
        state.after_select_row(row).offset == (if row is None {
            0
        } else {
            state.offset
        }),
{
}

/// `select_column` is a component setter: the column axis becomes `column`, the row axis and
/// the offset are kept, and a column given as `Some` never leaves a row-only selection.
pub proof fn lemma_select_column_sets_only_the_column(state: TableState, column: Option<usize>)
    ensures
        column_of(state.after_select_column(column).selection) == column,
        row_of(state.after_select_column(column).selection) == row_of(state.selection),
        column is Some ==> !(state.after_select_column(column).selection matches Some(
            TableSelection::Row(_),
        )),
        state.after_select_column(column).offset == state.offset,
{
}

/// Setting the row and setting the column commute, and together they give the selection made
/// of those two axes.
pub proof fn lemma_row_and_column_setters_commute(
    state: TableState,
    row: Option<usize>,
    column: Option<usize>,
)
    ensures
        state.after_select_row(row).after_select_column(column) == state.after_select_column(
            column,
        ).after_select_row(row),
        state.after_select_row(row).after_select_column(column).selection == selection_from_axes(
            row,
            column,
        ),
{
}

/// Of two row selections in a row, the second decides the selection; the offset is reset if
/// either of them cleared the row.
pub proof fn lemma_last_row_selection_wins(state: TableState, first: Option<usize>, second: Option<usize>)
    ensures
        state.after_select_row(first).after_select_row(second).selection == state.after_select_row(
            second,
        ).selection,
        state.after_select_row(first).after_select_row(second).offset == (if first is None
            || second is None {
            0
        } else {
            state.offset
        }),
{
}

/// Of two column selections in a row, the second one alone decides the outcome.
pub proof fn lemma_last_column_selection_wins(
    state: TableState,
    first: Option<usize>,
    second: Option<usize>,
)
    ensures
        state.after_select_column(first).after_select_column(second) == state.after_select_column(
            second,
        ),
{
}

/// Selecting the row or column that is already selected changes nothing.
pub proof fn lemma_reselecting_is_a_no_op(state: TableState)
    ensures
        row_of(state.selection) is Some ==> state.after_select_row(row_of(state.selection))
            == state,
        state.after_select_column(column_of(state.selection)) == state,
{
}

/// After `clamp`, every selected index lies inside the table, an axis survives exactly when it
/// was selected and its range is not empty, and the offset is reset exactly when there are no
/// rows.
pub proof fn lemma_clamp_fits_the_table(state: TableState, row_count: usize, column_count: usize)
    ensures
        row_of(state.after_clamp(row_count, column_count).selection) matches Some(r) ==> r
            < row_count,
        column_of(state.after_clamp(row_count, column_count).selection) matches Some(c) ==> c
            < column_count,
        row_of(state.after_clamp(row_count, column_count).selection) is Some <==> (row_count > 0
            && row_of(state.selection) is Some),
        column_of(state.after_clamp(row_count, column_count).selection) is Some <==> (column_count
            > 0 && column_of(state.selection) is Some),
        state.after_clamp(row_count, column_count).offset == (if row_count == 0 {
            0
        } else {
            state.offset
        }),
{
}

/// A selection that already fits the table is left alone by `clamp`, offset included, as long
/// as the table has rows.
pub proof fn lemma_clamp_keeps_what_fits(state: TableState, row_count: usize, column_count: usize)
    requires
        row_count > 0,
        row_of(state.selection) matches Some(r) ==> r < row_count,
        column_of(state.selection) matches Some(c) ==> c < column_count,
    ensures
        state.after_clamp(row_count, column_count) == state,
{
}

/// Clamping twice to the same table is clamping once.
pub proof fn lemma_clamp_is_idempotent(state: TableState, row_count: usize, column_count: usize)
    ensures
        state.after_clamp(row_count, column_count).after_clamp(row_count, column_count)
            == state.after_clamp(row_count, column_count),
{
}

/// Moving to the next row and then back to the previous one returns to the starting state,
/// unless the row was already at `usize::MAX`, where "next" saturates.
pub proof fn lemma_next_then_previous_row(state: TableState)
    requires
        row_of(state.selection) matches Some(i) && i < usize::MAX,
    ensures
        ({
            let moved = state.after_select_row(Some(next_index(row_of(state.selection))));
            moved.after_select_row(Some(previous_index(row_of(moved.selection)))) == state
        }),
{
}

/// Moving to the previous row and then to the next one returns to the starting state, unless
/// the row was already 0, where "previous" saturates.
pub proof fn lemma_previous_then_next_row(state: TableState)
    requires
        row_of(state.selection) matches Some(i) && i > 0,
    ensures
        ({
            let moved = state.after_select_row(Some(previous_index(row_of(state.selection))));
            moved.after_select_row(Some(next_index(row_of(moved.selection)))) == state
        }),
{
}

/// Moving to the next column and back returns to the starting state, unless the column was
/// already at `usize::MAX`.
pub proof fn lemma_next_then_previous_column(state: TableState)
    requires
        column_of(state.selection) matches Some(i) && i < usize::MAX,
    ensures
        ({
            let moved = state.after_select_column(Some(next_index(column_of(state.selection))));
            moved.after_select_column(Some(previous_index(column_of(moved.selection)))) == state
        }),
{
}

/// Moving to the previous column and back returns to the starting state, unless the column
/// was already 0.
pub proof fn lemma_previous_then_next_column(state: TableState)
    requires
        column_of(state.selection) matches Some(i) && i > 0,
    ensures
        ({
            let moved = state.after_select_column(
                Some(previous_index(column_of(state.selection))),
            );
            moved.after_select_column(Some(next_index(column_of(moved.selection)))) == state
        }),
{
}

/// Scrolling down by `amount` and up by the same amount returns to the starting state when a
/// row is selected and the way down does not saturate.
pub proof fn lemma_scroll_down_then_up(state: TableState, amount: u16)
    requires
        row_of(state.selection) matches Some(i) && i + amount <= usize::MAX,
    ensures
        ({
            let moved = state.after_select_row(Some(index_forward(row_of(state.selection), amount)));
            moved.after_select_row(Some(index_back(row_of(moved.selection), amount))) == state
        }),
{
}

/// Scrolling up by `amount` and down by the same amount returns to the starting state when a
/// row at least `amount` from the top is selected.
pub proof fn lemma_scroll_up_then_down(state: TableState, amount: u16)
    requires
        row_of(state.selection) matches Some(i) && i >= amount,
    ensures
        ({
            let moved = state.after_select_row(Some(index_back(row_of(state.selection), amount)));
            moved.after_select_row(Some(index_forward(row_of(moved.selection), amount))) == state
        }),
{
}

/// Scrolling right and then left by the same amount returns to the starting state when a
/// column is selected and the way right does not saturate.
pub proof fn lemma_scroll_right_then_left(state: TableState, amount: u16)
    requires
        column_of(state.selection) matches Some(i) && i + amount <= usize::MAX,
    ensures
        ({
            let moved = state.after_select_column(
                Some(index_forward(column_of(state.selection), amount)),
            );
            moved.after_select_column(Some(index_back(column_of(moved.selection), amount)))
                == state
        }),
{
}

/// Scrolling left and then right by the same amount returns to the starting state when a
/// column at least `amount` from the left edge is selected.
pub proof fn lemma_scroll_left_then_right(state: TableState, amount: u16)
    requires
        column_of(state.selection) matches Some(i) && i >= amount,
    ensures
        ({
            let moved = state.after_select_column(
                Some(index_back(column_of(state.selection), amount)),
            );
            moved.after_select_column(Some(index_forward(column_of(moved.selection), amount)))
                == state
        }),
{
}

/// Each kind of selection carries exactly the axes its name says: a row selection has a row
/// and no column, a column selection a column and no row, a cell both, and no selection
/// neither.
pub proof fn lemma_each_selection_has_its_named_axes(row: usize, column: usize)
    ensures
        row_of(Some(TableSelection::Row(row))) == Some(row),
        column_of(Some(TableSelection::Row(row))) == None::<usize>,
        row_of(Some(TableSelection::Column(column))) == None::<usize>,
        column_of(Some(TableSelection::Column(column))) == Some(column),
        row_of(Some(TableSelection::Cell { row, column })) == Some(row),
        column_of(Some(TableSelection::Cell { row, column })) == Some(column),
        row_of(None) == None::<usize>,
        column_of(None) == None::<usize>,
{
}

/// `select_cell(None)` clears the whole selection, whatever it was, and scrolls back to the
/// top, whatever the offset was; `select_cell(Some((r, c)))` selects exactly the cell at row
/// `r` and column `c` and leaves the offset alone.
pub proof fn lemma_select_cell_selects_or_clears_everything(
    state: TableState,
    row: usize,
    column: usize,
)
    ensures
        state.after_select_cell(None).selection is None,
        state.after_select_cell(None).offset == 0,
        row_of(state.after_select_cell(None).selection) is None,
        column_of(state.after_select_cell(None).selection) is None,
        state.after_select_cell(Some((row, column))).selection == Some(
            TableSelection::Cell { row, column },
        ),
        row_of(state.after_select_cell(Some((row, column))).selection) == Some(row),
        column_of(state.after_select_cell(Some((row, column))).selection) == Some(column),
        state.after_select_cell(Some((row, column))).offset == state.offset,
{
}

/// With a non-empty range, `clamp` maps a selected index `i` to `min(i, count - 1)` on each
/// axis: an index inside the table is kept as it is, and every index at or past the end
/// becomes exactly the last index. An empty range drops the axis.
pub proof fn lemma_clamp_caps_at_the_last_index(
    state: TableState,
    row_count: usize,
    column_count: usize,
)
    ensures
        row_count > 0 ==> (row_of(state.selection) matches Some(i) ==> row_of(
            state.after_clamp(row_count, column_count).selection,
        ) == Some(
            if i < row_count {
                i
            } else {
                (row_count - 1) as usize
            },
        )),
        row_of(state.selection) matches Some(i) && row_count > 0 && i >= row_count ==> row_of(
            state.after_clamp(row_count, column_count).selection,
        ) == Some((row_count - 1) as usize),
        column_count > 0 ==> (column_of(state.selection) matches Some(j) ==> column_of(
            state.after_clamp(row_count, column_count).selection,
        ) == Some(
            if j < column_count {
                j
            } else {
                (column_count - 1) as usize
            },
        )),
        column_of(state.selection) matches Some(j) && column_count > 0 && j >= column_count
            ==> column_of(state.after_clamp(row_count, column_count).selection) == Some(
            (column_count - 1) as usize,
        ),
        row_of(state.selection) is None || row_count == 0 ==> row_of(
            state.after_clamp(row_count, column_count).selection,
        ) is None,
        column_of(state.selection) is None || column_count == 0 ==> column_of(
            state.after_clamp(row_count, column_count).selection,
        ) is None,
{
}

/// The navigation steps in plain arithmetic: next is one more (staying at `usize::MAX`) or 0
/// from nothing; previous is one less (staying at 0) or `usize::MAX` from nothing; scrolling
/// forward adds the amount (capped at `usize::MAX`) and back subtracts it (floored at 0),
/// starting from 0 when nothing is selected.
pub proof fn lemma_navigation_steps(i: usize, amount: u16)
    ensures
        next_index(Some(i)) == (if i < usize::MAX {
            i + 1
        } else {
            i as int
        }),
        next_index(None) == 0,
        previous_index(Some(i)) == (if i > 0 {
            i - 1
        } else {
            0
        }),
        previous_index(None) == usize::MAX,
        index_forward(Some(i), amount) == (if i + amount <= usize::MAX {
            i + amount
        } else {
            usize::MAX as int
        }),
        index_forward(None, amount) == amount,
        index_back(Some(i), amount) == (if i >= amount {
            i - amount
        } else {
            0
        }),
        index_back(None, amount) == 0,
{
}

} // verus!
