//! Where the highlight symbol gets space, and the names by which the placements are written.
use std::str::FromStr;

use vstd::prelude::*;

verus! {

/// Declares `strum::ParseError`, the error that parsing an unknown placement name gives.
#[verifier::external_type_specification]
#[verifier::external_body]
pub struct ExParseError(strum::ParseError);

/// Where the highlight symbol gets space, i.e. *which* columns are indented to make room for it.
///
/// `HighlightSpacing` decides *when* the symbol column is allocated; this decides *where*.
///
/// # How the layout moves
///
/// Every column that gets a slot is pushed right by the symbol width, and the remaining width is
/// split between the columns. With a 2-cell symbol `>>` and three columns:
///
/// ```text
/// FirstColumn      >>Alice   Engineer  Berlin
/// SelectedColumn     Alice >>Engineer  Berlin      (column 1 selected)
/// SelectedColumn     Alice   Engineer>>Berlin      (column 2 selected)
/// AllColumns       >>Alice >>Engineer>>Berlin
/// ```
///
/// Note the consequence of `SelectedColumn`: moving the selection from one column to the next
/// moves the slot with it, so text to the left of the new slot shifts left and text to its right
/// shifts right. Use `FirstColumn` (the default) or `AllColumns` if you need the columns to
/// stay put as the selection moves.
#[derive(Debug, PartialEq, Eq, Clone, Hash)]
pub enum HighlightPlacement {
    /// Only the first column gets a slot.
    ///
    /// This is the default, and reproduces the behavior of a table without column selection: the
    /// symbol sits at the left edge of the row and the layout never moves.
    FirstColumn,
    /// Only the selected column gets a slot.
    ///
    /// The slot follows the selection, so the columns shift as the selected column changes. With
    /// no column selected, falls back to the first column.
    SelectedColumn,
    /// Each listed column gets a slot.
    ///
    /// Indices at or beyond the column count are ignored. Parsing this variant from a string
    /// yields an empty list, i.e. no slots.
    Columns(Vec<usize>),
    /// Every column gets a slot.
    AllColumns,
}

/// The column whose slot `SelectedColumn` gives: the selected one, else the first.
pub open spec fn slot_column(selected_column: Option<usize>) -> int {
    match selected_column {
        Some(c) => c as int,
        None => 0,
    }
}

impl HighlightPlacement {
    /// Whether column `column` gets a symbol slot under this placement.
    pub open spec fn has_slot(self, selected_column: Option<usize>, column: int) -> bool {
        match self {
            HighlightPlacement::FirstColumn => column == 0,
            HighlightPlacement::SelectedColumn => column == slot_column(selected_column),
            HighlightPlacement::Columns(indices) => exists|k: int|
                0 <= k < indices@.len() && #[trigger] indices@[k] == column,
            HighlightPlacement::AllColumns => true,
        }
    }

    /// The slot mask over `column_count` columns.
    pub open spec fn mask_of(self, selected_column: Option<usize>, column_count: usize) -> Seq<
        bool,
    > {
        Seq::new(column_count as nat, |i: int| self.has_slot(selected_column, i))
    }

    /// The name under which a placement is written and parsed back.
    pub open spec fn name_of(self) -> Seq<char> {
        match self {
            HighlightPlacement::FirstColumn => "FirstColumn"@,
            HighlightPlacement::SelectedColumn => "SelectedColumn"@,
            HighlightPlacement::Columns(_) => "Columns"@,
            HighlightPlacement::AllColumns => "AllColumns"@,
        }
    }
}

/// Whether `text` is the name of one of the placements.
pub open spec fn is_placement_name(text: Seq<char>) -> bool {
    ||| text == "FirstColumn"@
    ||| text == "SelectedColumn"@
    ||| text == "Columns"@
    ||| text == "AllColumns"@
}

/// `a` and `b` hold the same text.
fn same_text(a: &str, b: &str) -> (r: bool)
    ensures
        r == (a@ == b@),
{
    let x = a.as_bytes();
    let y = b.as_bytes();
    proof {
        vstd::utf8::encode_utf8_decode_utf8(a@);
        vstd::utf8::encode_utf8_decode_utf8(b@);
    }
    if x.len() != y.len() {
        return false;
    }
    let mut i: usize = 0;
    while i < x.len()
        invariant
            x@ == vstd::utf8::encode_utf8(a@),
            y@ == vstd::utf8::encode_utf8(b@),
            x@.len() == y@.len(),
            i <= x@.len(),
            forall|j: int| 0 <= j < i ==> x@[j] == y@[j],
        decreases x@.len() - i,
    {
        if x[i] != y[i] {
            return false;
        }
        i = i + 1;
    }
    assert(x@ =~= y@);
    true
}

impl Default for HighlightPlacement {
    /// `FirstColumn`.
    fn default() -> (r: Self)
        ensures
            r == HighlightPlacement::FirstColumn,
    {
        HighlightPlacement::FirstColumn
    }
}

impl HighlightPlacement {
    /// Returns a `column_count`-long mask: `mask[i]` is true when column `i` gets a symbol slot.
    ///
    /// A mask rather than a list of indices because the render path asks "does column `i` have a
    /// slot" once per column; a `contains()` lookup inside that loop would be quadratic.
    pub fn column_mask(&self, selected_column: Option<usize>, column_count: usize) -> (mask: Vec<
        bool,
    >)
        ensures
            mask@ == self.mask_of(selected_column, column_count),
    {
        let mut mask: Vec<bool> = Vec::new();
        let mut i: usize = 0;
        while i < column_count
            invariant
                i <= column_count,
                mask@.len() == i,
                forall|j: int| 0 <= j < i ==> !mask@[j],
            decreases column_count - i,
        {
            mask.push(false);
            i = i + 1;
        }
        match self {
            HighlightPlacement::AllColumns => {
                let mut k: usize = 0;
                while k < column_count
                    invariant
                        k <= column_count,
                        mask@.len() == column_count,
                        forall|j: int| 0 <= j < k ==> mask@[j],
                    decreases column_count - k,
                {
                    mask.set(k, true);
                    k = k + 1;
                }
            },
            HighlightPlacement::FirstColumn => {
                if column_count > 0 {
                    mask.set(0, true);
                }
            },
            HighlightPlacement::SelectedColumn => {
                // No column selected: behave like `FirstColumn` rather than showing no symbol.
                let slot = match selected_column {
                    Some(c) => c,
                    None => 0,
                };
                if slot < column_count {
                    mask.set(slot, true);
                }
            },
            HighlightPlacement::Columns(indices) => {
                let mut k: usize = 0;
                while k < indices.len()
                    invariant
                        k <= indices@.len(),
                        mask@.len() == column_count,
                        forall|j: int|
                            0 <= j < column_count ==> #[trigger] mask@[j] == (exists|m: int|
                                0 <= m < k && #[trigger] indices@[m] == j),
                    decreases indices@.len() - k,
                {
                    let index = indices[k];
                    if index < column_count {
                        mask.set(index, true);
                    }
                    assert forall|j: int| 0 <= j < column_count implies #[trigger] mask@[j] == (
                    exists|m: int| 0 <= m < k + 1 && #[trigger] indices@[m] == j) by {
                        if indices@[k as int] == j {
                            assert(0 <= k < k + 1 && indices@[k as int] == j);
                        }
                    }
                    k = k + 1;
                }
            },
        }
        assert(mask@ =~= self.mask_of(selected_column, column_count));
        mask
    }

    /// The name of this placement; `Columns` is named without its list.
    pub fn to_string(&self) -> (r: String)
        ensures
            r@ == self.name_of(),
    {
        match self {
            HighlightPlacement::FirstColumn => "FirstColumn".to_owned(),
            HighlightPlacement::SelectedColumn => "SelectedColumn".to_owned(),
            HighlightPlacement::Columns(_) => "Columns".to_owned(),
            HighlightPlacement::AllColumns => "AllColumns".to_owned(),
        }
    }

    /// The placement named `text`, or `None` when `text` names none. `Columns` comes back with
    /// an empty list.
    pub fn from_name(text: &str) -> (r: Option<HighlightPlacement>)
        ensures
            r is Some <==> is_placement_name(text@),
            r matches Some(p) ==> p.name_of() == text@,
            r matches Some(HighlightPlacement::Columns(indices)) ==> indices@.len() == 0,
    {
        if same_text(text, "FirstColumn") {
            Some(HighlightPlacement::FirstColumn)
        } else if same_text(text, "SelectedColumn") {
            Some(HighlightPlacement::SelectedColumn)
        } else if same_text(text, "Columns") {
            Some(HighlightPlacement::Columns(Vec::new()))
        } else if same_text(text, "AllColumns") {
            Some(HighlightPlacement::AllColumns)
        } else {
            None
        }
    }
}

/// `strum::ParseError::VariantNotFound`, the one variant of strum's parse error.
/// Trusted: it only builds that value; nothing is stated of it.
#[verifier::external_body]
fn variant_not_found() -> strum::ParseError {
    strum::ParseError::VariantNotFound
}

impl FromStr for HighlightPlacement {
    type Err = strum::ParseError;

    /// Parses the name of a placement, as `from_name` does; an unknown name gives
    /// `VariantNotFound`.
    fn from_str(s: &str) -> (r: Result<Self, Self::Err>)
        ensures
            r is Ok <==> is_placement_name(s@),
            r matches Ok(p) ==> p.name_of() == s@,
            r matches Ok(HighlightPlacement::Columns(indices)) ==> indices@.len() == 0,
    {
        match HighlightPlacement::from_name(s) {
            Some(p) => Ok(p),
            None => Err(variant_not_found()),
        }
    }
}

/// `p` and `q` are the same variant, whatever list `Columns` holds.
pub open spec fn same_variant(p: HighlightPlacement, q: HighlightPlacement) -> bool {
    ||| p is FirstColumn && q is FirstColumn
    ||| p is SelectedColumn && q is SelectedColumn
    ||| p is Columns && q is Columns
    ||| p is AllColumns && q is AllColumns
}

/// With the first column selected, or with none, `SelectedColumn` lays out the table exactly
/// as `FirstColumn` does.
pub proof fn lemma_selected_column_at_first_is_first_column(
    selected_column: Option<usize>,
    column_count: usize,
)
    requires
        selected_column is None || selected_column == Some(0usize),
    ensures
        HighlightPlacement::SelectedColumn.mask_of(selected_column, column_count)
            == HighlightPlacement::FirstColumn.mask_of(selected_column, column_count),
{
    assert(HighlightPlacement::SelectedColumn.mask_of(selected_column, column_count)
        =~= HighlightPlacement::FirstColumn.mask_of(selected_column, column_count));
}

/// Every placement but `SelectedColumn` keeps the columns put as the selection moves: its mask
/// does not depend on the selected column.
pub proof fn lemma_fixed_placements_ignore_the_selection(
    placement: HighlightPlacement,
    one: Option<usize>,
    other: Option<usize>,
    column_count: usize,
)
    requires
        !(placement is SelectedColumn),
    ensures
        placement.mask_of(one, column_count) == placement.mask_of(other, column_count),
{
    assert(placement.mask_of(one, column_count) =~= placement.mask_of(other, column_count));
}

/// `Columns` ignores indices at or beyond the column count: dropping them leaves the mask as
/// it was.
pub proof fn lemma_columns_ignore_out_of_range(
    listed: HighlightPlacement,
    in_range: HighlightPlacement,
    selected_column: Option<usize>,
    column_count: usize,
)
    requires
        listed is Columns,
        in_range is Columns,
        in_range->Columns_0@ == listed->Columns_0@.filter(|i: usize| i < column_count),
    ensures
        listed.mask_of(selected_column, column_count) == in_range.mask_of(
            selected_column,
            column_count,
        ),
{
    let all = listed->Columns_0@;
    let kept = in_range->Columns_0@;
    let keep = |i: usize| i < column_count;
    assert forall|j: int| 0 <= j < column_count implies listed.has_slot(selected_column, j)
        == in_range.has_slot(selected_column, j) by {
        if listed.has_slot(selected_column, j) {
            let k = choose|k: int| 0 <= k < all.len() && #[trigger] all[k] == j;
            all.lemma_filter_contains(keep, k);
            assert(kept.contains(all[k]));
            let m = choose|m: int| 0 <= m < kept.len() && kept[m] == all[k];
            assert(kept[m] == j);
        }
        if in_range.has_slot(selected_column, j) {
            let m = choose|m: int| 0 <= m < kept.len() && #[trigger] kept[m] == j;
            assert(kept.contains(kept[m]));
            all.lemma_filter_contains_rev(keep, kept[m]);
            assert(all.contains(kept[m]));
            let k = choose|k: int| 0 <= k < all.len() && all[k] == kept[m];
            assert(all[k] == j);
        }
    }
    assert(listed.mask_of(selected_column, column_count) =~= in_range.mask_of(
        selected_column,
        column_count,
    ));
}

/// The names tell the placements apart: two placements have the same name exactly when they are
/// the same variant, and every placement's name is one that parsing accepts. With the contract
/// of `from_name`, parsing a placement's name gives that placement back (`Columns` with an
/// empty list).
pub proof fn lemma_names_identify_placements(p: HighlightPlacement, q: HighlightPlacement)
    ensures
        is_placement_name(p.name_of()),
        p.name_of() == q.name_of() <==> same_variant(p, q),
{
    reveal_strlit("FirstColumn");
    reveal_strlit("SelectedColumn");
    reveal_strlit("Columns");
    reveal_strlit("AllColumns");
    assert("FirstColumn"@.len() == 11);
    assert("SelectedColumn"@.len() == 14);
    assert("Columns"@.len() == 7);
    assert("AllColumns"@.len() == 10);
    assert("FirstColumn"@[0] != "AllColumns"@[0]);
}

/// The mask has one entry per column, and which entries are set is, for each placement:
/// `FirstColumn` only column 0; `SelectedColumn` only the selected column (column 0 when none
/// is selected), so nothing when the selected column lies outside the table; `AllColumns`
/// every column; `Columns` exactly the columns whose index is listed, so nothing at all when
/// no listed index is below the column count (as for the empty list that parsing gives).
pub proof fn lemma_mask_marks_exactly_the_slot_columns(
    placement: HighlightPlacement,
    selected_column: Option<usize>,
    column_count: usize,
)
    ensures
        placement.mask_of(selected_column, column_count).len() == column_count,
        placement is FirstColumn ==> forall|i: int|
            0 <= i < column_count ==> (#[trigger] placement.mask_of(selected_column, column_count)[i]
                <==> i == 0),
        placement is SelectedColumn && selected_column is None ==> forall|i: int|
            0 <= i < column_count ==> (#[trigger] placement.mask_of(selected_column, column_count)[i]
                <==> i == 0),
        placement is SelectedColumn ==> (selected_column matches Some(c) ==> forall|i: int|
            0 <= i < column_count ==> (#[trigger] placement.mask_of(selected_column, column_count)[i]
                <==> i == c)),
        placement is AllColumns ==> forall|i: int|
            0 <= i < column_count ==> #[trigger] placement.mask_of(selected_column, column_count)[i],
        placement is Columns ==> forall|i: int|
            0 <= i < column_count ==> (#[trigger] placement.mask_of(selected_column, column_count)[i]
                <==> placement->Columns_0@.contains(i as usize)),
        placement is Columns && (forall|k: int|
            0 <= k < placement->Columns_0@.len() ==> #[trigger] placement->Columns_0@[k]
                >= column_count) ==> forall|i: int|
            0 <= i < column_count ==> !#[trigger] placement.mask_of(selected_column, column_count)[i],
{
    if placement is Columns {
        let listed = placement->Columns_0@;
        assert forall|i: int| 0 <= i < column_count implies (#[trigger] placement.mask_of(
            selected_column,
            column_count,
        )[i] <==> listed.contains(i as usize)) by {
            if listed.contains(i as usize) {
                let k = choose|k: int| 0 <= k < listed.len() && listed[k] == i as usize;
                assert(listed[k] == i);
            }
        }
    }
}

/// The names the placements are written under: each variant's own name, and `Columns`
/// without its list.
pub proof fn lemma_placement_names(indices: Vec<usize>)
    ensures
        HighlightPlacement::FirstColumn.name_of() == "FirstColumn"@,
        HighlightPlacement::SelectedColumn.name_of() == "SelectedColumn"@,
        HighlightPlacement::Columns(indices).name_of() == "Columns"@,
        HighlightPlacement::AllColumns.name_of() == "AllColumns"@,
        is_placement_name("FirstColumn"@),
        is_placement_name("SelectedColumn"@),
        is_placement_name("Columns"@),
        is_placement_name("AllColumns"@),
        forall|text: Seq<char>|
            #[trigger] is_placement_name(text) ==> text == "FirstColumn"@ || text
                == "SelectedColumn"@ || text == "Columns"@ || text == "AllColumns"@,
{
}

} // verus!
