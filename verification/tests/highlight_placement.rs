use ratatui_table::HighlightPlacement;

#[test]
fn to_string() {
    assert_eq!(
        HighlightPlacement::FirstColumn.to_string(),
        "FirstColumn".to_string()
    );
    assert_eq!(
        HighlightPlacement::SelectedColumn.to_string(),
        "SelectedColumn".to_string()
    );
    assert_eq!(
        HighlightPlacement::Columns(vec![1]).to_string(),
        "Columns".to_string()
    );
    assert_eq!(
        HighlightPlacement::AllColumns.to_string(),
        "AllColumns".to_string()
    );
}

#[test]
fn from_str() {
    assert_eq!(
        "FirstColumn".parse::<HighlightPlacement>(),
        Ok(HighlightPlacement::FirstColumn)
    );
    assert_eq!(
        "SelectedColumn".parse::<HighlightPlacement>(),
        Ok(HighlightPlacement::SelectedColumn)
    );
    assert_eq!(
        "Columns".parse::<HighlightPlacement>(),
        Ok(HighlightPlacement::Columns(Vec::new()))
    );
    assert_eq!(
        "AllColumns".parse::<HighlightPlacement>(),
        Ok(HighlightPlacement::AllColumns)
    );
    assert_eq!(
        "".parse::<HighlightPlacement>(),
        Err(strum::ParseError::VariantNotFound)
    );
}

#[test]
fn mask_first_column() {
    let mask = HighlightPlacement::FirstColumn.column_mask(Some(2), 3);
    assert_eq!(mask, vec![true, false, false]);
}

#[test]
fn mask_selected_column() {
    let mask = HighlightPlacement::SelectedColumn.column_mask(Some(2), 3);
    assert_eq!(mask, vec![false, false, true]);
}

#[test]
fn mask_selected_column_without_selection() {
    let mask = HighlightPlacement::SelectedColumn.column_mask(None, 3);
    assert_eq!(mask, vec![true, false, false]);
}

#[test]
fn mask_columns_ignores_out_of_range() {
    let mask = HighlightPlacement::Columns(vec![1, 9]).column_mask(None, 3);
    assert_eq!(mask, vec![false, true, false]);
}

#[test]
fn mask_all_columns() {
    let mask = HighlightPlacement::AllColumns.column_mask(None, 3);
    assert_eq!(mask, vec![true, true, true]);
}

#[test]
fn mask_zero_columns() {
    assert!(
        HighlightPlacement::AllColumns
            .column_mask(Some(0), 0)
            .is_empty()
    );
    assert!(
        HighlightPlacement::FirstColumn
            .column_mask(None, 0)
            .is_empty()
    );
}

