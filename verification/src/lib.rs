//! Selection and scrolling state of a table widget, and the rule that decides which columns
//! make room for the highlight symbol.
//!
//! Every operation carries a contract that Verus proves; the laws that tie the operations
//! together stand as proof functions beside them.
pub mod convert;
pub mod table;

pub use table::highlight_placement::HighlightPlacement;
pub use table::state::{TableSelection, TableState};
