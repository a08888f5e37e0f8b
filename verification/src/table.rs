//! The table widget's state and highlight layout.
pub mod highlight_placement;
pub mod state;
