//! A filterable, scrollable, single-selection branch list: the entries, their
//! fuzzy-ranked view, the cursor and the scroll offset, kept consistent by
//! every operation.

pub mod entry;
pub mod matcher;
pub mod filter;
pub mod cursor;
pub mod scroll;
pub mod rows;
pub mod component;
