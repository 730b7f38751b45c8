//! Pure helpers of the view layer: text formatting, column-width math, and
//! the texts of titles, rows and panels.
pub mod blocks;
pub mod db_picker;
pub mod format;
pub mod index_lens;
pub mod macro_lens;
pub mod micro_lens;
pub mod picker;
pub mod progress;
pub mod query_lens;
pub mod replication;
pub mod scrubber;
pub mod titles;
