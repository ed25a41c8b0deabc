//! Typed access to tabular query results.
//!
//! A database driver hands over rows of its own values; the caller names the
//! shape it expects (a scalar, a tuple, a record, or a sequence of one of
//! these) and gets the table's content in that shape, or an error that says
//! whether the shape or the data was at fault.

pub mod de;
