//! Column-oriented storage for records: a container that behaves as a
//! growable array of rows while it keeps every field in a column of its own.
//!
//! A record's schema is spelled as a type. `Column<A, Column<B, LastColumn<C>>>`
//! holds one column of `A`, one of `B` and one of `C`; its rows are the nested
//! tuples `(A, (B, C))`. `OrthoVec` wraps such columns and offers the whole-row
//! operations of a `Vec`, the conversions from and to a row sequence, and three
//! iterators: one that reads, one that writes in place, one that consumes.
pub mod columns;
pub mod laws;
pub mod ortho;
pub mod rowmut;

pub use columns::{Column, Columns, ColumnsRef, LastColumn};
pub use ortho::{IntoIter, IntoOrtho, Iter, OrthoVec, OutOfBounds};
pub use rowmut::{IterMut, RowMut};
