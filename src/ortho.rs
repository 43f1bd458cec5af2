use vstd::prelude::*;

use crate::columns::{Columns, ColumnsRef};
use crate::laws::lemma_reverse_involution;
use crate::rowmut::IterMut;

verus! {

/// An index that does not name a row, or a gap between rows, of a store.
#[derive(Debug, Clone, Copy, PartialEq, Eq, Structural)]
pub struct OutOfBounds {
    /// The index that was asked for.
    pub index: usize,
    /// The row count at the time.
    pub len: usize,
}

/// A column-oriented sequence of records: it behaves as a `Vec` of rows, and
/// keeps each field in a column of its own.
///
/// The columns are never handed out, so no caller can make their lengths
/// differ; every operation works on whole rows.
pub struct OrthoVec<C: Columns> {
    cols: C,
}

impl<C: Columns> View for OrthoVec<C> {
    type V = Seq<C::Row>;

    /// The rows, in order.
    closed spec fn view(&self) -> Seq<C::Row> {
        self.cols.rows()
    }
}

impl<C: Columns> OrthoVec<C> {
    /// Every column has the same length.
    pub closed spec fn wf(&self) -> bool {
        self.cols.wf()
    }

    /// The length of every column, in field order.
    pub closed spec fn column_lens(&self) -> Seq<nat> {
        self.cols.column_lens()
    }

    /// In a well-formed store every column is as long as the row sequence.
    pub proof fn lemma_equal_lengths(&self)
        requires
            self.wf(),
        ensures
            self.column_lens().len() >= 1,
            forall|k: int|
                0 <= k < self.column_lens().len() ==> #[trigger] self.column_lens()[k]
                    == self@.len(),
    {
        self.cols.lemma_column_lens();
    }

    /// An empty store.
    pub fn new() -> (r: Self)
        ensures
            r.wf(),
            r@ == Seq::<C::Row>::empty(),
    {
        OrthoVec { cols: C::new() }
    }

    /// An empty store whose columns each have room for `capacity` rows.
    pub fn with_capacity(capacity: usize) -> (r: Self)
        ensures
            r.wf(),
            r@ == Seq::<C::Row>::empty(),
    {
        OrthoVec { cols: C::with_capacity(capacity) }
    }

    /// The row count. It is read from the first column alone: every column
    /// has exactly this length.
    pub fn len(&self) -> (n: usize)
        requires
            self.wf(),
        ensures
            n == self@.len(),
            self.column_lens().len() >= 1,
            forall|k: int|
                0 <= k < self.column_lens().len() ==> #[trigger] self.column_lens()[k] == n,
    {
        proof {
            self.cols.lemma_column_lens();
        }
        self.cols.len()
    }

    /// Appends a row.
    pub fn push(&mut self, row: C::Row)
        requires
            old(self).wf(),
        ensures
            final(self).wf(),
            final(self)@ == old(self)@.push(row),
    {
        self.cols.push(row);
    }

    /// Removes the last row and returns it; `None`, with nothing changed, when
    /// the store is empty.
    pub fn pop(&mut self) -> (r: Option<C::Row>)
        requires
            old(self).wf(),
        ensures
            final(self).wf(),
            old(self)@.len() == 0 ==> r is None && final(self)@ == old(self)@,
            old(self)@.len() > 0 ==> r == Some(old(self)@.last()) && final(self)@ == old(
                self,
            )@.drop_last(),
    {
        if self.cols.len() == 0 {
            None
        } else {
            Some(self.cols.pop_last())
        }
    }

    /// Inserts a row at `index`, shifting the later rows up. An index past
    /// the row count changes nothing and is reported.
    pub fn insert(&mut self, index: usize, row: C::Row) -> (r: Result<(), OutOfBounds>)
        requires
            old(self).wf(),
        ensures
            final(self).wf(),
            index <= old(self)@.len() ==> r is Ok && final(self)@ == old(self)@.insert(
                index as int,
                row,
            ),
            index > old(self)@.len() ==> r == Err::<(), OutOfBounds>(
                OutOfBounds { index, len: old(self)@.len() as usize },
            ) && final(self)@ == old(self)@,
    {
        let len = self.cols.len();
        if index > len {
            Err(OutOfBounds { index, len })
        } else {
            self.cols.insert_at(index, row);
            Ok(())
        }
    }

    /// Removes row `index` and returns it, shifting the later rows down. An
    /// index that names no row changes nothing and is reported.
    pub fn remove(&mut self, index: usize) -> (r: Result<C::Row, OutOfBounds>)
        requires
            old(self).wf(),
        ensures
            final(self).wf(),
            index < old(self)@.len() ==> r == Ok::<C::Row, OutOfBounds>(old(self)@[index as int])
                && final(self)@ == old(self)@.remove(index as int),
            index >= old(self)@.len() ==> r == Err::<C::Row, OutOfBounds>(
                OutOfBounds { index, len: old(self)@.len() as usize },
            ) && final(self)@ == old(self)@,
    {
        let len = self.cols.len();
        if index >= len {
            Err(OutOfBounds { index, len })
        } else {
            Ok(self.cols.remove_at(index))
        }
    }

    /// Removes row `index` and returns it, moving the last row into its place.
    /// An index that names no row changes nothing and is reported.
    pub fn swap_remove(&mut self, index: usize) -> (r: Result<C::Row, OutOfBounds>)
        requires
            old(self).wf(),
        ensures
            final(self).wf(),
            index < old(self)@.len() ==> r == Ok::<C::Row, OutOfBounds>(old(self)@[index as int])
                && final(self)@ == old(self)@.update(index as int, old(self)@.last()).drop_last(),
            index >= old(self)@.len() ==> r == Err::<C::Row, OutOfBounds>(
                OutOfBounds { index, len: old(self)@.len() as usize },
            ) && final(self)@ == old(self)@,
    {
        let len = self.cols.len();
        if index >= len {
            Err(OutOfBounds { index, len })
        } else {
            Ok(self.cols.swap_remove_at(index))
        }
    }

    /// Removes every row.
    pub fn clear(&mut self)
        requires
            old(self).wf(),
        ensures
            final(self).wf(),
            final(self)@ == Seq::<C::Row>::empty(),
    {
        self.cols.clear();
    }

    /// Reverses the order of the rows; each row keeps its fields together.
    pub fn reverse(&mut self)
        requires
            old(self).wf(),
        ensures
            final(self).wf(),
            final(self)@ == old(self)@.reverse(),
    {
        self.cols.reverse();
    }

    /// Lets every column release the room it does not use; the rows stay.
    pub fn shrink_to_fit(&mut self)
        requires
            old(self).wf(),
        ensures
            final(self).wf(),
            final(self)@ == old(self)@,
    {
        self.cols.shrink_to_fit();
    }
    /// A store holding `rows` in their order; every column is given room for
    /// all of them before the first is appended.
    pub fn from_rows(rows: Vec<C::Row>) -> (r: Self)
        ensures
            r.wf(),
            r@ == rows@,
    {
        let mut cols = C::with_capacity(rows.len());
        for row in it: rows
            invariant
                cols.wf(),
                cols.rows() == it.seq().take(it.index() as int),
        {
            cols.push(row);
        }
        OrthoVec { cols }
    }

    /// The rows, in order: the owning iterator drained to the end.
    pub fn into_rows(self) -> (r: Vec<C::Row>)
        requires
            self.wf(),
        ensures
            r@ == self@,
    {
        let mut out: Vec<C::Row> = Vec::with_capacity(self.len());
        let ghost all = self@;
        let mut it = self.into_iter();
        loop
            invariant
                it.wf(),
                all == self@,
                out@ + it.remaining() == all,
            decreases it.remaining().len(),
        {
            match it.next() {
                Some(row) => {
                    out.push(row);
                    assert(out@ + it.remaining() =~= all);
                },
                None => {
                    assert(out@ =~= all);
                    return out;
                },
            }
        }
    }

    /// Walks the rows in order, yielding each as one shared reference per
    /// field.
    pub fn iter<'a>(&'a self) -> (r: Iter<'a, C>)
        where
            C: ColumnsRef<'a>,
        requires
            self.wf(),
        ensures
            r.wf(),
            r.rows() == self@,
            r.index() == 0,
    {
        Iter { vec: self, index: 0 }
    }

    /// Walks the rows in order, lending each as one exclusive reference per
    /// field; what is written through them is what the store holds after.
    pub fn iter_mut<'a>(&'a mut self) -> (r: IterMut<'a, C>)
        requires
            old(self).wf(),
        ensures
            r.wf(),
            r.handle().rows() == old(self)@,
            r.index() == 0,
            final(self)@ == final(r.handle()).rows(),
            final(self).wf() == final(r.handle()).wf(),
    {
        IterMut::new(&mut self.cols)
    }

    /// Consumes the store, yielding its rows in order.
    pub fn into_iter(self) -> (r: IntoIter<C>)
        requires
            self.wf(),
        ensures
            r.wf(),
            r.remaining() == self@,
    {
        let len = self.cols.len();
        let mut rest = self.cols;
        rest.reverse();
        proof {
            lemma_reverse_involution(self@);
        }
        IntoIter { rest, index: 0, len }
    }
}

/// Turns a row-major sequence into a column store.
pub trait IntoOrtho<C: Columns>: View<V = Seq<C::Row>> + Sized {
    /// The same rows, in the same order, one column per field.
    fn into_ortho(self) -> (r: OrthoVec<C>)
        ensures
            r.wf(),
            r@ == self@,
    ;
}

impl<C: Columns> IntoOrtho<C> for Vec<C::Row> {
    fn into_ortho(self) -> (r: OrthoVec<C>) {
        OrthoVec::from_rows(self)
    }
}

/// The read-only iterator: a shared borrow of the store and a cursor.
pub struct Iter<'a, C: ColumnsRef<'a>> {
    vec: &'a OrthoVec<C>,
    index: usize,
}

impl<'a, C: ColumnsRef<'a>> Iter<'a, C> {
    /// The rows being walked.
    pub closed spec fn rows(&self) -> Seq<C::Row> {
        self.vec@
    }

    /// How many rows have been yielded.
    pub closed spec fn index(&self) -> nat {
        self.index as nat
    }

    /// The store is well formed and the cursor within it.
    pub closed spec fn wf(&self) -> bool {
        &&& self.vec.wf()
        &&& self.index <= self.vec@.len()
    }

    /// The next row, as references into the columns; `None` once every row
    /// has been yielded.
    pub fn next(&mut self) -> (r: Option<C::Ref>)
        requires
            old(self).wf(),
        ensures
            final(self).wf(),
            final(self).rows() == old(self).rows(),
            final(self).index() <= final(self).rows().len(),
            old(self).index() < old(self).rows().len() ==> r is Some && C::ref_row(r->0) == old(
                self,
            ).rows()[old(self).index() as int] && final(self).index() == old(self).index() + 1,
            old(self).index() >= old(self).rows().len() ==> r is None && final(self).index()
                == old(self).index(),
    {
        let vec: &'a OrthoVec<C> = self.vec;
        if self.index >= vec.cols.len() {
            None
        } else {
            let row = vec.cols.row_ref(self.index);
            self.index = self.index + 1;
            Some(row)
        }
    }
}

/// The owning iterator: the rows not yet yielded, kept last row first so
/// that each step takes one element off the end of every column, and a
/// cursor over the row count.
pub struct IntoIter<C: Columns> {
    rest: C,
    index: usize,
    len: usize,
}

impl<C: Columns> IntoIter<C> {
    /// The rows still to come, in order.
    pub closed spec fn remaining(&self) -> Seq<C::Row> {
        self.rest.rows().reverse()
    }

    /// Every column holds exactly the rows still to come.
    pub closed spec fn wf(&self) -> bool {
        &&& self.rest.wf()
        &&& self.index <= self.len
        &&& self.rest.rows().len() == self.len - self.index
    }

    /// The next row, moved out of every column; `None` once every row has
    /// been yielded.
    pub fn next(&mut self) -> (r: Option<C::Row>)
        requires
            old(self).wf(),
        ensures
            final(self).wf(),
            old(self).remaining().len() == 0 ==> r is None && final(self).remaining() == old(
                self,
            ).remaining(),
            old(self).remaining().len() > 0 ==> r == Some(old(self).remaining()[0])
                && final(self).remaining() == old(self).remaining().drop_first(),
    {
        if self.index >= self.len {
            None
        } else {
            self.index = self.index + 1;
            let row = self.rest.pop_last();
            assert(self.remaining() =~= old(self).remaining().drop_first());
            Some(row)
        }
    }
}

} // verus!
