use vstd::prelude::*;

use crate::columns::{Column, Columns, LastColumn};

verus! {

/// One row of a store, borrowed exclusively.
///
/// It hands out one exclusive reference per field: `split` takes the first
/// field off a row of several fields, and `into_mut` turns a row of the last
/// field alone into its reference. A write through those references lands in
/// the store at this row, and nowhere else.
pub struct RowMut<'a, C: Columns> {
    cols: &'a mut C,
    index: usize,
}

impl<'a, C: Columns> RowMut<'a, C> {
    /// The borrowed columns.
    pub closed spec fn handle(&self) -> &'a mut C {
        self.cols
    }

    /// The row this view stands for.
    pub closed spec fn index(&self) -> int {
        self.index as int
    }

    /// The row's current values.
    pub open spec fn row(&self) -> C::Row {
        self.handle().rows()[self.index()]
    }

    /// Once the row view is done with, whether split or not, the columns keep
    /// what it last saw.
    pub proof fn lemma_resolved(&self)
        requires
            has_resolved(*self),
        ensures
            *final(self.handle()) == *self.handle(),
    {
    }

    pub(crate) fn new(cols: &'a mut C, index: usize) -> (r: Self)
        ensures
            *r.handle() == *old(cols),
            *final(r.handle()) == *final(cols),
            r.index() == index,
    {
        RowMut { cols, index }
    }
}

impl<'a, A, R: Columns> RowMut<'a, Column<A, R>> {
    /// The first field of the row, and the row of the remaining fields.
    pub fn split(self) -> (r: (&'a mut A, RowMut<'a, R>))
        requires
            self.handle().wf(),
            0 <= self.index() < self.handle().rows().len(),
        ensures
            *r.0 == self.row().0,
            r.1.handle().wf(),
            r.1.handle().rows().len() == self.handle().rows().len(),
            r.1.index() == self.index(),
            r.1.row() == self.row().1,
            forall|t: R::Row|
                final(r.1.handle()).wf() && final(r.1.handle()).rows() == r.1.handle().rows().update(
                    self.index(),
                    t,
                ) ==> {
                    &&& final(self.handle()).wf()
                    &&& final(self.handle()).rows() == self.handle().rows().update(
                        self.index(),
                        (*final(r.0), t),
                    )
                },
    {
        let index = self.index;
        self.cols.split_row(index)
    }
}

impl<'a, A> RowMut<'a, LastColumn<A>> {
    /// The reference to the row's only field.
    pub fn into_mut(self) -> (r: &'a mut A)
        requires
            0 <= self.index() < self.handle().rows().len(),
        ensures
            *r == self.row(),
            final(self.handle()).wf(),
            final(self.handle()).rows() == self.handle().rows().update(self.index(), *final(r)),
    {
        let index = self.index;
        self.cols.at_mut(index)
    }
}

/// The mutable iterator: an exclusive borrow of the columns and a cursor.
///
/// Each call of `next` lends one row, and that loan ends before the next
/// call, so no two live row views ever share a row.
pub struct IterMut<'a, C: Columns> {
    cols: &'a mut C,
    index: usize,
}

impl<'a, C: Columns> IterMut<'a, C> {
    /// The borrowed columns.
    pub closed spec fn handle(&self) -> &'a mut C {
        self.cols
    }

    /// How many rows have been lent.
    pub closed spec fn index(&self) -> nat {
        self.index as nat
    }

    /// The columns are well formed and the cursor within them.
    pub open spec fn wf(&self) -> bool {
        &&& self.handle().wf()
        &&& self.index() <= self.handle().rows().len()
    }

    /// Once the iterator is done with, the columns keep what it last saw.
    pub proof fn lemma_resolved(&self)
        requires
            has_resolved(*self),
        ensures
            *final(self.handle()) == *self.handle(),
    {
    }

    pub(crate) fn new(cols: &'a mut C) -> (r: Self)
        ensures
            *r.handle() == *old(cols),
            *final(r.handle()) == *final(cols),
            r.index() == 0,
    {
        IterMut { cols, index: 0 }
    }

    /// Lends the next row; `None` once every row has been lent.
    pub fn next(&mut self) -> (r: Option<RowMut<'_, C>>)
        requires
            old(self).wf(),
        ensures
            *final(final(self).handle()) == *final(old(self).handle()),
            old(self).index() < old(self).handle().rows().len() ==> {
                &&& r matches Some(row)
                &&& row.index() == old(self).index()
                &&& *row.handle() == *old(self).handle()
                &&& *final(row.handle()) == *final(self).handle()
                &&& final(self).index() == old(self).index() + 1
            },
            old(self).index() >= old(self).handle().rows().len() ==> r is None && *final(self)
                == *old(self),
    {
        if self.index >= self.cols.len() {
            None
        } else {
            let index = self.index;
            self.index = index + 1;
            Some(RowMut::new(&mut *self.cols, index))
        }
    }
}

} // verus!
