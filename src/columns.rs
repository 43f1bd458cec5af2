use vstd::prelude::*;

use crate::rowmut::RowMut;

verus! {

/// A schema's storage: one growable column per field, all of one length.
///
/// A schema is spelled as a type: `Column<A, Column<B, LastColumn<C>>>` stores
/// records whose fields have types `A`, `B` and `C`, in that order, and its
/// rows are the nested tuples `(A, (B, C))`. Every operation walks the schema
/// once, from the first field to the last, and touches every column.
pub trait Columns: Sized {
    /// One record, the fields in schema order.
    type Row;

    /// The rows, in order: row `i` holds element `i` of every column.
    spec fn rows(&self) -> Seq<Self::Row>;

    /// The length of every column, in field order.
    spec fn column_lens(&self) -> Seq<nat>;

    /// All columns have the same length.
    spec fn wf(&self) -> bool;

    /// A schema has at least one field, and in a well-formed store every
    /// column is as long as the row sequence.
    proof fn lemma_column_lens(&self)
        requires
            self.wf(),
        ensures
            self.column_lens().len() >= 1,
            forall|k: int|
                0 <= k < self.column_lens().len() ==> #[trigger] self.column_lens()[k]
                    == self.rows().len(),
    ;

    /// Empty columns.
    fn new() -> (r: Self)
        ensures
            r.wf(),
            r.rows() == Seq::<Self::Row>::empty(),
    ;

    /// Empty columns, each with room for `capacity` elements.
    fn with_capacity(capacity: usize) -> (r: Self)
        ensures
            r.wf(),
            r.rows() == Seq::<Self::Row>::empty(),
    ;

    /// The row count, read from the first column alone.
    fn len(&self) -> (n: usize)
        requires
            self.wf(),
        ensures
            n == self.rows().len(),
    ;

    /// Appends one element to every column.
    fn push(&mut self, row: Self::Row)
        requires
            old(self).wf(),
        ensures
            final(self).wf(),
            final(self).rows() == old(self).rows().push(row),
    ;

    /// Takes the last element off every column.
    fn pop_last(&mut self) -> (row: Self::Row)
        requires
            old(self).wf(),
            old(self).rows().len() > 0,
        ensures
            final(self).wf(),
            row == old(self).rows().last(),
            final(self).rows() == old(self).rows().drop_last(),
    ;

    /// Inserts one element into every column at `index`.
    fn insert_at(&mut self, index: usize, row: Self::Row)
        requires
            old(self).wf(),
            index <= old(self).rows().len(),
        ensures
            final(self).wf(),
            final(self).rows() == old(self).rows().insert(index as int, row),
    ;

    /// Removes element `index` from every column, shifting the rest down.
    fn remove_at(&mut self, index: usize) -> (row: Self::Row)
        requires
            old(self).wf(),
            index < old(self).rows().len(),
        ensures
            final(self).wf(),
            row == old(self).rows()[index as int],
            final(self).rows() == old(self).rows().remove(index as int),
    ;

    /// Removes element `index` from every column, moving the last element
    /// into its place.
    fn swap_remove_at(&mut self, index: usize) -> (row: Self::Row)
        requires
            old(self).wf(),
            index < old(self).rows().len(),
        ensures
            final(self).wf(),
            row == old(self).rows()[index as int],
            final(self).rows() == old(self).rows().update(
                index as int,
                old(self).rows().last(),
            ).drop_last(),
    ;

    /// Empties every column.
    fn clear(&mut self)
        requires
            old(self).wf(),
        ensures
            final(self).wf(),
            final(self).rows() == Seq::<Self::Row>::empty(),
    ;

    /// Reverses every column in place; fields stay together.
    fn reverse(&mut self)
        requires
            old(self).wf(),
        ensures
            final(self).wf(),
            final(self).rows() == old(self).rows().reverse(),
    ;

    /// Lets every column release the room it does not use.
    fn shrink_to_fit(&mut self)
        requires
            old(self).wf(),
        ensures
            final(self).wf(),
            final(self).rows() == old(self).rows(),
    ;
}

/// Borrowing one row of a store as a row of shared references.
pub trait ColumnsRef<'a>: Columns + 'a {
    /// One shared reference per field, nested as the row is.
    type Ref;

    /// The row that a row of references points at.
    spec fn ref_row(r: Self::Ref) -> Self::Row;

    /// Borrows row `index` from every column; the bound is checked once,
    /// by the caller's `requires`.
    fn row_ref(&'a self, index: usize) -> (r: Self::Ref)
        requires
            self.wf(),
            index < self.rows().len(),
        ensures
            Self::ref_row(r) == self.rows()[index as int],
    ;
}

/// The last field of a schema: a single column.
pub struct LastColumn<A> {
    col: Vec<A>,
}

/// A field's column followed by the columns of the remaining fields.
pub struct Column<A, R> {
    col: Vec<A>,
    rest: R,
}

/// Relies on `slice::reverse`: the elements end up in the opposite order.
#[verifier::external_body]
fn reverse_vec<A>(v: &mut Vec<A>)
    ensures
        final(v)@ == old(v)@.reverse(),
{
    v.reverse()
}

/// Relies on `Vec::shrink_to_fit`: only the capacity changes.
#[verifier::external_body]
fn shrink_vec<A>(v: &mut Vec<A>)
    ensures
        final(v)@ == old(v)@,
{
    v.shrink_to_fit()
}

impl<A> Columns for LastColumn<A> {
    type Row = A;

    closed spec fn rows(&self) -> Seq<A> {
        self.col@
    }

    closed spec fn column_lens(&self) -> Seq<nat> {
        seq![self.col@.len()]
    }

    closed spec fn wf(&self) -> bool {
        true
    }

    proof fn lemma_column_lens(&self) {
    }

    fn new() -> (r: Self) {
        LastColumn { col: Vec::new() }
    }

    fn with_capacity(capacity: usize) -> (r: Self) {
        LastColumn { col: Vec::with_capacity(capacity) }
    }

    fn len(&self) -> (n: usize) {
        self.col.len()
    }

    fn push(&mut self, row: A) {
        self.col.push(row);
    }

    fn pop_last(&mut self) -> (row: A) {
        let last = self.col.len() - 1;
        self.col.remove(last)
    }

    fn insert_at(&mut self, index: usize, row: A) {
        self.col.insert(index, row);
    }

    fn remove_at(&mut self, index: usize) -> (row: A) {
        self.col.remove(index)
    }

    fn swap_remove_at(&mut self, index: usize) -> (row: A) {
        self.col.swap_remove(index)
    }

    fn clear(&mut self) {
        self.col.clear();
    }

    fn reverse(&mut self) {
        reverse_vec(&mut self.col);
    }

    fn shrink_to_fit(&mut self) {
        shrink_vec(&mut self.col);
    }
}

impl<'a, A: 'a> ColumnsRef<'a> for LastColumn<A> {
    type Ref = &'a A;

    open spec fn ref_row(r: &'a A) -> A {
        *r
    }

    fn row_ref(&'a self, index: usize) -> (r: &'a A) {
        &self.col[index]
    }
}

impl<A, R: Columns> Column<A, R> {
    /// Borrows element `index` of this field's column and, apart from it, the
    /// remaining columns.
    pub(crate) fn split_row<'a>(&'a mut self, index: usize) -> (r: (&'a mut A, RowMut<'a, R>))
        requires
            old(self).wf(),
            index < old(self).rows().len(),
        ensures
            *r.0 == old(self).rows()[index as int].0,
            r.1.handle().wf(),
            r.1.handle().rows().len() == old(self).rows().len(),
            r.1.index() == index,
            r.1.handle().rows()[index as int] == old(self).rows()[index as int].1,
            forall|t: R::Row|
                final(r.1.handle()).wf() && final(r.1.handle()).rows() == r.1.handle().rows().update(
                    index as int,
                    t,
                ) ==> {
                    &&& final(self).wf()
                    &&& final(self).rows() == old(self).rows().update(
                        index as int,
                        (*final(r.0), t),
                    )
                },
    {
        let ghost before = *self;
        let ghost after = *final(self);
        let r = (&mut self.col[index], RowMut::new(&mut self.rest, index));
        assert forall|t: R::Row|
            final(r.1.handle()).wf() && final(r.1.handle()).rows() == r.1.handle().rows().update(
                index as int,
                t,
            ) implies after.wf() && after.rows() == before.rows().update(
            index as int,
            (*final(r.0), t),
        ) by {
            assert(after.rows() =~= before.rows().update(index as int, (*final(r.0), t)));
        }
        r
    }
}

impl<A> LastColumn<A> {
    /// Borrows element `index` of the column.
    pub(crate) fn at_mut<'a>(&'a mut self, index: usize) -> (r: &'a mut A)
        requires
            index < old(self).rows().len(),
        ensures
            *r == old(self).rows()[index as int],
            final(self).wf(),
            final(self).rows() == old(self).rows().update(index as int, *final(r)),
    {
        &mut self.col[index]
    }
}

impl<A, R: Columns> Columns for Column<A, R> {
    type Row = (A, R::Row);

    closed spec fn rows(&self) -> Seq<(A, R::Row)> {
        Seq::new(self.col@.len(), |i: int| (self.col@[i], self.rest.rows()[i]))
    }

    closed spec fn column_lens(&self) -> Seq<nat> {
        seq![self.col@.len()] + self.rest.column_lens()
    }

    closed spec fn wf(&self) -> bool {
        &&& self.rest.wf()
        &&& self.rest.rows().len() == self.col@.len()
    }

    proof fn lemma_column_lens(&self) {
        self.rest.lemma_column_lens();
        assert forall|k: int| 0 <= k < self.column_lens().len() implies #[trigger] self.column_lens()[k]
            == self.rows().len() by {
            if k > 0 {
                assert(self.column_lens()[k] == self.rest.column_lens()[k - 1]);
            }
        }
    }

    fn new() -> (r: Self) {
        let r = Column { col: Vec::new(), rest: R::new() };
        assert(r.rows() =~= Seq::<Self::Row>::empty());
        r
    }

    fn with_capacity(capacity: usize) -> (r: Self) {
        let r = Column { col: Vec::with_capacity(capacity), rest: R::with_capacity(capacity) };
        assert(r.rows() =~= Seq::<Self::Row>::empty());
        r
    }

    fn len(&self) -> (n: usize) {
        self.col.len()
    }

    fn push(&mut self, row: (A, R::Row)) {
        let (a, r) = row;
        self.col.push(a);
        self.rest.push(r);
        assert(self.rows() =~= old(self).rows().push((a, r)));
    }

    fn pop_last(&mut self) -> (row: (A, R::Row)) {
        let last = self.col.len() - 1;
        let a = self.col.remove(last);
        let r = self.rest.pop_last();
        assert(self.rows() =~= old(self).rows().drop_last());
        (a, r)
    }

    fn insert_at(&mut self, index: usize, row: (A, R::Row)) {
        let (a, r) = row;
        self.col.insert(index, a);
        self.rest.insert_at(index, r);
        assert(self.rows() =~= old(self).rows().insert(index as int, (a, r)));
    }

    fn remove_at(&mut self, index: usize) -> (row: (A, R::Row)) {
        let a = self.col.remove(index);
        let r = self.rest.remove_at(index);
        assert(self.rows() =~= old(self).rows().remove(index as int));
        (a, r)
    }

    fn swap_remove_at(&mut self, index: usize) -> (row: (A, R::Row)) {
        let a = self.col.swap_remove(index);
        let r = self.rest.swap_remove_at(index);
        assert(self.rows() =~= old(self).rows().update(index as int, old(self).rows().last()).drop_last());
        (a, r)
    }

    fn clear(&mut self) {
        self.col.clear();
        self.rest.clear();
        assert(self.rows() =~= Seq::<Self::Row>::empty());
    }

    fn reverse(&mut self) {
        reverse_vec(&mut self.col);
        self.rest.reverse();
        assert(self.rows() =~= old(self).rows().reverse());
    }

    fn shrink_to_fit(&mut self) {
        shrink_vec(&mut self.col);
        self.rest.shrink_to_fit();
        assert(self.rows() =~= old(self).rows());
    }
}

impl<'a, A: 'a, R: ColumnsRef<'a>> ColumnsRef<'a> for Column<A, R> {
    type Ref = (&'a A, R::Ref);

    open spec fn ref_row(r: (&'a A, R::Ref)) -> (A, R::Row) {
        (*r.0, R::ref_row(r.1))
    }

    fn row_ref(&'a self, index: usize) -> (r: (&'a A, R::Ref)) {
        (&self.col[index], self.rest.row_ref(index))
    }
}

} // verus!
