use vstd::prelude::*;

verus! {

/// Appending a row and then popping gives that row back, and the rows from
/// before: `push` appends to the view and `pop` returns its last element and
/// drops it.
pub proof fn lemma_push_pop<R>(rows: Seq<R>, row: R)
    ensures
        rows.push(row).len() == rows.len() + 1,
        rows.push(row).last() == row,
        rows.push(row).drop_last() == rows,
{
    assert(rows.push(row).drop_last() =~= rows);
}

/// Inserting a row at any index from 0 to the row count and then removing at
/// that index gives the row back, and every other row in its old place.
pub proof fn lemma_insert_remove<R>(rows: Seq<R>, index: int, row: R)
    requires
        0 <= index <= rows.len(),
    ensures
        index < rows.insert(index, row).len(),
        rows.insert(index, row)[index] == row,
        rows.insert(index, row).remove(index) == rows,
{
    assert(rows.insert(index, row).remove(index) =~= rows);
}

/// Reversing a row sequence twice gives it back unchanged.
pub proof fn lemma_reverse_involution<R>(rows: Seq<R>)
    ensures
        rows.reverse().reverse() == rows,
{
    assert(rows.reverse().reverse() =~= rows);
}

/// The rows after the first `count` of them, in order, have each been
/// replaced by `write` of their old value: what the mutable iterator leaves
/// after lending rows `0..count`, each lent row taking `update(k, ..)`.
pub open spec fn written_prefix<R>(rows: Seq<R>, write: spec_fn(R) -> R, count: nat) -> Seq<R>
    decreases count,
{
    if count == 0 {
        rows
    } else {
        written_prefix(rows, write, (count - 1) as nat).update(
            count - 1,
            write(rows[count - 1]),
        )
    }
}

/// Writing `write` of each row through the mutable iterator, one lent row
/// after another, gives the same rows as applying `write` to every row of the
/// row-major sequence.
pub proof fn lemma_rowwise_writes<R>(rows: Seq<R>, write: spec_fn(R) -> R)
    ensures
        written_prefix(rows, write, rows.len()) == rows.map_values(write),
{
    lemma_written_prefix(rows, write, rows.len());
    assert(written_prefix(rows, write, rows.len()) =~= rows.map_values(write));
}

/// After rows `0..count` have been written, those rows hold `write` of their
/// old value and the later rows are as they were.
pub proof fn lemma_written_prefix<R>(rows: Seq<R>, write: spec_fn(R) -> R, count: nat)
    requires
        count <= rows.len(),
    ensures
        written_prefix(rows, write, count).len() == rows.len(),
        forall|k: int|
            0 <= k < count ==> #[trigger] written_prefix(rows, write, count)[k] == write(rows[k]),
        forall|k: int|
            count <= k < rows.len() ==> #[trigger] written_prefix(rows, write, count)[k] == rows[k],
    decreases count,
{
    if count > 0 {
        lemma_written_prefix(rows, write, (count - 1) as nat);
    }
}

} // verus!
