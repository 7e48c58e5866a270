//! Tables of rows that are kept in the order of their identifiers.
//!
//! Every table of the catalog is a sequence of rows whose identifiers are
//! positive and strictly increasing. The order gives each identifier at most
//! one row, makes the last row the one with the largest identifier, and is
//! kept by appending a row with a larger identifier and by removing a row.
//!
//! An identifier is never given twice: beside each table stands the largest
//! identifier that it ever gave, and a new row gets the one after it, whether
//! or not the rows that came before are still there.

use vstd::prelude::*;

verus! {

/// A row that is found by an integer identifier.
pub trait Keyed {
    /// The identifier of the row.
    spec fn key(&self) -> int;
}

/// A stored row: it has a view that is found by its identifier, and hands
/// that identifier out.
pub trait Row: View + Sized where Self::V: Keyed {
    /// The identifier of the row.
    fn id(&self) -> (r: i32)
        ensures
            r as int == self@.key(),
    ;

    /// A copy of the row.
    fn duplicate(&self) -> (r: Self)
        ensures
            r@ == self@,
    ;
}

/// The views of a sequence of rows, in the same order.
pub open spec fn views<R: View>(rows: Seq<R>) -> Seq<R::V> {
    Seq::new(rows.len(), |i: int| rows[i]@)
}

/// The view of a row that may be missing.
pub open spec fn row_view<R: View>(row: Option<R>) -> Option<R::V> {
    match row {
        Some(r) => Some(r@),
        None => None,
    }
}

/// The identifiers are positive and strictly increasing.
pub open spec fn ordered<T: Keyed>(rows: Seq<T>) -> bool {
    &&& forall|i: int| 0 <= i < rows.len() ==> 1 <= #[trigger] rows[i].key()
    &&& forall|i: int, j: int|
        0 <= i < j < rows.len() ==> #[trigger] rows[i].key() < #[trigger] rows[j].key()
}

/// Whether some row has the identifier `id`.
pub open spec fn has_key<T: Keyed>(rows: Seq<T>, id: int) -> bool {
    exists|i: int| 0 <= i < rows.len() && #[trigger] rows[i].key() == id
}

/// The place of a row with the identifier `id`, where there is one.
pub open spec fn position<T: Keyed>(rows: Seq<T>, id: int) -> int {
    choose|i: int| 0 <= i < rows.len() && #[trigger] rows[i].key() == id
}

/// The row with the identifier `id`, or `None`.
pub open spec fn find<T: Keyed>(rows: Seq<T>, id: int) -> Option<T> {
    if has_key(rows, id) {
        Some(rows[position(rows, id)])
    } else {
        None
    }
}

/// The table without the row that has the identifier `id`; the table itself
/// where no row has it.
pub open spec fn without<T: Keyed>(rows: Seq<T>, id: int) -> Seq<T> {
    if has_key(rows, id) {
        rows.remove(position(rows, id))
    } else {
        rows
    }
}

/// The table with the row that has the identifier of `row` replaced by
/// `row`; the table itself where no row has it.
pub open spec fn replaced<T: Keyed>(rows: Seq<T>, row: T) -> Seq<T> {
    if has_key(rows, row.key()) {
        rows.update(position(rows, row.key()), row)
    } else {
        rows
    }
}

/// The least identifier above every identifier in the table: one more than
/// that of the last row, and 1 in an empty table.
pub open spec fn next_key<T: Keyed>(rows: Seq<T>) -> int {
    if rows.len() == 0 {
        1
    } else {
        rows.last().key() + 1
    }
}

/// Whether no identifier in the table is above `last`, the largest
/// identifier that the table ever gave.
pub open spec fn within<T: Keyed>(rows: Seq<T>, last: int) -> bool {
    next_key(rows) <= last + 1
}

/// The largest identifier that a table ever gave, where `counted` is the
/// largest that was counted for it: the larger of that count and the
/// identifier of the last row.
pub open spec fn last_given<T: Keyed>(rows: Seq<T>, counted: int) -> int {
    if next_key(rows) - 1 > counted {
        next_key(rows) - 1
    } else {
        counted
    }
}

/// In an ordered table the row at place `i` is the one that `find` gives for
/// its identifier.
pub proof fn lemma_found_at<T: Keyed>(rows: Seq<T>, i: int)
    requires
        ordered(rows),
        0 <= i < rows.len(),
    ensures
        has_key(rows, rows[i].key()),
        position(rows, rows[i].key()) == i,
        find(rows, rows[i].key()) == Some(rows[i]),
{
}

/// Every identifier in an ordered table is below the next identifier.
pub proof fn lemma_below_next<T: Keyed>(rows: Seq<T>, i: int)
    requires
        ordered(rows),
        0 <= i < rows.len(),
    ensures
        1 <= rows[i].key() < next_key(rows),
{
}

/// Appending a row with an identifier above every one in the table keeps
/// the table ordered; the new row is found, and every other identifier finds
/// what it found before.
pub proof fn lemma_append<T: Keyed>(rows: Seq<T>, row: T)
    requires
        ordered(rows),
        row.key() >= next_key(rows),
    ensures
        ordered(rows.push(row)),
        next_key(rows.push(row)) == row.key() + 1,
        !has_key(rows, row.key()),
        find(rows.push(row), row.key()) == Some(row),
        forall|id: int| id != row.key() ==> find(rows.push(row), id) == find(rows, id),
        forall|id: int| has_key(rows.push(row), id) <==> (id == row.key() || has_key(rows, id)),
{
    let grown = rows.push(row);
    lemma_found_at(grown, rows.len() as int);
    assert forall|id: int| has_key(grown, id) <==> (id == row.key() || has_key(rows, id)) by {
        if has_key(rows, id) {
            assert(grown[position(rows, id)].key() == id);
        }
    }
}

/// Removing the row at place `i` of an ordered table gives the table
/// without that row's identifier, which is ordered; that identifier
/// finds nothing any more, and every other finds what it found before.
pub proof fn lemma_remove_at<T: Keyed>(rows: Seq<T>, i: int)
    requires
        ordered(rows),
        0 <= i < rows.len(),
    ensures
        rows.remove(i) == without(rows, rows[i].key()),
        ordered(rows.remove(i)),
        !has_key(rows.remove(i), rows[i].key()),
        forall|id: int| id != rows[i].key() ==> find(rows.remove(i), id) == find(rows, id),
        forall|id: int| has_key(rows.remove(i), id) <==> (id != rows[i].key() && has_key(rows, id)),
        next_key(rows.remove(i)) <= next_key(rows),
{
    let gone = rows[i].key();
    let rest = rows.remove(i);
    assert forall|id: int| has_key(rest, id) <==> (id != gone && has_key(rows, id)) by {
        if has_key(rows, id) && id != gone {
            let p = position(rows, id);
            let q = if p < i { p } else { p - 1 };
            assert(rest[q].key() == id);
        }
    }
}

/// Replacing the row at place `i` of an ordered table by a row with the
/// same identifier gives `replaced`, keeps the table ordered, makes the new
/// row the one found, and leaves every other identifier as it was.
pub proof fn lemma_replace_at<T: Keyed>(rows: Seq<T>, i: int, row: T)
    requires
        ordered(rows),
        0 <= i < rows.len(),
        rows[i].key() == row.key(),
    ensures
        rows.update(i, row) == replaced(rows, row),
        ordered(rows.update(i, row)),
        find(rows.update(i, row), row.key()) == Some(row),
        forall|id: int| id != row.key() ==> find(rows.update(i, row), id) == find(rows, id),
        forall|id: int| has_key(rows.update(i, row), id) <==> has_key(rows, id),
        next_key(rows.update(i, row)) == next_key(rows),
{
    let changed = rows.update(i, row);
    assert forall|id: int| has_key(changed, id) <==> has_key(rows, id) by {
        if has_key(rows, id) {
            assert(changed[position(rows, id)].key() == id);
        }
    }
}

/// The place of the row with the identifier `id` in an ordered table, or
/// `None` where no row has it.
pub fn locate<R: Row>(rows: &Vec<R>, id: i32) -> (r: Option<usize>) where R::V: Keyed
    requires
        ordered(views(rows@)),
    ensures
        match r {
            Some(i) => i < rows.len() && has_key(views(rows@), id as int) && position(
                views(rows@),
                id as int,
            ) == i,
            None => !has_key(views(rows@), id as int),
        },
{
    let mut i: usize = 0;
    while i < rows.len()
        invariant
            i <= rows.len(),
            ordered(views(rows@)),
            forall|k: int| 0 <= k < i ==> #[trigger] views(rows@)[k].key() != id,
        decreases rows.len() - i,
    {
        if rows[i].id() == id {
            proof {
                lemma_found_at(views(rows@), i as int);
            }
            return Some(i);
        }
        i = i + 1;
    }
    None
}

/// A copy of the row with the identifier `id` in an ordered table, or `None`
/// where no row has it.
pub fn fetch<R: Row>(rows: &Vec<R>, id: i32) -> (r: Option<R>) where R::V: Keyed
    requires
        ordered(views(rows@)),
    ensures
        row_view(r) == find(views(rows@), id as int),
{
    match locate(rows, id) {
        Some(i) => Some(rows[i].duplicate()),
        None => None,
    }
}

/// The largest identifier that an ordered table ever gave, where `counted`
/// is the largest that was counted for it.
pub fn last_id<R: Row>(rows: &Vec<R>, counted: i32) -> (r: i32) where R::V: Keyed
    requires
        ordered(views(rows@)),
        0 <= counted,
    ensures
        r as int == last_given(views(rows@), counted as int),
        within(views(rows@), r as int),
{
    if rows.len() == 0 {
        counted
    } else {
        let last = rows[rows.len() - 1].id();
        if last > counted {
            last
        } else {
            counted
        }
    }
}

/// The identifier after `last`, the largest that a table ever gave, or
/// `None` where there is none left.
pub fn next_id(last: i32) -> (r: Option<i32>)
    ensures
        match r {
            Some(id) => id as int == last + 1,
            None => last + 1 > i32::MAX,
        },
{
    if last == i32::MAX {
        None
    } else {
        Some(last + 1)
    }
}

/// A copy of every row of a table, in order.
pub fn duplicate_all<R: Row>(rows: &Vec<R>) -> (r: Vec<R>) where R::V: Keyed
    ensures
        views(r@) == views(rows@),
{
    let mut out: Vec<R> = Vec::new();
    let mut i: usize = 0;
    while i < rows.len()
        invariant
            i <= rows.len(),
            out.len() == i,
            forall|k: int| 0 <= k < i ==> #[trigger] out@[k]@ == rows@[k]@,
        decreases rows.len() - i,
    {
        out.push(rows[i].duplicate());
        i = i + 1;
    }
    out
}

} // verus!
