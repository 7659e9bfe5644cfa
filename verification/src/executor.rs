use vstd::prelude::*;
use crate::arguments::RXQLiteArguments;
use crate::value::SqlValue;
use crate::row::{
    row_converted, wire_row_wf, Either, RXQLiteQueryResult, RXQLiteRow, WireQueryResult, WireRow,
};

verus! {

/// What a statement that returns several results and rows produced, as far
/// as it went: the converted items, in order, and the message of the first
/// failed item, at which it stopped.
pub struct FetchManyOutcome {
    pub items: Vec<Either<RXQLiteQueryResult, RXQLiteRow>>,
    pub error: Option<String>,
}

/// The server's items: outcomes and rows, or the message of a failure.
pub type WireItem = Result<Either<WireQueryResult, WireRow>, String>;

/// `o` is the item that the server's item `w` stands for.
pub open spec fn item_converted(
    w: Either<WireQueryResult, WireRow>,
    o: Either<RXQLiteQueryResult, RXQLiteRow>,
) -> bool {
    match (w, o) {
        (Either::Left(q), Either::Left(r)) => r.last_insert_rowid == q.last_insert_rowid
            && r.changes == q.changes,
        (Either::Right(wr), Either::Right(rr)) => row_converted(wr, rr),
        _ => false,
    }
}

/// The first `n` items succeeded.
pub open spec fn ok_prefix(items: Seq<WireItem>, n: int) -> bool {
    forall|j: int| 0 <= j < n ==> (#[trigger] items[j]) is Ok
}

/// Every row up to the first failure describes the columns of its fields.
pub open spec fn rows_wf_until_error(items: Seq<WireItem>) -> bool {
    forall|i: int|
        #![trigger items[i]]
        0 <= i < items.len() && ok_prefix(items, i) ==> match items[i] {
            Ok(Either::Right(r)) => wire_row_wf(r),
            _ => true,
        }
}

/// Converts a statement outcome.
pub fn query_result_from_wire(q: WireQueryResult) -> (r: RXQLiteQueryResult)
    ensures
        r.last_insert_rowid == q.last_insert_rowid,
        r.changes == q.changes,
{
    RXQLiteQueryResult { last_insert_rowid: q.last_insert_rowid, changes: q.changes }
}

/// Turns what the server answered to a many-results query into the items
/// that the query yields: each outcome and row is converted, in order, until
/// the first failed item, whose message ends the sequence.
pub fn fetch_many_items(items: Vec<WireItem>) -> (out: FetchManyOutcome)
    requires
        rows_wf_until_error(items@),
    ensures
        out.items@.len() <= items@.len(),
        ok_prefix(items@, out.items@.len() as int),
        forall|i: int|
            0 <= i < out.items@.len() ==> match items@[i] {
                Ok(w) => item_converted(w, #[trigger] out.items@[i]),
                Err(_) => false,
            },
        out.error is None <==> out.items@.len() == items@.len(),
        out.error matches Some(e) ==> items@[out.items@.len() as int] matches Err(m) && m@ == e@,
{
    let ghost all = items@;
    let mut out: Vec<Either<RXQLiteQueryResult, RXQLiteRow>> = Vec::new();
    for item in it: items.into_iter()
        invariant
            all == it.seq(),
            rows_wf_until_error(all),
            out@.len() == it.index(),
            ok_prefix(all, it.index() as int),
            forall|i: int|
                0 <= i < out@.len() ==> match all[i] {
                    Ok(w) => item_converted(w, #[trigger] out@[i]),
                    Err(_) => false,
                },
    {
        let ghost k = it.index();
        assert(all[k] == item);
        let ghost before = out@;
        match item {
            Ok(Either::Left(q)) => {
                out.push(Either::Left(query_result_from_wire(q)));
            },
            Ok(Either::Right(w)) => {
                out.push(Either::Right(RXQLiteRow::from_wire(w)));
            },
            Err(e) => {
                return FetchManyOutcome { items: out, error: Some(e) };
            },
        }
        assert forall|i: int| 0 <= i < out@.len() implies match all[i] {
            Ok(w) => item_converted(w, #[trigger] out@[i]),
            Err(_) => false,
        } by {
            if i < k {
                assert(out@[i] == before[i]);
            }
        }
    }
    FetchManyOutcome { items: out, error: None }
}

/// The row, if any, that a query for at most one row yields.
pub fn fetch_optional_row(row: Option<WireRow>) -> (r: Option<RXQLiteRow>)
    requires
        row matches Some(w) ==> wire_row_wf(w),
    ensures
        row is None <==> r is None,
        row matches Some(w) ==> r matches Some(rr) && row_converted(w, rr),
{
    match row {
        Some(w) => Some(RXQLiteRow::from_wire(w)),
        None => None,
    }
}

/// The row that a query for exactly one row yields.
pub fn fetch_one_row(row: WireRow) -> (r: RXQLiteRow)
    requires
        wire_row_wf(row),
    ensures
        row_converted(row, r),
{
    RXQLiteRow::from_wire(row)
}

/// The values sent with a query: those of its arguments, or none when the
/// query has no arguments.
pub fn argument_values(arguments: Option<RXQLiteArguments>) -> (v: Vec<SqlValue>)
    ensures
        match arguments {
            Some(a) => v@ == a.values@,
            None => v@.len() == 0,
        },
{
    match arguments {
        Some(a) => a.values,
        None => Vec::new(),
    }
}

/// A statement outcome becomes an outcome with the same row id and change
/// count, and a row becomes the row it stands for; an outcome never becomes a
/// row nor a row an outcome.
pub proof fn lemma_item_converted_exactly(
    q: WireQueryResult,
    w: WireRow,
    o: Either<RXQLiteQueryResult, RXQLiteRow>,
)
    ensures
        item_converted(Either::Left(q), o) <==> (o matches Either::Left(r)
            && r.last_insert_rowid == q.last_insert_rowid && r.changes == q.changes),
        item_converted(Either::Right(w), o) <==> (o matches Either::Right(rr) && row_converted(
            w,
            rr,
        )),
{
}

} // verus!
