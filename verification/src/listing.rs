//! What the reading endpoints answer, given the rows the store returned.
use vstd::prelude::*;
use crate::form::refuses;
use crate::http::{HttpStatus, Rejection};
use crate::responses::{BoardResponse, PostResponse};

verus! {

/// `GET /boards`: the boards the store listed, or 500 where the store failed.
pub fn list_boards(rows: Result<Vec<BoardResponse>, ()>) -> (r: Result<Vec<BoardResponse>, HttpStatus>)
    ensures
        rows matches Ok(boards) ==> r == Ok::<Vec<BoardResponse>, HttpStatus>(boards),
        rows is Err ==> r == Err::<Vec<BoardResponse>, HttpStatus>(HttpStatus::InternalServerError),
{
    match rows {
        Ok(boards) => Ok(boards),
        Err(()) => Err(HttpStatus::InternalServerError),
    }
}

/// The values present in `rows`, in order.
pub open spec fn present<T>(rows: Seq<Option<T>>) -> Seq<T>
    decreases rows.len(),
{
    if rows.len() == 0 {
        Seq::empty()
    } else {
        let rest = present(rows.drop_last());
        match rows.last() {
            Some(t) => rest.push(t),
            None => rest,
        }
    }
}

/// No rows, no values.
pub proof fn lemma_present_of_no_rows<T>()
    ensures
        present(Seq::<Option<T>>::empty()).len() == 0,
{
}

/// A further row that holds a value adds exactly that value at the end; a
/// further row that holds none adds nothing.
pub proof fn lemma_present_push<T>(rows: Seq<Option<T>>, row: Option<T>)
    ensures
        row matches Some(t) ==> present(rows.push(row)) == present(rows).push(t),
        row is None ==> present(rows.push(row)) == present(rows),
{
    assert(rows.push(row).drop_last() =~= rows);
}

/// The values of two runs of rows, one after the other, are the values of the
/// first followed by those of the second.
pub proof fn lemma_present_concatenation<T>(a: Seq<Option<T>>, b: Seq<Option<T>>)
    ensures
        present(a + b) == present(a) + present(b),
    decreases b.len(),
{
    if b.len() == 0 {
        assert(a + b =~= a);
        assert(present(a) + present(b) =~= present(a));
    } else {
        lemma_present_concatenation(a, b.drop_last());
        assert((a + b).drop_last() =~= a + b.drop_last());
        assert((a + b).last() == b.last());
        match b.last() {
            Some(t) => {
                assert(present(a + b) =~= present(a) + present(b));
            },
            None => {},
        }
    }
}

/// As many values as rows that hold one: none is dropped or added.
pub proof fn lemma_present_counts_values<T>(rows: Seq<Option<T>>)
    ensures
        present(rows).len() == rows.filter(|o: Option<T>| o is Some).len(),
    decreases rows.len(),
{
    reveal_with_fuel(Seq::filter, 1);
    if rows.len() > 0 {
        lemma_present_counts_values(rows.drop_last());
    }
}

/// `GET /board/<name>`: given the rows of the board joined with its opening
/// posts (one row without a post where the board has none), the threads;
/// no row at all means that there is no such board.
pub fn list_threads(rows: Result<Vec<Option<PostResponse>>, ()>) -> (r: Result<
    Vec<PostResponse>,
    Rejection,
>)
    ensures
        rows is Err ==> refuses(r, HttpStatus::InternalServerError, "Internal server error"@),
        rows matches Ok(v) ==> {
            if v.len() == 0 {
                refuses(r, HttpStatus::NotFound, "Board not found"@)
            } else {
                r matches Ok(threads) && threads@ == present(v@)
            }
        },
{
    let rows = match rows {
        Ok(rows) => rows,
        Err(()) => {
            return Err(Rejection::new(HttpStatus::InternalServerError, "Internal server error"));
        },
    };
    if rows.len() == 0 {
        return Err(Rejection::new(HttpStatus::NotFound, "Board not found"));
    }
    let ghost all = rows@;
    let mut threads: Vec<PostResponse> = Vec::new();
    for row in it: rows
        invariant
            all == it.seq(),
            threads@ == present(all.take(it.index() as int)),
    {
        assert(all.take(it.index() + 1).drop_last() =~= all.take(it.index() as int));
        match row {
            Some(t) => threads.push(t),
            None => {},
        }
    }
    assert(all.take(all.len() as int) =~= all);
    Ok(threads)
}

/// `GET /board/<board>/<id>`, first step: the store was asked for a reply
/// numbered `id` on that board; where it found one, the post is not a thread.
pub fn reply_probe_rejection(reply_probe: &Result<i32, ()>) -> (r: Option<Rejection>)
    ensures
        reply_probe is Ok <==> r is Some,
        r matches Some(e) ==> e.status == HttpStatus::NotFound && e.message@ == "Thread not found"@,
{
    match reply_probe {
        Ok(_) => Some(Rejection::new(HttpStatus::NotFound, "Thread not found")),
        Err(()) => None,
    }
}

/// `GET /board/<board>/<id>`, second step: given the posts of the board that
/// are numbered `id` or reply to it, the thread; none means no such thread.
pub fn show_thread(rows: Result<Vec<PostResponse>, ()>) -> (r: Result<Vec<PostResponse>, Rejection>)
    ensures
        rows is Err ==> refuses(r, HttpStatus::InternalServerError, "Internal server error"@),
        rows matches Ok(posts) ==> {
            if posts.len() == 0 {
                refuses(r, HttpStatus::NotFound, "Thread not found"@)
            } else {
                r matches Ok(shown) && shown == posts
            }
        },
{
    match rows {
        Ok(posts) => {
            if posts.len() == 0 {
                Err(Rejection::new(HttpStatus::NotFound, "Thread not found"))
            } else {
                Ok(posts)
            }
        },
        Err(()) => Err(Rejection::new(HttpStatus::InternalServerError, "Internal server error")),
    }
}

} // verus!
