//! What every section reader shares: the record count that opens a section, and draining.
use vstd::prelude::*;

use crate::error::Error;
use crate::source::{fits, le_i32};

verus! {

/// The four-byte record count at `p` and the position after it.
pub open spec fn parse_count(b: Seq<u8>, p: int) -> Result<(i32, int), Error> {
    if fits(b, p, 4) {
        Ok((le_i32(b, p) as i32, p + 4))
    } else {
        Err(Error::UnexpectedEnd)
    }
}

/// The number of records a reader will decode for a declared count; a negative count holds none.
pub open spec fn remaining_of(count: i32) -> i32 {
    if count < 0 { 0 } else { count }
}

/// How many records are still to decode when the counter holds `remaining`.
pub open spec fn pending(remaining: i32) -> nat {
    if remaining <= 0 { 0 } else { remaining as nat }
}

/// Where `n` consecutive records end when each is decoded by `step`, a map from a record's
/// start to its end; the first failure, if any, ends the run.
pub open spec fn drain(
    step: spec_fn(Seq<u8>, int) -> Result<int, Error>,
    b: Seq<u8>,
    p: int,
    n: nat,
) -> Result<int, Error>
    decreases n,
{
    if n == 0 {
        Ok(p)
    } else {
        match step(b, p) {
            Ok(e) => drain(step, b, e, (n - 1) as nat),
            Err(err) => Err(err),
        }
    }
}

/// The count that opens the next section, after the `n` records still unread at `p`.
pub open spec fn next_section(
    step: spec_fn(Seq<u8>, int) -> Result<int, Error>,
    b: Seq<u8>,
    p: int,
    n: nat,
) -> Result<(i32, int), Error> {
    match drain(step, b, p, n) {
        Ok(q) => parse_count(b, q),
        Err(err) => Err(err),
    }
}

/// Draining `n > 0` records is decoding the first and draining the others.
pub proof fn lemma_drain_unfold(
    step: spec_fn(Seq<u8>, int) -> Result<int, Error>,
    b: Seq<u8>,
    p: int,
    n: nat,
)
    requires
        n > 0,
    ensures
        next_section(step, b, p, n) == match step(b, p) {
            Ok(e) => next_section(step, b, e, (n - 1) as nat),
            Err(err) => Err(err),
        },
{
}

/// Draining does not depend on how many records the caller read first: after `k` records
/// were read from `p` to `q`, draining the other `n - k` ends where draining all `n` from
/// `p` ends, and the next section then opens on the same count at the same place.
pub proof fn lemma_drain_after_reads(
    step: spec_fn(Seq<u8>, int) -> Result<int, Error>,
    b: Seq<u8>,
    p: int,
    q: int,
    n: nat,
    k: nat,
)
    requires
        k <= n,
        drain(step, b, p, k) == Ok::<int, Error>(q),
    ensures
        drain(step, b, p, n) == drain(step, b, q, (n - k) as nat),
        next_section(step, b, p, n) == next_section(step, b, q, (n - k) as nat),
    decreases k,
{
    if k > 0 {
        let e = step(b, p)->Ok_0;
        lemma_drain_after_reads(step, b, e, q, (n - 1) as nat, (k - 1) as nat);
    }
}

} // verus!

verus! {

/// `n` consecutive items at `p`, each decoded by `item`, and the position after the last.
pub open spec fn parse_list<T>(
    item: spec_fn(Seq<u8>, int) -> Result<(T, int), Error>,
    b: Seq<u8>,
    p: int,
    n: nat,
) -> Result<(Seq<T>, int), Error>
    decreases n,
{
    if n == 0 {
        Ok((Seq::empty(), p))
    } else {
        match item(b, p) {
            Err(err) => Err(err),
            Ok((x, q)) => match parse_list(item, b, q, (n - 1) as nat) {
                Err(err) => Err(err),
                Ok((xs, e)) => Ok((seq![x].add(xs), e)),
            },
        }
    }
}

/// The list that `done` items already decoded begin, followed by what `n` more items at `p`
/// decode to.
pub open spec fn list_after<T>(
    item: spec_fn(Seq<u8>, int) -> Result<(T, int), Error>,
    b: Seq<u8>,
    done: Seq<T>,
    p: int,
    n: nat,
) -> Result<(Seq<T>, int), Error> {
    match parse_list(item, b, p, n) {
        Err(err) => Err(err),
        Ok((xs, e)) => Ok((done.add(xs), e)),
    }
}

/// Decoding one more item of a list moves it from the pending part to the decoded part.
pub proof fn lemma_list_step<T>(
    item: spec_fn(Seq<u8>, int) -> Result<(T, int), Error>,
    b: Seq<u8>,
    done: Seq<T>,
    p: int,
    n: nat,
)
    requires
        n > 0,
    ensures
        item(b, p) is Err ==> list_after(item, b, done, p, n) == Err::<(Seq<T>, int), Error>(
            item(b, p)->Err_0,
        ),
        item(b, p) is Ok ==> list_after(item, b, done, p, n) == list_after(
            item,
            b,
            done.push(item(b, p)->Ok_0.0),
            item(b, p)->Ok_0.1,
            (n - 1) as nat,
        ),
{
    if item(b, p) is Ok {
        let (x, q) = item(b, p)->Ok_0;
        match parse_list(item, b, q, (n - 1) as nat) {
            Err(err) => {},
            Ok((xs, e)) => {
                assert(done.add(seq![x].add(xs)) =~= done.push(x).add(xs));
            },
        }
    }
}

/// With nothing left to decode, the list is what was decoded.
pub proof fn lemma_list_done<T>(
    item: spec_fn(Seq<u8>, int) -> Result<(T, int), Error>,
    b: Seq<u8>,
    done: Seq<T>,
    p: int,
)
    ensures
        list_after(item, b, done, p, 0) == Ok::<(Seq<T>, int), Error>((done, p)),
{
    assert(done.add(Seq::<T>::empty()) =~= done);
}

} // verus!
