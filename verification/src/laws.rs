//! The guarantees of the queue discipline, stated over the spec-level
//! transitions that the channel's and facade's contracts are phrased with, and
//! proved once for all queues, capacities and record sequences.

use vstd::prelude::*;

use crate::channel::{
    accept_flags, lemma_records_of_push, offer, offer_all, records_of, shutdown_last,
};
use crate::facade::is_overflow_notice;
use crate::record::{AsyncMsg, RecordData};

verus! {

/// Records sent back-to-back by one producer while the queue has room for all
/// of them are all accepted, and they stand behind the prior contents in send
/// order. Since the worker only ever takes the queue's front, they are
/// processed in exactly the order they were sent.
pub proof fn lemma_fifo_order(q: Seq<AsyncMsg>, cap: nat, recs: Seq<RecordData>)
    requires
        q.len() + recs.len() <= cap,
    ensures
        offer_all(q, cap, recs) == q + recs.map_values(|r: RecordData| AsyncMsg::Record(r)),
        records_of(offer_all(q, cap, recs)) == records_of(q) + recs,
        accept_flags(q, cap, recs) == Seq::new(recs.len(), |i: int| true),
    decreases recs.len(),
{
    let f = |r: RecordData| AsyncMsg::Record(r);
    if recs.len() == 0 {
        assert(offer_all(q, cap, recs) =~= q + recs.map_values(f));
        assert(records_of(q) + recs =~= records_of(q));
        assert(accept_flags(q, cap, recs) =~= Seq::new(recs.len(), |i: int| true));
    } else {
        let q1 = offer(q, cap, recs[0]);
        assert(q1 == q.push(AsyncMsg::Record(recs[0])));
        lemma_records_of_push(q, AsyncMsg::Record(recs[0]));
        lemma_fifo_order(q1, cap, recs.drop_first());
        assert(q1 + recs.drop_first().map_values(f) =~= q + recs.map_values(f));
        assert(records_of(q1) + recs.drop_first() =~= records_of(q) + recs);
        assert(seq![true] + Seq::new(recs.drop_first().len(), |i: int| true) =~= Seq::new(
            recs.len(),
            |i: int| true,
        ));
    }
}

/// A back-to-back burst that overruns the capacity, with no worker progress in
/// between: attempts succeed exactly while there is room. With the queue
/// initially holding `j` messages, the first `cap - j` attempts are accepted
/// and every later one is a counted drop; the queue ends exactly full.
pub proof fn lemma_burst_overflow(q: Seq<AsyncMsg>, cap: nat, recs: Seq<RecordData>)
    requires
        q.len() <= cap,
    ensures
        accept_flags(q, cap, recs) == Seq::new(recs.len(), |i: int| i < cap - q.len()),
        offer_all(q, cap, recs).len() == (if q.len() + recs.len() <= cap {
            q.len() + recs.len()
        } else {
            cap
        }),
    decreases recs.len(),
{
    if recs.len() == 0 {
        assert(accept_flags(q, cap, recs) =~= Seq::new(recs.len(), |i: int| i < cap - q.len()));
    } else {
        let q1 = offer(q, cap, recs[0]);
        lemma_burst_overflow(q1, cap, recs.drop_first());
        if q.len() < cap {
            assert(seq![true] + Seq::new(recs.drop_first().len(), |i: int| i < cap - q1.len())
                =~= Seq::new(recs.len(), |i: int| i < cap - q.len()));
        } else {
            assert(seq![false] + Seq::new(recs.drop_first().len(), |i: int| i < cap - q1.len())
                =~= Seq::new(recs.len(), |i: int| i < cap - q.len()));
        }
    }
}

/// Capacity `k`, and `k + 1` records sent back-to-back into an empty queue
/// with no worker progress: the first `k` are accepted and exactly the last
/// one is dropped.
pub proof fn lemma_capacity_plus_one(cap: nat, recs: Seq<RecordData>)
    requires
        cap >= 1,
        recs.len() == cap + 1,
    ensures
        accept_flags(Seq::empty(), cap, recs) == Seq::new(recs.len(), |i: int| i < cap),
        offer_all(Seq::empty(), cap, recs).len() == cap,
{
    lemma_burst_overflow(Seq::empty(), cap, recs);
    assert(Seq::new(recs.len(), |i: int| i < cap - Seq::<AsyncMsg>::empty().len()) =~= Seq::new(
        recs.len(),
        |i: int| i < cap,
    ));
}

/// After a burst dropped `n` records, a facade log call that finds room first
/// enqueues the notice reporting `n` and then the triggering record: once the
/// worker drains the queue, the sink observes the notice, then the record,
/// adjacent and in that order.
pub proof fn lemma_notice_precedes_trigger(
    q: Seq<AsyncMsg>,
    cap: nat,
    n: usize,
    nr: RecordData,
    rec: RecordData,
)
    requires
        n > 0,
        is_overflow_notice(nr, n),
        q.len() + 2 <= cap,
    ensures
        records_of(offer(q.push(AsyncMsg::Record(nr)), cap, rec)) == records_of(q).push(nr).push(
            rec,
        ),
{
    lemma_records_of_push(q, AsyncMsg::Record(nr));
    lemma_records_of_push(q.push(AsyncMsg::Record(nr)), AsyncMsg::Record(rec));
}

/// Disposal after a burst of `m` records (`m` within capacity) into an empty
/// queue processes exactly those `m` records, in send order: what the core's
/// teardown hands the sink is the whole burst.
pub proof fn lemma_dispose_drains_all(cap: nat, recs: Seq<RecordData>)
    requires
        recs.len() <= cap,
    ensures
        records_of(offer_all(Seq::empty(), cap, recs)) == recs,
{
    lemma_fifo_order(Seq::empty(), cap, recs);
    assert(records_of(Seq::<AsyncMsg>::empty()) == Seq::<RecordData>::empty());
    assert(records_of(Seq::<AsyncMsg>::empty()) + recs =~= recs);
}

/// A queue obeying the shutdown discipline holds at most one terminal signal,
/// and only as its last message: a second terminal signal is never queued, and
/// no message follows the one that is.
pub proof fn lemma_single_shutdown(q: Seq<AsyncMsg>)
    requires
        shutdown_last(q),
    ensures
        forall|i: int, j: int|
            0 <= i < q.len() && 0 <= j < q.len() && q[i] is Finish && q[j] is Finish ==> i == j,
{
}

} // verus!
