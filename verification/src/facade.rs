//! The overflow-aware facade: presents an enqueue that never surfaces a full
//! queue. A record that cannot be handed off is counted as dropped, and the
//! accumulated count is later reported through a synthetic notice record sent
//! down the same path, ahead of the record whose call flushed it.

use vstd::prelude::*;

use crate::channel::{offer, records_of, AsyncCore, AsyncCoreBuilder, Drain};
use crate::record::{duplicate_kvs, AsyncMsg, KvPair, Level, Location, OwnedValue, RecordData};
use crate::{AsyncError, AsyncResult};

verus! {

/// Whether a record is the synthetic notice reporting `n` records dropped
/// because of channel overflow.
pub open spec fn is_overflow_notice(r: RecordData, n: usize) -> bool {
    &&& r.level == Level::Error
    &&& r.msg@ == "dropped messages due to channel overflow"@
    &&& r.tag@ == "slog-async"@
    &&& r.kvs@.len() == 1
    &&& r.kvs@[0].key@ == "count"@
    &&& r.kvs@[0].value == OwnedValue::Usize(n)
}

/// Builds the synthetic record that reports `n` records dropped because of
/// channel overflow; it carries the given inherited chain.
pub fn overflow_notice(n: usize, logger_kvs: Vec<KvPair>) -> (r: RecordData)
    ensures
        is_overflow_notice(r, n),
        r.logger_kvs == logger_kvs,
{
    let mut kvs: Vec<KvPair> = Vec::new();
    kvs.push(KvPair { key: "count".to_owned(), value: OwnedValue::Usize(n) });
    RecordData {
        msg: "dropped messages due to channel overflow".to_owned(),
        level: Level::Error,
        location: Location {
            file: "slog_async".to_owned(),
            line: 0,
            column: 0,
            function: "".to_owned(),
            module: "slog_async".to_owned(),
        },
        tag: "slog-async".to_owned(),
        logger_kvs: logger_kvs,
        kvs: kvs,
    }
}

/// The drop counter after one facade log call that started with a queue `q`,
/// capacity `cap` and a pending count `n`: the counter is taken (swapped to
/// zero); a failed notice flush puts `n + 1` back; a failed enqueue of the
/// caller's record counts one more. Additions saturate.
pub open spec fn facade_dropped(q: Seq<AsyncMsg>, cap: nat, n: usize) -> usize {
    let len1: int = if n > 0 && q.len() < cap {
        q.len() as int + 1
    } else {
        q.len() as int
    };
    let d1: usize = if n > 0 && q.len() >= cap {
        n.saturating_add(1)
    } else {
        0usize
    };
    if len1 < cap {
        d1
    } else {
        d1.saturating_add(1)
    }
}

/// After the shared drop counter was swapped to zero (reading `n`) and the
/// notice enqueue attempt came back: the amount to add back to the counter.
/// A notice dropped on a full queue puts `n + 1` back, the extra 1 accounting
/// for the notice itself; a delivered notice puts nothing back.
pub fn notice_counter_readd(n: usize, notice_was_full: bool) -> (r: usize)
    ensures
        r == if notice_was_full {
            n.saturating_add(1)
        } else {
            0usize
        },
{
    if notice_was_full {
        n.saturating_add(1)
    } else {
        0
    }
}

/// After the caller's own enqueue attempt came back: how much to count as
/// dropped. A full queue is absorbed as one counted drop; success counts
/// nothing.
pub fn event_counter_add(event_was_full: bool) -> (r: usize)
    ensures
        r == if event_was_full {
            1usize
        } else {
            0usize
        },
{
    if event_was_full {
        1
    } else {
        0
    }
}

/// Builder for [`Async`].
pub struct AsyncBuilder<D: Drain> {
    pub core: AsyncCoreBuilder<D>,
}

impl<D: Drain> AsyncBuilder<D> {
    fn new(drain: D) -> (r: Self)
        ensures
            r.core.chan_size == 128,
            r.core.drain == drain,
    {
        AsyncBuilder { core: AsyncCore::custom(drain) }
    }

    /// Sets the queue capacity used to hand records to the worker. The
    /// capacity must be at least 1.
    pub fn chan_size(self, s: usize) -> (r: Self)
        requires
            s >= 1,
        ensures
            r.core.chan_size == s,
            r.core.drain == self.core.drain,
    {
        AsyncBuilder { core: self.core.chan_size(s) }
    }

    /// Completes the build: queue empty, no drops counted yet.
    pub fn build(self) -> (r: Async<D>)
        requires
            self.core.chan_size >= 1,
        ensures
            r.wf(),
            r.dropped == 0,
            r.core.capacity == self.core.chan_size,
            r.core.queue@ == Seq::<AsyncMsg>::empty(),
            r.core.sink == self.core.drain,
    {
        Async { core: self.core.build(), dropped: 0 }
    }
}

/// The offload facade: wraps an [`AsyncCore`] with the overflow policy.
///
/// [`Async::log`] always succeeds: a full queue is absorbed into the drop
/// counter instead of being surfaced, and the count is later reported through
/// a synthetic notice record. Disposal performs one final best-effort flush of
/// the count before the core's blocking teardown.
pub struct Async<D: Drain> {
    pub core: AsyncCore<D>,
    pub dropped: usize,
}

impl<D: Drain> Async<D> {
    /// Well-formed: the wrapped core is live.
    pub open spec fn wf(&self) -> bool {
        self.core.live()
    }

    /// A facade with the default queue capacity of 128.
    pub fn default(drain: D) -> (r: Self)
        ensures
            r.wf(),
            r.dropped == 0,
            r.core.capacity == 128,
            r.core.queue@ == Seq::<AsyncMsg>::empty(),
            r.core.sink == drain,
    {
        AsyncBuilder::new(drain).build()
    }

    /// A builder, for a facade with custom parameters.
    pub fn new(drain: D) -> (r: AsyncBuilder<D>)
        ensures
            r.core.chan_size == 128,
            r.core.drain == drain,
    {
        AsyncBuilder::new(drain)
    }

    /// Flushes a pending drop count: takes the counter value `n`, and when
    /// `n > 0` attempts to enqueue the synthetic notice through the same
    /// channel path, carrying the given inherited chain. A notice dropped on a
    /// full queue puts `n + 1` back (the extra 1 accounts for the notice
    /// itself) and the call still succeeds: the count will be reported by a
    /// later flush. In this pipeline the call always succeeds; the fatal error
    /// path exists for deployments whose channel state can be poisoned.
    pub fn push_dropped(&mut self, logger_kvs: Vec<KvPair>) -> (r: AsyncResult<()>)
        requires
            old(self).wf(),
        ensures
            final(self).wf(),
            final(self).core.capacity == old(self).core.capacity,
            final(self).core.sink == old(self).core.sink,
            r is Ok,
            ({
                let q = old(self).core.queue@;
                let cap = old(self).core.capacity as nat;
                let n = old(self).dropped;
                if n > 0 {
                    if q.len() < cap {
                        &&& final(self).dropped == 0
                        &&& final(self).core.queue@.len() == q.len() + 1
                        &&& final(self).core.queue@.drop_last() == q
                        &&& (final(self).core.queue@.last() matches AsyncMsg::Record(nr)
                            && is_overflow_notice(nr, n) && nr.logger_kvs == logger_kvs)
                    } else {
                        final(self).dropped == n.saturating_add(1) && final(self).core.queue@ == q
                    }
                } else {
                    final(self).dropped == 0 && final(self).core.queue@ == q
                }
            }),
    {
        let n = self.dropped;
        self.dropped = 0;
        if n > 0 {
            let notice = overflow_notice(n, logger_kvs);
            match self.core.send(notice) {
                Ok(_) => {
                    proof {
                        assert(self.core.queue@.drop_last() =~= old(self).core.queue@);
                    }
                    Ok(())
                },
                Err(AsyncError::Full) => {
                    self.dropped = n.saturating_add(1);
                    Ok(())
                },
                Err(e) => Err(e),
            }
        } else {
            Ok(())
        }
    }

    /// Logs one record. The pending drop count is flushed first (see
    /// [`Async::push_dropped`], given this record's inherited chain), then the
    /// record itself is enqueued; the notice therefore precedes the record in
    /// the queue. A full queue is absorbed: the record is counted as dropped
    /// and the call still succeeds, so overflow never surfaces here.
    pub fn log(&mut self, rec: RecordData) -> (r: AsyncResult<()>)
        requires
            old(self).wf(),
        ensures
            final(self).wf(),
            final(self).core.capacity == old(self).core.capacity,
            final(self).core.sink == old(self).core.sink,
            r is Ok,
            final(self).dropped == facade_dropped(
                old(self).core.queue@,
                old(self).core.capacity as nat,
                old(self).dropped,
            ),
            old(self).dropped == 0 ==> final(self).core.queue@ == offer(
                old(self).core.queue@,
                old(self).core.capacity as nat,
                rec,
            ),
            old(self).dropped > 0 && old(self).core.queue@.len() >= old(self).core.capacity
                ==> final(self).core.queue@ == offer(
                old(self).core.queue@,
                old(self).core.capacity as nat,
                rec,
            ),
            old(self).dropped > 0 && old(self).core.queue@.len() < old(self).core.capacity
                ==> exists|nr: RecordData|
                #[trigger] is_overflow_notice(nr, old(self).dropped) && nr.logger_kvs@
                    == rec.logger_kvs@ && final(self).core.queue@ == offer(
                    old(self).core.queue@.push(AsyncMsg::Record(nr)),
                    old(self).core.capacity as nat,
                    rec,
                ),
    {
        let ghost q0 = self.core.queue@;
        let ghost n0 = self.dropped;
        let ghost cap0 = self.core.capacity as nat;
        let lk = duplicate_kvs(&rec.logger_kvs);
        let pd = self.push_dropped(lk);
        match pd {
            Ok(_) => {},
            Err(e) => {
                return Err(e);
            },
        }
        proof {
            if n0 > 0 && q0.len() < cap0 {
                let last = self.core.queue@.last();
                assert(last is Record);
                assert(self.core.queue@ =~= q0.push(last));
            }
        }
        let ghost q1 = self.core.queue@;
        let r = match self.core.send(rec) {
            Ok(_) => Ok(()),
            Err(AsyncError::Full) => {
                self.dropped = self.dropped.saturating_add(1);
                Ok(())
            },
            Err(e) => Err(e),
        };
        proof {
            if n0 > 0 && q0.len() < cap0 {
                let nr = q1.last()->0;
                assert(is_overflow_notice(nr, n0));
                assert(q1.last() == AsyncMsg::Record(nr));
                assert(q1 == q0.push(AsyncMsg::Record(nr)));
                assert(self.core.queue@ == offer(q0.push(AsyncMsg::Record(nr)), cap0, rec));
            }
        }
        r
    }

    /// Disposal: one final best-effort flush of the pending drop count (the
    /// notice carries an empty inherited chain), then the core's blocking
    /// teardown. Every record queued before disposal — and the final notice,
    /// when one was pending and fit — is processed into the sink, in order,
    /// before this returns. Consuming the facade means teardown happens at
    /// most once; the drained sink is handed back.
    pub fn dispose(self) -> (sink: D)
        requires
            self.wf(),
        ensures
            ({
                let q = self.core.queue@;
                let cap = self.core.capacity as nat;
                let n = self.dropped;
                if n > 0 && q.len() < cap {
                    exists|nr: RecordData|
                        #[trigger] is_overflow_notice(nr, n) && nr.logger_kvs@.len() == 0
                            && sink.observed() == self.core.sink.observed() + records_of(q).push(nr)
                } else {
                    sink.observed() == self.core.sink.observed() + records_of(q)
                }
            }),
    {
        let mut a = self;
        let ghost q0 = a.core.queue@;
        let ghost n0 = a.dropped;
        let empty_chain: Vec<KvPair> = Vec::new();
        let _ = a.push_dropped(empty_chain);
        proof {
            if n0 > 0 && q0.len() < a.core.capacity {
                let last = a.core.queue@.last();
                assert(last is Record);
                assert(a.core.queue@ =~= q0.push(last));
                crate::channel::lemma_records_of_push(q0, last);
            }
        }
        a.core.dispose()
    }
}

} // verus!
