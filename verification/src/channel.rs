//! The core channel: a bounded, non-blocking hand-off queue, the worker that
//! replays queued records into the downstream sink strictly in send order, and
//! the disposal protocol that drains everything queued before it returns.
//!
//! The queue discipline is stated twice: as contracts on the executable
//! methods, and as the spec-level transitions [`offer`], [`offer_all`] and
//! [`accept_flags`] that the contracts are phrased over, so that [`crate::laws`]
//! can prove what holds of whole call sequences.

use vstd::prelude::*;

use crate::record::{AsyncMsg, KvPair, Level, Location, RecordData};
use crate::ser::ToSendSerializer;
use crate::{AsyncError, AsyncResult};

verus! {

/// Every queued message is a record (no terminal signal queued).
pub open spec fn all_records(q: Seq<AsyncMsg>) -> bool {
    forall|i: int| 0 <= i < q.len() ==> q[i] is Record
}

/// The terminal signal, if queued at all, stands last: no message follows it.
pub open spec fn shutdown_last(q: Seq<AsyncMsg>) -> bool {
    forall|i: int| 0 <= i < q.len() && q[i] is Finish ==> i == q.len() - 1
}

/// The records a queue segment holds, in queue order, terminal signals
/// contributing nothing.
pub open spec fn records_of(q: Seq<AsyncMsg>) -> Seq<RecordData>
    decreases q.len(),
{
    if q.len() == 0 {
        Seq::empty()
    } else if q[0] is Record {
        seq![q[0]->0] + records_of(q.drop_first())
    } else {
        records_of(q.drop_first())
    }
}

/// One non-blocking enqueue attempt: the record is appended exactly when the
/// queue has free capacity, and the queue is left unchanged otherwise. This is
/// the transition [`AsyncCore::send`] is specified by.
pub open spec fn offer(q: Seq<AsyncMsg>, cap: nat, rec: RecordData) -> Seq<AsyncMsg> {
    if q.len() < cap {
        q.push(AsyncMsg::Record(rec))
    } else {
        q
    }
}

/// Whether a non-blocking enqueue attempt on a queue of this length succeeds.
pub open spec fn offer_accepted(q: Seq<AsyncMsg>, cap: nat) -> bool {
    q.len() < cap
}

/// Back-to-back non-blocking enqueue attempts of a whole sequence of records,
/// with no worker progress in between.
pub open spec fn offer_all(q: Seq<AsyncMsg>, cap: nat, recs: Seq<RecordData>) -> Seq<AsyncMsg>
    decreases recs.len(),
{
    if recs.len() == 0 {
        q
    } else {
        offer_all(offer(q, cap, recs[0]), cap, recs.drop_first())
    }
}

/// For each record of a back-to-back burst, whether its enqueue attempt
/// succeeded.
pub open spec fn accept_flags(q: Seq<AsyncMsg>, cap: nat, recs: Seq<RecordData>) -> Seq<bool>
    decreases recs.len(),
{
    if recs.len() == 0 {
        Seq::empty()
    } else {
        seq![offer_accepted(q, cap)] + accept_flags(offer(q, cap, recs[0]), cap, recs.drop_first())
    }
}

/// Appending a message adds its record (if any) at the end of the held
/// records.
pub proof fn lemma_records_of_push(q: Seq<AsyncMsg>, m: AsyncMsg)
    ensures
        records_of(q.push(m)) == (if m is Record {
            records_of(q).push(m->0)
        } else {
            records_of(q)
        }),
    decreases q.len(),
{
    let qp = q.push(m);
    if q.len() == 0 {
        assert(qp.drop_first() =~= Seq::<AsyncMsg>::empty());
        assert(records_of(Seq::<AsyncMsg>::empty()) == Seq::<RecordData>::empty());
        assert(qp[0] == m);
        if m is Record {
            assert(records_of(qp) =~= records_of(q).push(m->0));
        }
    } else {
        assert(qp[0] == q[0]);
        assert(qp.drop_first() =~= q.drop_first().push(m));
        lemma_records_of_push(q.drop_first(), m);
        if m is Record {
            assert(records_of(qp) =~= records_of(q).push(m->0));
        }
    }
}

/// The downstream sink the worker replays records into. Processing is
/// infallible by contract: an implementation handles its own errors and states
/// through [`Drain::observed`] what it has seen.
pub trait Drain: Sized {
    /// The records this sink has observed, in processing order.
    spec fn observed(&self) -> Seq<RecordData>;

    /// Processes one record synchronously; the record becomes the latest
    /// observation.
    fn process(&mut self, rec: RecordData)
        ensures
            final(self).observed() == old(self).observed().push(rec),
    ;
}

/// A sink that keeps every record it observes, in order.
pub struct VecDrain {
    pub records: Vec<RecordData>,
}

impl VecDrain {
    /// A sink that has observed nothing yet.
    pub fn new() -> (r: Self)
        ensures
            r.observed() == Seq::<RecordData>::empty(),
    {
        VecDrain { records: Vec::new() }
    }
}

impl Drain for VecDrain {
    open spec fn observed(&self) -> Seq<RecordData> {
        self.records@
    }

    fn process(&mut self, rec: RecordData) {
        self.records.push(rec);
    }
}

/// What one step of the worker loop did.
#[derive(Clone, Copy, Debug, PartialEq, Eq, Structural)]
pub enum WorkerStep {
    /// The queue was empty; nothing to do.
    Idle,
    /// The front record was taken off the queue and processed into the sink.
    Processed,
    /// The terminal signal was taken off the queue; the worker exits.
    Finished,
}

/// Builder for [`AsyncCore`].
pub struct AsyncCoreBuilder<D: Drain> {
    pub chan_size: usize,
    pub drain: D,
}

impl<D: Drain> AsyncCoreBuilder<D> {
    fn new(drain: D) -> (r: Self)
        ensures
            r.chan_size == 128,
            r.drain == drain,
    {
        AsyncCoreBuilder { chan_size: 128, drain: drain }
    }

    /// Sets the queue capacity used to hand records to the worker. When the
    /// queue is full the core starts returning [`AsyncError::Full`]. The
    /// capacity must be at least 1.
    pub fn chan_size(self, s: usize) -> (r: Self)
        requires
            s >= 1,
        ensures
            r.chan_size == s,
            r.drain == self.drain,
    {
        AsyncCoreBuilder { chan_size: s, drain: self.drain }
    }

    /// Builds the core: the queue starts empty and the worker starts with
    /// whatever the drain has already observed.
    pub fn build(self) -> (r: AsyncCore<D>)
        requires
            self.chan_size >= 1,
        ensures
            r.live(),
            r.capacity == self.chan_size,
            r.queue@ == Seq::<AsyncMsg>::empty(),
            r.sink == self.drain,
    {
        let r = AsyncCore { queue: Vec::new(), capacity: self.chan_size, sink: self.drain };
        assert(r.queue@ =~= Seq::<AsyncMsg>::empty());
        r
    }
}

/// The core of the offload pipeline: the bounded queue and the worker's sink.
///
/// Sends never block: a full queue is reported as [`AsyncError::Full`] at
/// once. The worker's receive-and-process loop is driven by
/// [`AsyncCore::worker_step`]; records are processed strictly in send order.
/// Disposal is explicit and blocking: [`AsyncCore::dispose`] sends the single
/// terminal signal and drains every record queued before it.
pub struct AsyncCore<D: Drain> {
    pub queue: Vec<AsyncMsg>,
    pub capacity: usize,
    pub sink: D,
}

impl<D: Drain> AsyncCore<D> {
    /// Well-formed: positive capacity, queue within capacity, terminal signal
    /// (if queued) last.
    pub open spec fn wf(&self) -> bool {
        &&& self.capacity >= 1
        &&& self.queue@.len() <= self.capacity
        &&& shutdown_last(self.queue@)
    }

    /// Live: well-formed and disposal has not begun, so every queued message
    /// is a record.
    pub open spec fn live(&self) -> bool {
        &&& self.wf()
        &&& all_records(self.queue@)
    }

    /// A core with the default queue capacity of 128.
    pub fn new(drain: D) -> (r: Self)
        ensures
            r.live(),
            r.capacity == 128,
            r.queue@ == Seq::<AsyncMsg>::empty(),
            r.sink == drain,
    {
        AsyncCoreBuilder::new(drain).build()
    }

    /// A builder, for a core with custom parameters.
    pub fn custom(drain: D) -> (r: AsyncCoreBuilder<D>)
        ensures
            r.chan_size == 128,
            r.drain == drain,
    {
        AsyncCoreBuilder::new(drain)
    }

    /// Non-blocking enqueue of one materialized record: accepted exactly when
    /// the queue has free capacity, rejected with [`AsyncError::Full`] (and the
    /// queue left unchanged) otherwise. Never waits.
    pub fn send(&mut self, rec: RecordData) -> (r: AsyncResult<()>)
        requires
            old(self).live(),
        ensures
            final(self).live(),
            final(self).capacity == old(self).capacity,
            final(self).sink == old(self).sink,
            final(self).queue@ == offer(old(self).queue@, old(self).capacity as nat, rec),
            r is Ok <==> offer_accepted(old(self).queue@, old(self).capacity as nat),
            r is Err ==> r matches Err(AsyncError::Full),
    {
        if self.queue.len() < self.capacity {
            self.queue.push(AsyncMsg::Record(rec));
            assert(all_records(self.queue@));
            assert(shutdown_last(self.queue@));
            Ok(())
        } else {
            Err(AsyncError::Full)
        }
    }

    /// Materializes and enqueues one record: builds the fully owned record
    /// from the message, level, location, tag, the owned entries the
    /// serializer accumulated, and the inherited chain, then performs the
    /// non-blocking send. Accepted exactly when the queue has free capacity.
    pub fn log(
        &mut self,
        msg: String,
        level: Level,
        location: Location,
        tag: String,
        ser: ToSendSerializer,
        logger_kvs: Vec<KvPair>,
    ) -> (r: AsyncResult<()>)
        requires
            old(self).live(),
        ensures
            final(self).live(),
            final(self).capacity == old(self).capacity,
            final(self).sink == old(self).sink,
            r is Ok <==> offer_accepted(old(self).queue@, old(self).capacity as nat),
            r is Err ==> (r matches Err(AsyncError::Full)) && final(self).queue@ == old(self).queue@,
            r is Ok ==> final(self).queue@.len() == old(self).queue@.len() + 1
                && final(self).queue@.drop_last() == old(self).queue@
                && (final(self).queue@.last() matches AsyncMsg::Record(rd)
                    && rd.msg == msg
                    && rd.level == level
                    && rd.location == location
                    && rd.tag == tag
                    && rd.kvs@ == ser.entries()
                    && rd.logger_kvs == logger_kvs),
    {
        let kvs = ser.finish();
        let rec = RecordData {
            msg: msg,
            level: level,
            location: location,
            tag: tag,
            logger_kvs: logger_kvs,
            kvs: kvs,
        };
        let r = self.send(rec);
        proof {
            if r is Ok {
                assert(self.queue@.drop_last() =~= old(self).queue@);
            }
        }
        r
    }

    /// One step of the worker's receive-and-process loop: takes the front
    /// message off the queue; a record is processed synchronously into the
    /// sink, the terminal signal makes the worker exit. Does nothing on an
    /// empty queue. Records are processed strictly in send order because only
    /// the front is ever taken.
    pub fn worker_step(&mut self) -> (r: WorkerStep)
        requires
            old(self).wf(),
        ensures
            final(self).wf(),
            final(self).capacity == old(self).capacity,
            match r {
                WorkerStep::Idle => old(self).queue@.len() == 0
                    && final(self).queue@ == old(self).queue@
                    && final(self).sink == old(self).sink,
                WorkerStep::Processed => old(self).queue@.len() > 0
                    && old(self).queue@[0] is Record
                    && final(self).queue@ == old(self).queue@.drop_first()
                    && final(self).sink.observed() == old(self).sink.observed().push(
                    old(self).queue@[0]->0,
                ),
                WorkerStep::Finished => old(self).queue@.len() > 0
                    && old(self).queue@[0] is Finish
                    && final(self).queue@ == old(self).queue@.drop_first()
                    && final(self).sink == old(self).sink,
            },
            all_records(old(self).queue@) ==> all_records(final(self).queue@) && !(r is Finished),
            r is Finished ==> old(self).queue@.len() == 1 && final(self).queue@.len() == 0,
    {
        if self.queue.len() == 0 {
            WorkerStep::Idle
        } else {
            let m = self.queue.remove(0);
            proof {
                assert(self.queue@ =~= old(self).queue@.drop_first());
                assert(shutdown_last(self.queue@));
                if all_records(old(self).queue@) {
                    assert(all_records(self.queue@));
                }
            }
            match m {
                AsyncMsg::Record(rec) => {
                    self.sink.process(rec);
                    WorkerStep::Processed
                },
                AsyncMsg::Finish => WorkerStep::Finished,
            }
        }
    }

    /// Disposal: sends the single terminal signal (first letting the worker
    /// take one record if the queue is at capacity, as the blocking hand-off
    /// of the signal would) and then runs the worker until it accepts the
    /// signal and exits. Blocking by design: every record queued before
    /// disposal is processed into the sink, in send order, before this
    /// returns. Consuming the core means the terminal signal is sent and the
    /// worker joined at most once; the drained sink is handed back.
    pub fn dispose(self) -> (sink: D)
        requires
            self.live(),
        ensures
            sink.observed() == self.sink.observed() + records_of(self.queue@),
    {
        let mut core = self;
        let ghost q0 = core.queue@;
        let ghost s0 = core.sink.observed();
        if core.queue.len() >= core.capacity {
            let step = core.worker_step();
            proof {
                assert(step is Processed);
                lemma_front_record(q0, s0, core.sink.observed());
            }
        }
        let ghost q1 = core.queue@;
        core.queue.push(AsyncMsg::Finish);
        proof {
            lemma_records_of_push(q1, AsyncMsg::Finish);
            assert(shutdown_last(core.queue@));
        }
        loop
            invariant_except_break
                core.capacity >= 1,
                core.queue@.len() >= 1,
                core.queue@.len() <= core.capacity,
                core.queue@.last() is Finish,
                shutdown_last(core.queue@),
                core.sink.observed() + records_of(core.queue@) == s0 + records_of(q0),
            ensures
                core.sink.observed() == s0 + records_of(q0),
            decreases core.queue@.len(),
        {
            let ghost qb = core.queue@;
            let ghost sb = core.sink.observed();
            let step = core.worker_step();
            match step {
                WorkerStep::Finished => {
                    proof {
                        assert(qb.len() == 1);
                        assert(qb.drop_first() =~= Seq::<AsyncMsg>::empty());
                        assert(records_of(Seq::<AsyncMsg>::empty()) == Seq::<RecordData>::empty());
                        assert(records_of(qb) == records_of(qb.drop_first()));
                        assert(sb + records_of(qb) =~= sb);
                    }
                    break ;
                },
                _ => {
                    proof {
                        assert(step is Processed);
                        lemma_front_record(qb, sb, core.sink.observed());
                        assert(core.queue@.last() is Finish);
                    }
                },
            }
        }
        core.sink
    }
}

/// Taking the front record off a queue and observing it keeps the combined
/// sequence of observations and still-queued records unchanged.
proof fn lemma_front_record(q: Seq<AsyncMsg>, s: Seq<RecordData>, s2: Seq<RecordData>)
    requires
        q.len() > 0,
        q[0] is Record,
        s2 == s.push(q[0]->0),
    ensures
        s2 + records_of(q.drop_first()) == s + records_of(q),
{
    assert(records_of(q) == seq![q[0]->0] + records_of(q.drop_first()));
    assert(s.push(q[0]->0) + records_of(q.drop_first()) =~= s + (seq![q[0]->0] + records_of(
        q.drop_first(),
    )));
}

} // verus!
