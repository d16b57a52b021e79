//! The bounded FIFO of samples between acquisition and publishing.
use vstd::prelude::*;

use crate::sample::Sample;

verus! {

/// Number of samples the queue holds: about an hour of one-minute cycles.
pub const QUEUE_CAPACITY: usize = 64;

/// heapless's single-producer single-consumer ring buffer. Its storage type
/// cannot be declared to the verifier, so the buffer is held opaquely here and
/// reached only through the wrappers below. `Queue<T, N>` holds `N - 1` items.
#[verifier::external_body]
pub struct SampleRing {
    inner: heapless::spsc::Queue<Sample, 65>,
}

/// The samples a ring buffer holds, oldest first.
pub uninterp spec fn ring_items(r: SampleRing) -> Seq<Sample>;

/// Relies on heapless's `Queue::new`: a new queue is empty.
#[verifier::external_body]
fn ring_new() -> (r: SampleRing)
    ensures
        ring_items(r) == Seq::<Sample>::empty(),
{
    SampleRing { inner: heapless::spsc::Queue::new() }
}

/// Relies on heapless's `Queue::enqueue`: the item goes to the back unless
/// the queue already holds its capacity (`N - 1` = 64), in which case the
/// item is handed back and the queue is left as it was.
#[verifier::external_body]
fn ring_enqueue(r: &mut SampleRing, s: Sample) -> (res: Result<(), Sample>)
    ensures
        ring_items(*old(r)).len() < 64 ==> res is Ok,
        ring_items(*old(r)).len() < 64 ==> ring_items(*final(r)) == ring_items(*old(r)).push(s),
        ring_items(*old(r)).len() >= 64 ==> res is Err && res->Err_0 == s,
        ring_items(*old(r)).len() >= 64 ==> ring_items(*final(r)) == ring_items(*old(r)),
        ring_items(*final(r)).len() <= 64,
{
    r.inner.enqueue(s)
}

/// Relies on heapless's `Queue::dequeue`: the front item leaves, or `None`
/// on an empty queue.
#[verifier::external_body]
fn ring_dequeue(r: &mut SampleRing) -> (res: Option<Sample>)
    ensures
        ring_items(*old(r)).len() == 0 ==> res is None,
        ring_items(*old(r)).len() == 0 ==> ring_items(*final(r)) == ring_items(*old(r)),
        ring_items(*old(r)).len() > 0 ==> res == Some(ring_items(*old(r))[0]),
        ring_items(*old(r)).len() > 0 ==> ring_items(*final(r)) == ring_items(*old(r)).drop_first(),
{
    r.inner.dequeue()
}

/// Relies on heapless's `Queue::len`: the number of items held.
#[verifier::external_body]
fn ring_len(r: &SampleRing) -> (n: usize)
    ensures
        n == ring_items(*r).len(),
{
    r.inner.len()
}

/// Whether an enqueue into a queue holding `q` is accepted.
pub open spec fn enqueue_accepts(q: Seq<Sample>) -> bool {
    q.len() < QUEUE_CAPACITY
}

/// Contents after an enqueue of `s`: appended when there is room, else unchanged.
pub open spec fn after_enqueue(q: Seq<Sample>, s: Sample) -> Seq<Sample> {
    if enqueue_accepts(q) {
        q.push(s)
    } else {
        q
    }
}

/// What a dequeue from `q` returns: the oldest sample, if any.
pub open spec fn dequeued(q: Seq<Sample>) -> Option<Sample> {
    if q.len() == 0 {
        None
    } else {
        Some(q[0])
    }
}

/// Contents after a dequeue: the oldest sample removed, if any.
pub open spec fn after_dequeue(q: Seq<Sample>) -> Seq<Sample> {
    if q.len() == 0 {
        q
    } else {
        q.drop_first()
    }
}

/// Bounded FIFO of samples between the acquisition loop and the publisher.
pub struct SampleQueue {
    ring: SampleRing,
}

impl View for SampleQueue {
    type V = Seq<Sample>;

    closed spec fn view(&self) -> Seq<Sample> {
        ring_items(self.ring)
    }
}

impl SampleQueue {
    /// Well-formed: never more than the capacity.
    pub open spec fn wf(&self) -> bool {
        self@.len() <= QUEUE_CAPACITY
    }

    /// An empty queue.
    pub fn new() -> (r: SampleQueue)
        ensures
            r.wf(),
            r@ == Seq::<Sample>::empty(),
    {
        SampleQueue { ring: ring_new() }
    }

    /// Appends `sample` when the queue has room; on a full queue hands the
    /// sample back and leaves the queue unchanged.
    pub fn enqueue(&mut self, sample: Sample) -> (r: Result<(), Sample>)
        requires
            old(self).wf(),
        ensures
            final(self).wf(),
            final(self)@ == after_enqueue(old(self)@, sample),
            r is Ok <==> enqueue_accepts(old(self)@),
            r is Err ==> r->Err_0 == sample,
    {
        ring_enqueue(&mut self.ring, sample)
    }

    /// Removes and returns the oldest sample; `None` when empty.
    pub fn dequeue(&mut self) -> (r: Option<Sample>)
        requires
            old(self).wf(),
        ensures
            final(self).wf(),
            r == dequeued(old(self)@),
            final(self)@ == after_dequeue(old(self)@),
    {
        ring_dequeue(&mut self.ring)
    }

    /// Number of samples held.
    pub fn len(&self) -> (n: usize)
        ensures
            n == self@.len(),
    {
        ring_len(&self.ring)
    }

    /// Whether the queue holds no sample.
    pub fn is_empty(&self) -> (b: bool)
        ensures
            b == (self@.len() == 0),
    {
        ring_len(&self.ring) == 0
    }

    /// Whether the queue holds its full capacity.
    pub fn is_full(&self) -> (b: bool)
        requires
            self.wf(),
        ensures
            b == !enqueue_accepts(self@),
    {
        ring_len(&self.ring) >= QUEUE_CAPACITY
    }
}

/// One single-threaded operation on a sample queue.
pub enum QueueOp {
    Enqueue(Sample),
    Dequeue,
}

/// Runs `ops` in order on a queue holding `q`. Returns the final contents,
/// the samples whose enqueue was accepted, and the samples that dequeues
/// returned, each in order.
pub open spec fn run_ops(q: Seq<Sample>, ops: Seq<QueueOp>) -> (Seq<Sample>, Seq<Sample>, Seq<
    Sample,
>)
    decreases ops.len(),
{
    if ops.len() == 0 {
        (q, Seq::empty(), Seq::empty())
    } else {
        let (cur, accepted, delivered) = run_ops(q, ops.drop_last());
        match ops.last() {
            QueueOp::Enqueue(s) => if enqueue_accepts(cur) {
                (after_enqueue(cur, s), accepted.push(s), delivered)
            } else {
                (after_enqueue(cur, s), accepted, delivered)
            },
            QueueOp::Dequeue => match dequeued(cur) {
                Some(s) => (after_dequeue(cur), accepted, delivered.push(s)),
                None => (after_dequeue(cur), accepted, delivered),
            },
        }
    }
}

/// First-in first-out: for any interleaving of enqueues and dequeues, the
/// samples that come out, followed by those still held, are exactly the
/// samples held at the start followed by every accepted sample, in order.
/// So nothing accepted is lost, reordered or duplicated, and a rejected
/// enqueue changes nothing. The bound is kept throughout.
pub proof fn lemma_fifo(q: Seq<Sample>, ops: Seq<QueueOp>)
    requires
        q.len() <= QUEUE_CAPACITY,
    ensures
        q + run_ops(q, ops).1 =~= run_ops(q, ops).2 + run_ops(q, ops).0,
        run_ops(q, ops).0.len() <= QUEUE_CAPACITY,
    decreases ops.len(),
{
    if ops.len() > 0 {
        lemma_fifo(q, ops.drop_last());
        let (cur, accepted, delivered) = run_ops(q, ops.drop_last());
        match ops.last() {
            QueueOp::Enqueue(s) => {
                if enqueue_accepts(cur) {
                    assert(q + accepted.push(s) =~= (q + accepted).push(s));
                    assert(delivered + cur.push(s) =~= (delivered + cur).push(s));
                }
            },
            QueueOp::Dequeue => {
                if cur.len() > 0 {
                    assert(delivered.push(cur[0]) + cur.drop_first() =~= delivered + cur);
                }
            },
        }
    }
}

/// The enqueue of each sample of `ss`, in order.
pub open spec fn enqueue_ops(ss: Seq<Sample>) -> Seq<QueueOp> {
    ss.map_values(|s: Sample| QueueOp::Enqueue(s))
}

/// Capacity: into an empty queue exactly `QUEUE_CAPACITY` enqueues succeed,
/// in order, and the next one is rejected.
pub proof fn lemma_capacity(ss: Seq<Sample>)
    requires
        ss.len() == QUEUE_CAPACITY,
    ensures
        run_ops(Seq::empty(), enqueue_ops(ss)).1 == ss,
        run_ops(Seq::empty(), enqueue_ops(ss)).0 == ss,
        !enqueue_accepts(run_ops(Seq::empty(), enqueue_ops(ss)).0),
{
    lemma_enqueue_prefix(ss, ss.len() as int);
    assert(ss.subrange(0, ss.len() as int) =~= ss);
}

proof fn lemma_enqueue_prefix(ss: Seq<Sample>, k: int)
    requires
        0 <= k <= ss.len() <= QUEUE_CAPACITY,
    ensures
        run_ops(Seq::empty(), enqueue_ops(ss.subrange(0, k))).1 == ss.subrange(0, k),
        run_ops(Seq::empty(), enqueue_ops(ss.subrange(0, k))).0 == ss.subrange(0, k),
    decreases k,
{
    let ops = enqueue_ops(ss.subrange(0, k));
    if k == 0 {
        assert(ops.len() == 0);
    } else {
        lemma_enqueue_prefix(ss, k - 1);
        assert(ops.drop_last() =~= enqueue_ops(ss.subrange(0, k - 1)));
        assert(ss.subrange(0, k - 1).push(ss[k - 1]) =~= ss.subrange(0, k));
    }
}

} // verus!
