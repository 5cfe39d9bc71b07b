//! The bounded queue that carries finished two-channel frames from the
//! capture handler to a consumer: capacity four, first in first out.
use vstd::prelude::*;
use heapless::spsc::{Consumer, Producer, Queue};
use crate::capsense::CapsenseData;

verus! {

/// Items the sample queue holds at most.
pub const CAPSENSE_QUEUE_CAPACITY: usize = 4;

/// Slot count of the backing ring: heapless keeps one slot free.
pub const CAPSENSE_QUEUE_DEPTH: usize = 5;

#[verifier::external_type_specification]
#[verifier::external_body]
#[verifier::reject_recursive_types(T)]
pub struct ExQueue<T, const N: usize>(Queue<T, N>);

#[verifier::external_type_specification]
#[verifier::external_body]
#[verifier::reject_recursive_types(T)]
pub struct ExProducer<'a, T, const N: usize>(Producer<'a, T, N>);

#[verifier::external_type_specification]
#[verifier::external_body]
#[verifier::reject_recursive_types(T)]
pub struct ExConsumer<'a, T, const N: usize>(Consumer<'a, T, N>);


/// Outcome of offering a frame: a full queue hands the frame back.
pub type EnqueueResult = Result<(), CapsenseData>;

/// What the sample queue holds, front first.
pub uninterp spec fn queue_items(q: Queue<CapsenseData, CAPSENSE_QUEUE_DEPTH>) -> Seq<CapsenseData>;

/// Relies on heapless::spsc::Queue::new: a new queue is empty.
#[verifier::external_body]
fn queue_new() -> (r: Queue<CapsenseData, CAPSENSE_QUEUE_DEPTH>)
    ensures
        queue_items(r) == Seq::<CapsenseData>::empty(),
{
    Queue::new()
}

/// Relies on heapless::spsc::Queue::enqueue: with fewer than `N - 1` items the
/// value goes to the back; a full queue hands it back and stays as it was.
#[verifier::external_body]
fn queue_enqueue(q: &mut Queue<CapsenseData, CAPSENSE_QUEUE_DEPTH>, v: CapsenseData) -> (r: EnqueueResult)
    ensures
        queue_items(*old(q)).len() < CAPSENSE_QUEUE_CAPACITY ==> r is Ok && queue_items(*final(q)) == queue_items(*old(q)).push(v),
        queue_items(*old(q)).len() >= CAPSENSE_QUEUE_CAPACITY ==> r == EnqueueResult::Err(v) && queue_items(*final(q)) == queue_items(*old(q)),
{
    q.enqueue(v)
}

/// Relies on heapless::spsc::Queue::dequeue: the front item leaves, or `None`
/// when the queue is empty.
#[verifier::external_body]
fn queue_dequeue(q: &mut Queue<CapsenseData, CAPSENSE_QUEUE_DEPTH>) -> (r: Option<CapsenseData>)
    ensures
        queue_items(*old(q)).len() == 0 ==> r is None && queue_items(*final(q)) == queue_items(*old(q)),
        queue_items(*old(q)).len() > 0 ==> r == Some(queue_items(*old(q))[0]) && queue_items(*final(q)) == queue_items(*old(q)).drop_first(),
{
    q.dequeue()
}

/// Relies on heapless::spsc::Queue::len: the number of items held.
#[verifier::external_body]
fn queue_len(q: &Queue<CapsenseData, CAPSENSE_QUEUE_DEPTH>) -> (r: usize)
    ensures
        r == queue_items(*q).len(),
{
    q.len()
}

/// Relies on heapless::spsc::Queue::split: the two handles share the queue.
#[verifier::external_body]
fn queue_split<'a>(q: &'a mut Queue<CapsenseData, CAPSENSE_QUEUE_DEPTH>) -> (r: (Producer<'a, CapsenseData, CAPSENSE_QUEUE_DEPTH>, Consumer<'a, CapsenseData, CAPSENSE_QUEUE_DEPTH>))
{
    q.split()
}

/// Relies on heapless::spsc::Producer::enqueue: the value is taken, or handed
/// back when the queue is full.
#[verifier::external_body]
fn producer_enqueue(p: &mut Producer<'static, CapsenseData, CAPSENSE_QUEUE_DEPTH>, v: CapsenseData) -> (r: EnqueueResult)
    ensures
        r is Ok || r == EnqueueResult::Err(v),
{
    p.enqueue(v)
}

/// Relies on heapless::spsc::Consumer::dequeue: the front item, if any.
#[verifier::external_body]
fn consumer_dequeue(c: &mut Consumer<'static, CapsenseData, CAPSENSE_QUEUE_DEPTH>) -> (r: Option<CapsenseData>)
{
    c.dequeue()
}

/// Relies on heapless::spsc::Consumer::len: the count is taken modulo the
/// ring's `N` slots, so it never exceeds `N - 1`.
#[verifier::external_body]
fn consumer_len(c: &Consumer<'static, CapsenseData, CAPSENSE_QUEUE_DEPTH>) -> (r: usize)
    ensures
        r <= CAPSENSE_QUEUE_CAPACITY,
{
    c.len()
}

/// Bounded first-in first-out queue of finished frames, capacity four.
pub struct SampleQueue {
    q: Queue<CapsenseData, CAPSENSE_QUEUE_DEPTH>,
}

impl SampleQueue {
    /// The frames held, front first.
    pub closed spec fn items(&self) -> Seq<CapsenseData> {
        queue_items(self.q)
    }

    pub closed spec fn wf(&self) -> bool {
        self.items().len() <= CAPSENSE_QUEUE_CAPACITY
    }

    pub fn new() -> (r: Self)
        ensures
            r.wf(),
            r.items() == Seq::<CapsenseData>::empty(),
    {
        SampleQueue { q: queue_new() }
    }

    /// Appends `data` unless four frames are already held, in which case the
    /// frame is handed back and nothing changes.
    pub fn enqueue(&mut self, data: CapsenseData) -> (r: EnqueueResult)
        requires
            old(self).wf(),
        ensures
            final(self).wf(),
            final(self).items() == after_enqueue(old(self).items(), data),
            r is Ok <==> enqueue_accepts(old(self).items()),
            r is Err ==> r == EnqueueResult::Err(data),
    {
        queue_enqueue(&mut self.q, data)
    }

    /// Removes and returns the front frame, or `None` when empty.
    pub fn dequeue(&mut self) -> (r: Option<CapsenseData>)
        requires
            old(self).wf(),
        ensures
            final(self).wf(),
            old(self).items().len() == 0 ==> r is None && final(self).items() == old(self).items(),
            old(self).items().len() > 0 ==> r == Some(old(self).items()[0]) && final(self).items()
                == old(self).items().drop_first(),
    {
        queue_dequeue(&mut self.q)
    }

    pub fn len(&self) -> (r: usize)
        ensures
            r == self.items().len(),
    {
        queue_len(&self.q)
    }

    /// Hands out the producer and consumer ends; the queue stays borrowed by
    /// them for good, so this happens once.
    pub fn split(&'static mut self) -> (r: (CapsenseWrite, CapsenseRead)) {
        let (p, c) = queue_split(&mut self.q);
        (CapsenseWrite(p), CapsenseRead(c))
    }
}

/// Whether a queue holding `items` takes one more frame.
pub open spec fn enqueue_accepts(items: Seq<CapsenseData>) -> bool {
    items.len() < CAPSENSE_QUEUE_CAPACITY
}

/// What a queue holding `items` holds after `d` is offered.
pub open spec fn after_enqueue(items: Seq<CapsenseData>, d: CapsenseData) -> Seq<CapsenseData> {
    if enqueue_accepts(items) {
        items.push(d)
    } else {
        items
    }
}

/// Five frames offered to an empty queue with no dequeue between: the first
/// four are taken, the fifth is refused, and four frames remain.
pub proof fn lemma_fifth_enqueue_fails(d: Seq<CapsenseData>)
    requires
        d.len() == 5,
    ensures
        ({
            let q1 = after_enqueue(Seq::empty(), d[0]);
            let q2 = after_enqueue(q1, d[1]);
            let q3 = after_enqueue(q2, d[2]);
            let q4 = after_enqueue(q3, d[3]);
            &&& enqueue_accepts(Seq::empty())
            &&& enqueue_accepts(q1)
            &&& enqueue_accepts(q2)
            &&& enqueue_accepts(q3)
            &&& !enqueue_accepts(q4)
            &&& after_enqueue(q4, d[4]) == q4
            &&& q4.len() == 4
            &&& q4 == d.take(4)
        }),
{
    let q1 = after_enqueue(Seq::empty(), d[0]);
    let q2 = after_enqueue(q1, d[1]);
    let q3 = after_enqueue(q2, d[2]);
    let q4 = after_enqueue(q3, d[3]);
    assert(q4 =~= d.take(4));
}

/// Consumer end of the sample queue.
pub struct CapsenseRead(pub Consumer<'static, CapsenseData, CAPSENSE_QUEUE_DEPTH>);

/// Producer end of the sample queue.
pub struct CapsenseWrite(pub Producer<'static, CapsenseData, CAPSENSE_QUEUE_DEPTH>);

impl CapsenseRead {
    pub fn read(&mut self) -> (r: Option<CapsenseData>) {
        consumer_dequeue(&mut self.0)
    }

    pub fn len(&self) -> (r: usize)
        ensures
            r <= CAPSENSE_QUEUE_CAPACITY,
    {
        consumer_len(&self.0)
    }
}

impl CapsenseWrite {
    /// Offers a frame; a full queue hands it back.
    pub fn write(&mut self, data: CapsenseData) -> (r: EnqueueResult)
        ensures
            r is Ok || r == EnqueueResult::Err(data),
    {
        producer_enqueue(&mut self.0, data)
    }
}

} // verus!
