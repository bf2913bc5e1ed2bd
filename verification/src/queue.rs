//! The backpressure queues: bounded, non-blocking, single producer and
//! single consumer, carried by `heapless::spsc::Queue`. The transmit side
//! feeds pending frames to the interrupt context; the receive side hands
//! timestamped finished frames to a deferred consumer. Neither end ever
//! blocks: `enqueue` reports failure when full, `dequeue` reports absence
//! when empty.
//!
//! A `heapless::spsc::Queue<T, N>` holds at most `N - 1` items, so the
//! backing stores use `N = 9` for the fixed capacity of 8 frames.

use vstd::prelude::*;

use crate::frame::Frame;

verus! {

/// The fixed number of frames either queue can hold.
pub const QUEUE_CAPACITY: usize = 8;

#[verifier::external_type_specification]
#[verifier::external_body]
#[verifier::reject_recursive_types(T)]
pub struct ExSpscQueue<T, const N: usize>(heapless::spsc::Queue<T, N>);

/// The pending transmit samples a queue holds, front first, as
/// `(left, right)` channel values.
pub uninterp spec fn tx_contents(q: heapless::spsc::Queue<(u32, u32), 9>) -> Seq<(u32, u32)>;

/// The finished receive frames a queue holds, front first, as
/// `(timestamp, (left, right))`.
pub uninterp spec fn rx_contents(q: heapless::spsc::Queue<(u32, (u32, u32)), 9>) -> Seq<
    (u32, (u32, u32)),
>;

/// Relies on heapless::spsc::Queue::new: creates an empty queue.
#[verifier::external_body]
fn raw_tx_new() -> (q: heapless::spsc::Queue<(u32, u32), 9>)
    ensures
        tx_contents(q) == Seq::<(u32, u32)>::empty(),
{
    heapless::spsc::Queue::new()
}

/// Relies on heapless::spsc::Queue::enqueue: appends the item at the back
/// when fewer than `N - 1` items are held, and otherwise hands it back and
/// changes nothing.
#[verifier::external_body]
fn raw_tx_enqueue(q: &mut heapless::spsc::Queue<(u32, u32), 9>, item: (u32, u32)) -> (r: bool)
    ensures
        tx_contents(*old(q)).len() < 8 ==> r && tx_contents(*final(q)) == tx_contents(*old(q)).push(
            item,
        ),
        tx_contents(*old(q)).len() >= 8 ==> !r && tx_contents(*final(q)) == tx_contents(*old(q)),
{
    q.enqueue(item).is_ok()
}

/// Relies on heapless::spsc::Queue::dequeue: removes and returns the front
/// item, or returns nothing when empty.
#[verifier::external_body]
fn raw_tx_dequeue(q: &mut heapless::spsc::Queue<(u32, u32), 9>) -> (r: Option<(u32, u32)>)
    ensures
        tx_contents(*old(q)).len() == 0 ==> r is None && tx_contents(*final(q)) == tx_contents(
            *old(q),
        ),
        tx_contents(*old(q)).len() > 0 ==> r == Some(tx_contents(*old(q))[0]) && tx_contents(
            *final(q),
        ) == tx_contents(*old(q)).drop_first(),
{
    q.dequeue()
}

/// Relies on heapless::spsc::Queue::len: the number of items held.
#[verifier::external_body]
fn raw_tx_len(q: &heapless::spsc::Queue<(u32, u32), 9>) -> (r: usize)
    ensures
        r == tx_contents(*q).len(),
{
    q.len()
}

/// Relies on heapless::spsc::Queue::new: creates an empty queue.
#[verifier::external_body]
fn raw_rx_new() -> (q: heapless::spsc::Queue<(u32, (u32, u32)), 9>)
    ensures
        rx_contents(q) == Seq::<(u32, (u32, u32))>::empty(),
{
    heapless::spsc::Queue::new()
}

/// Relies on heapless::spsc::Queue::enqueue: appends the item at the back
/// when fewer than `N - 1` items are held, and otherwise hands it back and
/// changes nothing.
#[verifier::external_body]
fn raw_rx_enqueue(q: &mut heapless::spsc::Queue<(u32, (u32, u32)), 9>, item: (u32, (u32, u32))) -> (r: bool)
    ensures
        rx_contents(*old(q)).len() < 8 ==> r && rx_contents(*final(q)) == rx_contents(*old(q)).push(
            item,
        ),
        rx_contents(*old(q)).len() >= 8 ==> !r && rx_contents(*final(q)) == rx_contents(*old(q)),
{
    q.enqueue(item).is_ok()
}

/// Relies on heapless::spsc::Queue::dequeue: removes and returns the front
/// item, or returns nothing when empty.
#[verifier::external_body]
fn raw_rx_dequeue(q: &mut heapless::spsc::Queue<(u32, (u32, u32)), 9>) -> (r: Option<
    (u32, (u32, u32)),
>)
    ensures
        rx_contents(*old(q)).len() == 0 ==> r is None && rx_contents(*final(q)) == rx_contents(
            *old(q),
        ),
        rx_contents(*old(q)).len() > 0 ==> r == Some(rx_contents(*old(q))[0]) && rx_contents(
            *final(q),
        ) == rx_contents(*old(q)).drop_first(),
{
    q.dequeue()
}

/// Relies on heapless::spsc::Queue::len: the number of items held.
#[verifier::external_body]
fn raw_rx_len(q: &heapless::spsc::Queue<(u32, (u32, u32)), 9>) -> (r: usize)
    ensures
        r == rx_contents(*q).len(),
{
    q.len()
}

/// The queue of pending transmit samples, viewed as the sequence of frames
/// it holds, front first.
pub struct TxQueue {
    q: heapless::spsc::Queue<(u32, u32), 9>,
}

impl View for TxQueue {
    type V = Seq<Frame>;

    closed spec fn view(&self) -> Seq<Frame> {
        tx_contents(self.q).map_values(|p: (u32, u32)| Frame { left: p.0, right: p.1 })
    }
}

impl TxQueue {
    /// The queue never holds more frames than its fixed capacity.
    pub open spec fn wf(&self) -> bool {
        self@.len() <= QUEUE_CAPACITY
    }

    /// An empty transmit queue.
    pub fn new() -> (r: TxQueue)
        ensures
            r@ == Seq::<Frame>::empty(),
            r.wf(),
    {
        let r = TxQueue { q: raw_tx_new() };
        proof {
            assert(r@ =~= Seq::<Frame>::empty());
        }
        r
    }

    /// The number of pending frames.
    pub fn len(&self) -> (r: usize)
        ensures
            r == self@.len(),
    {
        raw_tx_len(&self.q)
    }

    /// The fixed capacity.
    pub fn capacity(&self) -> (r: usize)
        ensures
            r == QUEUE_CAPACITY,
    {
        QUEUE_CAPACITY
    }

    /// Appends a pending sample at the back without ever blocking: reports
    /// failure when the queue is already at capacity, leaving it unchanged.
    pub fn enqueue(&mut self, f: Frame) -> (r: bool)
        requires
            old(self).wf(),
        ensures
            final(self).wf(),
            old(self)@.len() < QUEUE_CAPACITY ==> r && final(self)@ == old(self)@.push(f),
            old(self)@.len() == QUEUE_CAPACITY ==> !r && final(self)@ == old(self)@,
    {
        let r = raw_tx_enqueue(&mut self.q, (f.left, f.right));
        proof {
            if tx_contents(old(self).q).len() < 8 {
                assert(self@ =~= old(self)@.push(f));
            }
        }
        r
    }

    /// Removes and returns the front pending sample, or nothing when the
    /// queue is empty.
    pub fn dequeue(&mut self) -> (r: Option<Frame>)
        requires
            old(self).wf(),
        ensures
            final(self).wf(),
            old(self)@.len() == 0 ==> r is None && final(self)@ == old(self)@,
            old(self)@.len() > 0 ==> r == Some(old(self)@[0]) && final(self)@ == old(
                self,
            )@.drop_first(),
    {
        match raw_tx_dequeue(&mut self.q) {
            Some(p) => {
                proof {
                    assert(self@ =~= old(self)@.drop_first());
                }
                Some(Frame { left: p.0, right: p.1 })
            },
            None => None,
        }
    }

    /// Removes and returns the front pending sample, or the silent frame
    /// when none is pending, so the real-time transmit path never waits.
    pub fn dequeue_or_silence(&mut self) -> (r: Frame)
        requires
            old(self).wf(),
        ensures
            final(self).wf(),
            old(self)@.len() == 0 ==> r == (Frame { left: 0, right: 0 }) && final(self)@ == old(
                self,
            )@,
            old(self)@.len() > 0 ==> r == old(self)@[0] && final(self)@ == old(self)@.drop_first(),
    {
        match self.dequeue() {
            Some(f) => f,
            None => Frame { left: 0, right: 0 },
        }
    }
}

/// The queue of finished receive frames, each stamped with the time its
/// last half-word arrived, viewed front first.
pub struct RxQueue {
    q: heapless::spsc::Queue<(u32, (u32, u32)), 9>,
}

impl View for RxQueue {
    type V = Seq<(u32, Frame)>;

    closed spec fn view(&self) -> Seq<(u32, Frame)> {
        rx_contents(self.q).map_values(
            |p: (u32, (u32, u32))| (p.0, Frame { left: p.1.0, right: p.1.1 }),
        )
    }
}

impl RxQueue {
    /// The queue never holds more frames than its fixed capacity.
    pub open spec fn wf(&self) -> bool {
        self@.len() <= QUEUE_CAPACITY
    }

    /// An empty receive queue.
    pub fn new() -> (r: RxQueue)
        ensures
            r@ == Seq::<(u32, Frame)>::empty(),
            r.wf(),
    {
        let r = RxQueue { q: raw_rx_new() };
        proof {
            assert(r@ =~= Seq::<(u32, Frame)>::empty());
        }
        r
    }

    /// The number of finished frames waiting for the consumer.
    pub fn len(&self) -> (r: usize)
        ensures
            r == self@.len(),
    {
        raw_rx_len(&self.q)
    }

    /// The fixed capacity.
    pub fn capacity(&self) -> (r: usize)
        ensures
            r == QUEUE_CAPACITY,
    {
        QUEUE_CAPACITY
    }

    /// Appends a timestamped finished frame at the back without ever
    /// blocking: reports failure when the queue is already at capacity,
    /// leaving it unchanged.
    pub fn enqueue(&mut self, timestamp: u32, f: Frame) -> (r: bool)
        requires
            old(self).wf(),
        ensures
            final(self).wf(),
            old(self)@.len() < QUEUE_CAPACITY ==> r && final(self)@ == old(self)@.push(
                (timestamp, f),
            ),
            old(self)@.len() == QUEUE_CAPACITY ==> !r && final(self)@ == old(self)@,
    {
        let r = raw_rx_enqueue(&mut self.q, (timestamp, (f.left, f.right)));
        proof {
            if rx_contents(old(self).q).len() < 8 {
                assert(self@ =~= old(self)@.push((timestamp, f)));
            }
        }
        r
    }

    /// Removes and returns the front finished frame, or nothing when the
    /// queue is empty.
    pub fn dequeue(&mut self) -> (r: Option<(u32, Frame)>)
        requires
            old(self).wf(),
        ensures
            final(self).wf(),
            old(self)@.len() == 0 ==> r is None && final(self)@ == old(self)@,
            old(self)@.len() > 0 ==> r == Some(old(self)@[0]) && final(self)@ == old(
                self,
            )@.drop_first(),
    {
        match raw_rx_dequeue(&mut self.q) {
            Some(p) => {
                proof {
                    assert(self@ =~= old(self)@.drop_first());
                }
                Some((p.0, Frame { left: p.1.0, right: p.1.1 }))
            },
            None => None,
        }
    }
}

} // verus!
