use vstd::prelude::*;
use std::collections::VecDeque;
use crate::frame::{Frame, FrameView};

verus! {

/// The mathematical value of a bus: its capacity, every message ever
/// published in publish order, and whether it has been shut down. Only the
/// last `capacity` messages of the history are still retained.
pub struct BusView {
    pub capacity: nat,
    pub history: Seq<FrameView>,
    pub closed: bool,
}

impl BusView {
    /// Position of the oldest message still retained.
    pub open spec fn oldest(self) -> nat {
        if self.history.len() > self.capacity {
            (self.history.len() - self.capacity) as nat
        } else {
            0
        }
    }

    /// Position that the next published message takes.
    pub open spec fn published(self) -> nat {
        self.history.len()
    }

    pub open spec fn publish(self, m: FrameView) -> BusView {
        BusView { history: self.history.push(m), ..self }
    }

    /// The bus after publishing every message of `ms`, in order.
    pub open spec fn publish_all(self, ms: Seq<FrameView>) -> BusView {
        BusView { history: self.history + ms, ..self }
    }
}

/// What one receive on a cursor yields.
pub enum RecvView {
    Message(FrameView),
    Lagged(nat),
    Empty,
    Closed,
}

/// One receive on the bus `b` from position `pos`: the outcome, and the
/// position that the cursor moves to. A cursor behind the oldest retained
/// message is told how many it missed and is moved up to that message.
pub open spec fn recv_spec(b: BusView, pos: nat) -> (RecvView, nat) {
    if pos < b.oldest() {
        (RecvView::Lagged((b.oldest() - pos) as nat), b.oldest())
    } else if pos < b.published() {
        (RecvView::Message(b.history[pos as int]), pos + 1)
    } else if b.closed {
        (RecvView::Closed, pos)
    } else {
        (RecvView::Empty, pos)
    }
}

/// The outcomes of `k` receives in a row from position `pos`, with no publish between.
pub open spec fn drain(b: BusView, pos: nat, k: nat) -> Seq<RecvView>
    decreases k,
{
    if k == 0 {
        Seq::empty()
    } else {
        seq![recv_spec(b, pos).0] + drain(b, recv_spec(b, pos).1, (k - 1) as nat)
    }
}

/// Every message of `ms` delivered in order, one receive each.
pub open spec fn delivered(ms: Seq<FrameView>) -> Seq<RecvView> {
    ms.map_values(|m: FrameView| RecvView::Message(m))
}

proof fn lemma_drain_retained(b: BusView, p: nat, k: nat)
    requires
        b.oldest() <= p,
        p + k <= b.published(),
    ensures
        drain(b, p, k) =~= delivered(b.history.subrange(p as int, (p + k) as int)),
    decreases k,
{
    if k > 0 {
        lemma_drain_retained(b, p + 1, (k - 1) as nat);
        assert(drain(b, p + 1, (k - 1) as nat) =~= delivered(
            b.history.subrange(p as int, (p + k) as int),
        ).drop_first());
    }
}

/// A subscriber that joined before the first of the publishes `ms`, and that
/// is not lagged because `ms` fits in the buffer, reads exactly `ms`, in
/// publish order, and then finds nothing more.
pub proof fn lemma_in_order_delivery(b: BusView, pos: nat, ms: Seq<FrameView>)
    requires
        pos == b.published(),
        ms.len() <= b.capacity,
        !b.closed,
    ensures
        drain(b.publish_all(ms), pos, ms.len()) == delivered(ms),
        recv_spec(b.publish_all(ms), pos + ms.len()).0 == RecvView::Empty,
{
    let a = b.publish_all(ms);
    lemma_drain_retained(a, pos, ms.len());
    assert(a.history.subrange(pos as int, (pos + ms.len()) as int) =~= ms);
}

/// A subscriber that joined before the publishes `ms`, and that falls more
/// than `capacity` behind, is told once that it missed
/// `ms.len() - capacity` messages, then reads the last `capacity` of them in
/// publish order, and then finds nothing more.
pub proof fn lemma_lag_then_resume(b: BusView, pos: nat, ms: Seq<FrameView>)
    requires
        pos == b.published(),
        ms.len() > b.capacity,
        b.capacity > 0,
        !b.closed,
    ensures
        drain(b.publish_all(ms), pos, b.capacity + 1) == seq![
            RecvView::Lagged((ms.len() - b.capacity) as nat),
        ] + delivered(ms.subrange(ms.len() - b.capacity, ms.len() as int)),
        recv_spec(b.publish_all(ms), b.publish_all(ms).published()).0 == RecvView::Empty,
{
    let a = b.publish_all(ms);
    let start = a.oldest();
    assert(start == pos + ms.len() - b.capacity);
    lemma_drain_retained(a, start, b.capacity);
    assert(a.history.subrange(start as int, (start + b.capacity) as int) =~= ms.subrange(
        ms.len() - b.capacity,
        ms.len() as int,
    ));
    assert(recv_spec(a, pos) == (RecvView::Lagged((ms.len() - b.capacity) as nat), start));
    assert(drain(a, pos, b.capacity + 1) == seq![recv_spec(a, pos).0] + drain(a, start, b.capacity));
}

/// The outcome of a receive.
#[derive(Debug, PartialEq, Eq)]
pub enum Received {
    Message(Frame),
    Lagged(u64),
    Empty,
    Closed,
}

impl View for Received {
    type V = RecvView;

    open spec fn view(&self) -> RecvView {
        match self {
            Received::Message(m) => RecvView::Message(m@),
            Received::Lagged(n) => RecvView::Lagged(*n as nat),
            Received::Empty => RecvView::Empty,
            Received::Closed => RecvView::Closed,
        }
    }
}

/// A subscriber's private read position into the bus.
#[derive(Debug)]
pub struct Cursor {
    pos: u64,
}

impl View for Cursor {
    type V = nat;

    closed spec fn view(&self) -> nat {
        self.pos as nat
    }
}

/// A fan-out channel of bounded capacity. Publishing never waits: once more
/// than `capacity` messages are pending, the oldest is dropped and slow
/// subscribers are told how many they lost.
pub struct BroadcastBus {
    capacity: usize,
    buffer: VecDeque<Frame>,
    head: u64,
    closed: bool,
    history: Ghost<Seq<FrameView>>,
}

impl View for BroadcastBus {
    type V = BusView;

    closed spec fn view(&self) -> BusView {
        BusView { capacity: self.capacity as nat, history: self.history@, closed: self.closed }
    }
}

impl BroadcastBus {
    /// The buffer holds exactly the retained suffix of the history.
    pub closed spec fn wf(&self) -> bool {
        &&& self.capacity > 0
        &&& self.history@.len() <= u64::MAX
        &&& self.history@.len() == self.head + self.buffer@.len()
        &&& self.head as nat == self@.oldest()
        &&& forall|i: int|
            0 <= i < self.buffer@.len() ==> (#[trigger] self.buffer@[i])@ == self.history@[self.head
                + i]
    }

    /// An open, empty bus that retains up to `capacity` messages.
    pub fn new(capacity: usize) -> (r: BroadcastBus)
        requires
            capacity > 0,
        ensures
            r.wf(),
            r@ == (BusView { capacity: capacity as nat, history: Seq::empty(), closed: false }),
    {
        BroadcastBus {
            capacity,
            buffer: VecDeque::new(),
            head: 0,
            closed: false,
            history: Ghost(Seq::empty()),
        }
    }

    /// A cursor at the current publish point: it sees no earlier message.
    pub fn subscribe(&self) -> (r: Cursor)
        requires
            self.wf(),
        ensures
            r@ == self@.published(),
    {
        Cursor { pos: self.head + self.buffer.len() as u64 }
    }

    /// Appends `m` to the bus for every subscriber, dropping the oldest
    /// retained message when the buffer is full.
    pub fn publish(&mut self, m: Frame)
        requires
            old(self).wf(),
            old(self)@.published() < u64::MAX,
        ensures
            final(self).wf(),
            final(self)@ == old(self)@.publish(m@),
    {
        let ghost mv = m@;
        if self.buffer.len() == self.capacity {
            self.buffer.pop_front();
            self.head = self.head + 1;
        }
        self.buffer.push_back(m);
        self.history = Ghost(self.history@.push(mv));
        assert forall|i: int| 0 <= i < self.buffer@.len() implies (#[trigger] self.buffer@[i])@
            == self.history@[self.head + i] by {
            if i + 1 < self.buffer@.len() {
                assert(self.buffer@[i] == old(self).buffer@[i + old(self).buffer@.len()
                    - self.buffer@.len() + 1]);
            }
        }
    }

    /// How many messages have been published so far.
    pub fn published(&self) -> (r: u64)
        requires
            self.wf(),
        ensures
            r == self@.published(),
    {
        self.head + self.buffer.len() as u64
    }

    /// Shuts the bus down: once a cursor has read everything, it is told so.
    pub fn close(&mut self)
        requires
            old(self).wf(),
        ensures
            final(self).wf(),
            final(self)@ == (BusView { closed: true, ..old(self)@ }),
    {
        self.closed = true;
    }

    /// Receives once on `cursor`, as `recv_spec` says.
    pub fn recv(&self, cursor: &mut Cursor) -> (r: Received)
        requires
            self.wf(),
            old(cursor)@ <= self@.published(),
        ensures
            (r@, final(cursor)@) == recv_spec(self@, old(cursor)@),
            final(cursor)@ <= self@.published(),
    {
        if cursor.pos < self.head {
            let missed = self.head - cursor.pos;
            cursor.pos = self.head;
            Received::Lagged(missed)
        } else if cursor.pos - self.head < self.buffer.len() as u64 {
            let idx = (cursor.pos - self.head) as usize;
            let m = self.buffer[idx].copy();
            cursor.pos = cursor.pos + 1;
            Received::Message(m)
        } else if self.closed {
            Received::Closed
        } else {
            Received::Empty
        }
    }
}

} // verus!
