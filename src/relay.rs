use vstd::prelude::*;
use std::collections::VecDeque;
use crate::bus::{recv_spec, BroadcastBus, BusView, Cursor, Received, RecvView};
use crate::frame::{opt_view, Frame, FrameView};

verus! {

/// The three tasks of a connection. The first one to end ends the relay.
#[derive(Debug, Clone, Copy, PartialEq, Eq, Structural)]
pub enum Task {
    Writer,
    Distributor,
    Reader,
}

/// The mathematical value of a relay: its bus position, the frames waiting
/// for the writer, and the task that ended the relay, if one has.
pub struct RelayView {
    pub cursor: nat,
    pub outbox: Seq<FrameView>,
    pub ended: Option<Task>,
}

/// What a distributor step did.
#[derive(Debug, PartialEq, Eq, Structural)]
pub enum Pumped {
    /// A message was moved to the outbound queue.
    Forwarded,
    /// The connection fell behind and this many messages were skipped.
    Lagged(u64),
    /// Nothing new on the bus: wait for the next publish.
    Idle,
    /// The bus has shut down.
    Closed,
}

pub enum PumpedView {
    Forwarded,
    Lagged(nat),
    Idle,
    Closed,
}

impl View for Pumped {
    type V = PumpedView;

    open spec fn view(&self) -> PumpedView {
        match self {
            Pumped::Forwarded => PumpedView::Forwarded,
            Pumped::Lagged(n) => PumpedView::Lagged(*n as nat),
            Pumped::Idle => PumpedView::Idle,
            Pumped::Closed => PumpedView::Closed,
        }
    }
}

/// The greeting queued for a newly connected client alone.
pub open spec fn welcome() -> FrameView {
    FrameView::Text("Welcome to WebSocket!"@)
}

/// Records that task `t` ended, unless another task ended first.
pub open spec fn first_exit(ended: Option<Task>, t: Task) -> Option<Task> {
    match ended {
        Some(e) => Some(e),
        None => Some(t),
    }
}

/// One inbound frame (or `None`, for a read error or the end of the stream)
/// handled on relay `r` and bus `b`: text and binary frames are published
/// unchanged, for every subscriber including the sender; a ping is answered
/// with a pong on this connection only; a close or a failed read ends the
/// relay; anything else is ignored.
pub open spec fn inbound_spec(r: RelayView, b: BusView, incoming: Option<FrameView>) -> (
    RelayView,
    BusView,
) {
    match incoming {
        Some(FrameView::Text(t)) => (r, b.publish(FrameView::Text(t))),
        Some(FrameView::Binary(d)) => (r, b.publish(FrameView::Binary(d))),
        Some(FrameView::Ping(d)) => (
            RelayView { outbox: r.outbox.push(FrameView::Pong(d)), ..r },
            b,
        ),
        Some(FrameView::Pong(_)) => (r, b),
        Some(FrameView::Close) | None => (
            RelayView { ended: first_exit(r.ended, Task::Reader), ..r },
            b,
        ),
    }
}

/// One distributor step on relay `r` over bus `b`: a message is moved to the
/// outbound queue; a lag is reported and the cursor skips ahead, with no frame
/// sent; a shut-down bus ends the relay.
pub open spec fn pump_spec(r: RelayView, b: BusView) -> (RelayView, PumpedView) {
    let (ev, p) = recv_spec(b, r.cursor);
    match ev {
        RecvView::Message(m) => (
            RelayView { cursor: p, outbox: r.outbox.push(m), ..r },
            PumpedView::Forwarded,
        ),
        RecvView::Lagged(n) => (RelayView { cursor: p, ..r }, PumpedView::Lagged(n)),
        RecvView::Empty => (r, PumpedView::Idle),
        RecvView::Closed => (
            RelayView { ended: first_exit(r.ended, Task::Distributor), ..r },
            PumpedView::Closed,
        ),
    }
}

/// The state of one connection: its bus cursor, its private outbound queue,
/// which only the writer drains, and how it ended.
pub struct Relay {
    cursor: Cursor,
    outbox: VecDeque<Frame>,
    ended: Option<Task>,
}

impl View for Relay {
    type V = RelayView;

    closed spec fn view(&self) -> RelayView {
        RelayView { cursor: self.cursor@, outbox: self.outbox@.map_values(|f: Frame| f@), ended: self.ended }
    }
}

/// The greeting frame.
pub fn welcome_frame() -> (r: Frame)
    ensures
        r@ == welcome(),
{
    Frame::Text("Welcome to WebSocket!".to_owned())
}

impl Relay {
    /// A relay for a connection accepted now: subscribed at the bus's publish
    /// point, with the greeting as its only queued frame.
    pub fn start(bus: &BroadcastBus) -> (r: Relay)
        requires
            bus.wf(),
        ensures
            r@ == (RelayView { cursor: bus@.published(), outbox: seq![welcome()], ended: None }),
    {
        let mut outbox: VecDeque<Frame> = VecDeque::new();
        outbox.push_back(welcome_frame());
        let r = Relay { cursor: bus.subscribe(), outbox, ended: None };
        assert(r@.outbox =~= seq![welcome()]);
        r
    }

    /// Handles one inbound frame as `inbound_spec` says.
    pub fn on_inbound(&mut self, bus: &mut BroadcastBus, incoming: Option<Frame>)
        requires
            old(bus).wf(),
            old(bus)@.published() < u64::MAX,
        ensures
            final(bus).wf(),
            (final(self)@, final(bus)@) == inbound_spec(old(self)@, old(bus)@, opt_view(incoming)),
    {
        match incoming {
            Some(Frame::Text(t)) => bus.publish(Frame::Text(t)),
            Some(Frame::Binary(d)) => bus.publish(Frame::Binary(d)),
            Some(Frame::Ping(d)) => {
                self.outbox.push_back(Frame::Pong(d));
                assert(self@.outbox =~= old(self)@.outbox.push(FrameView::Pong(d@)));
            },
            Some(Frame::Pong(_)) => {},
            Some(Frame::Close) | None => self.finish(Task::Reader),
        }
    }

    /// One distributor step, as `pump_spec` says.
    pub fn pump(&mut self, bus: &BroadcastBus) -> (r: Pumped)
        requires
            bus.wf(),
            old(self)@.cursor <= bus@.published(),
        ensures
            (final(self)@, r@) == pump_spec(old(self)@, bus@),
            final(self)@.cursor <= bus@.published(),
    {
        match bus.recv(&mut self.cursor) {
            Received::Message(m) => {
                self.outbox.push_back(m);
                assert(self@.outbox =~= old(self)@.outbox.push(
                    recv_spec(bus@, old(self)@.cursor).0->Message_0,
                ));
                Pumped::Forwarded
            },
            Received::Lagged(n) => Pumped::Lagged(n),
            Received::Empty => Pumped::Idle,
            Received::Closed => {
                self.finish(Task::Distributor);
                Pumped::Closed
            },
        }
    }

    /// Takes the oldest queued frame for the writer.
    pub fn next_outbound(&mut self) -> (r: Option<Frame>)
        ensures
            old(self)@.outbox.len() == 0 ==> r.is_none() && final(self)@ == old(self)@,
            old(self)@.outbox.len() > 0 ==> r.is_some() && r.unwrap()@ == old(self)@.outbox[0]
                && final(self)@ == (RelayView { outbox: old(self)@.outbox.drop_first(), ..old(self)@ }),
    {
        let r = self.outbox.pop_front();
        proof {
            if old(self)@.outbox.len() > 0 {
                assert(self@.outbox =~= old(self)@.outbox.drop_first());
            }
        }
        r
    }

    /// Records that a write to the connection failed.
    pub fn on_write_failed(&mut self)
        ensures
            final(self)@ == (RelayView { ended: first_exit(old(self)@.ended, Task::Writer), ..old(self)@ }),
    {
        self.finish(Task::Writer);
    }

    /// Records that task `t` ended; the first such record is kept.
    pub fn finish(&mut self, t: Task)
        ensures
            final(self)@ == (RelayView { ended: first_exit(old(self)@.ended, t), ..old(self)@ }),
    {
        if self.ended.is_none() {
            self.ended = Some(t);
        }
    }

    /// The task that ended the relay, if one has.
    pub fn ended(&self) -> (r: Option<Task>)
        ensures
            r == self@.ended,
    {
        self.ended
    }

    /// The number of frames waiting for the writer.
    pub fn pending(&self) -> (r: usize)
        ensures
            r == self@.outbox.len(),
    {
        self.outbox.len()
    }
}


/// A ping answers with exactly one pong, queued on the pinging connection
/// alone: the bus is untouched, so no other connection sees anything.
pub proof fn lemma_ping_stays_local(r: RelayView, b: BusView, d: Seq<u8>)
    ensures
        inbound_spec(r, b, Some(FrameView::Ping(d))) == (
            RelayView { outbox: r.outbox.push(FrameView::Pong(d)), ..r },
            b,
        ),
        forall|o: RelayView|
            #[trigger] pump_spec(o, inbound_spec(r, b, Some(FrameView::Ping(d))).1) == pump_spec(
                o,
                b,
            ),
{
}

/// A text frame sent on connection `a` reaches `a` itself and another
/// connection `c`, both caught up with the bus, exactly once each.
pub proof fn lemma_text_reaches_everyone_once(a: RelayView, c: RelayView, b: BusView, t: Seq<char>)
    requires
        a.cursor == b.published(),
        c.cursor == b.published(),
        b.capacity > 0,
        !b.closed,
    ensures
        ({
            let b1 = inbound_spec(a, b, Some(FrameView::Text(t))).1;
            let a1 = inbound_spec(a, b, Some(FrameView::Text(t))).0;
            &&& pump_spec(a1, b1).1 == PumpedView::Forwarded
            &&& pump_spec(a1, b1).0.outbox == a.outbox.push(FrameView::Text(t))
            &&& pump_spec(pump_spec(a1, b1).0, b1).1 == PumpedView::Idle
            &&& pump_spec(c, b1).1 == PumpedView::Forwarded
            &&& pump_spec(c, b1).0.outbox == c.outbox.push(FrameView::Text(t))
            &&& pump_spec(pump_spec(c, b1).0, b1).1 == PumpedView::Idle
        }),
{
}

/// A close frame or a failed read ends only that connection's relay: the bus
/// is left as it was, holding nothing for the departed subscriber, so every
/// other relay receives and publishes exactly as before.
pub proof fn lemma_close_is_local(a: RelayView, b: BusView, incoming: Option<FrameView>)
    requires
        incoming == Some(FrameView::Close) || incoming == None::<FrameView>,
    ensures
        inbound_spec(a, b, incoming).0.ended is Some,
        inbound_spec(a, b, incoming).1 == b,
        forall|o: RelayView| #[trigger] pump_spec(o, inbound_spec(a, b, incoming).1) == pump_spec(o, b),
        forall|o: RelayView, x: Option<FrameView>|
            #[trigger] inbound_spec(o, inbound_spec(a, b, incoming).1, x) == inbound_spec(o, b, x),
{
}

} // verus!
