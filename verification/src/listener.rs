//! The state machine that follows one job's event stream to its end.
//!
//! The machine does no reading itself. Whoever owns the connection reports
//! what arrived, one [`Arrival`] at a time and in the order of arrival, and
//! goes on reading for as long as the listener [`is_live`](Listener::is_live).

use crate::error::{DecodeError, EventKind};
use crate::event::{
    classify_spec, decode, decode_spec, decoded_view, lemma_status_needs_queue_depth,
    queue_field_of, Decoded, StreamEvent, StreamEventView,
};
use crate::json::JsonView;
use crate::text::natural_of;
use vstd::prelude::*;

verus! {

/// Why a listener came to a regular end.
#[derive(Clone, Copy, Debug, PartialEq, Eq, Structural)]
pub enum Termination {
    /// The service reported an empty queue.
    Completed,
    /// The caller asked to stop.
    Cancelled,
}

/// Why a listener gave up.
#[derive(Clone, Copy, Debug, PartialEq, Eq, Structural)]
pub enum Failure {
    /// The connection could not be set up, or it was lost before the end.
    Connection,
    /// A message could not be decoded.
    Decode(DecodeError),
    /// Nothing arrived within the time that the caller allows.
    Inactivity,
}

/// Where a listener stands.
#[derive(Clone, Copy, Debug, PartialEq, Eq, Structural)]
pub enum ListenerState {
    Connecting,
    Streaming,
    Terminated(Termination),
    Failed(Failure),
}

/// What the owner of the connection reports to the listener.
#[derive(Clone, Debug, PartialEq, Eq)]
pub enum Arrival {
    /// The connection stands.
    Connected,
    /// A text frame with this content.
    Text(String),
    /// A frame of any other kind.
    NonText,
    /// The connection could not be set up, or it was lost.
    Disconnected,
    /// The caller asked to stop.
    Cancelled,
    /// Nothing arrived within the time that the caller allows.
    TimedOut,
}

/// An arrival as the state machine sees it: a text frame counts by what its
/// decoding gives.
pub enum Signal {
    Connected,
    Message(Decoded),
    NonText,
    Disconnected,
    Cancelled,
    TimedOut,
}

impl Arrival {
    /// The signal that this arrival is to the state machine.
    pub open spec fn signal(&self) -> Signal {
        match self {
            Arrival::Connected => Signal::Connected,
            Arrival::Text(text) => Signal::Message(decode_spec(text@)),
            Arrival::NonText => Signal::NonText,
            Arrival::Disconnected => Signal::Disconnected,
            Arrival::Cancelled => Signal::Cancelled,
            Arrival::TimedOut => Signal::TimedOut,
        }
    }
}

impl Signal {
    /// Whether this is a message with the event that ends a stream.
    pub open spec fn is_final_status(self) -> bool {
        self matches Signal::Message(Ok(event)) && event.is_final()
    }

    /// Whether a streaming listener stops on this signal.
    pub open spec fn halts(self) -> bool {
        match self {
            Signal::Connected => false,
            Signal::Message(Ok(event)) => event.is_final(),
            Signal::Message(Err(_)) => true,
            Signal::NonText => false,
            Signal::Disconnected => true,
            Signal::Cancelled => true,
            Signal::TimedOut => true,
        }
    }

    /// The event that a streaming listener hands on for this signal.
    pub open spec fn event(self) -> Option<StreamEventView> {
        match self {
            Signal::Message(Ok(event)) => Some(event),
            _ => None,
        }
    }
}

/// The state of one job's stream: where the listener stands, and the last
/// queue depth that the service reported, if it reported any.
#[derive(Clone, Copy, Debug, PartialEq, Eq)]
pub struct Listener {
    pub state: ListenerState,
    pub queue_remaining: Option<u64>,
}

/// The mathematical value of an event that may be absent.
pub open spec fn event_view(event: Option<StreamEvent>) -> Option<StreamEventView> {
    match event {
        Some(inner) => Some(inner@),
        None => None,
    }
}

impl Listener {
    /// No queue depth is known before the stream is open, and a completed
    /// listener has seen an empty queue.
    pub open spec fn wf(self) -> bool {
        &&& self.state is Connecting ==> self.queue_remaining is None
        &&& self.state == ListenerState::Terminated(Termination::Completed)
            ==> self.queue_remaining == Some(0u64)
    }

    /// Whether the listener still takes arrivals.
    pub open spec fn live(self) -> bool {
        self.state is Connecting || self.state is Streaming
    }

    /// The listener after one signal.
    pub open spec fn next(self, signal: Signal) -> Listener {
        match self.state {
            ListenerState::Connecting => match signal {
                Signal::Connected => Listener { state: ListenerState::Streaming, ..self },
                Signal::Message(_) => self,
                Signal::NonText => self,
                Signal::Disconnected => Listener {
                    state: ListenerState::Failed(Failure::Connection),
                    ..self
                },
                Signal::Cancelled => Listener {
                    state: ListenerState::Terminated(Termination::Cancelled),
                    ..self
                },
                Signal::TimedOut => Listener {
                    state: ListenerState::Failed(Failure::Inactivity),
                    ..self
                },
            },
            ListenerState::Streaming => match signal {
                Signal::Connected => self,
                Signal::Message(Ok(StreamEventView::Status { queue_remaining })) => Listener {
                    state: if queue_remaining == 0 {
                        ListenerState::Terminated(Termination::Completed)
                    } else {
                        ListenerState::Streaming
                    },
                    queue_remaining: Some(queue_remaining),
                },
                Signal::Message(Ok(_)) => self,
                Signal::Message(Err(error)) => Listener {
                    state: ListenerState::Failed(Failure::Decode(error)),
                    ..self
                },
                Signal::NonText => self,
                Signal::Disconnected => Listener {
                    state: ListenerState::Failed(Failure::Connection),
                    ..self
                },
                Signal::Cancelled => Listener {
                    state: ListenerState::Terminated(Termination::Cancelled),
                    ..self
                },
                Signal::TimedOut => Listener {
                    state: ListenerState::Failed(Failure::Inactivity),
                    ..self
                },
            },
            ListenerState::Terminated(_) => self,
            ListenerState::Failed(_) => self,
        }
    }

    /// The event that the listener hands on for one signal: the event of a
    /// message that decoded, while the listener is streaming, and nothing
    /// otherwise.
    pub open spec fn emits(self, signal: Signal) -> Option<StreamEventView> {
        if self.state is Streaming {
            signal.event()
        } else {
            None
        }
    }

    /// How the listener ended: `None` while it is live.
    pub open spec fn outcome_spec(self) -> Option<Result<Termination, Failure>> {
        match self.state {
            ListenerState::Connecting => None,
            ListenerState::Streaming => None,
            ListenerState::Terminated(reason) => Some(Ok(reason)),
            ListenerState::Failed(failure) => Some(Err(failure)),
        }
    }

    /// The listener after a run of signals, taken in order.
    pub open spec fn run(self, signals: Seq<Signal>) -> Listener
        decreases signals.len(),
    {
        if signals.len() == 0 {
            self
        } else {
            self.next(signals.first()).run(signals.drop_first())
        }
    }

    /// The events that the listener hands on during a run of signals, in the
    /// order in which it hands them on.
    pub open spec fn dispatched(self, signals: Seq<Signal>) -> Seq<StreamEventView>
        decreases signals.len(),
    {
        if signals.len() == 0 {
            Seq::empty()
        } else {
            let rest = self.next(signals.first()).dispatched(signals.drop_first());
            match self.emits(signals.first()) {
                Some(event) => seq![event] + rest,
                None => rest,
            }
        }
    }
}

/// The signals of a run of arrivals, in the same order.
pub open spec fn signals_of(arrivals: Seq<Arrival>) -> Seq<Signal> {
    Seq::new(arrivals.len(), |i: int| arrivals[i].signal())
}

/// The mathematical values of a run of events, in the same order.
pub open spec fn events_view(events: Seq<StreamEvent>) -> Seq<StreamEventView> {
    Seq::new(events.len(), |i: int| events[i]@)
}

/// The events among `signals`, in the same order.
pub open spec fn events_in(signals: Seq<Signal>) -> Seq<StreamEventView>
    decreases signals.len(),
{
    if signals.len() == 0 {
        Seq::empty()
    } else {
        let rest = events_in(signals.drop_first());
        match signals.first().event() {
            Some(event) => seq![event] + rest,
            None => rest,
        }
    }
}

/// How many of `signals` a streaming listener takes before it stops: all up
/// to the first on which it halts, that one included.
pub open spec fn taken(signals: Seq<Signal>) -> int
    decreases signals.len(),
{
    if signals.len() == 0 {
        0
    } else if signals.first().halts() {
        1
    } else {
        1 + taken(signals.drop_first())
    }
}

/// Whether a final status is among `signals` with nothing before it on which
/// a streaming listener halts.
pub open spec fn final_status_received(signals: Seq<Signal>) -> bool {
    exists|i: int|
        0 <= i < signals.len() && (#[trigger] signals[i]).is_final_status() && forall|j: int|
            0 <= j < i ==> !(#[trigger] signals[j]).halts()
}

impl Listener {
    /// A listener that has not connected yet.
    pub fn new() -> (listener: Listener)
        ensures
            listener.state is Connecting,
            listener.queue_remaining is None,
            listener.wf(),
    {
        Listener { state: ListenerState::Connecting, queue_remaining: None }
    }

    /// Whether the listener still takes arrivals.
    pub fn is_live(&self) -> (live: bool)
        ensures
            live == self.live(),
    {
        match self.state {
            ListenerState::Connecting => true,
            ListenerState::Streaming => true,
            _ => false,
        }
    }

    /// How the listener ended: `None` while it is live.
    pub fn outcome(&self) -> (outcome: Option<Result<Termination, Failure>>)
        ensures
            outcome == self.outcome_spec(),
    {
        match self.state {
            ListenerState::Connecting => None,
            ListenerState::Streaming => None,
            ListenerState::Terminated(reason) => Some(Ok(reason)),
            ListenerState::Failed(failure) => Some(Err(failure)),
        }
    }

    /// Takes the outcome of decoding one text frame. Returns the event to
    /// hand on, if there is one.
    pub fn dispatch(&mut self, outcome: Result<StreamEvent, DecodeError>) -> (emitted: Option<
        StreamEvent,
    >)
        ensures
            *final(self) == old(self).next(Signal::Message(decoded_view(outcome))),
            event_view(emitted) == old(self).emits(Signal::Message(decoded_view(outcome))),
            old(self).wf() ==> final(self).wf(),
    {
        match self.state {
            ListenerState::Streaming => match outcome {
                Ok(event) => {
                    match &event {
                        StreamEvent::Status { queue_remaining } => {
                            self.queue_remaining = Some(*queue_remaining);
                            if *queue_remaining == 0 {
                                self.state = ListenerState::Terminated(Termination::Completed);
                            }
                        },
                        _ => {},
                    }
                    Some(event)
                },
                Err(error) => {
                    self.state = ListenerState::Failed(Failure::Decode(error));
                    None
                },
            },
            _ => None,
        }
    }

    /// Takes one arrival. A text frame is decoded, unless the listener is not
    /// streaming and would not look at it. Returns the event to hand on, if
    /// there is one.
    pub fn receive(&mut self, arrival: &Arrival) -> (emitted: Option<StreamEvent>)
        ensures
            *final(self) == old(self).next(arrival.signal()),
            event_view(emitted) == old(self).emits(arrival.signal()),
            old(self).wf() ==> final(self).wf(),
    {
        match self.state {
            ListenerState::Connecting => {
                match arrival {
                    Arrival::Connected => {
                        self.state = ListenerState::Streaming;
                    },
                    Arrival::Text(_) => {},
                    Arrival::NonText => {},
                    Arrival::Disconnected => {
                        self.state = ListenerState::Failed(Failure::Connection);
                    },
                    Arrival::Cancelled => {
                        self.state = ListenerState::Terminated(Termination::Cancelled);
                    },
                    Arrival::TimedOut => {
                        self.state = ListenerState::Failed(Failure::Inactivity);
                    },
                }
                None
            },
            ListenerState::Streaming => match arrival {
                Arrival::Connected => None,
                Arrival::Text(text) => self.dispatch(decode(text.as_str())),
                Arrival::NonText => None,
                Arrival::Disconnected => {
                    self.state = ListenerState::Failed(Failure::Connection);
                    None
                },
                Arrival::Cancelled => {
                    self.state = ListenerState::Terminated(Termination::Cancelled);
                    None
                },
                Arrival::TimedOut => {
                    self.state = ListenerState::Failed(Failure::Inactivity);
                    None
                },
            },
            _ => None,
        }
    }

    /// Takes a run of arrivals in order, as [`receive`](Listener::receive)
    /// does one by one. Returns the events handed on, in the order in which
    /// they were handed on.
    pub fn replay(&mut self, arrivals: &Vec<Arrival>) -> (emitted: Vec<StreamEvent>)
        ensures
            *final(self) == old(self).run(signals_of(arrivals@)),
            events_view(emitted@) == old(self).dispatched(signals_of(arrivals@)),
            old(self).wf() ==> final(self).wf(),
    {
        let ghost start = *self;
        let ghost signals = signals_of(arrivals@);
        let mut emitted: Vec<StreamEvent> = Vec::new();
        let mut i: usize = 0;
        assert(signals.skip(0) =~= signals);
        assert(events_view(emitted@) =~= Seq::<StreamEventView>::empty());
        while i < arrivals.len()
            invariant
                0 <= i <= arrivals.len(),
                signals == signals_of(arrivals@),
                start.run(signals) == self.run(signals.skip(i as int)),
                start.dispatched(signals) == events_view(emitted@) + self.dispatched(
                    signals.skip(i as int),
                ),
                start.wf() ==> self.wf(),
            decreases arrivals.len() - i,
        {
            let ghost before = *self;
            let ghost seen = events_view(emitted@);
            let ghost rest = signals.skip(i as int);
            assert(rest.first() == arrivals@[i as int].signal());
            assert(rest.drop_first() =~= signals.skip(i + 1));
            match self.receive(&arrivals[i]) {
                Some(event) => {
                    emitted.push(event);
                    assert(events_view(emitted@) =~= seen + seq![event@]);
                    assert(seen + (seq![event@] + self.dispatched(signals.skip(i + 1))) =~= (seen
                        + seq![event@]) + self.dispatched(signals.skip(i + 1)));
                },
                None => {},
            }
            i = i + 1;
        }
        assert(signals.skip(i as int).len() == 0);
        assert(events_view(emitted@) + Seq::<StreamEventView>::empty() =~= events_view(emitted@));
        emitted
    }
}

impl Listener {
    /// Whatever arrives, the listener stays well formed.
    pub proof fn lemma_run_keeps_wf(self, signals: Seq<Signal>)
        requires
            self.wf(),
        ensures
            self.run(signals).wf(),
        decreases signals.len(),
    {
        if signals.len() > 0 {
            self.next(signals.first()).lemma_run_keeps_wf(signals.drop_first());
        }
    }

    /// A listener that has stopped stays as it is and hands on nothing,
    /// whatever arrives.
    pub proof fn lemma_halted_is_final(self, signals: Seq<Signal>)
        requires
            !self.live(),
        ensures
            self.run(signals) == self,
            self.dispatched(signals) == Seq::<StreamEventView>::empty(),
        decreases signals.len(),
    {
        if signals.len() > 0 {
            self.lemma_halted_is_final(signals.drop_first());
        }
    }

    /// A streaming listener goes on streaming exactly as long as no signal
    /// arrives on which it halts. An unrecognized message is none of those,
    /// nor is a progress, executing or executed event.
    pub proof fn lemma_streams_until_halt(self, signals: Seq<Signal>)
        requires
            self.state is Streaming,
        ensures
            self.run(signals).state is Streaming <==> forall|i: int|
                0 <= i < signals.len() ==> !(#[trigger] signals[i]).halts(),
            !Signal::Message(Ok(StreamEventView::Unrecognized)).halts(),
            forall|event: StreamEventView|
                event is Progress || event is Executing || event is Executed
                    ==> !#[trigger] Signal::Message(Ok(event)).halts(),
        decreases signals.len(),
    {
        if signals.len() > 0 {
            let first = signals.first();
            let rest = signals.drop_first();
            if first.halts() {
                self.next(first).lemma_halted_is_final(rest);
            } else {
                self.next(first).lemma_streams_until_halt(rest);
                if forall|i: int| 0 <= i < rest.len() ==> !(#[trigger] rest[i]).halts() {
                    assert forall|i: int| 0 <= i < signals.len() implies !(
                    #[trigger] signals[i]).halts() by {
                        if i > 0 {
                            assert(signals[i] == rest[i - 1]);
                        }
                    }
                } else {
                    let i = choose|i: int| 0 <= i < rest.len() && (#[trigger] rest[i]).halts();
                    assert(signals[i + 1] == rest[i]);
                }
            }
        }
    }

    /// A streaming listener ends as completed if and only if a final status
    /// arrives before anything else on which it halts. Where no cancellation
    /// is among the signals, this is the only way in which it terminates.
    pub proof fn lemma_completes_iff_final_status(self, signals: Seq<Signal>)
        requires
            self.state is Streaming,
        ensures
            self.run(signals).state == ListenerState::Terminated(Termination::Completed)
                <==> final_status_received(signals),
            (forall|i: int| 0 <= i < signals.len() ==> !(#[trigger] signals[i] is Cancelled)) ==> (
            self.run(signals).state is Terminated <==> final_status_received(signals)),
        decreases signals.len(),
    {
        if signals.len() == 0 {
        } else {
            let first = signals.first();
            let rest = signals.drop_first();
            if first.halts() {
                self.next(first).lemma_halted_is_final(rest);
                if first.is_final_status() {
                    assert(signals[0].is_final_status());
                } else {
                    if final_status_received(signals) {
                        let i = choose|i: int|
                            0 <= i < signals.len() && (#[trigger] signals[i]).is_final_status()
                                && forall|j: int| 0 <= j < i ==> !(#[trigger] signals[j]).halts();
                        if i > 0 {
                            assert(!signals[0].halts());
                        }
                    }
                    if forall|i: int| 0 <= i < signals.len() ==> !(#[trigger] signals[i] is Cancelled) {
                        assert(!(signals[0] is Cancelled));
                    }
                }
            } else {
                self.next(first).lemma_completes_iff_final_status(rest);
                if final_status_received(rest) {
                    let i = choose|i: int|
                        0 <= i < rest.len() && (#[trigger] rest[i]).is_final_status() && forall|
                            j: int,
                        | 0 <= j < i ==> !(#[trigger] rest[j]).halts();
                    assert(signals[i + 1] == rest[i]);
                    assert forall|j: int| 0 <= j < i + 1 implies !(#[trigger] signals[j]).halts() by {
                        if j > 0 {
                            assert(signals[j] == rest[j - 1]);
                        }
                    }
                    assert(signals[i + 1].is_final_status());
                }
                if final_status_received(signals) {
                    let i = choose|i: int|
                        0 <= i < signals.len() && (#[trigger] signals[i]).is_final_status()
                            && forall|j: int| 0 <= j < i ==> !(#[trigger] signals[j]).halts();
                    assert(i > 0);
                    assert(rest[i - 1] == signals[i]);
                    assert forall|j: int| 0 <= j < i - 1 implies !(#[trigger] rest[j]).halts() by {
                        assert(rest[j] == signals[j + 1]);
                    }
                    assert(rest[i - 1].is_final_status());
                }
                if forall|i: int| 0 <= i < signals.len() ==> !(#[trigger] signals[i] is Cancelled) {
                    assert forall|i: int| 0 <= i < rest.len() implies !(#[trigger] rest[i] is Cancelled) by {
                        assert(rest[i] == signals[i + 1]);
                    }
                }
            }
        }
    }

    /// A decode error makes a streaming listener fail with that error: it
    /// neither terminates nor goes on.
    pub proof fn lemma_decode_error_fails(self, error: DecodeError)
        requires
            self.state is Streaming,
        ensures
            self.next(Signal::Message(Err(error))).state == ListenerState::Failed(
                Failure::Decode(error),
            ),
            self.emits(Signal::Message(Err(error))) is None,
    {
    }

    /// A message tagged as a status whose queue depth is missing, is no
    /// number, or is no natural number that fits in 64 bits makes a streaming
    /// listener fail: it neither terminates nor goes on.
    pub proof fn lemma_status_without_depth_fails(self, doc: JsonView)
        requires
            self.state is Streaming,
            doc.get("type"@) == Some(JsonView::Text("status"@)),
            !(queue_field_of(doc.get("data"@)) matches Some(JsonView::Number(text)) && natural_of(
                text,
            ) is Some),
        ensures
            self.next(Signal::Message(classify_spec(doc))).state == ListenerState::Failed(
                Failure::Decode(DecodeError::Malformed(EventKind::Status)),
            ),
            self.emits(Signal::Message(classify_spec(doc))) is None,
    {
        lemma_status_needs_queue_depth(doc);
    }

    /// A streaming listener hands on the events of the messages that it
    /// takes, all of them, each once and in the order of arrival; it takes
    /// every signal up to the first on which it halts.
    pub proof fn lemma_dispatch_keeps_arrival_order(self, signals: Seq<Signal>)
        requires
            self.state is Streaming,
        ensures
            0 <= taken(signals) <= signals.len(),
            self.dispatched(signals) == events_in(signals.take(taken(signals))),
        decreases signals.len(),
    {
        if signals.len() == 0 {
            assert(signals.take(0) =~= signals);
        } else {
            let first = signals.first();
            let rest = signals.drop_first();
            if first.halts() {
                self.next(first).lemma_halted_is_final(rest);
                let head = signals.take(1);
                assert(head.first() == first);
                assert(head.drop_first() =~= Seq::<Signal>::empty());
                assert(events_in(head.drop_first()) == Seq::<StreamEventView>::empty());
                assert(self.dispatched(signals) =~= events_in(head));
            } else {
                self.next(first).lemma_dispatch_keeps_arrival_order(rest);
                let k = taken(rest);
                let head = signals.take(1 + k);
                assert(head.first() == first);
                assert(head.drop_first() =~= rest.take(k));
            }
        }
    }
}

} // verus!
