use vstd::prelude::*;

verus! {

/// The state of one connection handler. `Closed` is terminal: the connection
/// resource is released on entry and nothing is read or written afterwards.
#[derive(Clone, Copy, PartialEq, Eq, Structural, Debug)]
pub enum HandlerState {
    Reading,
    Responding,
    Closed,
}

/// What the connection reported back to the handler: the outcome of a read
/// (orderly close, some bytes, or an I/O error) or of a response write.
#[derive(Clone, Copy, PartialEq, Eq, Structural, Debug)]
pub enum HandlerEvent {
    /// A read returned zero bytes: the peer performed an orderly close.
    ReadEof,
    /// A read returned this many bytes (at least one); the content is ignored.
    ReadData(usize),
    /// A read failed with an I/O error.
    ReadFailed,
    /// The response write completed in full.
    WriteOk,
    /// The response write failed.
    WriteFailed,
}

/// What the handler asks its driver to do next.
#[derive(Clone, Copy, PartialEq, Eq, Structural, Debug)]
pub enum HandlerAction {
    /// Wait for the next read outcome.
    AwaitRead,
    /// Write the full fixed response, then report how the write went.
    SendResponse,
    /// Release the connection; the handler is done.
    Release,
}

/// Which events a handler in a given state can receive: read outcomes while
/// reading (with at least one byte on a data read), write outcomes while
/// responding, nothing once closed.
pub open spec fn event_valid(s: HandlerState, e: HandlerEvent) -> bool {
    match (s, e) {
        (HandlerState::Reading, HandlerEvent::ReadEof) => true,
        (HandlerState::Reading, HandlerEvent::ReadData(n)) => n >= 1,
        (HandlerState::Reading, HandlerEvent::ReadFailed) => true,
        (HandlerState::Responding, HandlerEvent::WriteOk) => true,
        (HandlerState::Responding, HandlerEvent::WriteFailed) => true,
        _ => false,
    }
}

/// The transition function of the handler state machine: the next state and
/// the action the driver must take. An event that is not valid in the given
/// state changes nothing and releases nothing new.
pub open spec fn spec_step(s: HandlerState, e: HandlerEvent) -> (HandlerState, HandlerAction) {
    match (s, e) {
        (HandlerState::Reading, HandlerEvent::ReadEof) => (
            HandlerState::Closed,
            HandlerAction::Release,
        ),
        (HandlerState::Reading, HandlerEvent::ReadData(_)) => (
            HandlerState::Responding,
            HandlerAction::SendResponse,
        ),
        (HandlerState::Reading, HandlerEvent::ReadFailed) => (
            HandlerState::Closed,
            HandlerAction::Release,
        ),
        (HandlerState::Responding, HandlerEvent::WriteOk) => (
            HandlerState::Reading,
            HandlerAction::AwaitRead,
        ),
        (HandlerState::Responding, HandlerEvent::WriteFailed) => (
            HandlerState::Closed,
            HandlerAction::Release,
        ),
        _ => (s, HandlerAction::AwaitRead),
    }
}

/// One connection handler: the state machine plus the immutable fixed response
/// it serves. Each accepted connection gets its own instance, which owns the
/// connection exclusively until it closes.
pub struct ConnectionHandler {
    pub state: HandlerState,
    pub response: String,
}

impl ConnectionHandler {
    /// A handler for a freshly accepted connection: it starts by reading, and
    /// will answer every non-empty read with exactly the given response.
    pub fn new(response: String) -> (r: ConnectionHandler)
        ensures
            r.state == HandlerState::Reading,
            r.response == response,
    {
        ConnectionHandler { state: HandlerState::Reading, response }
    }

    /// Feeds one event to the handler and returns the action to take. The
    /// transition is exactly `spec_step`; the stored response never changes.
    /// In particular a read of zero bytes, a read error, or a write failure
    /// closes the handler with no (further) write attempted, and a non-empty
    /// read demands one write of the full fixed response before any new read.
    pub fn step(&mut self, event: HandlerEvent) -> (r: HandlerAction)
        requires
            event_valid(old(self).state, event),
        ensures
            final(self).response == old(self).response,
            final(self).state == spec_step(old(self).state, event).0,
            r == spec_step(old(self).state, event).1,
    {
        match (self.state, event) {
            (HandlerState::Reading, HandlerEvent::ReadEof) => {
                self.state = HandlerState::Closed;
                HandlerAction::Release
            },
            (HandlerState::Reading, HandlerEvent::ReadData(_)) => {
                self.state = HandlerState::Responding;
                HandlerAction::SendResponse
            },
            (HandlerState::Reading, HandlerEvent::ReadFailed) => {
                self.state = HandlerState::Closed;
                HandlerAction::Release
            },
            (HandlerState::Responding, HandlerEvent::WriteOk) => {
                self.state = HandlerState::Reading;
                HandlerAction::AwaitRead
            },
            (HandlerState::Responding, HandlerEvent::WriteFailed) => {
                self.state = HandlerState::Closed;
                HandlerAction::Release
            },
            _ => HandlerAction::AwaitRead,
        }
    }

    /// The fixed response this handler serves, unchanged since construction.
    pub fn response(&self) -> (r: &String)
        ensures
            r@ == self.response@,
    {
        &self.response
    }

    /// Whether the handler has reached its terminal state.
    pub fn is_closed(&self) -> (r: bool)
        ensures
            r == (self.state == HandlerState::Closed),
    {
        matches!(self.state, HandlerState::Closed)
    }
}

/// Law: a read that returns zero bytes moves the handler to `Closed` and the
/// connection is released with no write attempted; a failed read does the same.
pub proof fn lemma_empty_read_closes()
    ensures
        spec_step(HandlerState::Reading, HandlerEvent::ReadEof) == (
            HandlerState::Closed,
            HandlerAction::Release,
        ),
        spec_step(HandlerState::Reading, HandlerEvent::ReadFailed) == (
            HandlerState::Closed,
            HandlerAction::Release,
        ),
{
}

/// Law: any non-empty read is answered by exactly one write of the fixed
/// response before the next read. The step on a data read demands the write;
/// while the handler is responding, no valid event demands another write, and
/// the only event that lets it read again is a successful write.
pub proof fn lemma_one_response_per_read(n: usize)
    requires
        n >= 1,
    ensures
        spec_step(HandlerState::Reading, HandlerEvent::ReadData(n)) == (
            HandlerState::Responding,
            HandlerAction::SendResponse,
        ),
        forall|e: HandlerEvent|
            event_valid(HandlerState::Responding, e) ==> #[trigger] spec_step(
                HandlerState::Responding,
                e,
            ).1 != HandlerAction::SendResponse,
        forall|e: HandlerEvent|
            event_valid(HandlerState::Responding, e) ==> ((#[trigger] spec_step(
                HandlerState::Responding,
                e,
            ).0 == HandlerState::Reading) <==> e == HandlerEvent::WriteOk),
{
}

/// The state a handler reaches after receiving a sequence of events, starting
/// from `s` and stepping through `spec_step` one event at a time.
pub open spec fn run_from(s: HandlerState, events: Seq<HandlerEvent>) -> HandlerState
    decreases events.len(),
{
    if events.len() == 0 {
        s
    } else {
        run_from(spec_step(s, events[0]).0, events.drop_first())
    }
}

/// The events of an interleaved trace that belong to one of two connections:
/// `true` picks the first connection's events, `false` the second's, in order.
pub open spec fn events_for(trace: Seq<(bool, HandlerEvent)>, first: bool) -> Seq<HandlerEvent>
    decreases trace.len(),
{
    if trace.len() == 0 {
        Seq::empty()
    } else {
        let rest = events_for(trace.drop_first(), first);
        if trace[0].0 == first {
            seq![trace[0].1] + rest
        } else {
            rest
        }
    }
}

/// The pair of states two handlers reach when an interleaved trace is played:
/// each step of the trace addresses one of the two and steps it alone.
pub open spec fn run_pair(
    sa: HandlerState,
    sb: HandlerState,
    trace: Seq<(bool, HandlerEvent)>,
) -> (HandlerState, HandlerState)
    decreases trace.len(),
{
    if trace.len() == 0 {
        (sa, sb)
    } else if trace[0].0 {
        run_pair(spec_step(sa, trace[0].1).0, sb, trace.drop_first())
    } else {
        run_pair(sa, spec_step(sb, trace[0].1).0, trace.drop_first())
    }
}

/// The actions a handler demands while receiving a sequence of events, one per
/// event, in order.
pub open spec fn run_actions(s: HandlerState, events: Seq<HandlerEvent>) -> Seq<HandlerAction>
    decreases events.len(),
{
    if events.len() == 0 {
        Seq::empty()
    } else {
        seq![spec_step(s, events[0]).1] + run_actions(spec_step(s, events[0]).0, events.drop_first())
    }
}

/// The actions each of two handlers demands when an interleaved trace is
/// played: each step of the trace addresses one of the two, steps it alone,
/// and appends the demanded action to that handler's side.
pub open spec fn run_pair_actions(
    sa: HandlerState,
    sb: HandlerState,
    trace: Seq<(bool, HandlerEvent)>,
) -> (Seq<HandlerAction>, Seq<HandlerAction>)
    decreases trace.len(),
{
    if trace.len() == 0 {
        (Seq::empty(), Seq::empty())
    } else if trace[0].0 {
        let rest = run_pair_actions(spec_step(sa, trace[0].1).0, sb, trace.drop_first());
        (seq![spec_step(sa, trace[0].1).1] + rest.0, rest.1)
    } else {
        let rest = run_pair_actions(sa, spec_step(sb, trace[0].1).0, trace.drop_first());
        (rest.0, seq![spec_step(sb, trace[0].1).1] + rest.1)
    }
}

/// Law: two concurrently handled connections never observe interference. Under
/// any interleaving of their events, each handler ends in exactly the state its
/// own events alone produce: the other connection's events — including any
/// failure that closes it — have no effect on it.
pub proof fn lemma_handler_isolation(
    sa: HandlerState,
    sb: HandlerState,
    trace: Seq<(bool, HandlerEvent)>,
)
    ensures
        run_pair(sa, sb, trace).0 == run_from(sa, events_for(trace, true)),
        run_pair(sa, sb, trace).1 == run_from(sb, events_for(trace, false)),
    decreases trace.len(),
{
    if trace.len() == 0 {
        assert(events_for(trace, true) =~= Seq::<HandlerEvent>::empty());
        assert(events_for(trace, false) =~= Seq::<HandlerEvent>::empty());
    } else {
        let rest = trace.drop_first();
        let e = trace[0].1;
        if trace[0].0 {
            lemma_handler_isolation(spec_step(sa, e).0, sb, rest);
            let own = seq![e] + events_for(rest, true);
            assert(own.drop_first() =~= events_for(rest, true));
            assert(own[0] == e);
        } else {
            lemma_handler_isolation(sa, spec_step(sb, e).0, rest);
            let own = seq![e] + events_for(rest, false);
            assert(own.drop_first() =~= events_for(rest, false));
            assert(own[0] == e);
        }
    }
}

/// Law: under any interleaving, the actions a handler demands — in particular
/// every write of its response — are exactly those its own events alone
/// produce; nothing one connection sends or suffers makes the other write.
pub proof fn lemma_handler_action_isolation(
    sa: HandlerState,
    sb: HandlerState,
    trace: Seq<(bool, HandlerEvent)>,
)
    ensures
        run_pair_actions(sa, sb, trace).0 =~= run_actions(sa, events_for(trace, true)),
        run_pair_actions(sa, sb, trace).1 =~= run_actions(sb, events_for(trace, false)),
    decreases trace.len(),
{
    if trace.len() == 0 {
        assert(events_for(trace, true) =~= Seq::<HandlerEvent>::empty());
        assert(events_for(trace, false) =~= Seq::<HandlerEvent>::empty());
    } else {
        let rest = trace.drop_first();
        let e = trace[0].1;
        if trace[0].0 {
            lemma_handler_action_isolation(spec_step(sa, e).0, sb, rest);
            let own = seq![e] + events_for(rest, true);
            assert(own.drop_first() =~= events_for(rest, true));
            assert(own[0] == e);
        } else {
            lemma_handler_action_isolation(sa, spec_step(sb, e).0, rest);
            let own = seq![e] + events_for(rest, false);
            assert(own.drop_first() =~= events_for(rest, false));
            assert(own[0] == e);
        }
    }
}

} // verus!
