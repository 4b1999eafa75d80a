//! The decisions of the WebSocket sessions that write to and read from a
//! topic, as state machines: the connection's driver reports what happened
//! (an event), and the step function says what the session does next (an
//! action) and in which state it then is.

use vstd::prelude::*;

verus! {

/// Why the server closes a session.
#[derive(Clone, Copy, Debug, PartialEq, Eq, Structural)]
pub enum CloseReason {
    /// The server shuts down, or the client went away.
    ServerShutdown,
    /// The next page of the topic could not be opened.
    NextPageFailed,
    /// A message could not be written to the topic.
    ProduceFailed,
}

impl CloseReason {
    /// The WebSocket close code: 1001 (going away) on shutdown, 1011
    /// (internal error) otherwise.
    pub open spec fn spec_code(self) -> u16 {
        match self {
            CloseReason::ServerShutdown => 1001,
            CloseReason::NextPageFailed => 1011,
            CloseReason::ProduceFailed => 1011,
        }
    }

    pub open spec fn text(self) -> Seq<char> {
        match self {
            CloseReason::ServerShutdown => "server shutdown"@,
            CloseReason::NextPageFailed => "failed to get next page"@,
            CloseReason::ProduceFailed => "failed to produce message"@,
        }
    }

    pub fn code(&self) -> (code: u16)
        ensures
            code == self.spec_code(),
    {
        match self {
            CloseReason::ServerShutdown => 1001,
            CloseReason::NextPageFailed => 1011,
            CloseReason::ProduceFailed => 1011,
        }
    }

    /// The reason text sent in the close frame.
    pub fn reason(&self) -> (text: &'static str)
        ensures
            text@ == self.text(),
    {
        match self {
            CloseReason::ServerShutdown => "server shutdown",
            CloseReason::NextPageFailed => "failed to get next page",
            CloseReason::ProduceFailed => "failed to produce message",
        }
    }
}

/// What the driver of a session does next.
#[derive(Clone, Copy, Debug, PartialEq, Eq, Structural)]
pub enum SessionAction {
    /// Wait for the next event.
    Wait,
    /// Move the consumer to the topic's next page.
    FetchNextPage,
    /// Send the record just read to the client.
    Forward,
    /// Write the message just received to the topic.
    Store,
    /// Send a close frame for this reason.
    Close(CloseReason),
    /// End the session.
    Stop,
}

// ---------------------------------------------------------------------
// Consumer sessions: records of a topic are sent to a WebSocket client.
// ---------------------------------------------------------------------

#[derive(Clone, Copy, Debug, PartialEq, Eq, Structural)]
pub enum ConsumeState {
    /// Waiting for shutdown, a client message or a record, whichever comes
    /// first (shutdown taking precedence).
    Waiting,
    /// The current page is read to its end; the next one is being opened.
    FetchingPage,
    /// A record is being sent to the client.
    Forwarding,
    /// A close frame is being sent.
    Closing,
    Finished,
}

#[derive(Clone, Copy, Debug, PartialEq, Eq, Structural)]
pub enum ConsumeEvent {
    Shutdown,
    /// The client sent a message.
    ClientMessage,
    /// Reading from the client failed.
    ClientError,
    /// The client closed the connection.
    ClientClosed,
    /// A record was read from the topic.
    Record,
    /// The current page has no more records.
    PageEnd,
    PageReady,
    PageFailed,
    Delivered,
    DeliveryFailed,
    CloseSent,
}

/// The events that a consumer session can meet in each state.
pub open spec fn consume_accepts(state: ConsumeState, event: ConsumeEvent) -> bool {
    match state {
        ConsumeState::Waiting => match event {
            ConsumeEvent::Shutdown | ConsumeEvent::ClientMessage | ConsumeEvent::ClientError
            | ConsumeEvent::ClientClosed | ConsumeEvent::Record | ConsumeEvent::PageEnd => true,
            _ => false,
        },
        ConsumeState::FetchingPage => event == ConsumeEvent::PageReady || event
            == ConsumeEvent::PageFailed,
        ConsumeState::Forwarding => event == ConsumeEvent::Delivered || event
            == ConsumeEvent::DeliveryFailed,
        ConsumeState::Closing => event == ConsumeEvent::CloseSent,
        ConsumeState::Finished => false,
    }
}

/// The transitions of a consumer session.
pub open spec fn consume_transition(state: ConsumeState, event: ConsumeEvent) -> (
    ConsumeState,
    SessionAction,
) {
    match state {
        ConsumeState::Waiting => match event {
            ConsumeEvent::ClientMessage => (ConsumeState::Waiting, SessionAction::Wait),
            ConsumeEvent::Record => (ConsumeState::Forwarding, SessionAction::Forward),
            ConsumeEvent::PageEnd => (ConsumeState::FetchingPage, SessionAction::FetchNextPage),
            _ => (ConsumeState::Closing, SessionAction::Close(CloseReason::ServerShutdown)),
        },
        ConsumeState::FetchingPage => if event == ConsumeEvent::PageReady {
            (ConsumeState::Waiting, SessionAction::Wait)
        } else {
            (ConsumeState::Closing, SessionAction::Close(CloseReason::NextPageFailed))
        },
        ConsumeState::Forwarding => if event == ConsumeEvent::Delivered {
            (ConsumeState::Waiting, SessionAction::Wait)
        } else {
            (ConsumeState::Finished, SessionAction::Stop)
        },
        _ => (ConsumeState::Finished, SessionAction::Stop),
    }
}

/// Whether a consumer session can meet this event in this state.
pub fn consume_expects(state: ConsumeState, event: ConsumeEvent) -> (accepted: bool)
    ensures
        accepted == consume_accepts(state, event),
{
    match state {
        ConsumeState::Waiting => match event {
            ConsumeEvent::Shutdown | ConsumeEvent::ClientMessage | ConsumeEvent::ClientError
            | ConsumeEvent::ClientClosed | ConsumeEvent::Record | ConsumeEvent::PageEnd => true,
            _ => false,
        },
        ConsumeState::FetchingPage => match event {
            ConsumeEvent::PageReady | ConsumeEvent::PageFailed => true,
            _ => false,
        },
        ConsumeState::Forwarding => match event {
            ConsumeEvent::Delivered | ConsumeEvent::DeliveryFailed => true,
            _ => false,
        },
        ConsumeState::Closing => match event {
            ConsumeEvent::CloseSent => true,
            _ => false,
        },
        ConsumeState::Finished => false,
    }
}

/// One step of a consumer session. A client message is ignored; shutdown,
/// a client error or the client closing end the session with a close frame
/// "server shutdown" (1001); the end of a page moves on to the next page,
/// and a failure there closes with "failed to get next page" (1011); a
/// record is forwarded, and a failed send ends the session without a close
/// frame.
pub fn consume_step(state: ConsumeState, event: ConsumeEvent) -> (next: (ConsumeState, SessionAction))
    requires
        consume_accepts(state, event),
    ensures
        next == consume_transition(state, event),
{
    match state {
        ConsumeState::Waiting => match event {
            ConsumeEvent::ClientMessage => (ConsumeState::Waiting, SessionAction::Wait),
            ConsumeEvent::Record => (ConsumeState::Forwarding, SessionAction::Forward),
            ConsumeEvent::PageEnd => (ConsumeState::FetchingPage, SessionAction::FetchNextPage),
            _ => (ConsumeState::Closing, SessionAction::Close(CloseReason::ServerShutdown)),
        },
        ConsumeState::FetchingPage => match event {
            ConsumeEvent::PageReady => (ConsumeState::Waiting, SessionAction::Wait),
            _ => (ConsumeState::Closing, SessionAction::Close(CloseReason::NextPageFailed)),
        },
        ConsumeState::Forwarding => match event {
            ConsumeEvent::Delivered => (ConsumeState::Waiting, SessionAction::Wait),
            _ => (ConsumeState::Finished, SessionAction::Stop),
        },
        _ => (ConsumeState::Finished, SessionAction::Stop),
    }
}

// ---------------------------------------------------------------------
// Producer sessions: messages of a WebSocket client are written to a topic.
// ---------------------------------------------------------------------

#[derive(Clone, Copy, Debug, PartialEq, Eq, Structural)]
pub enum ProduceState {
    /// Waiting for shutdown or a client message (shutdown taking
    /// precedence).
    Waiting,
    /// A message is being written to the topic.
    Storing,
    Closing,
    Finished,
}

#[derive(Clone, Copy, Debug, PartialEq, Eq, Structural)]
pub enum ProduceEvent {
    Shutdown,
    ClientMessage,
    ClientError,
    ClientClosed,
    Stored,
    StoreFailed,
    CloseSent,
}

pub open spec fn produce_accepts(state: ProduceState, event: ProduceEvent) -> bool {
    match state {
        ProduceState::Waiting => match event {
            ProduceEvent::Shutdown | ProduceEvent::ClientMessage | ProduceEvent::ClientError
            | ProduceEvent::ClientClosed => true,
            _ => false,
        },
        ProduceState::Storing => event == ProduceEvent::Stored || event
            == ProduceEvent::StoreFailed,
        ProduceState::Closing => event == ProduceEvent::CloseSent,
        ProduceState::Finished => false,
    }
}

pub open spec fn produce_transition(state: ProduceState, event: ProduceEvent) -> (
    ProduceState,
    SessionAction,
) {
    match state {
        ProduceState::Waiting => if event == ProduceEvent::ClientMessage {
            (ProduceState::Storing, SessionAction::Store)
        } else {
            (ProduceState::Closing, SessionAction::Close(CloseReason::ServerShutdown))
        },
        ProduceState::Storing => if event == ProduceEvent::Stored {
            (ProduceState::Waiting, SessionAction::Wait)
        } else {
            (ProduceState::Closing, SessionAction::Close(CloseReason::ProduceFailed))
        },
        _ => (ProduceState::Finished, SessionAction::Stop),
    }
}

/// Whether a producer session can meet this event in this state.
pub fn produce_expects(state: ProduceState, event: ProduceEvent) -> (accepted: bool)
    ensures
        accepted == produce_accepts(state, event),
{
    match state {
        ProduceState::Waiting => match event {
            ProduceEvent::Shutdown | ProduceEvent::ClientMessage | ProduceEvent::ClientError
            | ProduceEvent::ClientClosed => true,
            _ => false,
        },
        ProduceState::Storing => match event {
            ProduceEvent::Stored | ProduceEvent::StoreFailed => true,
            _ => false,
        },
        ProduceState::Closing => match event {
            ProduceEvent::CloseSent => true,
            _ => false,
        },
        ProduceState::Finished => false,
    }
}

/// One step of a producer session. Each client message is written to the
/// topic; a failed write closes with "failed to produce message" (1011);
/// shutdown, a client error or the client closing close with "server
/// shutdown" (1001).
pub fn produce_step(state: ProduceState, event: ProduceEvent) -> (next: (ProduceState, SessionAction))
    requires
        produce_accepts(state, event),
    ensures
        next == produce_transition(state, event),
{
    match state {
        ProduceState::Waiting => match event {
            ProduceEvent::ClientMessage => (ProduceState::Storing, SessionAction::Store),
            _ => (ProduceState::Closing, SessionAction::Close(CloseReason::ServerShutdown)),
        },
        ProduceState::Storing => match event {
            ProduceEvent::Stored => (ProduceState::Waiting, SessionAction::Wait),
            _ => (ProduceState::Closing, SessionAction::Close(CloseReason::ProduceFailed)),
        },
        _ => (ProduceState::Finished, SessionAction::Stop),
    }
}

// ---------------------------------------------------------------------
// Line reader sessions: a client on a plain TCP connection sends lines
// while the topic's records are drained.
// ---------------------------------------------------------------------

#[derive(Clone, Copy, Debug, PartialEq, Eq, Structural)]
pub enum LineState {
    Reading,
    Finished,
}

#[derive(Clone, Copy, Debug, PartialEq, Eq, Structural)]
pub enum LineEvent {
    Shutdown,
    /// A line was read from the client.
    Line,
    /// Reading a line failed.
    LineError,
    /// The client closed the connection.
    LinesEnded,
    /// A record was read from the topic, or its page had none left.
    RecordPolled,
}

pub open spec fn line_transition(event: LineEvent) -> (LineState, SessionAction) {
    match event {
        LineEvent::Line => (LineState::Reading, SessionAction::Wait),
        LineEvent::RecordPolled => (LineState::Reading, SessionAction::Wait),
        _ => (LineState::Finished, SessionAction::Stop),
    }
}

/// One step of a line reader session, which can only meet events while it
/// reads: lines and records are passed over; shutdown, a read error or the
/// end of the client's lines end it, with no close frame.
pub fn line_step(state: LineState, event: LineEvent) -> (next: (LineState, SessionAction))
    requires
        state == LineState::Reading,
    ensures
        next == line_transition(event),
{
    match event {
        LineEvent::Line => (LineState::Reading, SessionAction::Wait),
        LineEvent::RecordPolled => (LineState::Reading, SessionAction::Wait),
        _ => (LineState::Finished, SessionAction::Stop),
    }
}


// ---------------------------------------------------------------------
// What holds of every session.
// ---------------------------------------------------------------------

/// The number of close frames among a session's actions.
pub open spec fn close_count(actions: Seq<SessionAction>) -> nat
    decreases actions.len(),
{
    if actions.len() == 0 {
        0
    } else {
        (if actions[0] is Close { 1nat } else { 0nat }) + close_count(actions.drop_first())
    }
}

/// The end state and the actions of a consumer session that starts in
/// `state` and meets `events` in turn, or `None` where it meets an event
/// that it cannot meet.
pub open spec fn consume_run(state: ConsumeState, events: Seq<ConsumeEvent>) -> Option<
    (ConsumeState, Seq<SessionAction>),
>
    decreases events.len(),
{
    if events.len() == 0 {
        Some((state, Seq::empty()))
    } else if !consume_accepts(state, events[0]) {
        None
    } else {
        let (next, action) = consume_transition(state, events[0]);
        match consume_run(next, events.drop_first()) {
            Some((last, actions)) => Some((last, seq![action] + actions)),
            None => None,
        }
    }
}

/// The same for producer sessions.
pub open spec fn produce_run(state: ProduceState, events: Seq<ProduceEvent>) -> Option<
    (ProduceState, Seq<SessionAction>),
>
    decreases events.len(),
{
    if events.len() == 0 {
        Some((state, Seq::empty()))
    } else if !produce_accepts(state, events[0]) {
        None
    } else {
        let (next, action) = produce_transition(state, events[0]);
        match produce_run(next, events.drop_first()) {
            Some((last, actions)) => Some((last, seq![action] + actions)),
            None => None,
        }
    }
}

proof fn lemma_close_count_prepend(action: SessionAction, actions: Seq<SessionAction>)
    ensures
        close_count(seq![action] + actions) == (if action is Close { 1nat } else { 0nat })
            + close_count(actions),
{
    assert((seq![action] + actions).drop_first() =~= actions);
}

/// A consumer session sends at most one close frame, and none once it is
/// closing or finished.
pub proof fn consume_closes_at_most_once(state: ConsumeState, events: Seq<ConsumeEvent>)
    requires
        consume_run(state, events) is Some,
    ensures
        close_count(consume_run(state, events).unwrap().1) <= (if state == ConsumeState::Closing
            || state == ConsumeState::Finished { 0nat } else { 1nat }),
    decreases events.len(),
{
    if events.len() > 0 {
        let (next, action) = consume_transition(state, events[0]);
        consume_closes_at_most_once(next, events.drop_first());
        lemma_close_count_prepend(action, consume_run(next, events.drop_first()).unwrap().1);
    }
}

/// A producer session sends at most one close frame, and none once it is
/// closing or finished.
pub proof fn produce_closes_at_most_once(state: ProduceState, events: Seq<ProduceEvent>)
    requires
        produce_run(state, events) is Some,
    ensures
        close_count(produce_run(state, events).unwrap().1) <= (if state == ProduceState::Closing
            || state == ProduceState::Finished { 0nat } else { 1nat }),
    decreases events.len(),
{
    if events.len() > 0 {
        let (next, action) = produce_transition(state, events[0]);
        produce_closes_at_most_once(next, events.drop_first());
        lemma_close_count_prepend(action, produce_run(next, events.drop_first()).unwrap().1);
    }
}

/// After a step that sends a close frame, a consumer session is closing:
/// the only event it can then meet is the frame being sent, and that ends
/// the session.
pub proof fn consume_close_then_stop(state: ConsumeState, event: ConsumeEvent)
    requires
        consume_accepts(state, event),
        consume_transition(state, event).1 is Close,
    ensures
        consume_transition(state, event).0 == ConsumeState::Closing,
        forall|e: ConsumeEvent|
            consume_accepts(ConsumeState::Closing, e) <==> e == ConsumeEvent::CloseSent,
        consume_transition(ConsumeState::Closing, ConsumeEvent::CloseSent) == (
            ConsumeState::Finished,
            SessionAction::Stop,
        ),
{
}

/// The same for producer sessions.
pub proof fn produce_close_then_stop(state: ProduceState, event: ProduceEvent)
    requires
        produce_accepts(state, event),
        produce_transition(state, event).1 is Close,
    ensures
        produce_transition(state, event).0 == ProduceState::Closing,
        forall|e: ProduceEvent|
            produce_accepts(ProduceState::Closing, e) <==> e == ProduceEvent::CloseSent,
        produce_transition(ProduceState::Closing, ProduceEvent::CloseSent) == (
            ProduceState::Finished,
            SessionAction::Stop,
        ),
{
}

/// A finished session meets no further event.
pub proof fn finished_sessions_are_final(consume: ConsumeEvent, produce: ProduceEvent)
    ensures
        !consume_accepts(ConsumeState::Finished, consume),
        !produce_accepts(ProduceState::Finished, produce),
{
}

/// Shutdown, a client error and the client closing are met only while a
/// session waits, and each closes it with "server shutdown".
pub proof fn client_loss_and_shutdown_close(
    cstate: ConsumeState,
    cevent: ConsumeEvent,
    pstate: ProduceState,
    pevent: ProduceEvent,
)
    ensures
        (cevent == ConsumeEvent::Shutdown || cevent == ConsumeEvent::ClientError || cevent
            == ConsumeEvent::ClientClosed) && consume_accepts(cstate, cevent) ==> cstate
            == ConsumeState::Waiting && consume_transition(cstate, cevent) == (
            ConsumeState::Closing,
            SessionAction::Close(CloseReason::ServerShutdown),
        ),
        (pevent == ProduceEvent::Shutdown || pevent == ProduceEvent::ClientError || pevent
            == ProduceEvent::ClientClosed) && produce_accepts(pstate, pevent) ==> pstate
            == ProduceState::Waiting && produce_transition(pstate, pevent) == (
            ProduceState::Closing,
            SessionAction::Close(CloseReason::ServerShutdown),
        ),
{
}

/// A consumer session sends a record only right after reading one, and it
/// stops without a close frame only when sending a record failed.
pub proof fn consume_forwards_only_records(state: ConsumeState, event: ConsumeEvent)
    requires
        consume_accepts(state, event),
    ensures
        consume_transition(state, event).1 == SessionAction::Forward <==> (state
            == ConsumeState::Waiting && event == ConsumeEvent::Record),
        consume_transition(state, event).1 == SessionAction::Stop <==> (state
            == ConsumeState::Closing || (state == ConsumeState::Forwarding && event
            == ConsumeEvent::DeliveryFailed)),
{
}

/// A producer session writes every message it receives to the topic, and
/// writes nothing else.
pub proof fn produce_stores_each_message(state: ProduceState, event: ProduceEvent)
    requires
        produce_accepts(state, event),
    ensures
        produce_transition(state, event).1 == SessionAction::Store <==> event
            == ProduceEvent::ClientMessage,
{
}


/// Nothing is sent after a close frame: the only action that may follow
/// one is the session's end, and nothing follows that.
pub open spec fn nothing_after_close(actions: Seq<SessionAction>) -> bool {
    forall|k: int|
        0 <= k < actions.len() && (#[trigger] actions[k]) is Close ==> actions.len() <= k + 2 && (
        k + 1 < actions.len() ==> actions[k + 1] == SessionAction::Stop)
}

proof fn lemma_nothing_after_close_prepend(action: SessionAction, rest: Seq<SessionAction>)
    requires
        nothing_after_close(rest),
        action is Close ==> rest.len() <= 1 && (rest.len() == 1 ==> rest[0]
            == SessionAction::Stop),
    ensures
        nothing_after_close(seq![action] + rest),
{
    let all = seq![action] + rest;
    assert forall|k: int| 0 <= k < all.len() && (#[trigger] all[k]) is Close implies all.len()
        <= k + 2 && (k + 1 < all.len() ==> all[k + 1] == SessionAction::Stop) by {
        if k > 0 {
            assert(all[k] == rest[k - 1]);
            if k + 1 < all.len() {
                assert(all[k + 1] == rest[k]);
            }
        }
    }
}

proof fn lemma_consume_run_from_closing(state: ConsumeState, events: Seq<ConsumeEvent>)
    requires
        state == ConsumeState::Closing || state == ConsumeState::Finished,
        consume_run(state, events) is Some,
    ensures
        consume_run(state, events).unwrap().1.len() <= 1,
        consume_run(state, events).unwrap().1.len() == 1 ==> consume_run(state, events).unwrap().1[0]
            == SessionAction::Stop,
        state == ConsumeState::Finished ==> consume_run(state, events).unwrap().1.len() == 0,
{
    if events.len() > 0 {
        assert(consume_accepts(state, events[0]));
        assert(state == ConsumeState::Closing);
        let rest = events.drop_first();
        assert(consume_transition(state, events[0]) == (ConsumeState::Finished, SessionAction::Stop));
        if rest.len() > 0 {
            assert(!consume_accepts(ConsumeState::Finished, rest[0]));
            assert(consume_run(ConsumeState::Finished, rest) is None);
        }
        assert(consume_run(ConsumeState::Finished, rest) == Some((ConsumeState::Finished, Seq::<SessionAction>::empty())));
        assert(consume_run(state, events).unwrap().1 =~= seq![SessionAction::Stop]);
    }
}

proof fn lemma_produce_run_from_closing(state: ProduceState, events: Seq<ProduceEvent>)
    requires
        state == ProduceState::Closing || state == ProduceState::Finished,
        produce_run(state, events) is Some,
    ensures
        produce_run(state, events).unwrap().1.len() <= 1,
        produce_run(state, events).unwrap().1.len() == 1 ==> produce_run(state, events).unwrap().1[0]
            == SessionAction::Stop,
        state == ProduceState::Finished ==> produce_run(state, events).unwrap().1.len() == 0,
{
    if events.len() > 0 {
        assert(produce_accepts(state, events[0]));
        assert(state == ProduceState::Closing);
        let rest = events.drop_first();
        assert(produce_transition(state, events[0]) == (ProduceState::Finished, SessionAction::Stop));
        if rest.len() > 0 {
            assert(!produce_accepts(ProduceState::Finished, rest[0]));
            assert(produce_run(ProduceState::Finished, rest) is None);
        }
        assert(produce_run(ProduceState::Finished, rest) == Some((ProduceState::Finished, Seq::<SessionAction>::empty())));
        assert(produce_run(state, events).unwrap().1 =~= seq![SessionAction::Stop]);
    }
}

/// Over a whole consumer session, nothing is sent after a close frame.
pub proof fn consume_nothing_sent_after_close(state: ConsumeState, events: Seq<ConsumeEvent>)
    requires
        consume_run(state, events) is Some,
    ensures
        nothing_after_close(consume_run(state, events).unwrap().1),
    decreases events.len(),
{
    if events.len() > 0 {
        let (next, action) = consume_transition(state, events[0]);
        let rest = events.drop_first();
        consume_nothing_sent_after_close(next, rest);
        assert(consume_run(state, events).unwrap().1 == seq![action] + consume_run(next, rest).unwrap().1);
        if action is Close {
            lemma_consume_run_from_closing(next, rest);
        }
        lemma_nothing_after_close_prepend(action, consume_run(next, rest).unwrap().1);
    } else {
        assert(consume_run(state, events).unwrap().1.len() == 0);
    }
}

/// Over a whole producer session, nothing is sent after a close frame.
pub proof fn produce_nothing_sent_after_close(state: ProduceState, events: Seq<ProduceEvent>)
    requires
        produce_run(state, events) is Some,
    ensures
        nothing_after_close(produce_run(state, events).unwrap().1),
    decreases events.len(),
{
    if events.len() > 0 {
        let (next, action) = produce_transition(state, events[0]);
        let rest = events.drop_first();
        produce_nothing_sent_after_close(next, rest);
        assert(produce_run(state, events).unwrap().1 == seq![action] + produce_run(next, rest).unwrap().1);
        if action is Close {
            lemma_produce_run_from_closing(next, rest);
        }
        lemma_nothing_after_close_prepend(action, produce_run(next, rest).unwrap().1);
    } else {
        assert(produce_run(state, events).unwrap().1.len() == 0);
    }
}


/// Shutdown is answered with code 1001, every failure with 1011, and each
/// reason has its own text.
pub proof fn close_codes(reason: CloseReason, other: CloseReason)
    ensures
        reason.spec_code() == 1001 <==> reason == CloseReason::ServerShutdown,
        reason != CloseReason::ServerShutdown ==> reason.spec_code() == 1011,
        reason != other ==> reason.text() != other.text(),
{
    reveal_strlit("server shutdown");
    reveal_strlit("failed to get next page");
    reveal_strlit("failed to produce message");
    assert("server shutdown"@.len() == 15);
    assert("failed to get next page"@.len() == 23);
    assert("failed to produce message"@.len() == 25);
}

/// How a consumer session moves on: a client message is ignored, the end
/// of a page fetches the next one, and a page opened or a record delivered
/// makes it wait again.
pub proof fn consume_progress(state: ConsumeState, event: ConsumeEvent)
    requires
        consume_accepts(state, event),
    ensures
        event == ConsumeEvent::ClientMessage ==> consume_transition(state, event) == (
            state,
            SessionAction::Wait,
        ),
        event == ConsumeEvent::PageEnd ==> consume_transition(state, event) == (
            ConsumeState::FetchingPage,
            SessionAction::FetchNextPage,
        ),
        event == ConsumeEvent::Record ==> consume_transition(state, event) == (
            ConsumeState::Forwarding,
            SessionAction::Forward,
        ),
        (event == ConsumeEvent::PageReady || event == ConsumeEvent::Delivered)
            ==> consume_transition(state, event) == (ConsumeState::Waiting, SessionAction::Wait),
        event == ConsumeEvent::PageFailed ==> consume_transition(state, event) == (
            ConsumeState::Closing,
            SessionAction::Close(CloseReason::NextPageFailed),
        ),
{
}

/// How a producer session moves on: a message is stored, a stored message
/// makes it wait again, and a failed store closes it with "failed to
/// produce message".
pub proof fn produce_progress(state: ProduceState, event: ProduceEvent)
    requires
        produce_accepts(state, event),
    ensures
        event == ProduceEvent::ClientMessage ==> produce_transition(state, event) == (
            ProduceState::Storing,
            SessionAction::Store,
        ),
        event == ProduceEvent::Stored ==> produce_transition(state, event) == (
            ProduceState::Waiting,
            SessionAction::Wait,
        ),
        event == ProduceEvent::StoreFailed ==> produce_transition(state, event) == (
            ProduceState::Closing,
            SessionAction::Close(CloseReason::ProduceFailed),
        ),
{
}

} // verus!
