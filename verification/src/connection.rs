//! The persistent transport: one connection, many frames, an
//! acknowledgement for each message that was decoded.
//!
//! A connection is a small state machine. Its driver reads frames, calls the
//! host and sends acknowledgements; after each of these it reports what
//! happened and is told what to do next.

use crate::decode::{decode_tagged, tagged_of, DecodeError};
use crate::request::ForwardError;
use crate::router::{dispatch, route, Forward, ForwardView};
use crate::text::{parse_json, parsed};
use vstd::prelude::*;

verus! {

/// One frame read from the connection.
#[derive(Debug, Clone, PartialEq, Eq)]
pub enum Frame {
    /// A text frame.
    Text(String),
    /// A frame that carries no message: binary data, a ping or a pong.
    Other,
    /// The peer closed the connection, or there are no more frames.
    Close,
    /// Reading failed.
    Error,
}

pub enum FrameView {
    Text(Seq<char>),
    Other,
    Close,
    Error,
}

impl View for Frame {
    type V = FrameView;

    open spec fn view(&self) -> FrameView {
        match self {
            Frame::Text(text) => FrameView::Text(text@),
            Frame::Other => FrameView::Other,
            Frame::Close => FrameView::Close,
            Frame::Error => FrameView::Error,
        }
    }
}

/// What the driver reports to the connection.
#[derive(Debug, PartialEq, Eq)]
pub enum Event {
    /// A frame was read.
    Frame(Frame),
    /// The host was called, with this outcome.
    Forwarded(Result<(), ForwardError>),
    /// The acknowledgement was sent (`true`) or could not be sent (`false`).
    AckSent(bool),
}

pub enum EventView {
    Frame(FrameView),
    Forwarded(Result<(), ForwardError>),
    AckSent(bool),
}

impl View for Event {
    type V = EventView;

    open spec fn view(&self) -> EventView {
        match self {
            Event::Frame(frame) => EventView::Frame(frame@),
            Event::Forwarded(outcome) => EventView::Forwarded(*outcome),
            Event::AckSent(sent) => EventView::AckSent(*sent),
        }
    }
}

/// Why a connection was closed.
#[derive(Debug, Clone, Copy, PartialEq, Eq, Structural)]
pub enum CloseReason {
    /// The peer closed it.
    PeerClosed,
    /// Reading a frame failed.
    ReadFailed,
    /// The acknowledgement could not be sent.
    AckFailed,
    /// The driver reported something that the connection was not waiting for.
    OutOfTurn,
}

/// What the driver is to do next.
#[derive(Debug, Clone, PartialEq, Eq)]
pub enum Action {
    /// Read the next frame. Where the last frame was skipped, `skipped` says
    /// why, for the log.
    Receive { skipped: Option<DecodeError> },
    /// Call the host, and report the outcome.
    Forward(Forward),
    /// Send the acknowledgement, and report whether it was sent. Where the
    /// host did not take the payload, `failure` says so, for the log.
    Acknowledge { failure: Option<ForwardError> },
    /// Stop and release the connection.
    Close(CloseReason),
}

pub enum ActionView {
    Receive { skipped: Option<DecodeError> },
    Forward(ForwardView),
    Acknowledge { failure: Option<ForwardError> },
    Close(CloseReason),
}

impl View for Action {
    type V = ActionView;

    open spec fn view(&self) -> ActionView {
        match self {
            Action::Receive { skipped } => ActionView::Receive { skipped: *skipped },
            Action::Forward(forward) => ActionView::Forward(forward@),
            Action::Acknowledge { failure } => ActionView::Acknowledge { failure: *failure },
            Action::Close(reason) => ActionView::Close(*reason),
        }
    }
}

/// What a connection is waiting for.
#[derive(Debug, Clone, Copy, PartialEq, Eq, Structural)]
pub enum Phase {
    /// The next frame.
    Listening,
    /// The outcome of a call of the host.
    Forwarding,
    /// The outcome of sending an acknowledgement.
    Acknowledging,
    /// Nothing: the connection is closed.
    Closed,
}

/// The call of the host that a text frame leads to, or the reason why it
/// leads to none.
pub open spec fn frame_forward(text: Seq<char>) -> Result<ForwardView, DecodeError> {
    match parsed(text) {
        None => Err(DecodeError::Malformed),
        Some(doc) => match tagged_of(doc) {
            Ok(message) => Ok(route(message)),
            Err(e) => Err(e),
        },
    }
}

/// The step of a listening connection on a frame.
pub open spec fn on_frame(frame: FrameView) -> (Phase, ActionView) {
    match frame {
        FrameView::Text(text) => match frame_forward(text) {
            Ok(forward) => (Phase::Forwarding, ActionView::Forward(forward)),
            Err(e) => (Phase::Listening, ActionView::Receive { skipped: Some(e) }),
        },
        FrameView::Other => (Phase::Listening, ActionView::Receive { skipped: None }),
        FrameView::Close => (Phase::Closed, ActionView::Close(CloseReason::PeerClosed)),
        FrameView::Error => (Phase::Closed, ActionView::Close(CloseReason::ReadFailed)),
    }
}

/// The step of a connection: the phase it enters and what the driver is to
/// do.
///
/// A frame is taken only while listening. A message that was decoded is
/// handed to the host; whatever the host makes of it, the acknowledgement
/// follows, and only then is the next frame read. A frame that cannot be
/// decoded is skipped without an acknowledgement. A close frame, a failed
/// read and a failed acknowledgement close the connection.
pub open spec fn next(phase: Phase, event: EventView) -> (Phase, ActionView) {
    match (phase, event) {
        (Phase::Listening, EventView::Frame(frame)) => on_frame(frame),
        (Phase::Forwarding, EventView::Forwarded(outcome)) => (
            Phase::Acknowledging,
            ActionView::Acknowledge {
                failure: match outcome {
                    Ok(_) => None,
                    Err(e) => Some(e),
                },
            },
        ),
        (Phase::Acknowledging, EventView::AckSent(sent)) => if sent {
            (Phase::Listening, ActionView::Receive { skipped: None })
        } else {
            (Phase::Closed, ActionView::Close(CloseReason::AckFailed))
        },
        _ => (Phase::Closed, ActionView::Close(CloseReason::OutOfTurn)),
    }
}

/// Decodes and routes the text of one frame.
pub fn accept_frame(text: &str) -> (r: Result<Forward, DecodeError>)
    ensures
        (match r {
            Ok(forward) => frame_forward(text@) == Ok::<ForwardView, DecodeError>(forward@),
            Err(e) => frame_forward(text@) == Err::<ForwardView, DecodeError>(e),
        }),
{
    match parse_json(text) {
        None => Err(DecodeError::Malformed),
        Some(doc) => {
            let message = decode_tagged(&doc)?;
            Ok(dispatch(message))
        },
    }
}

/// One connection of the persistent transport.
#[derive(Debug, Clone, PartialEq, Eq)]
pub struct Connection {
    phase: Phase,
}

impl View for Connection {
    type V = Phase;

    closed spec fn view(&self) -> Phase {
        self.phase
    }
}

impl Connection {
    /// A connection that was just accepted: it waits for its first frame.
    pub fn new() -> (connection: Connection)
        ensures
            connection@ == Phase::Listening,
    {
        Connection { phase: Phase::Listening }
    }

    /// What the connection is waiting for.
    pub fn phase(&self) -> (phase: Phase)
        ensures
            phase == self@,
    {
        self.phase
    }

    /// The text of the acknowledgement frame.
    pub open spec fn ack_text() -> Seq<char> {
        "{\"status\":\"ok\"}"@
    }

    /// The text of the acknowledgement frame.
    pub fn acknowledgement() -> (text: &'static str)
        ensures
            text@ == Connection::ack_text(),
    {
        "{\"status\":\"ok\"}"
    }

    /// Takes what the driver reports and says what it is to do next.
    pub fn handle(&mut self, event: Event) -> (action: Action)
        ensures
            (final(self)@, action@) == next(old(self)@, event@),
    {
        match (self.phase, event) {
            (Phase::Listening, Event::Frame(frame)) => match frame {
                Frame::Text(text) => match accept_frame(text.as_str()) {
                    Ok(forward) => {
                        self.phase = Phase::Forwarding;
                        Action::Forward(forward)
                    },
                    Err(e) => Action::Receive { skipped: Some(e) },
                },
                Frame::Other => Action::Receive { skipped: None },
                Frame::Close => {
                    self.phase = Phase::Closed;
                    Action::Close(CloseReason::PeerClosed)
                },
                Frame::Error => {
                    self.phase = Phase::Closed;
                    Action::Close(CloseReason::ReadFailed)
                },
            },
            (Phase::Forwarding, Event::Forwarded(outcome)) => {
                self.phase = Phase::Acknowledging;
                match outcome {
                    Ok(_) => Action::Acknowledge { failure: None },
                    Err(e) => Action::Acknowledge { failure: Some(e) },
                }
            },
            (Phase::Acknowledging, Event::AckSent(sent)) => {
                if sent {
                    self.phase = Phase::Listening;
                    Action::Receive { skipped: None }
                } else {
                    self.phase = Phase::Closed;
                    Action::Close(CloseReason::AckFailed)
                }
            },
            _ => {
                self.phase = Phase::Closed;
                Action::Close(CloseReason::OutOfTurn)
            },
        }
    }
}

/// The phase that a connection is in, and the actions that it has asked
/// for, after it started in `phase` and was told `events` one after the other.
pub open spec fn replay(phase: Phase, events: Seq<EventView>) -> (Phase, Seq<ActionView>)
    decreases events.len(),
{
    if events.len() == 0 {
        (phase, Seq::empty())
    } else {
        let (before, actions) = replay(phase, events.drop_last());
        let (after, action) = next(before, events.last());
        (after, actions.push(action))
    }
}

/// What a driver reports for one frame: the frame, and for a message that
/// was decoded the outcome of the call of the host and the sending of the
/// acknowledgement.
pub open spec fn exchange(frame: FrameView, outcome: Result<(), ForwardError>) -> Seq<EventView> {
    if frame matches FrameView::Text(text) && frame_forward(text) is Ok {
        seq![EventView::Frame(frame), EventView::Forwarded(outcome), EventView::AckSent(true)]
    } else {
        seq![EventView::Frame(frame)]
    }
}

/// The failure to log with an acknowledgement.
pub open spec fn failure_of(outcome: Result<(), ForwardError>) -> Option<ForwardError> {
    match outcome {
        Ok(_) => None,
        Err(e) => Some(e),
    }
}

/// One frame on a listening connection.
///
/// A message that was decoded is handed to the host and then acknowledged,
/// whatever the host made of it, and the connection listens again. A text
/// that holds no message is skipped: the host is not called and nothing is
/// acknowledged. A frame without a message is passed over. A close frame and
/// a failed read close the connection.
pub proof fn lemma_exchange(frame: FrameView, outcome: Result<(), ForwardError>)
    ensures
        replay(Phase::Listening, exchange(frame, outcome)) == (match frame {
            FrameView::Text(text) => match frame_forward(text) {
                Ok(forward) => (
                    Phase::Listening,
                    seq![
                        ActionView::Forward(forward),
                        ActionView::Acknowledge { failure: failure_of(outcome) },
                        ActionView::Receive { skipped: None },
                    ],
                ),
                Err(e) => (Phase::Listening, seq![ActionView::Receive { skipped: Some(e) }]),
            },
            FrameView::Other => (Phase::Listening, seq![ActionView::Receive { skipped: None }]),
            FrameView::Close => (Phase::Closed, seq![ActionView::Close(CloseReason::PeerClosed)]),
            FrameView::Error => (Phase::Closed, seq![ActionView::Close(CloseReason::ReadFailed)]),
        }),
{
    reveal_with_fuel(replay, 4);
}

/// A closed connection stays closed, whatever it is told.
pub proof fn lemma_closed_stays_closed(event: EventView)
    ensures
        next(Phase::Closed, event) == (Phase::Closed, ActionView::Close(CloseReason::OutOfTurn)),
{
}

/// Replaying two runs of events one after the other is replaying the first
/// and then, from where it ended, the second.
pub proof fn lemma_replay_concat(phase: Phase, first: Seq<EventView>, second: Seq<EventView>)
    ensures
        replay(phase, first + second) == (
            replay(replay(phase, first).0, second).0,
            replay(phase, first).1 + replay(replay(phase, first).0, second).1,
        ),
    decreases second.len(),
{
    if second.len() > 0 {
        assert((first + second).drop_last() =~= first + second.drop_last());
        lemma_replay_concat(phase, first, second.drop_last());
    }
}

/// One frame of a session, with what the host makes of its message if it
/// holds one.
pub type Turn = (FrameView, Result<(), ForwardError>);

/// What a driver reports over a whole session, frame after frame.
pub open spec fn session(turns: Seq<Turn>) -> Seq<EventView>
    decreases turns.len(),
{
    if turns.len() == 0 {
        Seq::empty()
    } else {
        session(turns.drop_last()) + exchange(turns.last().0, turns.last().1)
    }
}

/// The calls of the host that the frames of a session lead to, in the order
/// of the frames.
pub open spec fn delivered(turns: Seq<Turn>) -> Seq<ForwardView>
    decreases turns.len(),
{
    if turns.len() == 0 {
        Seq::empty()
    } else {
        let before = delivered(turns.drop_last());
        match turns.last().0 {
            FrameView::Text(text) => match frame_forward(text) {
                Ok(forward) => before.push(forward),
                Err(_) => before,
            },
            _ => before,
        }
    }
}

/// The calls of the host among some actions, in order.
pub open spec fn forwards_in(actions: Seq<ActionView>) -> Seq<ForwardView>
    decreases actions.len(),
{
    if actions.len() == 0 {
        Seq::empty()
    } else {
        let before = forwards_in(actions.drop_last());
        match actions.last() {
            ActionView::Forward(forward) => before.push(forward),
            _ => before,
        }
    }
}

/// Each call of the host among the actions is followed at once by an
/// acknowledgement, and each acknowledgement follows a call of the host.
pub open spec fn acknowledged_in_turn(actions: Seq<ActionView>) -> bool {
    &&& forall|i: int|
        0 <= i < actions.len() && #[trigger] actions[i] is Forward ==> i + 1 < actions.len()
            && actions[i + 1] is Acknowledge
    &&& forall|i: int|
        0 <= i < actions.len() && #[trigger] actions[i] is Acknowledge ==> 0 < i && actions[i
            - 1] is Forward
}

proof fn lemma_forwards_in_concat(first: Seq<ActionView>, second: Seq<ActionView>)
    ensures
        forwards_in(first + second) == forwards_in(first) + forwards_in(second),
    decreases second.len(),
{
    if second.len() > 0 {
        assert((first + second).drop_last() =~= first + second.drop_last());
        lemma_forwards_in_concat(first, second.drop_last());
    }
}

proof fn lemma_acknowledged_in_turn_concat(first: Seq<ActionView>, second: Seq<ActionView>)
    requires
        acknowledged_in_turn(first),
        acknowledged_in_turn(second),
    ensures
        acknowledged_in_turn(first + second),
{
}

/// A whole session on one connection.
///
/// As long as no frame closes the connection, it listens again after every
/// frame. The host is called once for each frame that holds a message, in the
/// order of the frames, and for no other frame. Each of these calls is
/// followed at once by its acknowledgement, whatever the host made of the
/// call, and nothing else is acknowledged.
pub proof fn lemma_session(turns: Seq<Turn>)
    requires
        forall|i: int|
            0 <= i < turns.len() ==> !((#[trigger] turns[i]).0 is Close) && !(turns[i].0 is Error),
    ensures
        replay(Phase::Listening, session(turns)).0 == Phase::Listening,
        forwards_in(replay(Phase::Listening, session(turns)).1) == delivered(turns),
        acknowledged_in_turn(replay(Phase::Listening, session(turns)).1),
    decreases turns.len(),
{
    if turns.len() > 0 {
        let init = turns.drop_last();
        let (frame, outcome) = turns.last();
        let before = replay(Phase::Listening, session(init)).1;
        let step = replay(Phase::Listening, exchange(frame, outcome)).1;
        lemma_session(init);
        lemma_replay_concat(Phase::Listening, session(init), exchange(frame, outcome));
        lemma_exchange(frame, outcome);
        lemma_forwards_in_concat(before, step);
        lemma_acknowledged_in_turn_concat(before, step);
        reveal_with_fuel(forwards_in, 4);
    }
}

} // verus!
