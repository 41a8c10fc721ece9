//! What the two transports share: the life of a link, and the decisions of a
//! receive loop once a read has been classified.

use crate::communication::error::{ConnectionError, ConnectionResult, IoFailure};
use crate::models::terminal::{MessageDirection, TerminalMessage};
use vstd::prelude::*;

verus! {

/// The life of a transport's link to its medium. A transport is created
/// without a medium; it holds one exactly while it is `Connected`.
#[derive(Debug, Clone, Copy, PartialEq, Eq, Structural)]
pub enum LinkState {
    NeverConnected,
    Connected,
    Disconnected,
}

impl LinkState {
    /// The state after the medium was given up, for whatever reason.
    pub open spec fn released(self) -> LinkState {
        match self {
            LinkState::NeverConnected => LinkState::NeverConnected,
            _ => LinkState::Disconnected,
        }
    }
}

/// Giving up the medium leaves a link that is not connected. Giving it up
/// twice is the same as once, and a link without a medium stays as it was.
pub proof fn released_is_not_connected(link: LinkState)
    ensures
        link.released() != LinkState::Connected,
        link.released().released() == link.released(),
        link != LinkState::Connected ==> link.released() == link,
{
}

/// What the caller does with the medium when a transport lets go of it.
#[derive(Debug, Clone, Copy, PartialEq, Eq, Structural)]
pub enum Teardown {
    /// No medium was held.
    Nothing,
    /// Flush pending writes, then close the medium.
    FlushAndClose,
}

/// What one bounded read attempt on the medium gave.
#[derive(Debug)]
pub enum ReadEvent {
    /// The read returned these bytes; none at all is a zero-length read.
    Bytes(Vec<u8>),
    /// The bound elapsed before the read returned.
    TimedOut,
    /// The read failed.
    Failed(IoFailure),
}

/// What a receive loop does about one read.
#[derive(Debug)]
pub enum Reaction {
    /// Nothing to report.
    Continue,
    /// Deliver this text and go on reading.
    Deliver(String),
    /// Deliver this text, give up the medium and stop.
    Terminate(String),
}

/// A reaction, with texts as sequences of characters.
pub ghost enum ReactionView {
    Continue,
    Deliver(Seq<char>),
    Terminate(Seq<char>),
}

impl View for Reaction {
    type V = ReactionView;

    open spec fn view(&self) -> ReactionView {
        match self {
            Reaction::Continue => ReactionView::Continue,
            Reaction::Deliver(text) => ReactionView::Deliver(text@),
            Reaction::Terminate(text) => ReactionView::Terminate(text@),
        }
    }
}

/// The outcome of one turn of a receive loop: a message to deliver, if any,
/// and whether the loop ends.
#[derive(Debug)]
pub struct ReceiveStep {
    pub message: Option<TerminalMessage>,
    pub stop: bool,
}

/// How a receive loop reads: the size of its buffer, the bound of one read
/// attempt and the pause between two attempts.
#[derive(Debug, Clone, Copy, PartialEq, Eq, Structural)]
pub struct ReceivePlan {
    pub buffer_size: usize,
    pub read_timeout_ms: u64,
    pub pause_ms: u64,
}

impl ReceivePlan {
    /// The plan of both transports: a buffer of 1024 bytes, reads bounded by
    /// 100 ms, and 1 ms of pause.
    pub open spec fn standard() -> ReceivePlan {
        ReceivePlan { buffer_size: 1024, read_timeout_ms: 100, pause_ms: 1 }
    }

    /// The plan of both transports.
    pub fn new() -> (r: ReceivePlan)
        ensures
            r == ReceivePlan::standard(),
    {
        ReceivePlan { buffer_size: 1024, read_timeout_ms: 100, pause_ms: 1 }
    }
}

/// `message` is a received message in UTF-8 with the content `text`.
pub open spec fn is_received(message: TerminalMessage, text: Seq<char>) -> bool {
    &&& message.direction == MessageDirection::Received
    &&& message.content@ == text
    &&& message.encoding@ == "UTF-8"@
}

/// What a turn of a receive loop must give for a link in state `before` and a
/// read classified as `reaction`. A link that is not connected ends the loop
/// silently; a delivery leaves the link alone; a termination releases it.
pub open spec fn step_matches(
    before: LinkState,
    reaction: ReactionView,
    after: LinkState,
    step: ReceiveStep,
) -> bool {
    if before != LinkState::Connected {
        step.message.is_none() && step.stop && after == before
    } else {
        match reaction {
            ReactionView::Continue => step.message.is_none() && !step.stop && after == before,
            ReactionView::Deliver(text) => step.message.is_some() && is_received(
                step.message.unwrap(),
                text,
            ) && !step.stop && after == before,
            ReactionView::Terminate(text) => step.message.is_some() && is_received(
                step.message.unwrap(),
                text,
            ) && step.stop && after == LinkState::Disconnected,
        }
    }
}

impl ReceiveStep {
    /// Whether the loop goes on after this step, given whether the consumer
    /// took the message: it ends when the step says so, and when a message
    /// could not be delivered.
    pub fn continues(&self, delivered: bool) -> (r: bool)
        ensures
            r == (!self.stop && (self.message.is_none() || delivered)),
    {
        !self.stop && (self.message.is_none() || delivered)
    }
}

/// Carries out a classified read on a link.
pub fn react(link: &mut LinkState, reaction: Reaction) -> (step: ReceiveStep)
    ensures
        step_matches(*old(link), reaction@, *final(link), step),
{
    match *link {
        LinkState::Connected => {},
        _ => {
            return ReceiveStep { message: None, stop: true };
        },
    }
    match reaction {
        Reaction::Continue => ReceiveStep { message: None, stop: false },
        Reaction::Deliver(text) => {
            let message = TerminalMessage::new_received(text, String::from_str("UTF-8"));
            ReceiveStep { message: Some(message), stop: false }
        },
        Reaction::Terminate(text) => {
            let message = TerminalMessage::new_received(text, String::from_str("UTF-8"));
            *link = LinkState::Disconnected;
            ReceiveStep { message: Some(message), stop: true }
        },
    }
}

/// Gives up the medium of a link and says what the caller does with it.
pub fn release(link: &mut LinkState) -> (r: Teardown)
    ensures
        *final(link) == old(link).released(),
        r == if *old(link) == LinkState::Connected {
            Teardown::FlushAndClose
        } else {
            Teardown::Nothing
        },
{
    match *link {
        LinkState::NeverConnected => Teardown::Nothing,
        LinkState::Disconnected => Teardown::Nothing,
        LinkState::Connected => {
            *link = LinkState::Disconnected;
            Teardown::FlushAndClose
        },
    }
}

/// What a send hands to the medium on a link in state `link`: the bytes as
/// they are, or `ConnectionClosed` where no medium is held.
pub fn outgoing(link: LinkState, data: &[u8]) -> (r: ConnectionResult<Vec<u8>>)
    ensures
        link == LinkState::Connected ==> r.is_ok() && r.unwrap()@ == data@,
        link != LinkState::Connected ==> r == Err::<Vec<u8>, ConnectionError>(
            ConnectionError::ConnectionClosed,
        ),
{
    match link {
        LinkState::Connected => Ok(vstd::slice::slice_to_vec(data)),
        _ => Err(ConnectionError::ConnectionClosed),
    }
}

/// The result of a send once the medium has written and flushed, or failed
/// at either with the given detail.
pub fn complete_send(written: Result<(), String>) -> (r: ConnectionResult<()>)
    ensures
        written.is_ok() ==> r.is_ok(),
        written.is_err() ==> r == Err::<(), ConnectionError>(
            ConnectionError::SendFailed(written.unwrap_err()),
        ),
{
    match written {
        Ok(_) => Ok(()),
        Err(detail) => Err(ConnectionError::SendFailed(detail)),
    }
}

} // verus!
