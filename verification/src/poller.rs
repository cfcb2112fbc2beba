//! The polling loop of one card, as a state machine. The caller does the
//! waiting and the request; each step says what to do next and what, if
//! anything, to hand to the card.

use crate::card::{placeholder, TaskMsg, TaskMsgView, TaskView};
use crate::connector::{fetchit, spec_fetchit, Reply};
use vstd::prelude::*;

verus! {

/// Seconds between the end of one poll and the start of the next.
pub const POLL_INTERVAL_SECS: u64 = 2;

/// Where a card's loop stands.
#[derive(Debug, Clone, Copy, PartialEq, Eq, Structural)]
pub enum Poller {
    /// Created, not yet started.
    Idle,
    /// The timer runs.
    Waiting,
    /// A request is in flight.
    Fetching,
    /// Cancelled: the loop has ended for good.
    Stopped,
}

/// What the caller reports to the loop.
#[derive(Debug, PartialEq, Eq)]
pub enum PollEvent {
    /// The card was created.
    Start,
    /// The timer ran out.
    TimerFired,
    /// The request ended with this reply.
    Replied(Reply),
    /// The card is gone.
    Cancel,
}

/// What the caller is to do next.
#[derive(Debug, Clone, Copy, PartialEq, Eq, Structural)]
pub enum Command {
    /// Wait this many seconds, then report `TimerFired`.
    Sleep(u64),
    /// Make one request, then report `Replied`.
    Fetch,
    /// End the loop.
    Halt,
    /// The event did not fit the state: go on with what is under way.
    Nothing,
}

/// The result of one step.
#[derive(Debug, PartialEq, Eq)]
pub struct PollAction {
    /// The event to hand to the card, if the step produced one.
    pub deliver: Option<TaskMsg>,
    /// What to do next.
    pub next: Command,
}

/// The view of an event that may be absent.
pub open spec fn msg_view(msg: Option<TaskMsg>) -> Option<TaskMsgView> {
    match msg {
        Some(m) => Some(m@),
        None => None,
    }
}

impl Poller {
    /// The state after an event.
    pub open spec fn spec_next(self, event: PollEvent) -> Poller {
        match (self, event) {
            (Poller::Stopped, _) => Poller::Stopped,
            (_, PollEvent::Cancel) => Poller::Stopped,
            (Poller::Idle, PollEvent::Start) => Poller::Waiting,
            (Poller::Waiting, PollEvent::TimerFired) => Poller::Fetching,
            (Poller::Fetching, PollEvent::Replied(_)) => Poller::Waiting,
            _ => self,
        }
    }

    /// What the caller is told to do after an event.
    pub open spec fn spec_command(self, event: PollEvent) -> Command {
        match (self, event) {
            (Poller::Stopped, _) => Command::Halt,
            (_, PollEvent::Cancel) => Command::Halt,
            (Poller::Idle, PollEvent::Start) => Command::Sleep(POLL_INTERVAL_SECS),
            (Poller::Waiting, PollEvent::TimerFired) => Command::Fetch,
            (Poller::Fetching, PollEvent::Replied(_)) => Command::Sleep(POLL_INTERVAL_SECS),
            _ => Command::Nothing,
        }
    }

    /// What the card is handed after an event: the payload of a reply that
    /// arrives while a request is in flight, if that reply yields one.
    pub open spec fn spec_delivery(self, event: PollEvent) -> Option<TaskMsgView> {
        match (self, event) {
            (Poller::Fetching, PollEvent::Replied(reply)) => match spec_fetchit(reply) {
                Some(p) => Some(TaskMsgView::Fetchit(p)),
                None => None,
            },
            _ => None,
        }
    }

    /// The loop of a card that was just created.
    pub fn new() -> (poller: Poller)
        ensures
            poller == Poller::Idle,
    {
        Poller::Idle
    }

    /// Whether the loop has ended.
    pub fn is_stopped(&self) -> (stopped: bool)
        ensures
            stopped == (*self == Poller::Stopped),
    {
        match self {
            Poller::Stopped => true,
            _ => false,
        }
    }

    /// Takes one event, moves to the next state and says what to do. A reply
    /// without payload hands the card nothing and the loop goes on as after
    /// any other reply.
    pub fn step(&mut self, event: PollEvent) -> (action: PollAction)
        ensures
            *final(self) == old(self).spec_next(event),
            action.next == old(self).spec_command(event),
            msg_view(action.deliver) == old(self).spec_delivery(event),
    {
        match *self {
            Poller::Stopped => PollAction { deliver: None, next: Command::Halt },
            Poller::Idle => match event {
                PollEvent::Cancel => {
                    *self = Poller::Stopped;
                    PollAction { deliver: None, next: Command::Halt }
                },
                PollEvent::Start => {
                    *self = Poller::Waiting;
                    PollAction { deliver: None, next: Command::Sleep(POLL_INTERVAL_SECS) }
                },
                _ => PollAction { deliver: None, next: Command::Nothing },
            },
            Poller::Waiting => match event {
                PollEvent::Cancel => {
                    *self = Poller::Stopped;
                    PollAction { deliver: None, next: Command::Halt }
                },
                PollEvent::TimerFired => {
                    *self = Poller::Fetching;
                    PollAction { deliver: None, next: Command::Fetch }
                },
                _ => PollAction { deliver: None, next: Command::Nothing },
            },
            Poller::Fetching => match event {
                PollEvent::Cancel => {
                    *self = Poller::Stopped;
                    PollAction { deliver: None, next: Command::Halt }
                },
                PollEvent::Replied(reply) => {
                    *self = Poller::Waiting;
                    let deliver = match fetchit(&reply) {
                        Some(p) => Some(TaskMsg::Fetchit(p)),
                        None => None,
                    };
                    PollAction { deliver, next: Command::Sleep(POLL_INTERVAL_SECS) }
                },
                _ => PollAction { deliver: None, next: Command::Nothing },
            },
        }
    }
}

/// The card after one request of its loop ended with the given reply: it
/// takes what the loop hands over, and stays as it is where that is nothing.
pub open spec fn after_reply(card: TaskView, reply: Reply) -> TaskView {
    match Poller::Fetching.spec_delivery(PollEvent::Replied(reply)) {
        Some(msg) => card.after(msg),
        None => card,
    }
}

/// A request that yields no payload leaves the card exactly as it was: a
/// card without payload goes on showing the placeholder, and a card with a
/// payload keeps it.
pub proof fn lemma_failed_request_keeps_card(card: TaskView, reply: Reply)
    requires
        spec_fetchit(reply) is None,
    ensures
        after_reply(card, reply) == card,
        card.info is None ==> after_reply(card, reply).author_text() == placeholder(),
{
}

/// A request that yields a payload makes the card show that payload's
/// author and body, and leaves the favourite flag alone.
pub proof fn lemma_good_request_shows_quote(card: TaskView, reply: Reply)
    requires
        spec_fetchit(reply) is Some,
    ensures
        after_reply(card, reply).info == spec_fetchit(reply),
        after_reply(card, reply).author_text() == spec_fetchit(reply).unwrap().quote.author,
        after_reply(card, reply).body_text() == spec_fetchit(reply).unwrap().quote.body,
        after_reply(card, reply).fav == card.fav,
{
}

/// A cancelled loop stays cancelled, asks for nothing but to halt, and hands
/// the card nothing, whatever is reported to it.
pub proof fn lemma_stopped_is_final(event: PollEvent)
    ensures
        Poller::Stopped.spec_next(event) == Poller::Stopped,
        Poller::Stopped.spec_command(event) == Command::Halt,
        Poller::Stopped.spec_delivery(event) is None,
{
}

/// Cancelling ends the loop from every state.
pub proof fn lemma_cancel_stops(poller: Poller)
    ensures
        poller.spec_next(PollEvent::Cancel) == Poller::Stopped,
        poller.spec_command(PollEvent::Cancel) == Command::Halt,
{
}

/// A reply that yields no payload hands the card nothing, and the loop waits
/// for its next turn exactly as after a reply that yields one.
pub proof fn lemma_failed_poll_goes_on(reply: Reply)
    requires
        spec_fetchit(reply) is None,
    ensures
        Poller::Fetching.spec_delivery(PollEvent::Replied(reply)) is None,
        Poller::Fetching.spec_next(PollEvent::Replied(reply)) == Poller::Waiting,
        Poller::Fetching.spec_command(PollEvent::Replied(reply)) == Command::Sleep(
            POLL_INTERVAL_SECS,
        ),
{
}

} // verus!
