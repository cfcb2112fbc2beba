//! One card of the board: the latest payload, a favourite flag, and the two
//! events that change them.

use crate::connector::{payload_view, Payload, PayloadView};
use vstd::prelude::*;

verus! {

/// The state of one card.
#[derive(Debug, PartialEq, Eq)]
pub struct Task {
    /// Reserved; nothing reads it.
    pub status: i32,
    /// Set and cleared by the user.
    pub fav: bool,
    /// The payload of the latest successful poll.
    pub info: Option<Payload>,
}

/// What can happen to a card.
#[derive(Debug, PartialEq, Eq)]
pub enum TaskMsg {
    /// A poll brought this payload.
    Fetchit(Payload),
    /// The user toggled the favourite flag.
    ToggleFav,
}

/// The two text regions that a card shows.
#[derive(Debug, PartialEq, Eq)]
pub struct CardText {
    pub heading: String,
    pub body: String,
}

/// A card as mathematical values.
pub ghost struct TaskView {
    pub status: int,
    pub fav: bool,
    pub info: Option<PayloadView>,
}

/// An event as mathematical values.
pub ghost enum TaskMsgView {
    Fetchit(PayloadView),
    ToggleFav,
}

impl View for Task {
    type V = TaskView;

    open spec fn view(&self) -> TaskView {
        TaskView { status: self.status as int, fav: self.fav, info: payload_view(self.info) }
    }
}

impl View for TaskMsg {
    type V = TaskMsgView;

    open spec fn view(&self) -> TaskMsgView {
        match self {
            TaskMsg::Fetchit(p) => TaskMsgView::Fetchit(p@),
            TaskMsg::ToggleFav => TaskMsgView::ToggleFav,
        }
    }
}

/// The heading of a card that has no payload yet.
pub open spec fn placeholder() -> Seq<char> {
    "fetching --->"@
}

/// A card as it is created: not a favourite, no payload.
pub open spec fn fresh_card() -> TaskView {
    TaskView { status: 0, fav: false, info: None }
}

impl TaskView {
    /// The card after an event: a payload replaces `info` whole, a toggle
    /// flips `fav`; nothing else changes.
    pub open spec fn after(self, msg: TaskMsgView) -> TaskView {
        match msg {
            TaskMsgView::Fetchit(p) => TaskView { info: Some(p), ..self },
            TaskMsgView::ToggleFav => TaskView { fav: !self.fav, ..self },
        }
    }

    /// The heading: the quote's author, or the placeholder without payload.
    pub open spec fn author_text(self) -> Seq<char> {
        match self.info {
            Some(p) => p.quote.author,
            None => placeholder(),
        }
    }

    /// The body region: the quote's body, or nothing without payload.
    pub open spec fn body_text(self) -> Seq<char> {
        match self.info {
            Some(p) => p.quote.body,
            None => Seq::<char>::empty(),
        }
    }
}

impl Task {
    /// A new card.
    pub fn create() -> (card: Task)
        ensures
            card@ == fresh_card(),
    {
        Task { status: 0, fav: false, info: None }
    }

    /// Applies an event and says whether the card must be drawn again, which
    /// it always must.
    pub fn update(&mut self, msg: TaskMsg) -> (render: bool)
        ensures
            render,
            final(self)@ == old(self)@.after(msg@),
    {
        match msg {
            TaskMsg::Fetchit(info) => {
                self.info = Some(info);
                true
            },
            TaskMsg::ToggleFav => {
                self.fav = !self.fav;
                true
            },
        }
    }

    /// A card takes no settings from outside: being told that they changed
    /// leaves the state as it is and asks for a redraw.
    pub fn change(&mut self) -> (render: bool)
        ensures
            render,
            *final(self) == *old(self),
    {
        true
    }

    /// The text of the heading.
    pub fn author_text(&self) -> (text: String)
        ensures
            text@ == self@.author_text(),
    {
        match &self.info {
            Some(p) => p.quote.author.clone(),
            None => "fetching --->".to_owned(),
        }
    }

    /// The text of the body region.
    pub fn body_text(&self) -> (text: String)
        ensures
            text@ == self@.body_text(),
    {
        match &self.info {
            Some(p) => p.quote.body.clone(),
            None => String::new(),
        }
    }

    /// Both text regions of the card.
    pub fn render(&self) -> (text: CardText)
        ensures
            text.heading@ == self@.author_text(),
            text.body@ == self@.body_text(),
    {
        CardText { heading: self.author_text(), body: self.body_text() }
    }
}

/// A toggle flips the favourite flag and touches nothing else.
pub proof fn lemma_toggle_flips_fav_only(card: TaskView)
    ensures
        card.after(TaskMsgView::ToggleFav).fav == !card.fav,
        card.after(TaskMsgView::ToggleFav).info == card.info,
        card.after(TaskMsgView::ToggleFav).status == card.status,
{
}

/// Two toggles in a row give back the card as it was.
pub proof fn lemma_toggle_twice_restores(card: TaskView)
    ensures
        card.after(TaskMsgView::ToggleFav).after(TaskMsgView::ToggleFav) == card,
{
}

/// A payload replaces `info` whole and leaves the favourite flag alone.
pub proof fn lemma_payload_replaces_info(card: TaskView, payload: PayloadView)
    ensures
        card.after(TaskMsgView::Fetchit(payload)).info == Some(payload),
        card.after(TaskMsgView::Fetchit(payload)).fav == card.fav,
        card.after(TaskMsgView::Fetchit(payload)).status == card.status,
{
}

/// No event takes a payload away: after a toggle the card holds what it
/// held, after a payload it holds that payload. So a card that has a payload
/// has one after every event.
pub proof fn lemma_info_is_never_lost(card: TaskView, msg: TaskMsgView)
    ensures
        msg is ToggleFav ==> card.after(msg).info == card.info,
        msg is Fetchit ==> card.after(msg).info == Some(msg->Fetchit_0),
        card.info is Some ==> card.after(msg).info is Some,
{
}

/// The heading is the author's name whenever there is a payload, and the
/// placeholder whenever there is none. So, unless an author is literally
/// named like the placeholder, the placeholder shows exactly while the card
/// has no payload.
pub proof fn lemma_placeholder_iff_absent(card: TaskView)
    requires
        card.info is Some ==> card.info.unwrap().quote.author != placeholder(),
    ensures
        card.info is Some ==> card.author_text() == card.info.unwrap().quote.author,
        card.author_text() == placeholder() <==> card.info is None,
{
}

} // verus!
