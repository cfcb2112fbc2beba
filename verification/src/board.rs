//! The board: an ordered, growing list of cards and the control that adds one.

use crate::card::{fresh_card, CardText, Task, TaskMsg, TaskMsgView, TaskView};
use vstd::prelude::*;

verus! {

/// The board's state. Cards are only ever appended.
#[derive(Debug, PartialEq, Eq)]
pub struct Model {
    tasks: Vec<Task>,
}

/// What can happen to the board.
#[derive(Debug, Clone, Copy, PartialEq, Eq)]
pub enum Msg {
    /// The control was clicked: add a card.
    DoIt,
}

/// What the board shows: the control's label, then the cards in order.
#[derive(Debug, PartialEq, Eq)]
pub struct BoardText {
    pub button: String,
    pub cards: Vec<CardText>,
}

impl View for Model {
    type V = Seq<TaskView>;

    closed spec fn view(&self) -> Seq<TaskView> {
        Seq::new(self.tasks@.len(), |i: int| self.tasks@[i]@)
    }
}

/// The label of the control that adds a card.
pub open spec fn button_label() -> Seq<char> {
    "fetch quotes of the day"@
}

/// The board after `count` clicks on the control.
pub open spec fn after_adds(cards: Seq<TaskView>, count: nat) -> Seq<TaskView>
    decreases count,
{
    if count == 0 {
        cards
    } else {
        after_adds(cards, (count - 1) as nat).push(fresh_card())
    }
}

/// The board after an event was handed to the card at `index`: that card
/// takes the event, every other card stays as it is. An index past the end
/// reaches no card.
pub open spec fn after_delivery(cards: Seq<TaskView>, index: int, msg: TaskMsgView) -> Seq<
    TaskView,
> {
    if 0 <= index < cards.len() {
        cards.update(index, cards[index].after(msg))
    } else {
        cards
    }
}

impl Model {
    /// An empty board.
    pub fn create() -> (board: Model)
        ensures
            board@ == Seq::<TaskView>::empty(),
    {
        let board = Model { tasks: Vec::new() };
        assert(board@ =~= Seq::<TaskView>::empty());
        board
    }

    /// Applies an event and says whether the board must be drawn again. The
    /// one event there is appends a new card behind the others.
    pub fn update(&mut self, msg: Msg) -> (render: bool)
        ensures
            render,
            final(self)@ == old(self)@.push(fresh_card()),
    {
        match msg {
            Msg::DoIt => {
                let task = Task::create();
                self.tasks.push(task);
                assert(self@ =~= old(self)@.push(fresh_card()));
                true
            },
        }
    }

    /// A board takes no settings from outside: being told that they changed
    /// leaves the state as it is and asks for a redraw.
    pub fn change(&mut self) -> (render: bool)
        ensures
            render,
            *final(self) == *old(self),
    {
        true
    }

    /// The number of cards.
    pub fn len(&self) -> (count: usize)
        ensures
            count == self@.len(),
    {
        self.tasks.len()
    }

    /// The card at `index`, if there is one.
    pub fn card(&self, index: usize) -> (card: Option<&Task>)
        ensures
            match card {
                Some(t) => index < self@.len() && t@ == self@[index as int],
                None => index >= self@.len(),
            },
    {
        if index < self.tasks.len() {
            Some(&self.tasks[index])
        } else {
            None
        }
    }

    /// Hands an event to the card at `index` and says whether a card took it.
    /// No other card changes; with an index past the end nothing changes.
    pub fn deliver(&mut self, index: usize, msg: TaskMsg) -> (render: bool)
        ensures
            render == (index < old(self)@.len()),
            final(self)@ == after_delivery(old(self)@, index as int, msg@),
    {
        if index < self.tasks.len() {
            let render = self.tasks[index].update(msg);
            assert(self@ =~= after_delivery(old(self)@, index as int, msg@));
            render
        } else {
            false
        }
    }

    /// The label of the control and the texts of the cards, in the order in
    /// which the cards were added.
    pub fn render(&self) -> (text: BoardText)
        ensures
            text.button@ == button_label(),
            text.cards@.len() == self@.len(),
            forall|i: int|
                0 <= i < self@.len() ==> {
                    &&& (#[trigger] text.cards@[i]).heading@ == self@[i].author_text()
                    &&& text.cards@[i].body@ == self@[i].body_text()
                },
    {
        let mut cards: Vec<CardText> = Vec::new();
        let mut i: usize = 0;
        while i < self.tasks.len()
            invariant
                i <= self.tasks@.len(),
                cards@.len() == i,
                forall|k: int|
                    0 <= k < i ==> {
                        &&& (#[trigger] cards@[k]).heading@ == self.tasks@[k]@.author_text()
                        &&& cards@[k].body@ == self.tasks@[k]@.body_text()
                    },
            decreases self.tasks@.len() - i,
        {
            cards.push(self.tasks[i].render());
            i += 1;
        }
        BoardText { button: "fetch quotes of the day".to_owned(), cards }
    }
}

/// After `count` clicks the board holds `count` cards more. The cards that
/// were there are untouched and in place; each added one is a new card.
pub proof fn lemma_adds_append(cards: Seq<TaskView>, count: nat)
    ensures
        after_adds(cards, count).len() == cards.len() + count,
        forall|i: int| 0 <= i < cards.len() ==> after_adds(cards, count)[i] == cards[i],
        forall|i: int|
            cards.len() <= i < cards.len() + count ==> after_adds(cards, count)[i] == fresh_card(),
    decreases count,
{
    if count > 0 {
        lemma_adds_append(cards, (count - 1) as nat);
    }
}

/// An empty board that is clicked `count` times holds exactly `count` cards.
pub proof fn lemma_adds_from_empty(count: nat)
    ensures
        after_adds(Seq::<TaskView>::empty(), count).len() == count,
{
    lemma_adds_append(Seq::<TaskView>::empty(), count);
}

/// An event handed to one card never changes another: the board keeps its
/// length, and every card but the addressed one is as before.
pub proof fn lemma_delivery_is_local(cards: Seq<TaskView>, index: int, other: int, msg: TaskMsgView)
    requires
        0 <= other < cards.len(),
        other != index,
    ensures
        after_delivery(cards, index, msg).len() == cards.len(),
        after_delivery(cards, index, msg)[other] == cards[other],
{
}

/// The addressed card takes the event as a card on its own would.
pub proof fn lemma_delivery_reaches_card(cards: Seq<TaskView>, index: int, msg: TaskMsgView)
    requires
        0 <= index < cards.len(),
    ensures
        after_delivery(cards, index, msg)[index] == cards[index].after(msg),
{
}

} // verus!
