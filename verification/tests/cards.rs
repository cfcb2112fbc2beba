use qotd_board::board::{Model, Msg};
use qotd_board::card::{CardText, Task, TaskMsg};
use qotd_board::connector::{Payload, Quote, Reply};
use qotd_board::json::Json;
use qotd_board::poller::{Command, PollAction, PollEvent, Poller, POLL_INTERVAL_SECS};

fn payload(author: &str, body: &str) -> Payload {
    Payload {
        qotd_date: "2024-01-01".to_string(),
        quote: Quote {
            id: 1,
            dialogue: false,
            private: false,
            tags: vec![],
            favorites_count: 0,
            upvotes_count: 0,
            downvotes_count: 0,
            author: author.to_string(),
            author_permalink: author.to_lowercase(),
            body: body.to_string(),
        },
    }
}

fn ada_document() -> Json {
    Json::Object(vec![
        ("qotd_date".to_string(), Json::Text("2024-01-01".to_string())),
        (
            "quote".to_string(),
            Json::Object(vec![
                ("id".to_string(), Json::Integer(1)),
                ("dialogue".to_string(), Json::Bool(false)),
                ("private".to_string(), Json::Bool(false)),
                ("tags".to_string(), Json::Array(vec![])),
                ("favorites_count".to_string(), Json::Integer(0)),
                ("upvotes_count".to_string(), Json::Integer(0)),
                ("downvotes_count".to_string(), Json::Integer(0)),
                ("author".to_string(), Json::Text("Ada".to_string())),
                ("author_permalink".to_string(), Json::Text("ada".to_string())),
                ("body".to_string(), Json::Text("Think.".to_string())),
            ]),
        ),
    ])
}

/// One turn of the loop: the timer fires, the request ends with `reply`, and
/// what the loop hands over goes to the card.
fn cycle(poller: &mut Poller, card: &mut Task, reply: Reply) {
    let fired = poller.step(PollEvent::TimerFired);
    assert_eq!(fired, PollAction { deliver: None, next: Command::Fetch });
    let done = poller.step(PollEvent::Replied(reply));
    assert_eq!(done.next, Command::Sleep(2));
    if let Some(msg) = done.deliver {
        assert!(card.update(msg));
    }
}

#[test]
fn new_card_shows_the_placeholder() {
    let card = Task::create();
    assert_eq!(card, Task { status: 0, fav: false, info: None });
    assert_eq!(card.author_text(), "fetching --->");
    assert_eq!(card.body_text(), "");
    assert_eq!(
        card.render(),
        CardText { heading: "fetching --->".to_string(), body: String::new() }
    );
}

#[test]
fn card_with_payload_shows_author_and_body() {
    let mut card = Task::create();
    assert!(card.update(TaskMsg::Fetchit(payload("Ada", "Think."))));
    assert_eq!(card.author_text(), "Ada");
    assert_eq!(card.body_text(), "Think.");
    assert_eq!(card.info, Some(payload("Ada", "Think.")));
    assert!(!card.fav);
    assert_eq!(card.status, 0);
}

#[test]
fn newer_payload_replaces_the_older_whole() {
    let mut card = Task::create();
    card.update(TaskMsg::Fetchit(payload("Ada", "Think.")));
    card.update(TaskMsg::ToggleFav);
    card.update(TaskMsg::Fetchit(payload("Grace", "Ship it.")));
    assert_eq!(card.info, Some(payload("Grace", "Ship it.")));
    assert!(card.fav);
    assert_eq!(card.render(), CardText { heading: "Grace".to_string(), body: "Ship it.".to_string() });
}

#[test]
fn author_named_like_the_placeholder_is_shown_as_author() {
    let mut card = Task::create();
    card.update(TaskMsg::Fetchit(payload("fetching --->", "x")));
    assert_eq!(card.author_text(), "fetching --->");
    assert_eq!(card.body_text(), "x");
    assert!(card.info.is_some());
}

#[test]
fn toggle_flips_fav_and_keeps_info() {
    let mut card = Task::create();
    assert!(card.update(TaskMsg::ToggleFav));
    assert!(card.fav);
    assert_eq!(card.info, None);
    card.update(TaskMsg::Fetchit(payload("Ada", "Think.")));
    assert!(card.update(TaskMsg::ToggleFav));
    assert!(!card.fav);
    assert_eq!(card.info, Some(payload("Ada", "Think.")));
}

#[test]
fn toggle_twice_restores_fav() {
    for start in [false, true] {
        let mut card = Task { status: 0, fav: start, info: Some(payload("Ada", "Think.")) };
        card.update(TaskMsg::ToggleFav);
        assert_eq!(card.fav, !start);
        card.update(TaskMsg::ToggleFav);
        assert_eq!(card, Task { status: 0, fav: start, info: Some(payload("Ada", "Think.")) });
    }
}

#[test]
fn change_keeps_the_state() {
    let mut card = Task { status: 0, fav: true, info: Some(payload("Ada", "Think.")) };
    assert!(card.change());
    assert_eq!(card, Task { status: 0, fav: true, info: Some(payload("Ada", "Think.")) });
    let mut board = Model::create();
    board.update(Msg::DoIt);
    assert!(board.change());
    assert_eq!(board.len(), 1);
}

#[test]
fn board_starts_empty_and_grows_by_one_per_click() {
    let mut board = Model::create();
    assert_eq!(board.len(), 0);
    assert_eq!(board.card(0), None);
    for n in 1..=25usize {
        assert!(board.update(Msg::DoIt));
        assert_eq!(board.len(), n);
        assert_eq!(board.card(n - 1), Some(&Task { status: 0, fav: false, info: None }));
        assert_eq!(board.card(n), None);
    }
}

#[test]
fn delivery_reaches_one_card_only() {
    let mut board = Model::create();
    for _ in 0..4 {
        board.update(Msg::DoIt);
    }
    assert!(board.deliver(2, TaskMsg::Fetchit(payload("Ada", "Think."))));
    assert!(board.deliver(0, TaskMsg::ToggleFav));
    assert_eq!(board.len(), 4);
    assert_eq!(board.card(0), Some(&Task { status: 0, fav: true, info: None }));
    assert_eq!(board.card(1), Some(&Task { status: 0, fav: false, info: None }));
    assert_eq!(
        board.card(2),
        Some(&Task { status: 0, fav: false, info: Some(payload("Ada", "Think.")) })
    );
    assert_eq!(board.card(3), Some(&Task { status: 0, fav: false, info: None }));
}

#[test]
fn delivery_past_the_end_changes_nothing() {
    let mut board = Model::create();
    assert!(!board.deliver(0, TaskMsg::ToggleFav));
    board.update(Msg::DoIt);
    assert!(!board.deliver(1, TaskMsg::Fetchit(payload("Ada", "Think."))));
    assert!(!board.deliver(usize::MAX, TaskMsg::ToggleFav));
    assert_eq!(board.len(), 1);
    assert_eq!(board.card(0), Some(&Task { status: 0, fav: false, info: None }));
}

#[test]
fn board_shows_label_then_cards_in_order() {
    let mut board = Model::create();
    let empty = board.render();
    assert_eq!(empty.button, "fetch quotes of the day");
    assert!(empty.cards.is_empty());
    for _ in 0..3 {
        board.update(Msg::DoIt);
    }
    board.deliver(1, TaskMsg::Fetchit(payload("Ada", "Think.")));
    board.deliver(2, TaskMsg::Fetchit(payload("Grace", "Ship it.")));
    let shown = board.render();
    assert_eq!(shown.button, "fetch quotes of the day");
    assert_eq!(
        shown.cards,
        vec![
            CardText { heading: "fetching --->".to_string(), body: String::new() },
            CardText { heading: "Ada".to_string(), body: "Think.".to_string() },
            CardText { heading: "Grace".to_string(), body: "Ship it.".to_string() },
        ]
    );
}

#[test]
fn loop_waits_two_seconds_then_fetches() {
    assert_eq!(POLL_INTERVAL_SECS, 2);
    let mut poller = Poller::new();
    assert_eq!(poller, Poller::Idle);
    assert!(!poller.is_stopped());
    assert_eq!(
        poller.step(PollEvent::Start),
        PollAction { deliver: None, next: Command::Sleep(2) }
    );
    assert_eq!(poller, Poller::Waiting);
    assert_eq!(
        poller.step(PollEvent::TimerFired),
        PollAction { deliver: None, next: Command::Fetch }
    );
    assert_eq!(poller, Poller::Fetching);
    assert_eq!(
        poller.step(PollEvent::Replied(Reply::NoResponse)),
        PollAction { deliver: None, next: Command::Sleep(2) }
    );
    assert_eq!(poller, Poller::Waiting);
}

#[test]
fn reply_with_payload_is_handed_to_the_card() {
    let mut poller = Poller::Fetching;
    let reply = Reply::Response { status: 200, body: Some(ada_document()) };
    assert_eq!(
        poller.step(PollEvent::Replied(reply)),
        PollAction {
            deliver: Some(TaskMsg::Fetchit(payload("Ada", "Think."))),
            next: Command::Sleep(2),
        }
    );
    assert_eq!(poller, Poller::Waiting);
}

#[test]
fn events_that_do_not_fit_are_ignored() {
    let nothing = PollAction { deliver: None, next: Command::Nothing };
    let mut idle = Poller::Idle;
    assert_eq!(idle.step(PollEvent::TimerFired), nothing);
    let reply = Reply::Response { status: 200, body: Some(ada_document()) };
    assert_eq!(idle.step(PollEvent::Replied(reply)), nothing);
    assert_eq!(idle, Poller::Idle);
    let mut waiting = Poller::Waiting;
    assert_eq!(waiting.step(PollEvent::Start), nothing);
    let reply = Reply::Response { status: 200, body: Some(ada_document()) };
    assert_eq!(waiting.step(PollEvent::Replied(reply)), nothing);
    assert_eq!(waiting, Poller::Waiting);
    let mut fetching = Poller::Fetching;
    assert_eq!(fetching.step(PollEvent::Start), nothing);
    assert_eq!(fetching.step(PollEvent::TimerFired), nothing);
    assert_eq!(fetching, Poller::Fetching);
}

#[test]
fn cancel_ends_the_loop_for_good() {
    let halt = PollAction { deliver: None, next: Command::Halt };
    for start in [Poller::Idle, Poller::Waiting, Poller::Fetching, Poller::Stopped] {
        let mut poller = start;
        assert_eq!(poller.step(PollEvent::Cancel), halt);
        assert!(poller.is_stopped());
        assert_eq!(poller.step(PollEvent::Start), halt);
        assert_eq!(poller.step(PollEvent::TimerFired), halt);
        let reply = Reply::Response { status: 200, body: Some(ada_document()) };
        assert_eq!(poller.step(PollEvent::Replied(reply)), halt);
        assert_eq!(poller, Poller::Stopped);
    }
}

#[test]
fn one_poll_cycle_renders_the_quote() {
    let mut card = Task::create();
    let mut poller = Poller::new();
    assert_eq!(poller.step(PollEvent::Start).next, Command::Sleep(2));
    assert_eq!(card.author_text(), "fetching --->");
    cycle(&mut poller, &mut card, Reply::Response { status: 200, body: Some(ada_document()) });
    assert_eq!(card.author_text(), "Ada");
    assert_eq!(card.body_text(), "Think.");
}

#[test]
fn failing_cycles_keep_the_placeholder_until_a_payload_arrives() {
    let mut card = Task::create();
    let mut poller = Poller::new();
    poller.step(PollEvent::Start);
    cycle(&mut poller, &mut card, Reply::Response { status: 500, body: None });
    assert_eq!(card.author_text(), "fetching --->");
    assert_eq!(card.body_text(), "");
    cycle(&mut poller, &mut card, Reply::Response { status: 500, body: Some(ada_document()) });
    cycle(&mut poller, &mut card, Reply::NoResponse);
    cycle(&mut poller, &mut card, Reply::Response { status: 200, body: None });
    cycle(&mut poller, &mut card, Reply::Response { status: 200, body: Some(Json::Object(vec![])) });
    assert_eq!(card, Task { status: 0, fav: false, info: None });
    assert_eq!(card.author_text(), "fetching --->");
    cycle(&mut poller, &mut card, Reply::Response { status: 200, body: Some(ada_document()) });
    assert_eq!(card.author_text(), "Ada");
    assert_eq!(card.body_text(), "Think.");
    cycle(&mut poller, &mut card, Reply::Response { status: 500, body: None });
    assert_eq!(card.author_text(), "Ada");
}

#[test]
fn cards_poll_independently() {
    let mut board = Model::create();
    let mut pollers: Vec<Poller> = Vec::new();
    for _ in 0..3 {
        board.update(Msg::DoIt);
        let mut poller = Poller::new();
        poller.step(PollEvent::Start);
        pollers.push(poller);
    }
    pollers[1].step(PollEvent::TimerFired);
    let done = pollers[1].step(PollEvent::Replied(Reply::Response {
        status: 200,
        body: Some(ada_document()),
    }));
    if let Some(msg) = done.deliver {
        assert!(board.deliver(1, msg));
    }
    assert_eq!(pollers, vec![Poller::Waiting, Poller::Waiting, Poller::Waiting]);
    let shown = board.render();
    assert_eq!(shown.cards[0].heading, "fetching --->");
    assert_eq!(shown.cards[1].heading, "Ada");
    assert_eq!(shown.cards[1].body, "Think.");
    assert_eq!(shown.cards[2].heading, "fetching --->");
}
