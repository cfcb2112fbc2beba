//! The quote service's answer: the payload it carries, the schema that a
//! response body must meet, and what one poll yields.

use crate::json::{lemma_member_skips_other_names, texts_view, Json};
use vstd::prelude::*;

verus! {

/// One quote as the service describes it.
#[derive(Debug, PartialEq, Eq)]
pub struct Quote {
    pub id: i32,
    pub dialogue: bool,
    pub private: bool,
    pub tags: Vec<String>,
    pub favorites_count: i32,
    pub upvotes_count: i32,
    pub downvotes_count: i32,
    pub author: String,
    pub author_permalink: String,
    pub body: String,
}

/// What one successful fetch returns: the day and its quote.
#[derive(Debug, PartialEq, Eq)]
pub struct Payload {
    pub qotd_date: String,
    pub quote: Quote,
}

/// A quote as mathematical values.
pub ghost struct QuoteView {
    pub id: int,
    pub dialogue: bool,
    pub private: bool,
    pub tags: Seq<Seq<char>>,
    pub favorites_count: int,
    pub upvotes_count: int,
    pub downvotes_count: int,
    pub author: Seq<char>,
    pub author_permalink: Seq<char>,
    pub body: Seq<char>,
}

/// A payload as mathematical values.
pub ghost struct PayloadView {
    pub qotd_date: Seq<char>,
    pub quote: QuoteView,
}

impl View for Quote {
    type V = QuoteView;

    open spec fn view(&self) -> QuoteView {
        QuoteView {
            id: self.id as int,
            dialogue: self.dialogue,
            private: self.private,
            tags: texts_view(self.tags@),
            favorites_count: self.favorites_count as int,
            upvotes_count: self.upvotes_count as int,
            downvotes_count: self.downvotes_count as int,
            author: self.author@,
            author_permalink: self.author_permalink@,
            body: self.body@,
        }
    }
}

impl View for Payload {
    type V = PayloadView;

    open spec fn view(&self) -> PayloadView {
        PayloadView { qotd_date: self.qotd_date@, quote: self.quote@ }
    }
}

/// The quote that a document describes: an object in which each field of a
/// quote is present with a value of the field's type. Members of other names
/// do not matter. Any other document describes none.
pub open spec fn quote_of(doc: Json) -> Option<QuoteView> {
    if doc.spec_int32_at("id"@) is Some && doc.spec_flag_at("dialogue"@) is Some
        && doc.spec_flag_at("private"@) is Some && doc.spec_texts_at("tags"@) is Some
        && doc.spec_int32_at("favorites_count"@) is Some && doc.spec_int32_at("upvotes_count"@)
        is Some && doc.spec_int32_at("downvotes_count"@) is Some && doc.spec_text_at("author"@)
        is Some && doc.spec_text_at("author_permalink"@) is Some && doc.spec_text_at("body"@)
        is Some {
        Some(
            QuoteView {
                id: doc.spec_int32_at("id"@).unwrap(),
                dialogue: doc.spec_flag_at("dialogue"@).unwrap(),
                private: doc.spec_flag_at("private"@).unwrap(),
                tags: doc.spec_texts_at("tags"@).unwrap(),
                favorites_count: doc.spec_int32_at("favorites_count"@).unwrap(),
                upvotes_count: doc.spec_int32_at("upvotes_count"@).unwrap(),
                downvotes_count: doc.spec_int32_at("downvotes_count"@).unwrap(),
                author: doc.spec_text_at("author"@).unwrap(),
                author_permalink: doc.spec_text_at("author_permalink"@).unwrap(),
                body: doc.spec_text_at("body"@).unwrap(),
            },
        )
    } else {
        None
    }
}

/// The payload that a document describes: an object with a string
/// `qotd_date` and a `quote` that describes a quote.
pub open spec fn payload_of(doc: Json) -> Option<PayloadView> {
    match (doc.spec_text_at("qotd_date"@), doc.spec_get("quote"@)) {
        (Some(date), Some(inner)) => match quote_of(inner) {
            Some(quote) => Some(PayloadView { qotd_date: date, quote }),
            None => None,
        },
        _ => None,
    }
}

/// Whether a quote has a field of this name.
pub open spec fn is_quote_field(name: Seq<char>) -> bool {
    name == "id"@ || name == "dialogue"@ || name == "private"@ || name == "tags"@ || name
        == "favorites_count"@ || name == "upvotes_count"@ || name == "downvotes_count"@ || name
        == "author"@ || name == "author_permalink"@ || name == "body"@
}

/// Whether a payload has a field of this name.
pub open spec fn is_payload_field(name: Seq<char>) -> bool {
    name == "qotd_date"@ || name == "quote"@
}

/// `wider` is the object `doc` with one more member, `extra`, at position
/// `at`.
pub open spec fn widens(doc: Json, wider: Json, at: int, extra: (String, Json)) -> bool {
    &&& doc is Object
    &&& wider is Object
    &&& 0 <= at <= doc->Object_0@.len()
    &&& wider->Object_0@ == doc->Object_0@.insert(at, extra)
}

/// A member that is no field of a quote may stand anywhere in the object: the
/// quote that the object describes is the same with and without it.
pub proof fn lemma_quote_ignores_extra_member(
    doc: Json,
    wider: Json,
    at: int,
    extra: (String, Json),
)
    requires
        widens(doc, wider, at, extra),
        !is_quote_field(extra.0@),
    ensures
        quote_of(wider) == quote_of(doc),
{
    let members = doc->Object_0@;
    lemma_member_skips_other_names(members, at, extra, "id"@, 0);
    lemma_member_skips_other_names(members, at, extra, "dialogue"@, 0);
    lemma_member_skips_other_names(members, at, extra, "private"@, 0);
    lemma_member_skips_other_names(members, at, extra, "tags"@, 0);
    lemma_member_skips_other_names(members, at, extra, "favorites_count"@, 0);
    lemma_member_skips_other_names(members, at, extra, "upvotes_count"@, 0);
    lemma_member_skips_other_names(members, at, extra, "downvotes_count"@, 0);
    lemma_member_skips_other_names(members, at, extra, "author"@, 0);
    lemma_member_skips_other_names(members, at, extra, "author_permalink"@, 0);
    lemma_member_skips_other_names(members, at, extra, "body"@, 0);
}

/// A member that is no field of a payload may stand anywhere in the
/// document: the payload that the document describes is the same with and
/// without it.
pub proof fn lemma_payload_ignores_extra_member(
    doc: Json,
    wider: Json,
    at: int,
    extra: (String, Json),
)
    requires
        widens(doc, wider, at, extra),
        !is_payload_field(extra.0@),
    ensures
        payload_of(wider) == payload_of(doc),
{
    let members = doc->Object_0@;
    lemma_member_skips_other_names(members, at, extra, "qotd_date"@, 0);
    lemma_member_skips_other_names(members, at, extra, "quote"@, 0);
}

/// A copy of a list of strings.
fn clone_texts(texts: &Vec<String>) -> (copy: Vec<String>)
    ensures
        copy@ == texts@,
{
    let mut copy: Vec<String> = Vec::new();
    let mut i: usize = 0;
    while i < texts.len()
        invariant
            i <= texts@.len(),
            copy@ == texts@.take(i as int),
        decreases texts@.len() - i,
    {
        copy.push(texts[i].clone());
        assert(copy@ =~= texts@.take(i + 1));
        i += 1;
    }
    assert(texts@.take(i as int) =~= texts@);
    copy
}

impl Clone for Quote {
    fn clone(&self) -> (copy: Self)
        ensures
            copy@ == self@,
    {
        Quote {
            id: self.id,
            dialogue: self.dialogue,
            private: self.private,
            tags: clone_texts(&self.tags),
            favorites_count: self.favorites_count,
            upvotes_count: self.upvotes_count,
            downvotes_count: self.downvotes_count,
            author: self.author.clone(),
            author_permalink: self.author_permalink.clone(),
            body: self.body.clone(),
        }
    }
}

impl Clone for Payload {
    fn clone(&self) -> (copy: Self)
        ensures
            copy@ == self@,
    {
        Payload { qotd_date: self.qotd_date.clone(), quote: self.quote.clone() }
    }
}

impl Quote {
    /// Reads a quote out of a document. Succeeds exactly on the documents
    /// that describe one, and then every field equals the document's.
    pub fn from_json(doc: &Json) -> (quote: Option<Quote>)
        ensures
            match quote {
                Some(q) => quote_of(*doc) == Some(q@),
                None => quote_of(*doc) is None,
            },
    {
        let id = match doc.int32_at("id") {
            Some(v) => v,
            None => { return None; },
        };
        let dialogue = match doc.flag_at("dialogue") {
            Some(v) => v,
            None => { return None; },
        };
        let private = match doc.flag_at("private") {
            Some(v) => v,
            None => { return None; },
        };
        let tags = match doc.texts_at("tags") {
            Some(v) => v,
            None => { return None; },
        };
        let favorites_count = match doc.int32_at("favorites_count") {
            Some(v) => v,
            None => { return None; },
        };
        let upvotes_count = match doc.int32_at("upvotes_count") {
            Some(v) => v,
            None => { return None; },
        };
        let downvotes_count = match doc.int32_at("downvotes_count") {
            Some(v) => v,
            None => { return None; },
        };
        let author = match doc.text_at("author") {
            Some(v) => v,
            None => { return None; },
        };
        let author_permalink = match doc.text_at("author_permalink") {
            Some(v) => v,
            None => { return None; },
        };
        let body = match doc.text_at("body") {
            Some(v) => v,
            None => { return None; },
        };
        Some(
            Quote {
                id,
                dialogue,
                private,
                tags,
                favorites_count,
                upvotes_count,
                downvotes_count,
                author,
                author_permalink,
                body,
            },
        )
    }
}

impl Payload {
    /// Reads a payload out of a document. Succeeds exactly on the documents
    /// that describe one, and then every field equals the document's.
    pub fn from_json(doc: &Json) -> (payload: Option<Payload>)
        ensures
            match payload {
                Some(p) => payload_of(*doc) == Some(p@),
                None => payload_of(*doc) is None,
            },
    {
        let qotd_date = match doc.text_at("qotd_date") {
            Some(v) => v,
            None => { return None; },
        };
        let inner = match doc.get("quote") {
            Some(j) => j,
            None => { return None; },
        };
        match Quote::from_json(inner) {
            Some(quote) => Some(Payload { qotd_date, quote }),
            None => None,
        }
    }
}

/// The address of the quote service; requests are plain cross-origin GETs.
pub const ENDPOINT: &'static str = "https://favqs.com/api/qotd";

/// The one request that a poll makes.
#[derive(Debug, PartialEq, Eq)]
pub struct RequestPlan {
    pub method: String,
    pub url: String,
    /// Whether the request is made in cross-origin mode.
    pub cross_origin: bool,
}

/// The request of every poll: a cross-origin GET of the endpoint, with no
/// body and no headers of its own.
pub fn request_plan() -> (plan: RequestPlan)
    ensures
        plan.method@ == "GET"@,
        plan.url@ == ENDPOINT@,
        plan.cross_origin,
{
    RequestPlan { method: "GET".to_owned(), url: ENDPOINT.to_owned(), cross_origin: true }
}

/// What the transport hands over after one request.
#[derive(Debug, PartialEq, Eq)]
pub enum Reply {
    /// The request did not complete: no response came back.
    NoResponse,
    /// A response came back. `body` is the document it carried, or nothing
    /// where the body was not JSON.
    Response { status: u16, body: Option<Json> },
}

/// Why a poll did or did not yield a payload.
#[derive(Debug, PartialEq, Eq)]
pub enum Outcome {
    /// The service answered with a payload.
    Ready(Payload),
    /// The service answered, but with nothing usable: the body was not JSON
    /// or did not describe a payload.
    NoData,
    /// The request failed or the service reported a failure.
    TransientError,
}

/// An outcome as mathematical values.
pub ghost enum OutcomeView {
    Ready(PayloadView),
    NoData,
    TransientError,
}

impl View for Outcome {
    type V = OutcomeView;

    open spec fn view(&self) -> OutcomeView {
        match self {
            Outcome::Ready(p) => OutcomeView::Ready(p@),
            Outcome::NoData => OutcomeView::NoData,
            Outcome::TransientError => OutcomeView::TransientError,
        }
    }
}

impl OutcomeView {
    /// The payload of a `Ready`; nothing otherwise.
    pub open spec fn payload(self) -> Option<PayloadView> {
        match self {
            OutcomeView::Ready(p) => Some(p),
            _ => None,
        }
    }
}

/// The view of a payload that may be absent.
pub open spec fn payload_view(payload: Option<Payload>) -> Option<PayloadView> {
    match payload {
        Some(p) => Some(p@),
        None => None,
    }
}

/// Whether a status code reports success.
pub open spec fn status_ok(status: u16) -> bool {
    200 <= status <= 299
}

/// The outcome of a poll that got the given reply.
pub open spec fn spec_classify(reply: Reply) -> OutcomeView {
    match reply {
        Reply::NoResponse => OutcomeView::TransientError,
        Reply::Response { status, body } => if !status_ok(status) {
            OutcomeView::TransientError
        } else {
            match body {
                Some(doc) => match payload_of(doc) {
                    Some(p) => OutcomeView::Ready(p),
                    None => OutcomeView::NoData,
                },
                None => OutcomeView::NoData,
            }
        },
    }
}

/// The payload that a poll yields from the given reply: the one that a
/// successful response's document describes, and nothing in every other case.
pub open spec fn spec_fetchit(reply: Reply) -> Option<PayloadView> {
    match reply {
        Reply::Response { status, body: Some(doc) } => if status_ok(status) {
            payload_of(doc)
        } else {
            None
        },
        _ => None,
    }
}

impl Outcome {
    /// Sorts a reply into the three outcomes.
    pub fn classify(reply: &Reply) -> (outcome: Outcome)
        ensures
            outcome@ == spec_classify(*reply),
    {
        match reply {
            Reply::NoResponse => Outcome::TransientError,
            Reply::Response { status, body } => {
                if *status < 200 || *status > 299 {
                    Outcome::TransientError
                } else {
                    match body {
                        Some(doc) => match Payload::from_json(doc) {
                            Some(p) => Outcome::Ready(p),
                            None => Outcome::NoData,
                        },
                        None => Outcome::NoData,
                    }
                }
            },
        }
    }

    /// Gives up the reason and keeps the payload, if there is one.
    pub fn into_payload(self) -> (payload: Option<Payload>)
        ensures
            payload_view(payload) == self@.payload(),
    {
        match self {
            Outcome::Ready(p) => Some(p),
            _ => None,
        }
    }
}

/// The result of one poll, from what the transport handed over. A failed
/// request, a failure status, a body that is not JSON and a document that does
/// not describe a payload all give nothing; no reply makes this fail.
pub fn fetchit(reply: &Reply) -> (payload: Option<Payload>)
    ensures
        payload_view(payload) == spec_fetchit(*reply),
{
    Outcome::classify(reply).into_payload()
}

/// Every outcome but `Ready` yields no payload, and `Ready` yields its own:
/// the payload of a poll is the payload of its outcome.
pub proof fn lemma_fetchit_is_outcome_payload(reply: Reply)
    ensures
        spec_fetchit(reply) == spec_classify(reply).payload(),
{
}

} // verus!
