use vstd::prelude::*;
use vstd::string::*;
use crate::prompt::{build_prompt, prompt_text};
use crate::wire::{answer_in_body, json_str_member, RESPONSE_KEY};

verus! {

/// What the answer panel shows when an exchange with the server fails.
pub const ERROR_ANSWER: &'static str = "Error communicating with Ollama";

/// Label of the submit control while no request is in flight.
pub const ASK_LABEL: &'static str = "Ask";

/// Label of the submit control while a request is in flight.
pub const LOADING_LABEL: &'static str = "Loading...";

/// How an HTTP exchange with the inference server ended.
pub enum Reply {
    /// The request could not be completed; holds the transport's description.
    TransportFailed(String),
    /// The server answered with `status`; `body` is `None` where it could not
    /// be read as text.
    Received { status: u16, body: Option<String> },
}

/// A diagnostic to be logged after a failed exchange.
pub enum Diagnostic {
    /// The transport failed, with its description.
    Transport(String),
    /// The server answered with a status outside 200..=299.
    Status(u16),
}

/// The controller's observable state: the question being typed, the answer
/// shown (empty: none yet), and whether a request is in flight.
pub struct QueryState {
    pub question: Seq<char>,
    pub answer: Seq<char>,
    pub in_flight: bool,
}

/// The state of the question form, changed by input, submission and replies.
pub struct QueryController {
    question: String,
    answer: String,
    in_flight: bool,
}

impl View for QueryController {
    type V = QueryState;

    closed spec fn view(&self) -> QueryState {
        QueryState { question: self.question@, answer: self.answer@, in_flight: self.in_flight }
    }
}

/// A status in 200..=299.
pub open spec fn is_success(status: u16) -> bool {
    200 <= status <= 299
}

/// A submission is taken only with a non-empty question and no request in
/// flight.
pub open spec fn accepts_submit(s: QueryState) -> bool {
    s.question.len() > 0 && !s.in_flight
}

/// The state after a submission.
pub open spec fn after_submit(s: QueryState) -> QueryState {
    if accepts_submit(s) {
        QueryState { in_flight: true, ..s }
    } else {
        s
    }
}

/// The answer shown after `reply`, where `previous` was shown before: the
/// server's text on a success whose body carries it, the error text on a
/// failed transport or a non-success status, and `previous` otherwise.
pub open spec fn answer_after(previous: Seq<char>, reply: Reply) -> Seq<char> {
    match reply {
        Reply::TransportFailed(_) => ERROR_ANSWER@,
        Reply::Received { status, body } => {
            if !is_success(status) {
                ERROR_ANSWER@
            } else {
                match body {
                    Some(b) => match json_str_member(b@, RESPONSE_KEY@) {
                        Some(t) => t,
                        None => previous,
                    },
                    None => previous,
                }
            }
        },
    }
}

/// The state after the in-flight request resolved with `reply`.
pub open spec fn after_reply(s: QueryState, reply: Reply) -> QueryState {
    QueryState { answer: answer_after(s.answer, reply), in_flight: false, ..s }
}

/// The diagnostic logged for `reply`: one for each failure that shows the
/// error text, none otherwise.
pub open spec fn diagnostic_of(reply: Reply) -> Option<Diagnostic> {
    match reply {
        Reply::TransportFailed(d) => Some(Diagnostic::Transport(d)),
        Reply::Received { status, body } => {
            if is_success(status) {
                None
            } else {
                Some(Diagnostic::Status(status))
            }
        },
    }
}

/// Submitting a non-empty question and then receiving a success whose body's
/// `response` member is the string `x` shows exactly `x`, and leaves nothing
/// in flight.
pub proof fn answered_round_trip(s: QueryState, status: u16, body: String, x: Seq<char>)
    requires
        s.question.len() > 0,
        is_success(status),
        json_str_member(body@, RESPONSE_KEY@) == Some(x),
    ensures
        after_submit(s).in_flight,
        after_reply(after_submit(s), Reply::Received { status, body: Some(body) }).answer == x,
        !after_reply(after_submit(s), Reply::Received { status, body: Some(body) }).in_flight,
{
}

/// A failed transport or a status outside 200..=299 shows the error text and
/// yields a diagnostic.
pub proof fn failed_exchange_shows_error(s: QueryState, reply: Reply)
    requires
        reply matches Reply::Received { status, .. } ==> !is_success(status),
    ensures
        after_reply(s, reply).answer == ERROR_ANSWER@,
        diagnostic_of(reply) is Some,
{
}

/// A success whose body has no string `response` member leaves the shown
/// answer as it was.
pub proof fn memberless_reply_keeps_answer(s: QueryState, status: u16, body: String)
    requires
        is_success(status),
        json_str_member(body@, RESPONSE_KEY@) is None,
    ensures
        after_reply(s, Reply::Received { status, body: Some(body) }).answer == s.answer,
        diagnostic_of(Reply::Received { status, body: Some(body) }) is None,
{
}

/// Whatever the reply, the request is no longer in flight afterwards, so the
/// submit control is enabled again.
pub proof fn reply_ends_flight(s: QueryState, reply: Reply)
    ensures
        !after_reply(s, reply).in_flight,
{
}

impl QueryController {
    /// An empty question, no answer, nothing in flight.
    pub fn new() -> (r: Self)
        ensures
            r@ == (QueryState { question: Seq::empty(), answer: Seq::empty(), in_flight: false }),
    {
        QueryController { question: String::new(), answer: String::new(), in_flight: false }
    }

    pub fn question(&self) -> (r: &str)
        ensures
            r@ == self@.question,
    {
        self.question.as_str()
    }

    pub fn answer(&self) -> (r: &str)
        ensures
            r@ == self@.answer,
    {
        self.answer.as_str()
    }

    pub fn in_flight(&self) -> (r: bool)
        ensures
            r == self@.in_flight,
    {
        self.in_flight
    }

    /// Replaces the question with `text`, in any state.
    pub fn on_input_change(&mut self, text: String)
        ensures
            final(self)@ == (QueryState { question: text@, ..old(self)@ }),
    {
        self.question = text;
    }

    /// Submits the question. With a non-empty question and nothing in flight
    /// the request becomes in flight and the prompt to send is returned;
    /// otherwise nothing changes and nothing is to be sent.
    pub fn on_submit(&mut self) -> (r: Option<String>)
        ensures
            final(self)@ == after_submit(old(self)@),
            r is Some <==> accepts_submit(old(self)@),
            r matches Some(p) ==> p@ == prompt_text(old(self)@.question),
            old(self)@.question.len() == 0 ==> r is None && final(self)@ == old(self)@,
            old(self)@.question.len() > 0 ==> final(self)@.in_flight,
    {
        if self.question.as_str().is_empty() || self.in_flight {
            None
        } else {
            self.in_flight = true;
            Some(build_prompt(self.question.as_str()))
        }
    }

    /// Records how the in-flight request ended, and returns what to log.
    pub fn on_reply(&mut self, reply: Reply) -> (d: Option<Diagnostic>)
        requires
            old(self)@.in_flight,
        ensures
            final(self)@ == after_reply(old(self)@, reply),
            !final(self)@.in_flight,
            d == diagnostic_of(reply),
    {
        let d = match reply {
            Reply::TransportFailed(desc) => {
                self.answer = String::from_str(ERROR_ANSWER);
                Some(Diagnostic::Transport(desc))
            },
            Reply::Received { status, body } => {
                if 200 <= status && status <= 299 {
                    match body {
                        Some(b) => match answer_in_body(b.as_str()) {
                            Some(t) => {
                                self.answer = t;
                            },
                            None => {},
                        },
                        None => {},
                    }
                    None
                } else {
                    self.answer = String::from_str(ERROR_ANSWER);
                    Some(Diagnostic::Status(status))
                }
            },
        };
        self.in_flight = false;
        d
    }

    /// The submit control is enabled exactly while nothing is in flight.
    pub fn submit_enabled(&self) -> (r: bool)
        ensures
            r == !self@.in_flight,
    {
        !self.in_flight
    }

    /// The submit control's label.
    pub fn submit_label(&self) -> (r: &'static str)
        ensures
            r@ == (if self@.in_flight { LOADING_LABEL@ } else { ASK_LABEL@ }),
    {
        if self.in_flight {
            LOADING_LABEL
        } else {
            ASK_LABEL
        }
    }

    /// The answer panel is shown exactly when there is an answer.
    pub fn shows_answer(&self) -> (r: bool)
        ensures
            r == (self@.answer.len() > 0),
    {
        !self.answer.as_str().is_empty()
    }
}

} // verus!
