//! The lifecycle of a paste: what the paste store does, step by step, to
//! create a paste and to fetch one.
//!
//! The store and its connection pool are outside this library. An operation
//! is therefore a small machine: it names the next thing to do (`Action`),
//! and is told how that went (`Event`).

use crate::command::{namespaced, namespaced_key, StoreCommand, StoreCommandView, EXPIRY_SECS};
use crate::error::{PastaError, PastaErrorView};
use crate::key::{generate_key, valid_key, KEY_LEN};
use bb8::RunError;
use redis::RedisError;
use vstd::prelude::*;
use vstd::utf8::*;

verus! {

/// What a client asks of the paste store.
#[derive(Debug)]
pub enum Request {
    /// Keep the content, and hand back the key that fetches it.
    Create { content: String },
    /// Hand back the content kept under the key, and forget it.
    Fetch { key: String },
}

/// A `Request`, with its text as a sequence of characters.
pub enum RequestView {
    Create { content: Seq<char> },
    Fetch { key: Seq<char> },
}

impl View for Request {
    type V = RequestView;

    open spec fn view(&self) -> RequestView {
        match *self {
            Request::Create { content } => RequestView::Create { content: content@ },
            Request::Fetch { key } => RequestView::Fetch { key: key@ },
        }
    }
}

/// How far an operation has come.
#[derive(Debug)]
pub enum State {
    /// Waiting for a connection from the pool.
    Connecting(Request),
    /// Waiting for the backing store to acknowledge the paste filed under `key`.
    Writing { key: String },
    /// Waiting for the backing store to hand over the paste filed under `key`.
    Reading { key: String },
    /// The operation has ended.
    Done,
}

/// A `State`, with its text as a sequence of characters.
pub enum StateView {
    Connecting(RequestView),
    Writing { key: Seq<char> },
    Reading { key: Seq<char> },
    Done,
}

impl View for State {
    type V = StateView;

    open spec fn view(&self) -> StateView {
        match *self {
            State::Connecting(request) => StateView::Connecting(request@),
            State::Writing { key } => StateView::Writing { key: key@ },
            State::Reading { key } => StateView::Reading { key: key@ },
            State::Done => StateView::Done,
        }
    }
}

/// How the last action went.
#[derive(Debug)]
pub enum Event {
    /// The pool supplied a connection.
    Connected,
    /// The pool supplied none.
    ConnectFailed(RunError<RedisError>),
    /// The backing store has stored the value.
    Stored,
    /// The backing store has handed over, and removed, what it held under
    /// the key: `None` where it held nothing.
    Fetched(Option<Vec<u8>>),
    /// The backing store reported an error.
    StoreFailed(RedisError),
}

/// An `Event`, with its bytes as a sequence.
pub enum EventView {
    Connected,
    ConnectFailed(RunError<RedisError>),
    Stored,
    Fetched(Option<Seq<u8>>),
    StoreFailed(RedisError),
}

/// What the backing store handed over, as a sequence of bytes.
pub open spec fn found_view(found: Option<Vec<u8>>) -> Option<Seq<u8>> {
    match found {
        Some(bytes) => Some(bytes@),
        None => None,
    }
}

impl View for Event {
    type V = EventView;

    open spec fn view(&self) -> EventView {
        match *self {
            Event::Connected => EventView::Connected,
            Event::ConnectFailed(e) => EventView::ConnectFailed(e),
            Event::Stored => EventView::Stored,
            Event::Fetched(found) => EventView::Fetched(found_view(found)),
            Event::StoreFailed(e) => EventView::StoreFailed(e),
        }
    }
}

/// What is to be done next.
#[derive(Debug)]
pub enum Action {
    /// Take a connection from the pool.
    Connect,
    /// Send the command to the backing store, over the connection.
    Send(StoreCommand),
    /// Give the connection back and answer the client.
    Finish(Result<String, PastaError>),
}

/// The answer to the client, up to views: the text, or the error.
pub type AnswerView = Result<Seq<char>, PastaErrorView>;

/// An `Action`, with its command and its answer up to views.
pub enum ActionView {
    Connect,
    Send(StoreCommandView),
    Finish(AnswerView),
}

/// The view of the answer to the client.
pub open spec fn answer_view(answer: Result<String, PastaError>) -> AnswerView {
    match answer {
        Ok(text) => Ok(text@),
        Err(e) => Err(e@),
    }
}

impl View for Action {
    type V = ActionView;

    open spec fn view(&self) -> ActionView {
        match *self {
            Action::Connect => ActionView::Connect,
            Action::Send(command) => ActionView::Send(command@),
            Action::Finish(answer) => ActionView::Finish(answer_view(answer)),
        }
    }
}

/// The state and action with which the operation for `request` begins.
pub open spec fn start_spec(request: RequestView) -> (StateView, ActionView) {
    (StateView::Connecting(request), ActionView::Connect)
}

/// The answer to a fetch of `key` to which the backing store handed over
/// `found`: the text that the bytes encode; a decoding error for bytes that
/// encode none; and, where nothing was found, that no paste has this key.
pub open spec fn fetched_spec(key: Seq<char>, found: Option<Seq<u8>>) -> AnswerView {
    match found {
        Some(bytes) => if valid_utf8(bytes) {
            Ok(decode_utf8(bytes))
        } else {
            Err(PastaErrorView::PasteDecodeError)
        },
        None => Err(PastaErrorView::NotFound(key)),
    }
}

/// The state and action that follow `event` in `state`, where `fresh_key`
/// is the key that a paste created at this step gets. `None` where `event`
/// answers no action that `state` waits for.
pub open spec fn step_spec(state: StateView, event: EventView, fresh_key: Seq<char>) -> Option<
    (StateView, ActionView),
> {
    match (state, event) {
        (StateView::Connecting(RequestView::Create { content }), EventView::Connected) => Some(
            (
                StateView::Writing { key: fresh_key },
                ActionView::Send(
                    StoreCommandView::SetEx {
                        key: namespaced(fresh_key),
                        value: content,
                        seconds: EXPIRY_SECS as nat,
                    },
                ),
            ),
        ),
        (StateView::Connecting(RequestView::Fetch { key }), EventView::Connected) => Some(
            (
                StateView::Reading { key },
                ActionView::Send(StoreCommandView::GetDel { key: namespaced(key) }),
            ),
        ),
        (StateView::Connecting(_), EventView::ConnectFailed(RunError::User(e))) => Some(
            (StateView::Done, ActionView::Finish(Err(PastaErrorView::RedisError(e)))),
        ),
        (StateView::Connecting(_), EventView::ConnectFailed(RunError::TimedOut)) => Some(
            (StateView::Done, ActionView::Finish(Err(PastaErrorView::ConnectionTimeout))),
        ),
        (StateView::Writing { key }, EventView::Stored) => Some(
            (StateView::Done, ActionView::Finish(Ok(key))),
        ),
        (StateView::Reading { key }, EventView::Fetched(found)) => Some(
            (StateView::Done, ActionView::Finish(fetched_spec(key, found))),
        ),
        (StateView::Writing { .. }, EventView::StoreFailed(e)) => Some(
            (StateView::Done, ActionView::Finish(Err(PastaErrorView::RedisError(e)))),
        ),
        (StateView::Reading { .. }, EventView::StoreFailed(e)) => Some(
            (StateView::Done, ActionView::Finish(Err(PastaErrorView::RedisError(e)))),
        ),
        _ => None,
    }
}

/// How many steps an operation in `state` can still take.
pub open spec fn steps_left(state: StateView) -> nat {
    match state {
        StateView::Connecting(_) => 2,
        StateView::Writing { .. } => 1,
        StateView::Reading { .. } => 1,
        StateView::Done => 0,
    }
}

/// Every step brings an operation nearer to its end, and only the step
/// that follows the connection sends a command: an operation sends one
/// command at most, and a reply of any sort ends it. An operation ends
/// exactly when it answers the client.
pub proof fn law_single_attempt(state: StateView, event: EventView, fresh_key: Seq<char>)
    ensures
        step_spec(state, event, fresh_key) matches Some((next, action)) ==> {
            &&& steps_left(next) < steps_left(state)
            &&& action is Send ==> state is Connecting
            &&& action is Finish <==> next is Done
            &&& !(action is Connect)
        },
{
}

/// An operation that gets no connection within the pool's timeout ends at
/// once: it sends nothing to the backing store and answers
/// `ConnectionTimeout`.
pub proof fn law_connection_timeout(request: RequestView, fresh_key: Seq<char>)
    ensures
        step_spec(
            start_spec(request).0,
            EventView::ConnectFailed(RunError::TimedOut),
            fresh_key,
        ) == Some(
            (StateView::Done, ActionView::Finish(Err(PastaErrorView::ConnectionTimeout))),
        ),
{
}

/// Begins the operation for `request`: it first needs a connection.
pub fn start(request: Request) -> (next: (State, Action))
    ensures
        next@ == start_spec(request@),
{
    (State::Connecting(request), Action::Connect)
}

/// Files `content` under `key`, now that there is a connection: the paste
/// goes to the backing store under the namespaced key and expires after
/// `EXPIRY_SECS`.
pub fn file_under(key: String, content: String) -> (next: (State, Action))
    requires
        valid_key(key@),
    ensures
        Some(next@) == step_spec(
            StateView::Connecting(RequestView::Create { content: content@ }),
            EventView::Connected,
            key@,
        ),
{
    let command = StoreCommand::SetEx {
        key: namespaced_key(key.as_str()),
        value: content,
        seconds: EXPIRY_SECS,
    };
    (State::Writing { key }, Action::Send(command))
}

/// The answer to a fetch of `key` to which the backing store handed over
/// `found`.
pub fn fetched(key: String, found: Option<Vec<u8>>) -> (answer: Result<String, PastaError>)
    ensures
        answer_view(answer) == fetched_spec(key@, found_view(found)),
{
    match found {
        Some(bytes) => match String::from_utf8(bytes) {
            Ok(text) => Ok(text),
            Err(e) => Err(PastaError::from(e)),
        },
        None => Err(PastaError::NotFound(key)),
    }
}

/// The views of what a step hands back.
pub open spec fn next_view(next: Option<(State, Action)>) -> Option<(StateView, ActionView)> {
    match next {
        Some(pair) => Some(pair@),
        None => None,
    }
}

/// Takes the operation one step further: given how the last action went,
/// says what to do next. `None` where `event` answers no action that
/// `state` waits for. A paste that is created at this step gets a fresh
/// random key.
pub fn step(state: State, event: Event) -> (next: Option<(State, Action)>)
    ensures
        exists|fresh_key: Seq<char>|
            valid_key(fresh_key) && next_view(next) == #[trigger] step_spec(
                state@,
                event@,
                fresh_key,
            ),
{
    let ghost any_key = Seq::new(KEY_LEN as nat, |i: int| 'a');
    let next = match (state, event) {
        (State::Connecting(Request::Create { content }), Event::Connected) => {
            let fresh_key = generate_key();
            let next = file_under(fresh_key, content);
            assert(Some(next@) == step_spec(state@, event@, fresh_key@));
            return Some(next);
        },
        (State::Connecting(Request::Fetch { key }), Event::Connected) => {
            let command = StoreCommand::GetDel { key: namespaced_key(key.as_str()) };
            Some((State::Reading { key }, Action::Send(command)))
        },
        (State::Connecting(_), Event::ConnectFailed(e)) => Some(
            (State::Done, Action::Finish(Err(PastaError::from(e)))),
        ),
        (State::Writing { key }, Event::Stored) => Some((State::Done, Action::Finish(Ok(key)))),
        (State::Reading { key }, Event::Fetched(found)) => Some(
            (State::Done, Action::Finish(fetched(key, found))),
        ),
        (State::Writing { .. }, Event::StoreFailed(e)) => Some(
            (State::Done, Action::Finish(Err(PastaError::from(e)))),
        ),
        (State::Reading { .. }, Event::StoreFailed(e)) => Some(
            (State::Done, Action::Finish(Err(PastaError::from(e)))),
        ),
        _ => None,
    };
    assert(valid_key(any_key));
    assert(next_view(next) == step_spec(state@, event@, any_key));
    next
}

} // verus!
