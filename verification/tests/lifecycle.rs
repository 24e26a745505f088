use bb8::RunError;
use pasta::command::StoreCommand;
use pasta::error::PastaError;
use pasta::paste::{fetched, file_under, start, step, Action, Event, Request, State};
use redis::{ErrorKind, RedisError};
use std::collections::HashMap;

/// A store in memory that serves the two commands as the backing store does.
struct FakeStore {
    now: u64,
    entries: HashMap<String, (Vec<u8>, u64)>,
    served: Vec<String>,
}

impl FakeStore {
    fn new() -> FakeStore {
        FakeStore { now: 0, entries: HashMap::new(), served: Vec::new() }
    }

    fn elapse(&mut self, seconds: u64) {
        self.now += seconds;
    }

    fn execute(&mut self, command: StoreCommand) -> Event {
        match command {
            StoreCommand::SetEx { key, value, seconds } => {
                self.served.push(format!("SETEX {} {}", key, seconds));
                self.entries.insert(key, (value.into_bytes(), self.now + seconds as u64));
                Event::Stored
            }
            StoreCommand::GetDel { key } => {
                self.served.push(format!("GETDEL {}", key));
                let now = self.now;
                let found = self.entries.remove(&key).filter(|entry| now < entry.1);
                Event::Fetched(found.map(|entry| entry.0))
            }
        }
    }
}

fn serve(store: &mut FakeStore, request: Request) -> Result<String, PastaError> {
    let (mut state, mut action) = start(request);
    loop {
        let event = match action {
            Action::Connect => Event::Connected,
            Action::Send(command) => store.execute(command),
            Action::Finish(answer) => return answer,
        };
        let next = step(state, event).expect("the event answers the action");
        state = next.0;
        action = next.1;
    }
}

fn create(store: &mut FakeStore, content: &str) -> String {
    serve(store, Request::Create { content: String::from(content) }).expect("create succeeds")
}

fn create_under(store: &mut FakeStore, key: &str, content: &str) -> String {
    let (state, action) = file_under(String::from(key), String::from(content));
    let event = match action {
        Action::Send(command) => store.execute(command),
        other => panic!("unexpected action: {:?}", other),
    };
    match step(state, event) {
        Some((State::Done, Action::Finish(Ok(key)))) => key,
        other => panic!("unexpected step: {:?}", other),
    }
}

fn fetch(store: &mut FakeStore, key: &str) -> Result<String, PastaError> {
    serve(store, Request::Fetch { key: String::from(key) })
}

fn is_not_found(answer: &Result<String, PastaError>, key: &str) -> bool {
    matches!(answer, Err(PastaError::NotFound(k)) if k == key)
}

fn store_error() -> RedisError {
    RedisError::from((ErrorKind::ResponseError, "unexpected reply"))
}

#[test]
fn scenario_create_fetch_fetch_again() {
    let mut store = FakeStore::new();
    let key = create(&mut store, "hello world");
    assert_eq!(key.chars().count(), 8);
    assert_eq!(fetch(&mut store, &key).unwrap(), "hello world");
    let again = fetch(&mut store, &key);
    assert!(is_not_found(&again, &key));
    assert_eq!(again.unwrap_err().into_response().body, format!("not found: {}", key));
}

#[test]
fn round_trip_returns_the_content() {
    let contents = ["", "a", "hello world", "line one\nline two\r\n", "héllo ✓ 日本語 🦀", "\0nul"];
    for content in contents {
        let mut store = FakeStore::new();
        let key = create(&mut store, content);
        assert_eq!(fetch(&mut store, &key).unwrap(), content);
    }
}

#[test]
fn round_trip_of_a_large_paste() {
    let content = "0123456789abcdef".repeat(65536);
    let mut store = FakeStore::new();
    let key = create(&mut store, &content);
    assert_eq!(fetch(&mut store, &key).unwrap(), content);
}

#[test]
fn fetch_succeeds_exactly_once() {
    let mut store = FakeStore::new();
    let key = create(&mut store, "only once");
    assert_eq!(fetch(&mut store, &key).unwrap(), "only once");
    for _ in 0..5 {
        assert!(is_not_found(&fetch(&mut store, &key), &key));
        store.elapse(100);
        create_under(&mut store, "other000", "something else");
    }
}

#[test]
fn unknown_key_is_not_found() {
    let mut store = FakeStore::new();
    assert!(is_not_found(&fetch(&mut store, "nosuchky"), "nosuchky"));
    create_under(&mut store, "abcd1234", "content");
    assert!(is_not_found(&fetch(&mut store, "abcd1235"), "abcd1235"));
    assert!(is_not_found(&fetch(&mut store, ""), ""));
    assert!(is_not_found(&fetch(&mut store, "pasta:abcd1234"), "pasta:abcd1234"));
    assert!(is_not_found(&fetch(&mut store, "not a key at all"), "not a key at all"));
    assert_eq!(fetch(&mut store, "abcd1234").unwrap(), "content");
}

#[test]
fn paste_expires_after_thirty_minutes() {
    let mut store = FakeStore::new();
    let key = create(&mut store, "short lived");
    store.elapse(1800);
    assert!(is_not_found(&fetch(&mut store, &key), &key));
}

#[test]
fn paste_is_there_until_it_expires() {
    let mut store = FakeStore::new();
    store.elapse(12345);
    let key = create(&mut store, "still here");
    store.elapse(1799);
    assert_eq!(fetch(&mut store, &key).unwrap(), "still here");
}

#[test]
fn expired_paste_stays_gone() {
    let mut store = FakeStore::new();
    let key = create(&mut store, "gone");
    store.elapse(1000);
    create_under(&mut store, "other000", "unrelated");
    store.elapse(1000);
    assert!(is_not_found(&fetch(&mut store, &key), &key));
    assert!(is_not_found(&fetch(&mut store, &key), &key));
}

#[test]
fn created_keys_are_eight_alphanumeric_characters() {
    let mut store = FakeStore::new();
    for _ in 0..100 {
        let key = create(&mut store, "x");
        assert_eq!(key.len(), 8);
        assert!(key.bytes().all(|b| b.is_ascii_alphanumeric()));
    }
}

#[test]
fn of_racing_fetches_one_wins() {
    let mut store = FakeStore::new();
    let key = create(&mut store, "the prize");
    let answers: Vec<Result<String, PastaError>> =
        (0..16).map(|_| fetch(&mut store, &key)).collect();
    let winners: Vec<&String> = answers.iter().filter_map(|a| a.as_ref().ok()).collect();
    assert_eq!(winners, vec!["the prize"]);
    assert_eq!(answers.iter().filter(|a| is_not_found(a, &key)).count(), 15);
}

#[test]
fn colliding_key_overwrites_the_paste() {
    let mut store = FakeStore::new();
    assert_eq!(create_under(&mut store, "sameKey1", "first"), "sameKey1");
    assert_eq!(create_under(&mut store, "sameKey1", "second"), "sameKey1");
    assert_eq!(fetch(&mut store, "sameKey1").unwrap(), "second");
    assert!(is_not_found(&fetch(&mut store, "sameKey1"), "sameKey1"));
}

#[test]
fn create_sends_one_write_with_namespace_and_expiry() {
    let mut store = FakeStore::new();
    let key = create(&mut store, "content");
    assert_eq!(store.served, vec![format!("SETEX pasta:{} 1800", key)]);
}

#[test]
fn fetch_sends_one_get_and_remove_with_namespace() {
    let mut store = FakeStore::new();
    let _ = fetch(&mut store, "abcd1234");
    assert_eq!(store.served, vec![String::from("GETDEL pasta:abcd1234")]);
}

#[test]
fn operation_begins_by_connecting() {
    let (state, action) = start(Request::Fetch { key: String::from("abcd1234") });
    assert!(matches!(action, Action::Connect));
    assert!(matches!(state, State::Connecting(Request::Fetch { key }) if key == "abcd1234"));
    let (state, action) = start(Request::Create { content: String::from("text") });
    assert!(matches!(action, Action::Connect));
    assert!(matches!(state, State::Connecting(Request::Create { content }) if content == "text"));
}

#[test]
fn file_under_writes_the_paste_under_the_key() {
    let (state, action) = file_under(String::from("Key00001"), String::from("the content"));
    assert!(matches!(state, State::Writing { key } if key == "Key00001"));
    match action {
        Action::Send(StoreCommand::SetEx { key, value, seconds }) => {
            assert_eq!(key, "pasta:Key00001");
            assert_eq!(value, "the content");
            assert_eq!(seconds, 1800);
        }
        other => panic!("unexpected action: {:?}", other),
    }
}

#[test]
fn pool_timeout_ends_the_operation_with_connection_timeout() {
    for request in [
        Request::Create { content: String::from("text") },
        Request::Fetch { key: String::from("abcd1234") },
    ] {
        let (state, _) = start(request);
        let next = step(state, Event::ConnectFailed(RunError::TimedOut));
        assert!(matches!(
            next,
            Some((State::Done, Action::Finish(Err(PastaError::ConnectionTimeout))))
        ));
    }
}

#[test]
fn pool_error_ends_the_operation_with_store_error() {
    let (state, _) = start(Request::Fetch { key: String::from("abcd1234") });
    let next = step(state, Event::ConnectFailed(RunError::User(store_error())));
    match next {
        Some((State::Done, Action::Finish(Err(PastaError::RedisError(e))))) => {
            assert_eq!(e, store_error())
        }
        other => panic!("unexpected step: {:?}", other),
    }
}

#[test]
fn failed_write_ends_the_operation_with_store_error() {
    let (state, _) = file_under(String::from("Key00001"), String::from("text"));
    let next = step(state, Event::StoreFailed(store_error()));
    match next {
        Some((State::Done, Action::Finish(Err(PastaError::RedisError(e))))) => {
            assert_eq!(e, store_error())
        }
        other => panic!("unexpected step: {:?}", other),
    }
}

#[test]
fn failed_read_ends_the_operation_with_store_error() {
    let (state, _) = start(Request::Fetch { key: String::from("abcd1234") });
    let (state, _) = step(state, Event::Connected).unwrap();
    let next = step(state, Event::StoreFailed(store_error()));
    match next {
        Some((State::Done, Action::Finish(Err(PastaError::RedisError(e))))) => {
            assert_eq!(e, store_error())
        }
        other => panic!("unexpected step: {:?}", other),
    }
}

#[test]
fn bytes_that_are_no_text_are_a_decode_error() {
    let mut store = FakeStore::new();
    store.entries.insert(String::from("pasta:abcd1234"), (vec![0x68, 0x69, 0xff], 10));
    let answer = fetch(&mut store, "abcd1234");
    match answer {
        Err(PastaError::PasteDecodeError(e)) => assert_eq!(e.into_bytes(), vec![0x68, 0x69, 0xff]),
        other => panic!("unexpected answer: {:?}", other),
    }
    assert!(is_not_found(&fetch(&mut store, "abcd1234"), "abcd1234"));
}

#[test]
fn fetched_decodes_what_was_found() {
    assert_eq!(fetched(String::from("k"), Some(vec![])).unwrap(), "");
    assert_eq!(fetched(String::from("k"), Some(b"plain".to_vec())).unwrap(), "plain");
    assert_eq!(
        fetched(String::from("k"), Some(vec![0xe2, 0x9c, 0x93, 0x20, 0xc3, 0xa9])).unwrap(),
        "✓ é"
    );
    assert!(matches!(
        fetched(String::from("k"), Some(vec![0xc3])),
        Err(PastaError::PasteDecodeError(_))
    ));
    assert!(matches!(
        fetched(String::from("k"), Some(vec![0xed, 0xa0, 0x80])),
        Err(PastaError::PasteDecodeError(_))
    ));
    assert!(matches!(
        fetched(String::from("k"), Some(vec![0xc0, 0x80])),
        Err(PastaError::PasteDecodeError(_))
    ));
    assert!(matches!(
        fetched(String::from("k"), Some(vec![0xf4, 0x90, 0x80, 0x80])),
        Err(PastaError::PasteDecodeError(_))
    ));
    assert!(is_not_found(&fetched(String::from("k"), None), "k"));
}

#[test]
fn event_that_answers_nothing_is_refused() {
    let fetching = || start(Request::Fetch { key: String::from("abcd1234") }).0;
    let creating = || start(Request::Create { content: String::from("text") }).0;
    assert!(step(fetching(), Event::Stored).is_none());
    assert!(step(fetching(), Event::Fetched(None)).is_none());
    assert!(step(fetching(), Event::StoreFailed(store_error())).is_none());
    assert!(step(creating(), Event::Stored).is_none());
    assert!(step(creating(), Event::Fetched(Some(vec![1]))).is_none());

    let reading = || step(fetching(), Event::Connected).unwrap().0;
    assert!(step(reading(), Event::Connected).is_none());
    assert!(step(reading(), Event::Stored).is_none());
    assert!(step(reading(), Event::ConnectFailed(RunError::TimedOut)).is_none());

    let writing = || step(creating(), Event::Connected).unwrap().0;
    assert!(step(writing(), Event::Connected).is_none());
    assert!(step(writing(), Event::Fetched(None)).is_none());
    assert!(step(writing(), Event::ConnectFailed(RunError::TimedOut)).is_none());

    assert!(step(State::Done, Event::Connected).is_none());
    assert!(step(State::Done, Event::Stored).is_none());
    assert!(step(State::Done, Event::Fetched(None)).is_none());
}
