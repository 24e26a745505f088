//! A model of the backing store, and what the paste store guarantees of the
//! pastes it keeps there.
//!
//! The backing store keeps values under keys, forgets each one when its time
//! is up, and serves every command as one step. The laws below play the
//! operations of the paste store against such a store: one that answers
//! every command, behind a pool that supplies a connection.

use crate::command::{lemma_namespaced_injective, namespaced, StoreCommandView, EXPIRY_SECS};
use crate::error::PastaErrorView;
use crate::key::valid_key;
use crate::paste::{start_spec, step_spec, AnswerView, EventView, RequestView};
use vstd::prelude::*;
use vstd::utf8::*;

verus! {

/// A value in the backing store, with the time at which the store forgets it.
pub struct Entry {
    pub value: Seq<u8>,
    pub expires_at: nat,
}

/// The backing store at a moment: its clock, in seconds, and what it keeps.
pub struct Store {
    pub now: nat,
    pub entries: Map<Seq<char>, Entry>,
}

impl Store {
    /// A store that keeps nothing.
    pub open spec fn empty() -> Store {
        Store { now: 0, entries: Map::empty() }
    }

    /// What the store holds under `key`: nothing where nothing was stored
    /// there, where it was removed, or where its time is up.
    pub open spec fn get(self, key: Seq<char>) -> Option<Seq<u8>> {
        if self.entries.contains_key(key) && self.now < self.entries[key].expires_at {
            Some(self.entries[key].value)
        } else {
            None
        }
    }

    /// The store after it has stored `value` under `key` for `seconds`.
    pub open spec fn set_ex(self, key: Seq<char>, value: Seq<u8>, seconds: nat) -> Store {
        Store {
            now: self.now,
            entries: self.entries.insert(key, Entry { value, expires_at: self.now + seconds }),
        }
    }

    /// The store after it has removed what it had under `key`.
    pub open spec fn del(self, key: Seq<char>) -> Store {
        Store { now: self.now, entries: self.entries.remove(key) }
    }

    /// The store after `seconds` have passed.
    pub open spec fn elapse(self, seconds: nat) -> Store {
        Store { now: self.now + seconds, entries: self.entries }
    }

    /// The store after it has served `command`, and its reply. A text is
    /// stored as the bytes that encode it.
    pub open spec fn execute(self, command: StoreCommandView) -> (Store, EventView) {
        match command {
            StoreCommandView::SetEx { key, value, seconds } => (
                self.set_ex(key, encode_utf8(value), seconds),
                EventView::Stored,
            ),
            StoreCommandView::GetDel { key } => (self.del(key), EventView::Fetched(self.get(key))),
        }
    }
}

/// The operation for `request` played to its end against `store`: the
/// store afterwards, and the answer to the client. A paste that is created
/// gets `fresh_key`.
pub open spec fn serve(store: Store, request: RequestView, fresh_key: Seq<char>) -> (
    Store,
    AnswerView,
) {
    let (connecting, _) = start_spec(request);
    let (waiting, send) = step_spec(connecting, EventView::Connected, fresh_key)->0;
    let (store, reply) = store.execute(send->Send_0);
    let (_, finish) = step_spec(waiting, reply, fresh_key)->0;
    (store, finish->Finish_0)
}

/// Creating a paste of `content` that gets the key `fresh_key`.
pub open spec fn create(store: Store, content: Seq<char>, fresh_key: Seq<char>) -> (
    Store,
    AnswerView,
) {
    serve(store, RequestView::Create { content }, fresh_key)
}

/// Fetching the paste of `key`.
pub open spec fn fetch(store: Store, key: Seq<char>) -> (Store, AnswerView) {
    serve(store, RequestView::Fetch { key }, Seq::empty())
}

/// The answer to a fetch that finds no paste of `key`.
pub open spec fn not_found(key: Seq<char>) -> AnswerView {
    Err(PastaErrorView::NotFound(key))
}

/// Something that happens to the backing store: the paste store serves a
/// request, or time passes.
pub enum Op {
    Serve { request: RequestView, fresh_key: Seq<char> },
    Elapse { seconds: nat },
}

impl Op {
    /// The store after this has happened.
    pub open spec fn apply(self, store: Store) -> Store {
        match self {
            Op::Serve { request, fresh_key } => serve(store, request, fresh_key).0,
            Op::Elapse { seconds } => store.elapse(seconds),
        }
    }

    /// Whether this creates a paste that gets `key`.
    pub open spec fn creates(self, key: Seq<char>) -> bool {
        self matches Op::Serve { request: RequestView::Create { .. }, fresh_key } && fresh_key
            == key
    }

    /// Whether this fetches the paste of `key`.
    pub open spec fn fetches(self, key: Seq<char>) -> bool {
        self matches Op::Serve { request: RequestView::Fetch { key: fetched }, .. } && fetched
            == key
    }

    /// The seconds that pass while this happens.
    pub open spec fn seconds(self) -> nat {
        match self {
            Op::Serve { .. } => 0,
            Op::Elapse { seconds } => seconds,
        }
    }
}

/// The store after all of `ops` have happened, in their order.
pub open spec fn replay(store: Store, ops: Seq<Op>) -> Store
    decreases ops.len(),
{
    if ops.len() == 0 {
        store
    } else {
        replay(ops[0].apply(store), ops.drop_first())
    }
}

/// The seconds that pass while `ops` happen.
pub open spec fn elapsed(ops: Seq<Op>) -> nat
    decreases ops.len(),
{
    if ops.len() == 0 {
        0
    } else {
        ops[0].seconds() + elapsed(ops.drop_first())
    }
}

/// No paste that is created in `ops` gets `key`.
pub open spec fn never_creates(ops: Seq<Op>, key: Seq<char>) -> bool {
    forall|i: int| 0 <= i < ops.len() ==> !(#[trigger] ops[i]).creates(key)
}

/// No request in `ops` fetches the paste of `key`.
pub open spec fn never_fetches(ops: Seq<Op>, key: Seq<char>) -> bool {
    forall|i: int| 0 <= i < ops.len() ==> !(#[trigger] ops[i]).fetches(key)
}

/// The answers to `n` fetches of `key`, served one after the other. The
/// backing store serves each command as one step, so fetches that race are
/// served in some order, and this is the order of the answers.
pub open spec fn fetch_repeatedly(store: Store, key: Seq<char>, n: nat) -> Seq<AnswerView>
    decreases n,
{
    if n == 0 {
        Seq::empty()
    } else {
        seq![fetch(store, key).1] + fetch_repeatedly(fetch(store, key).0, key, (n - 1) as nat)
    }
}

/// Unless a paste is created under `key`, only time and removal touch what
/// the store keeps for it: the clock moves on by the time that passes;
/// whatever the store has for the key afterwards, it had before; and what
/// it had before is still there if nothing fetched it.
pub proof fn lemma_replay_keeps(store: Store, ops: Seq<Op>, key: Seq<char>)
    requires
        never_creates(ops, key),
    ensures
        replay(store, ops).now == store.now + elapsed(ops),
        replay(store, ops).entries.contains_key(namespaced(key)) ==> {
            &&& store.entries.contains_key(namespaced(key))
            &&& replay(store, ops).entries[namespaced(key)] == store.entries[namespaced(key)]
        },
        never_fetches(ops, key) && store.entries.contains_key(namespaced(key)) ==> replay(
            store,
            ops,
        ).entries.contains_key(namespaced(key)),
    decreases ops.len(),
{
    if ops.len() > 0 {
        let rest = ops.drop_first();
        assert(!ops[0].creates(key));
        assert forall|i: int| 0 <= i < rest.len() implies !(#[trigger] rest[i]).creates(key) by {
            assert(rest[i] == ops[i + 1]);
        }
        if never_fetches(ops, key) {
            assert(!ops[0].fetches(key));
            assert forall|i: int| 0 <= i < rest.len() implies !(#[trigger] rest[i]).fetches(
                key,
            ) by {
                assert(rest[i] == ops[i + 1]);
            }
        }
        match ops[0] {
            Op::Serve { request: RequestView::Fetch { key: other }, .. } => {
                if namespaced(other) == namespaced(key) {
                    lemma_namespaced_injective(other, key);
                }
            },
            Op::Serve { request: RequestView::Create { .. }, fresh_key } => {
                if namespaced(fresh_key) == namespaced(key) {
                    lemma_namespaced_injective(fresh_key, key);
                }
            },
            Op::Elapse { .. } => {},
        }
        lemma_replay_keeps(ops[0].apply(store), rest, key);
    }
}

/// Fetches of a key under which the store holds nothing all find nothing.
pub proof fn lemma_fetch_repeatedly_absent(store: Store, key: Seq<char>, n: nat)
    requires
        store.get(namespaced(key)) is None,
    ensures
        fetch_repeatedly(store, key, n).len() == n,
        forall|i: int| 0 <= i < n ==> #[trigger] fetch_repeatedly(store, key, n)[i] == not_found(key),
    decreases n,
{
    if n > 0 {
        let rest = fetch_repeatedly(fetch(store, key).0, key, (n - 1) as nat);
        lemma_fetch_repeatedly_absent(fetch(store, key).0, key, (n - 1) as nat);
        let answers = fetch_repeatedly(store, key, n);
        assert(answers == seq![fetch(store, key).1] + rest);
        assert forall|i: int| 0 <= i < n implies #[trigger] answers[i] == not_found(key) by {
            if i > 0 {
                assert(answers[i] == rest[i - 1]);
            }
        }
    }
}

/// Round trip: a paste is fetched with the content it was created with, as
/// long as it is fetched before its time is up.
pub proof fn law_round_trip(store: Store, content: Seq<char>, key: Seq<char>)
    ensures
        create(store, content, key).1 == AnswerView::Ok(key),
        fetch(create(store, content, key).0, key).1 == AnswerView::Ok(content),
        forall|waited: nat|
            waited < EXPIRY_SECS ==> (#[trigger] fetch(
                create(store, content, key).0.elapse(waited),
                key,
            )).1 == AnswerView::Ok(content),
{
    encode_utf8_valid_utf8(content);
    encode_utf8_decode_utf8(content);
}

/// A paste waits for its fetch: whatever is done with other pastes in the
/// meantime, it is fetched with the content it was created with, as long
/// as its time is not up.
pub proof fn law_paste_waits(store: Store, content: Seq<char>, key: Seq<char>, between: Seq<Op>)
    requires
        never_creates(between, key),
        never_fetches(between, key),
        elapsed(between) < EXPIRY_SECS,
    ensures
        fetch(replay(create(store, content, key).0, between), key).1 == AnswerView::Ok(content),
{
    encode_utf8_valid_utf8(content);
    encode_utf8_decode_utf8(content);
    lemma_replay_keeps(create(store, content, key).0, between, key);
}

/// Exactly once: the first fetch of a paste hands over its content, and
/// every later fetch of its key finds nothing, whatever happens in between,
/// unless a paste that is created in between gets the same key.
pub proof fn law_exactly_once(store: Store, content: Seq<char>, key: Seq<char>, later: Seq<Op>)
    requires
        never_creates(later, key),
    ensures
        ({
            let created = create(store, content, key).0;
            let (fetched, first) = fetch(created, key);
            &&& first == AnswerView::Ok(content)
            &&& fetch(replay(fetched, later), key).1 == not_found(key)
        }),
{
    law_round_trip(store, content, key);
    lemma_replay_keeps(fetch(create(store, content, key).0, key).0, later, key);
}

/// Unknown key: a fetch of a key that no created paste ever got finds
/// nothing.
pub proof fn law_unknown_key(history: Seq<Op>, key: Seq<char>)
    requires
        never_creates(history, key),
    ensures
        fetch(replay(Store::empty(), history), key).1 == not_found(key),
{
    lemma_replay_keeps(Store::empty(), history, key);
}

/// Expiry: once `EXPIRY_SECS` have passed since a paste was created, a
/// fetch of its key finds nothing, as for a key that no paste ever got,
/// unless a paste that is created in the meantime gets the same key.
pub proof fn law_expiry(store: Store, content: Seq<char>, key: Seq<char>, later: Seq<Op>)
    requires
        never_creates(later, key),
        elapsed(later) >= EXPIRY_SECS,
    ensures
        fetch(replay(create(store, content, key).0, later), key).1 == not_found(key),
{
    lemma_replay_keeps(create(store, content, key).0, later, key);
}

/// Key shape: a create hands back the key that the paste was given, which
/// is a well-formed key, as every key is that `generate_key` makes.
pub proof fn law_key_shape(store: Store, content: Seq<char>, fresh_key: Seq<char>)
    requires
        valid_key(fresh_key),
    ensures
        create(store, content, fresh_key).1 matches Ok(key) && valid_key(key),
{
}

/// Fetches that race: of any number of fetches of a paste, the one that the
/// backing store serves first hands over the content, and every other one
/// finds nothing.
pub proof fn law_single_winner(store: Store, content: Seq<char>, key: Seq<char>, n: nat)
    requires
        n > 0,
    ensures
        ({
            let answers = fetch_repeatedly(create(store, content, key).0, key, n);
            &&& answers.len() == n
            &&& answers[0] == AnswerView::Ok(content)
            &&& forall|i: int| 1 <= i < n ==> #[trigger] answers[i] == not_found(key)
        }),
{
    law_round_trip(store, content, key);
    let created = create(store, content, key).0;
    let rest = fetch_repeatedly(fetch(created, key).0, key, (n - 1) as nat);
    lemma_fetch_repeatedly_absent(fetch(created, key).0, key, (n - 1) as nat);
    let answers = fetch_repeatedly(created, key, n);
    assert(answers == seq![fetch(created, key).1] + rest);
    assert forall|i: int| 1 <= i < n implies #[trigger] answers[i] == not_found(key) by {
        assert(answers[i] == rest[i - 1]);
    }
}

} // verus!
