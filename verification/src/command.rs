//! What the paste store asks of the backing key-value store.

use vstd::prelude::*;
use vstd::string::StringExecFns;

verus! {

/// How long a paste that nobody fetches is kept, in seconds.
pub const EXPIRY_SECS: usize = 60 * 30;

/// What comes before every key of the paste store in the backing store,
/// which may keep other things too.
pub const NAMESPACE: &'static str = "pasta:";

/// The key under which the backing store files the paste of the given key:
/// the paste's key behind the namespace of the paste store.
pub open spec fn namespaced(key: Seq<char>) -> Seq<char> {
    NAMESPACE@ + key
}

/// Two keys that the backing store files under one key are one key.
pub proof fn lemma_namespaced_injective(a: Seq<char>, b: Seq<char>)
    requires
        namespaced(a) == namespaced(b),
    ensures
        a == b,
{
    let prefix = NAMESPACE@.len() as int;
    assert(a == namespaced(a).subrange(prefix, namespaced(a).len() as int));
    assert(b == namespaced(b).subrange(prefix, namespaced(b).len() as int));
}

/// The key under which the backing store files the paste of the given key.
pub fn namespaced_key(key: &str) -> (full: String)
    ensures
        full@ == namespaced(key@),
{
    String::from_str(NAMESPACE).concat(key)
}

/// A command for the backing store. Each one is a single step there: no
/// other command is served in its midst.
#[derive(Debug, Clone, PartialEq, Eq)]
pub enum StoreCommand {
    /// Store `value` under `key`, replacing what is there, and forget it
    /// once `seconds` have passed.
    SetEx { key: String, value: String, seconds: usize },
    /// Hand back what is stored under `key`, and remove it.
    GetDel { key: String },
}

/// A `StoreCommand`, with its texts as sequences of characters.
pub enum StoreCommandView {
    SetEx { key: Seq<char>, value: Seq<char>, seconds: nat },
    GetDel { key: Seq<char> },
}

impl View for StoreCommand {
    type V = StoreCommandView;

    open spec fn view(&self) -> StoreCommandView {
        match *self {
            StoreCommand::SetEx { key, value, seconds } => StoreCommandView::SetEx {
                key: key@,
                value: value@,
                seconds: seconds as nat,
            },
            StoreCommand::GetDel { key } => StoreCommandView::GetDel { key: key@ },
        }
    }
}

} // verus!
