//! Paste keys: short random identifiers over the alphanumeric alphabet.

use rand::distributions::Alphanumeric;
use rand::rngs::ThreadRng;
use rand::Rng;
use vstd::prelude::*;

verus! {

/// Number of symbols in a key.
pub const KEY_LEN: usize = 8;

/// The alphabet of keys: the digits and the ASCII letters of both cases.
pub open spec fn is_key_char(c: char) -> bool {
    ('0' <= c <= '9') || ('A' <= c <= 'Z') || ('a' <= c <= 'z')
}

/// A well-formed key: `KEY_LEN` characters of the alphabet.
pub open spec fn valid_key(key: Seq<char>) -> bool {
    key.len() == KEY_LEN && forall|i: int| 0 <= i < key.len() ==> is_key_char(#[trigger] key[i])
}

/// A byte that encodes a character of the alphabet.
pub open spec fn is_key_symbol(b: u8) -> bool {
    is_key_char(b as char)
}

/// The text that a sequence of ASCII symbols spells.
pub open spec fn spell(symbols: Seq<u8>) -> Seq<char> {
    Seq::new(symbols.len(), |i: int| symbols[i] as char)
}

/// The handle of `rand` to the random number generator of a thread.
#[verifier::external_type_specification]
#[verifier::external_body]
pub struct ExThreadRng(ThreadRng);

/// `rand::thread_rng` hands out the calling thread's generator.
pub assume_specification[ rand::thread_rng ]() -> (rng: ThreadRng);

/// Draws one symbol with `Rng::sample` from `rand`'s `Alphanumeric`
/// distribution, which yields one of the bytes `A-Z`, `a-z`, `0-9`.
#[verifier::external_body]
fn sample_symbol(rng: &mut ThreadRng) -> (symbol: u8)
    ensures
        is_key_symbol(symbol),
{
    rng.sample(Alphanumeric)
}

/// Whether the byte is a symbol of the alphabet.
fn in_alphabet(b: u8) -> (yes: bool)
    ensures
        yes == is_key_symbol(b),
{
    (0x30 <= b && b <= 0x39) || (0x41 <= b && b <= 0x5a) || (0x61 <= b && b <= 0x7a)
}

/// Spells a key from the given symbols, if they are `KEY_LEN` symbols of the
/// alphabet.
pub fn key_from_symbols(symbols: &[u8]) -> (key: Option<String>)
    ensures
        key is Some <==> valid_key(spell(symbols@)),
        key matches Some(k) ==> k@ == spell(symbols@),
{
    if symbols.len() != KEY_LEN {
        return None;
    }
    let mut key = String::new();
    let mut i: usize = 0;
    while i < symbols.len()
        invariant
            i <= symbols@.len(),
            key@ == spell(symbols@.take(i as int)),
            forall|j: int| 0 <= j < i ==> is_key_symbol(#[trigger] symbols@[j]),
        decreases symbols@.len() - i,
    {
        let symbol: u8 = symbols[i];
        if !in_alphabet(symbol) {
            assert(!is_key_char(spell(symbols@)[i as int]));
            return None;
        }
        key.push(symbol as char);
        assert(key@ == spell(symbols@.take(i + 1)));
        i += 1;
    }
    assert(symbols@.take(i as int) == symbols@);
    Some(key)
}

/// Generates a fresh key from the thread's random number generator.
pub fn generate_key() -> (key: String)
    ensures
        valid_key(key@),
{
    let mut rng = rand::thread_rng();
    let mut symbols: Vec<u8> = Vec::new();
    while symbols.len() < KEY_LEN
        invariant
            symbols@.len() <= KEY_LEN,
            forall|j: int| 0 <= j < symbols@.len() ==> is_key_symbol(#[trigger] symbols@[j]),
        decreases KEY_LEN - symbols@.len(),
    {
        let symbol: u8 = sample_symbol(&mut rng);
        symbols.push(symbol);
    }
    key_from_symbols(symbols.as_slice()).unwrap()
}

} // verus!
