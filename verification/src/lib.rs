//! A self-destructing paste store: a paste is kept under a short random key,
//! handed over to the first fetch of that key, and forgotten, at the latest
//! when its time is up.
//!
//! - `key`: the keys, and how fresh ones are made;
//! - `command`: what the paste store asks of the backing key-value store;
//! - `paste`: the two operations, create and fetch, step by step;
//! - `error`: what can go wrong, and how each error is answered;
//! - `store`: a model of the backing store, and the laws of the paste store;
//! - `text`: contracts for string operations of the standard library.

pub mod command;
pub mod error;
pub mod key;
pub mod paste;
pub mod store;
pub mod text;
