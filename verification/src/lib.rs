//! A safety layer over the native key-value engine RocksDB.
//!
//! The engine is reached through raw handles and buffers. This library
//! decides which entry points are called, in which order and with what,
//! and what their answers mean: every handle is destroyed once, every
//! native error becomes an [`Error`], and native memory is read before it
//! is freed and never after.
//!
//! The library makes no call itself. An operation such as [`DB::put`] is a
//! conversation: it names the entry point to call next as a
//! [`ffi::Request`], takes what the call gave back as a [`ffi::Reply`], and
//! ends with its result. Whoever carries the conversation makes the calls.
//!
//! - [`ffi`] has the kinds of native object, the handles, the requests and
//!   the replies; [`protocol`] has conversations.
//! - [`error`], [`guard`] and [`buffer`] are what operations are made of:
//!   the error channel, options that live for one call, and buffers that
//!   the engine hands over.
//! - [`options`], [`db`] and [`iterator`] are the operations.
//! - [`model`] says what a model of the engine is. [`ledger`] models what
//!   is live in the engine, [`store`] what it keeps, and [`walk`] how its
//!   iterators move; with them they state what the operations keep and
//!   come to, as [`laws`] does for the ledger.

pub mod buffer;
pub mod db;
pub mod error;
pub mod ffi;
pub mod guard;
pub mod iterator;
pub mod laws;
pub mod ledger;
pub mod model;
pub mod options;
pub mod protocol;
pub mod store;
pub mod walk;

pub use db::{ColumnFamilyHandle, DB};
pub use error::{Error, Result};
pub use iterator::{DBIterator, DBIteratorAdapter, Direction};
pub use options::Options;
