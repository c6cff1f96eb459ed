//! The error type, and the channel through which the engine's errors come.
//!
//! An entry point that fails writes a pointer to a message that it owns.
//! The channel copies that message into an [`Error`] and then hands the
//! pointer back to the engine's allocator, once.

use crate::ffi::{Reply, Request, RequestView};
use crate::protocol::Next;
use vstd::prelude::*;
use vstd::string::StringExecFns;
use vstd::utf8::{encode_utf8, valid_utf8};

verus! {

/// Result type of the operations of this library.
pub type Result<T> = core::result::Result<T, Error>;

/// An error of the engine, or of this library on its behalf.
#[derive(Debug, Clone)]
pub struct Error {
    message: String,
}

impl View for Error {
    type V = Seq<char>;

    /// The message.
    closed spec fn view(&self) -> Seq<char> {
        self.message@
    }
}

/// The text that `String::from_utf8_lossy` makes of `bytes`.
pub uninterp spec fn utf8_lossy(bytes: Seq<u8>) -> Seq<char>;

/// `String::from_utf8_lossy`, which decodes UTF-8 and puts U+FFFD in place
/// of what is not. The result is a function of the bytes; bytes that are
/// valid UTF-8 come back as they are, as the text that they encode.
#[verifier::external_body]
fn from_utf8_lossy(bytes: &[u8]) -> (text: String)
    ensures
        text@ == utf8_lossy(bytes@),
        valid_utf8(bytes@) ==> encode_utf8(text@) == bytes@,
{
    String::from_utf8_lossy(bytes).into_owned()
}

impl Error {
    /// An error with the given message.
    pub fn new(message: &str) -> (error: Error)
        ensures
            error@ == message@,
    {
        Error { message: String::from_str(message) }
    }

    /// The error that the engine reported in the message given, which is
    /// the bytes of its C string without the terminator. Where there is no
    /// message, the error is unknown. A message that is valid UTF-8 is
    /// kept as it is; in any other, U+FFFD stands for what is not.
    pub fn from_c_string(message: Option<&[u8]>) -> (error: Error)
        ensures
            error@ == match message {
                Some(bytes) => utf8_lossy(bytes@),
                None => "Unknown error"@,
            },
            message matches Some(bytes) ==> valid_utf8(bytes@) ==> encode_utf8(error@) == bytes@,
    {
        match message {
            Some(bytes) => Error { message: from_utf8_lossy(bytes) },
            None => Error::new("Unknown error"),
        }
    }

    /// The message.
    pub fn message(&self) -> (message: &str)
        ensures
            message@ == self@,
    {
        self.message.as_str()
    }

    /// The error as shown to a reader.
    pub fn to_string(&self) -> (text: String)
        ensures
            text@ == "RocksDB error: "@ + self@,
    {
        String::from_str("RocksDB error: ").concat(self.message.as_str())
    }
}

/// The error channel after a call wrote `error` as its error pointer, where
/// the replies from the one at `from` on belong to the channel.
///
/// A null pointer is no error, and nothing is asked. Else the message is
/// copied, then the pointer is freed, and the error is the message.
pub open spec fn translate(error: usize, replies: Seq<Reply>, from: int) -> Next<Option<Seq<char>>> {
    if error == 0 {
        Next::Done(None)
    } else if replies.len() <= from {
        Next::Ask(RequestView::ReadMessage { pointer: error })
    } else if replies.len() == from + 1 {
        Next::Ask(RequestView::Free { pointer: error })
    } else {
        Next::Done(Some(utf8_lossy(replies[from].bytes@)))
    }
}

/// Whether the error channel has nothing more to ask.
pub(crate) fn translated(error: usize, replies: &Vec<Reply>, from: usize) -> (done: bool)
    ensures
        done == (translate(error, replies@, from as int) is Done),
{
    error == 0 || (replies.len() > from && replies.len() - from > 1)
}

/// What the error channel asks next.
pub(crate) fn translate_request(error: usize, replies: &Vec<Reply>, from: usize) -> (request: Request<
    'static,
>)
    requires
        translate(error, replies@, from as int) is Ask,
    ensures
        translate(error, replies@, from as int) == Next::<Option<Seq<char>>>::Ask(request@),
{
    if replies.len() <= from {
        Request::ReadMessage { pointer: error }
    } else {
        Request::Free { pointer: error }
    }
}

/// What the error channel found: the error, if there was one.
pub(crate) fn translate_finish(error: usize, replies: &Vec<Reply>, from: usize) -> (found: Option<Error>)
    requires
        translate(error, replies@, from as int) is Done,
    ensures
        translate(error, replies@, from as int) == Next::Done(
            match found {
                Some(e) => Some(e@),
                None => None,
            },
        ),
{
    if error == 0 {
        None
    } else {
        Some(Error::from_c_string(Some(replies[from].bytes.as_slice())))
    }
}

} // verus!
