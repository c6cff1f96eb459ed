//! The buffers that the engine hands over.
//!
//! A read returns a pointer and a length. A null pointer is the absence of
//! a value. Any other names memory that the engine has allocated and that
//! its caller now owns: the bytes are copied out of it, and it goes back to
//! the engine's allocator, once.

use crate::ffi::{Reply, RequestView};
use crate::protocol::Next;
use vstd::prelude::*;

verus! {

/// What is done with a buffer that the engine has handed over, where the
/// replies from the one at `from` on belong to it.
///
/// A null pointer is no value, and nothing is asked. Else the bytes are
/// copied, then the pointer is freed, and the value is the bytes.
pub open spec fn take_buffer(pointer: usize, length: usize, replies: Seq<Reply>, from: int) -> Next<
    Option<Seq<u8>>,
> {
    if pointer == 0 {
        Next::Done(None)
    } else if replies.len() <= from {
        Next::Ask(RequestView::ReadBuffer { pointer, length })
    } else if replies.len() == from + 1 {
        Next::Ask(RequestView::Free { pointer })
    } else {
        Next::Done(Some(replies[from].bytes@))
    }
}

} // verus!
