//! Options that live for one call.
//!
//! A read, a write and the creation of an iterator each take an options
//! object of their own. It is created for the call, handed to it, and
//! destroyed once the call has returned, whatever the call did.

use crate::ffi::{Kind, Reply, RequestView};
use crate::protocol::Next;
use vstd::prelude::*;

verus! {

/// The number of replies that a call with options of its own has had when
/// it is over: to the creation of the options, to the call, and to their
/// destruction.
pub const SCOPE: usize = 3;

/// What a call with options of its own does.
///
/// It creates options of the kind, and comes to nothing if the engine
/// hands back none: the call is not made. It makes the call with them and
/// destroys them, and then comes to what the call handed back.
pub open spec fn scoped(
    kind: Kind,
    call: spec_fn(usize) -> RequestView,
    replies: Seq<Reply>,
) -> Next<Option<Reply>> {
    if replies.len() == 0 {
        Next::Ask(RequestView::Create { kind })
    } else if replies[0].pointer == 0 {
        Next::Done(None)
    } else if replies.len() == 1 {
        Next::Ask(call(replies[0].pointer))
    } else if replies.len() == 2 {
        Next::Ask(RequestView::Destroy { kind, handle: replies[0].pointer })
    } else {
        Next::Done(Some(replies[1]))
    }
}

} // verus!
