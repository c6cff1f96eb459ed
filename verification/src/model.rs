//! Models of the engine, and conversations with it.
//!
//! What an operation asks depends on what the engine replies, and what the
//! engine replies depends on its state, which is not this library's to
//! know. A model says what is taken to be known: how a request and its
//! reply change the state, and which replies the state lets one expect. A
//! conversation is a run of replies, each of them expected, to the
//! requests that a script asks in turn.

use crate::ffi::{Reply, RequestView};
use crate::protocol::Next;
use vstd::prelude::*;

verus! {

/// A model of the engine's state.
pub trait Model: Sized {
    /// Whether the reply is one that the engine, in this state, may give to
    /// the request.
    spec fn expects(self, request: RequestView, reply: Reply) -> bool;

    /// The state once the request has been made and answered.
    spec fn after(self, request: RequestView, reply: Reply) -> Self;
}

/// The request that a script asks, where it asks one.
pub open spec fn asked<T>(next: Next<T>) -> Option<RequestView> {
    match next {
        Next::Ask(request) => Some(request),
        Next::Done(_) => None,
    }
}

/// The state after a conversation: each request that the script asked was
/// made, and got the reply in its place.
pub open spec fn after_all<M: Model>(
    script: spec_fn(Seq<Reply>) -> Option<RequestView>,
    model: M,
    replies: Seq<Reply>,
) -> M
    decreases replies.len(),
{
    if replies.len() == 0 {
        model
    } else {
        let before = after_all(script, model, replies.drop_last());
        match script(replies.drop_last()) {
            Some(request) => before.after(request, replies.last()),
            None => before,
        }
    }
}

/// Whether the replies are a conversation with the engine as modelled:
/// each answers a request that the script asked, and is one that the
/// state at that point lets one expect.
pub open spec fn conversation<M: Model>(
    script: spec_fn(Seq<Reply>) -> Option<RequestView>,
    model: M,
    replies: Seq<Reply>,
) -> bool
    decreases replies.len(),
{
    replies.len() == 0 || {
        &&& conversation(script, model, replies.drop_last())
        &&& script(replies.drop_last()) matches Some(request)
        &&& after_all(script, model, replies.drop_last()).expects(request, replies.last())
    }
}

} // verus!
