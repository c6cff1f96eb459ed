//! Operations as conversations with the engine.
//!
//! An operation of this library does not call the engine. It says which
//! entry point to call next, is handed what the call gave back, and in the
//! end says what the operation comes to. What it asks and what it returns
//! are a function of the operation's arguments and of the replies so far:
//! its [`Protocol::script`].
//!
//! Whoever carries an operation through makes the request of a call that
//! is [`Poll::Pending`], resumes the call with the reply, and goes on until
//! the operation is [`Poll::Ready`]. There is no other way on: a call
//! cannot be answered twice, nor an operation that is over be asked for
//! more.

use crate::ffi::{Reply, Request, RequestView};
use vstd::prelude::*;

verus! {

/// What a script comes to after some replies.
pub enum Next<T> {
    /// The engine is to be asked this.
    Ask(RequestView),
    /// The operation is over, with this outcome.
    Done(T),
}

/// An operation: its arguments, and the script that it follows.
pub trait Protocol: Sized {
    /// What the operation returns.
    type Output;

    /// The mathematical content of what the operation returns.
    type Outcome;

    /// What the operation does once the engine has given `replies`, the
    /// answers to the requests made so far, in order.
    spec fn script(&self, replies: Seq<Reply>) -> Next<Self::Outcome>;

    /// The mathematical content of an output.
    spec fn outcome(output: Self::Output) -> Self::Outcome;

    /// Whether the operation is over.
    fn finished(&self, replies: &Vec<Reply>) -> (done: bool)
        ensures
            done == (self.script(replies@) is Done),
    ;

    /// The request to make next.
    fn request<'a>(&'a self, replies: &'a Vec<Reply>) -> (request: Request<'a>)
        requires
            self.script(replies@) is Ask,
        ensures
            self.script(replies@) == Next::<Self::Outcome>::Ask(request@),
    ;

    /// What the operation returns.
    fn finish(self, replies: Vec<Reply>) -> (output: Self::Output)
        requires
            self.script(replies@) is Done,
        ensures
            self.script(replies@) == Next::Done(Self::outcome(output)),
    ;
}

/// An operation under way: it has a request for the engine.
pub struct Call<P: Protocol> {
    op: P,
    replies: Vec<Reply>,
}

/// Where an operation stands.
pub enum Poll<P: Protocol> {
    /// The operation waits for the reply to its request.
    Pending(Call<P>),
    /// The operation is over.
    Ready(P::Output),
}

impl<P: Protocol> Call<P> {
    #[verifier::type_invariant]
    spec fn awaits_reply(self) -> bool {
        self.op.script(self.replies@) is Ask
    }

    /// The operation.
    pub closed spec fn op(self) -> P {
        self.op
    }

    /// The replies given so far.
    pub closed spec fn replies(self) -> Seq<Reply> {
        self.replies@
    }

    /// Begins the operation.
    pub fn start(op: P) -> (poll: Poll<P>)
        ensures
            poll.follows(op, Seq::empty()),
    {
        Self::advance(op, Vec::new())
    }

    fn advance(op: P, replies: Vec<Reply>) -> (poll: Poll<P>)
        ensures
            poll.follows(op, replies@),
    {
        if op.finished(&replies) {
            Poll::Ready(op.finish(replies))
        } else {
            Poll::Pending(Call { op, replies })
        }
    }

    /// The request that the call waits on.
    pub fn request<'a>(&'a self) -> (request: Request<'a>)
        ensures
            self.op().script(self.replies()) == Next::<P::Outcome>::Ask(request@),
    {
        proof {
            use_type_invariant(self);
        }
        self.op.request(&self.replies)
    }

    /// Goes on with the reply to the request.
    pub fn resume(self, reply: Reply) -> (poll: Poll<P>)
        ensures
            poll.follows(self.op(), self.replies().push(reply)),
    {
        let Call { op, mut replies } = self;
        replies.push(reply);
        Self::advance(op, replies)
    }
}

impl<P: Protocol> Poll<P> {
    /// Whether this is where the script of `op` stands after `replies`: the
    /// operation waits exactly where the script asks, and is over, with the
    /// script's outcome, exactly where the script is done.
    pub open spec fn follows(self, op: P, replies: Seq<Reply>) -> bool {
        match self {
            Poll::Pending(call) => {
                &&& call.op() == op
                &&& call.replies() == replies
                &&& op.script(replies) is Ask
            },
            Poll::Ready(output) => op.script(replies) == Next::Done(P::outcome(output)),
        }
    }
}

} // verus!
