//! Options for opening a database.

use crate::ffi::{rocksdb_options_t, Kind, NativeHandle, Reply, Request, RequestView, Setting};
use crate::protocol::{Call, Next, Poll, Protocol};
use libc::c_int;
use vstd::prelude::*;

verus! {

/// The options object of the engine, owned.
///
/// It is configured in place before a database is opened with it, and
/// [`Options::destroy`] gives it back.
#[must_use]
pub struct Options {
    inner: NativeHandle<rocksdb_options_t>,
}

/// How the engine takes a flag: 1 for set, 0 for clear.
pub open spec fn native_flag(value: bool) -> c_int {
    if value {
        1
    } else {
        0
    }
}

/// The flag as the engine takes it.
pub fn to_native_flag(value: bool) -> (flag: c_int)
    ensures
        flag == native_flag(value),
{
    if value {
        1
    } else {
        0
    }
}

/// The creation of an options object.
pub struct NewOptions {
    start: (),
}

/// What creating an options object asks of the engine: the object, once.
/// The engine reports no error here; a null pointer is no object.
pub open spec fn new_options_script(replies: Seq<Reply>) -> Next<Option<usize>> {
    if replies.len() == 0 {
        Next::Ask(RequestView::Create { kind: Kind::Options })
    } else if replies[0].pointer == 0 {
        Next::Done(None)
    } else {
        Next::Done(Some(replies[0].pointer))
    }
}

impl Protocol for NewOptions {
    type Output = Option<Options>;

    type Outcome = Option<usize>;

    open spec fn script(&self, replies: Seq<Reply>) -> Next<Option<usize>> {
        new_options_script(replies)
    }

    open spec fn outcome(output: Option<Options>) -> Option<usize> {
        match output {
            Some(options) => Some(options.address()),
            None => None,
        }
    }

    fn finished(&self, replies: &Vec<Reply>) -> (done: bool) {
        replies.len() > 0
    }

    fn request<'a>(&'a self, replies: &'a Vec<Reply>) -> (request: Request<'a>) {
        Request::Create { kind: Kind::Options }
    }

    fn finish(self, replies: Vec<Reply>) -> (output: Option<Options>) {
        match NativeHandle::new(replies[0].pointer) {
            Some(inner) => Some(Options { inner }),
            None => None,
        }
    }
}

impl Options {
    /// The address of the options object.
    pub closed spec fn address(&self) -> usize {
        self.inner.address()
    }

    /// Creates an options object with the engine's default settings.
    pub fn new() -> (poll: Poll<NewOptions>)
        ensures
            poll matches Poll::Pending(call) && call.replies() == Seq::<Reply>::empty(),
    {
        Call::start(NewOptions { start: () })
    }

    /// Sets whether to create the database if it does not exist.
    pub fn create_if_missing(&mut self, value: bool) -> (request: Request<'static>)
        ensures
            *final(self) == *old(self),
            request@ == (RequestView::Configure {
                options: old(self).address(),
                setting: Setting::CreateIfMissing,
                enabled: native_flag(value),
            }),
    {
        Request::Configure {
            options: self.inner.as_ptr(),
            setting: Setting::CreateIfMissing,
            enabled: to_native_flag(value),
        }
    }

    /// Sets whether opening fails if the database exists already.
    pub fn error_if_exists(&mut self, value: bool) -> (request: Request<'static>)
        ensures
            *final(self) == *old(self),
            request@ == (RequestView::Configure {
                options: old(self).address(),
                setting: Setting::ErrorIfExists,
                enabled: native_flag(value),
            }),
    {
        Request::Configure {
            options: self.inner.as_ptr(),
            setting: Setting::ErrorIfExists,
            enabled: to_native_flag(value),
        }
    }

    /// The address of the options object, for passing to an entry point.
    pub fn as_ptr(&self) -> (address: usize)
        ensures
            address == self.address(),
            address != 0,
    {
        self.inner.as_ptr()
    }

    /// Gives the options up: the request that destroys the object.
    pub fn destroy(self) -> (request: Request<'static>)
        ensures
            request@ == (RequestView::Destroy { kind: Kind::Options, handle: self.address() }),
    {
        self.inner.destroy()
    }
}

} // verus!
