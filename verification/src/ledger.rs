//! A ledger of what the engine holds for the binding.
//!
//! The ledger is a model: it says which addresses name live native objects
//! and native memory, as far as the requests made and the replies given
//! tell. A request is permitted where it names only what is live, of the
//! right kind. That an operation asks only what is permitted, whatever the
//! engine replies, and leaves behind nothing but what it hands to its
//! caller, is what the laws of this library say of each.

use crate::ffi::{has_nul, Kind, Reply, RequestView};
use crate::model::{after_all, Model};
use libc::c_int;
use vstd::prelude::*;

verus! {

/// What the binding owns at an address.
pub enum Object {
    /// A native object of the given kind, until it is destroyed.
    Handle(Kind),
    /// An error message, until it is freed.
    Message,
    /// A value of the given length, until it is freed.
    Buffer(usize),
}

/// Bytes that the engine lends: a key or a value at an iterator's entry.
/// They are good until the iterator next moves or is destroyed.
pub struct Loan {
    pub iter: usize,
    pub length: usize,
}

/// What the engine holds for the binding.
#[verifier::ext_equal]
pub struct Ledger {
    /// What the binding owns, by address.
    pub owned: Map<usize, Object>,
    /// What the engine lends, by address.
    pub lent: Map<usize, Loan>,
    /// The iterators known to stand at an entry.
    pub standing: Set<usize>,
}

impl Ledger {
    /// Whether a native object of the kind is live at the address.
    pub open spec fn holds(self, address: usize, kind: Kind) -> bool {
        self.owned.contains_key(address) && self.owned[address] == Object::Handle(kind)
    }

    /// Whether the address is free for the engine to hand out: not null and
    /// not in use.
    pub open spec fn fresh(self, address: usize) -> bool {
        address != 0 && !self.owned.contains_key(address) && !self.lent.contains_key(address)
    }

    /// The ledger once the binding owns the object.
    pub open spec fn with(self, address: usize, object: Object) -> Ledger {
        Ledger { owned: self.owned.insert(address, object), ..self }
    }

    /// The ledger once the binding owns the object, where the address is
    /// not null.
    pub open spec fn with_some(self, address: usize, object: Object) -> Ledger {
        if address != 0 {
            self.with(address, object)
        } else {
            self
        }
    }

    /// The ledger once the binding no longer owns what is at the address.
    pub open spec fn without(self, address: usize) -> Ledger {
        Ledger { owned: self.owned.remove(address), ..self }
    }

    /// The ledger once the iterator has moved or gone: what it lent is no
    /// longer good, and it is not known to stand at an entry.
    pub open spec fn unsettled(self, iter: usize) -> Ledger {
        Ledger {
            lent: Map::new(
                |address: usize| self.lent.contains_key(address) && self.lent[address].iter != iter,
                |address: usize| self.lent[address],
            ),
            standing: self.standing.remove(iter),
            ..self
        }
    }

    /// The ledger once the iterator has said whether it stands at an entry.
    pub open spec fn settled(self, iter: usize, valid: bool) -> Ledger {
        Ledger {
            standing: if valid {
                self.standing.insert(iter)
            } else {
                self.standing.remove(iter)
            },
            ..self
        }
    }

    /// The ledger once the binding owns each of the handles that is not
    /// null, as a column family.
    pub open spec fn with_column_families(self, handles: Seq<usize>) -> Ledger {
        Ledger {
            owned: Map::new(
                |address: usize| self.owned.contains_key(address) || is_one_of(handles, address),
                |address: usize|
                    if is_one_of(handles, address) {
                        Object::Handle(Kind::ColumnFamily)
                    } else {
                        self.owned[address]
                    },
            ),
            ..self
        }
    }

    /// The ledger once the binding no longer owns what is at the first
    /// `count` of the addresses.
    pub open spec fn without_first(self, addresses: Seq<usize>, count: int) -> Ledger {
        Ledger {
            owned: Map::new(
                |address: usize|
                    self.owned.contains_key(address) && !is_one_of(
                        addresses.take(count),
                        address,
                    ),
                |address: usize| self.owned[address],
            ),
            ..self
        }
    }
}

/// Whether the address is not null and is one of the handles.
pub open spec fn is_one_of(handles: Seq<usize>, address: usize) -> bool {
    address != 0 && exists|i: int| 0 <= i < handles.len() && #[trigger] handles[i] == address
}

/// Whether the bytes are a C string: they end in the terminator and hold
/// no other zero byte.
pub open spec fn is_c_string(bytes: Seq<u8>) -> bool {
    bytes.len() > 0 && bytes.last() == 0 && !has_nul(bytes.drop_last())
}

/// Whether the column family, where one is named, is live.
pub open spec fn holds_cf(ledger: Ledger, cf: Option<usize>) -> bool {
    match cf {
        Some(handle) => ledger.holds(handle, Kind::ColumnFamily),
        None => true,
    }
}

/// Whether the request may be made: it names only what is live and of the
/// right kind, its strings are C strings and its counts fit the engine's
/// integers, it reads and frees only memory that is good, and it asks for an
/// entry, or to step from one, only of an iterator that stands at one.
pub open spec fn permits(ledger: Ledger, request: RequestView) -> bool {
    match request {
        RequestView::Create { kind } => kind == Kind::Options || kind == Kind::ReadOptions || kind
            == Kind::WriteOptions,
        RequestView::Destroy { kind, handle } => ledger.holds(handle, kind),
        RequestView::Configure { options, .. } => ledger.holds(options, Kind::Options),
        RequestView::Open { options, path } => ledger.holds(options, Kind::Options) && is_c_string(
            path,
        ),
        RequestView::OpenForReadOnly { options, path, .. } => ledger.holds(options, Kind::Options)
            && is_c_string(path),
        RequestView::OpenColumnFamilies { options, path, names, cf_options } => {
            &&& ledger.holds(options, Kind::Options)
            &&& is_c_string(path)
            &&& 0 < names.len() <= c_int::MAX
            &&& names.len() == cf_options.len()
            &&& forall|i: int| 0 <= i < names.len() ==> is_c_string(#[trigger] names[i])
            &&& forall|i: int|
                0 <= i < cf_options.len() ==> ledger.holds(#[trigger] cf_options[i], Kind::Options)
        },
        RequestView::Put { db, options, cf, .. } => {
            &&& ledger.holds(db, Kind::Database)
            &&& ledger.holds(options, Kind::WriteOptions)
            &&& holds_cf(ledger, cf)
        },
        RequestView::Get { db, options, cf, .. } => {
            &&& ledger.holds(db, Kind::Database)
            &&& ledger.holds(options, Kind::ReadOptions)
            &&& holds_cf(ledger, cf)
        },
        RequestView::Delete { db, options, cf, .. } => {
            &&& ledger.holds(db, Kind::Database)
            &&& ledger.holds(options, Kind::WriteOptions)
            &&& holds_cf(ledger, cf)
        },
        RequestView::CreateColumnFamily { db, options, name } => {
            &&& ledger.holds(db, Kind::Database)
            &&& ledger.holds(options, Kind::Options)
            &&& is_c_string(name)
        },
        RequestView::DropColumnFamily { db, handle } => {
            &&& ledger.holds(db, Kind::Database)
            &&& ledger.holds(handle, Kind::ColumnFamily)
        },
        RequestView::CreateIterator { db, options } => {
            &&& ledger.holds(db, Kind::Database)
            &&& ledger.holds(options, Kind::ReadOptions)
        },
        RequestView::Valid { iter } => ledger.holds(iter, Kind::Iterator),
        RequestView::Seek { iter, to } => {
            &&& ledger.holds(iter, Kind::Iterator)
            &&& (to is Next || to is Prev) ==> ledger.standing.contains(iter)
        },
        RequestView::Key { iter } => ledger.holds(iter, Kind::Iterator) && ledger.standing.contains(
            iter,
        ),
        RequestView::Value { iter } => ledger.holds(iter, Kind::Iterator)
            && ledger.standing.contains(iter),
        RequestView::Status { iter } => ledger.holds(iter, Kind::Iterator),
        RequestView::ReadMessage { pointer } => ledger.owned.contains_key(pointer)
            && ledger.owned[pointer] == Object::Message,
        RequestView::ReadBuffer { pointer, length } => {
            ||| ledger.owned.contains_key(pointer) && ledger.owned[pointer] == Object::Buffer(length)
            ||| ledger.lent.contains_key(pointer) && ledger.lent[pointer].length == length
        },
        RequestView::Free { pointer } => ledger.owned.contains_key(pointer) && (
        ledger.owned[pointer] == Object::Message || ledger.owned[pointer] is Buffer),
    }
}

/// The ledger once an error-message pointer has been written.
pub open spec fn with_error(ledger: Ledger, reply: Reply) -> Ledger {
    ledger.with_some(reply.error, Object::Message)
}

/// The ledger once the request has been made and answered.
pub open spec fn after(ledger: Ledger, request: RequestView, reply: Reply) -> Ledger {
    match request {
        RequestView::Create { kind } => ledger.with_some(reply.pointer, Object::Handle(kind)),
        RequestView::Destroy { kind, handle } => if kind == Kind::Iterator {
            ledger.without(handle).unsettled(handle)
        } else {
            ledger.without(handle)
        },
        RequestView::Configure { .. } => ledger,
        RequestView::Open { .. } => with_error(
            ledger.with_some(reply.pointer, Object::Handle(Kind::Database)),
            reply,
        ),
        RequestView::OpenForReadOnly { .. } => with_error(
            ledger.with_some(reply.pointer, Object::Handle(Kind::Database)),
            reply,
        ),
        RequestView::OpenColumnFamilies { .. } => with_error(
            ledger.with_column_families(reply.handles@).with_some(
                reply.pointer,
                Object::Handle(Kind::Database),
            ),
            reply,
        ),
        RequestView::Put { .. } => with_error(ledger, reply),
        RequestView::Get { .. } => with_error(
            ledger.with_some(reply.pointer, Object::Buffer(reply.length)),
            reply,
        ),
        RequestView::Delete { .. } => with_error(ledger, reply),
        RequestView::CreateColumnFamily { .. } => with_error(
            ledger.with_some(reply.pointer, Object::Handle(Kind::ColumnFamily)),
            reply,
        ),
        RequestView::DropColumnFamily { .. } => with_error(ledger, reply),
        RequestView::CreateIterator { .. } => ledger.with_some(
            reply.pointer,
            Object::Handle(Kind::Iterator),
        ),
        RequestView::Valid { iter } => ledger.settled(iter, reply.flag != 0),
        RequestView::Seek { iter, .. } => ledger.unsettled(iter),
        RequestView::Key { iter } => lend(ledger, iter, reply),
        RequestView::Value { iter } => lend(ledger, iter, reply),
        RequestView::Status { .. } => with_error(ledger, reply),
        RequestView::ReadMessage { .. } => ledger,
        RequestView::ReadBuffer { .. } => ledger,
        RequestView::Free { pointer } => ledger.without(pointer),
    }
}

/// The ledger once the iterator has lent the bytes that the reply points
/// at.
pub open spec fn lend(ledger: Ledger, iter: usize, reply: Reply) -> Ledger {
    if reply.pointer != 0 {
        Ledger {
            lent: ledger.lent.insert(reply.pointer, Loan { iter, length: reply.length }),
            ..ledger
        }
    } else {
        ledger
    }
}

/// Whether each of the handles is null or free to hand out, and no two of
/// them that are not null are the same.
pub open spec fn fresh_handles(ledger: Ledger, handles: Seq<usize>) -> bool {
    &&& forall|i: int| 0 <= i < handles.len() && handles[i] != 0 ==> ledger.fresh(handles[i])
    &&& forall|i: int, j: int|
        0 <= i < j < handles.len() && handles[i] != 0 ==> handles[i] != handles[j]
}

/// What is taken for granted of the engine's reply to a request.
///
/// What it hands out to be owned is new: a pointer that is not null is not
/// one in use, and two handed out together differ. Where it reports an
/// error it hands out nothing else. What an iterator lends is not owned
/// memory.
pub open spec fn plausible(ledger: Ledger, request: RequestView, reply: Reply) -> bool {
    match request {
        RequestView::Create { .. } => reply.pointer != 0 ==> ledger.fresh(reply.pointer),
        RequestView::CreateIterator { .. } => reply.pointer != 0 ==> ledger.fresh(reply.pointer),
        RequestView::Open { .. } => gives_one(ledger, reply),
        RequestView::OpenForReadOnly { .. } => gives_one(ledger, reply),
        RequestView::CreateColumnFamily { .. } => gives_one(ledger, reply),
        RequestView::Get { .. } => gives_one(ledger, reply),
        RequestView::OpenColumnFamilies { .. } => {
            &&& gives_one(ledger, reply)
            &&& fresh_handles(ledger, reply.handles@)
            &&& forall|i: int|
                0 <= i < reply.handles@.len() && reply.handles@[i] != 0 ==> reply.error == 0
                    && reply.handles@[i] != reply.pointer
        },
        RequestView::Put { .. } => reports(ledger, reply),
        RequestView::Delete { .. } => reports(ledger, reply),
        RequestView::DropColumnFamily { .. } => reports(ledger, reply),
        RequestView::Status { .. } => reports(ledger, reply),
        RequestView::Key { .. } => reply.pointer != 0 ==> !ledger.owned.contains_key(reply.pointer),
        RequestView::Value { .. } => reply.pointer != 0 ==> !ledger.owned.contains_key(
            reply.pointer,
        ),
        _ => true,
    }
}

/// Whether the error pointer of the reply, where there is one, is new.
pub open spec fn reports(ledger: Ledger, reply: Reply) -> bool {
    reply.error != 0 ==> ledger.fresh(reply.error)
}

/// Whether the reply hands out a new object or reports a new error, and
/// not both.
pub open spec fn gives_one(ledger: Ledger, reply: Reply) -> bool {
    &&& reports(ledger, reply)
    &&& reply.pointer != 0 ==> ledger.fresh(reply.pointer)
    &&& reply.error != 0 ==> reply.pointer == 0
}

impl Model for Ledger {
    open spec fn expects(self, request: RequestView, reply: Reply) -> bool {
        plausible(self, request, reply)
    }

    open spec fn after(self, request: RequestView, reply: Reply) -> Ledger {
        after(self, request, reply)
    }
}

/// Whether every request of the conversation was permitted when it was
/// made, and the one that the script asks now is permitted too.
pub open spec fn permitted(
    script: spec_fn(Seq<Reply>) -> Option<RequestView>,
    ledger: Ledger,
    replies: Seq<Reply>,
) -> bool
    decreases replies.len(),
{
    &&& replies.len() > 0 ==> permitted(script, ledger, replies.drop_last())
    &&& script(replies) matches Some(request) ==> permits(
        after_all(script, ledger, replies),
        request,
    )
}

} // verus!
