//! The native engine's boundary, as data.
//!
//! The engine is reached through a fixed set of entry points that take and
//! return opaque handles and raw (pointer, length) buffers. This module names
//! the kinds of native object, gives each handle an owner, and describes a
//! call of an entry point ([`Request`]) and what it handed back ([`Reply`])
//! as plain values, so that the rest of the library can decide what to call
//! and what to make of the answer without touching native memory itself.

use core::marker::PhantomData;
use libc::c_int;
use vstd::prelude::*;

verus! {

/// The native database object.
#[allow(non_camel_case_types)]
pub struct rocksdb_t {
    _private: [u8; 0],
}

/// The native options object.
#[allow(non_camel_case_types)]
pub struct rocksdb_options_t {
    _private: [u8; 0],
}

/// The native read-options object.
#[allow(non_camel_case_types)]
pub struct rocksdb_readoptions_t {
    _private: [u8; 0],
}

/// The native write-options object.
#[allow(non_camel_case_types)]
pub struct rocksdb_writeoptions_t {
    _private: [u8; 0],
}

/// The native iterator object.
#[allow(non_camel_case_types)]
pub struct rocksdb_iterator_t {
    _private: [u8; 0],
}

/// The native column-family handle object.
#[allow(non_camel_case_types)]
pub struct rocksdb_column_family_handle_t {
    _private: [u8; 0],
}

/// The kinds of native object that a handle can name.
#[derive(Clone, Copy, PartialEq, Eq, Structural, Debug)]
pub enum Kind {
    Database,
    Options,
    ReadOptions,
    WriteOptions,
    Iterator,
    ColumnFamily,
}

/// A marker type that stands for one kind of native object.
pub trait Pointee {
    /// The kind of object that the marker stands for.
    spec fn kind() -> Kind;

    /// The kind of object that the marker stands for.
    fn pointee_kind() -> (kind: Kind)
        ensures
            kind == Self::kind(),
    ;
}

impl Pointee for rocksdb_t {
    open spec fn kind() -> Kind {
        Kind::Database
    }

    fn pointee_kind() -> (kind: Kind) {
        Kind::Database
    }
}

impl Pointee for rocksdb_options_t {
    open spec fn kind() -> Kind {
        Kind::Options
    }

    fn pointee_kind() -> (kind: Kind) {
        Kind::Options
    }
}

impl Pointee for rocksdb_readoptions_t {
    open spec fn kind() -> Kind {
        Kind::ReadOptions
    }

    fn pointee_kind() -> (kind: Kind) {
        Kind::ReadOptions
    }
}

impl Pointee for rocksdb_writeoptions_t {
    open spec fn kind() -> Kind {
        Kind::WriteOptions
    }

    fn pointee_kind() -> (kind: Kind) {
        Kind::WriteOptions
    }
}

impl Pointee for rocksdb_iterator_t {
    open spec fn kind() -> Kind {
        Kind::Iterator
    }

    fn pointee_kind() -> (kind: Kind) {
        Kind::Iterator
    }
}

impl Pointee for rocksdb_column_family_handle_t {
    open spec fn kind() -> Kind {
        Kind::ColumnFamily
    }

    fn pointee_kind() -> (kind: Kind) {
        Kind::ColumnFamily
    }
}

/// The address of a native object of kind `K`, never null.
///
/// A handle is not copied: it is moved or borrowed, and whoever holds it owes
/// the engine one call of the matching destroy entry point, which
/// [`NativeHandle::destroy`] describes and which takes the handle away.
pub struct NativeHandle<K: Pointee> {
    address: usize,
    pointee: PhantomData<K>,
}

impl<K: Pointee> NativeHandle<K> {
    #[verifier::type_invariant]
    spec fn non_null(self) -> bool {
        self.address != 0
    }

    /// The address that the handle holds.
    pub closed spec fn address(self) -> usize {
        self.address
    }

    /// Takes ownership of the object at `address`; a null address names no
    /// object.
    pub fn new(address: usize) -> (handle: Option<Self>)
        ensures
            handle is None <==> address == 0,
            handle matches Some(h) ==> h.address() == address,
    {
        if address == 0 {
            None
        } else {
            Some(NativeHandle { address, pointee: PhantomData })
        }
    }

    /// Takes ownership of the object at `address`, which is known not to be
    /// null.
    pub(crate) fn new_unchecked(address: usize) -> (handle: Self)
        requires
            address != 0,
        ensures
            handle.address() == address,
    {
        NativeHandle { address, pointee: PhantomData }
    }

    /// The address, for passing to an entry point.
    pub fn as_ptr(&self) -> (address: usize)
        ensures
            address == self.address(),
            address != 0,
    {
        proof {
            use_type_invariant(self);
        }
        self.address
    }

    /// Gives the handle up: the request that destroys the object it names.
    pub fn destroy(self) -> (request: Request<'static>)
        ensures
            request@ == (RequestView::Destroy { kind: K::kind(), handle: self.address() }),
    {
        Request::Destroy { kind: K::pointee_kind(), handle: self.address }
    }
}

/// The two flags of the options object that this library sets.
#[derive(Clone, Copy, PartialEq, Eq, Structural, Debug)]
pub enum Setting {
    CreateIfMissing,
    ErrorIfExists,
}

/// Where a positioning call puts the cursor.
#[derive(Clone, Copy, Debug, PartialEq, Eq)]
pub enum Position<'a> {
    /// The first entry.
    First,
    /// The last entry.
    Last,
    /// The first entry whose key is at or after the given one.
    AtOrAfter(&'a [u8]),
    /// The last entry whose key is at or before the given one.
    AtOrBefore(&'a [u8]),
    /// The entry after the current one.
    Next,
    /// The entry before the current one.
    Prev,
}

/// The mathematical content of a [`Position`].
pub enum PositionView {
    First,
    Last,
    AtOrAfter(Seq<u8>),
    AtOrBefore(Seq<u8>),
    Next,
    Prev,
}

impl<'a> View for Position<'a> {
    type V = PositionView;

    open spec fn view(&self) -> PositionView {
        match *self {
            Position::First => PositionView::First,
            Position::Last => PositionView::Last,
            Position::AtOrAfter(key) => PositionView::AtOrAfter(key@),
            Position::AtOrBefore(key) => PositionView::AtOrBefore(key@),
            Position::Next => PositionView::Next,
            Position::Prev => PositionView::Prev,
        }
    }
}

/// One call of a native entry point, with its arguments.
///
/// Handles and pointers are addresses. A path or a name is the bytes of a
/// C string, terminator included. The last three requests touch native
/// memory rather than the engine's objects: they copy a message or a buffer
/// out of it, and hand a pointer back to the engine's allocator.
#[derive(Clone, Copy, Debug, PartialEq, Eq)]
pub enum Request<'a> {
    /// Creates an options, read-options or write-options object.
    Create { kind: Kind },
    /// Destroys the object of the given kind; for a database, closes it.
    Destroy { kind: Kind, handle: usize },
    /// Sets one flag of an options object.
    Configure { options: usize, setting: Setting, enabled: c_int },
    /// Opens the database at `path`.
    Open { options: usize, path: &'a [u8] },
    /// Opens the database at `path` for reading only.
    OpenForReadOnly { options: usize, path: &'a [u8], error_if_wal_file_exists: c_int },
    /// Opens the database at `path` with the named column families, each
    /// with its own options.
    OpenColumnFamilies {
        options: usize,
        path: &'a [u8],
        names: &'a [Vec<u8>],
        cf_options: &'a [usize],
    },
    /// Writes `value` under `key`, in the column family if one is given.
    Put { db: usize, options: usize, cf: Option<usize>, key: &'a [u8], value: &'a [u8] },
    /// Reads the value under `key`, in the column family if one is given.
    Get { db: usize, options: usize, cf: Option<usize>, key: &'a [u8] },
    /// Removes `key`, in the column family if one is given.
    Delete { db: usize, options: usize, cf: Option<usize>, key: &'a [u8] },
    /// Creates a column family.
    CreateColumnFamily { db: usize, options: usize, name: &'a [u8] },
    /// Drops a column family and its data.
    DropColumnFamily { db: usize, handle: usize },
    /// Creates an iterator over the database.
    CreateIterator { db: usize, options: usize },
    /// Asks whether the iterator stands at an entry.
    Valid { iter: usize },
    /// Moves the iterator.
    Seek { iter: usize, to: Position<'a> },
    /// Asks for the key at the iterator's entry.
    Key { iter: usize },
    /// Asks for the value at the iterator's entry.
    Value { iter: usize },
    /// Asks for the error that the iterator has met, if any.
    Status { iter: usize },
    /// Copies the null-terminated message at `pointer`.
    ReadMessage { pointer: usize },
    /// Copies the `length` bytes at `pointer`.
    ReadBuffer { pointer: usize, length: usize },
    /// Returns the memory at `pointer` to the engine's allocator.
    Free { pointer: usize },
}

/// The mathematical content of a [`Request`].
pub enum RequestView {
    Create { kind: Kind },
    Destroy { kind: Kind, handle: usize },
    Configure { options: usize, setting: Setting, enabled: c_int },
    Open { options: usize, path: Seq<u8> },
    OpenForReadOnly { options: usize, path: Seq<u8>, error_if_wal_file_exists: c_int },
    OpenColumnFamilies {
        options: usize,
        path: Seq<u8>,
        names: Seq<Seq<u8>>,
        cf_options: Seq<usize>,
    },
    Put { db: usize, options: usize, cf: Option<usize>, key: Seq<u8>, value: Seq<u8> },
    Get { db: usize, options: usize, cf: Option<usize>, key: Seq<u8> },
    Delete { db: usize, options: usize, cf: Option<usize>, key: Seq<u8> },
    CreateColumnFamily { db: usize, options: usize, name: Seq<u8> },
    DropColumnFamily { db: usize, handle: usize },
    CreateIterator { db: usize, options: usize },
    Valid { iter: usize },
    Seek { iter: usize, to: PositionView },
    Key { iter: usize },
    Value { iter: usize },
    Status { iter: usize },
    ReadMessage { pointer: usize },
    ReadBuffer { pointer: usize, length: usize },
    Free { pointer: usize },
}

/// The byte strings of a list, each as a sequence.
pub open spec fn byte_strings(list: Seq<Vec<u8>>) -> Seq<Seq<u8>> {
    Seq::new(list.len(), |i: int| list[i]@)
}

impl<'a> View for Request<'a> {
    type V = RequestView;

    open spec fn view(&self) -> RequestView {
        match *self {
            Request::Create { kind } => RequestView::Create { kind },
            Request::Destroy { kind, handle } => RequestView::Destroy { kind, handle },
            Request::Configure { options, setting, enabled } => RequestView::Configure {
                options,
                setting,
                enabled,
            },
            Request::Open { options, path } => RequestView::Open { options, path: path@ },
            Request::OpenForReadOnly {
                options,
                path,
                error_if_wal_file_exists,
            } => RequestView::OpenForReadOnly { options, path: path@, error_if_wal_file_exists },
            Request::OpenColumnFamilies {
                options,
                path,
                names,
                cf_options,
            } => RequestView::OpenColumnFamilies {
                options,
                path: path@,
                names: byte_strings(names@),
                cf_options: cf_options@,
            },
            Request::Put { db, options, cf, key, value } => RequestView::Put {
                db,
                options,
                cf,
                key: key@,
                value: value@,
            },
            Request::Get { db, options, cf, key } => RequestView::Get { db, options, cf, key: key@ },
            Request::Delete { db, options, cf, key } => RequestView::Delete {
                db,
                options,
                cf,
                key: key@,
            },
            Request::CreateColumnFamily { db, options, name } => RequestView::CreateColumnFamily {
                db,
                options,
                name: name@,
            },
            Request::DropColumnFamily { db, handle } => RequestView::DropColumnFamily { db, handle },
            Request::CreateIterator { db, options } => RequestView::CreateIterator { db, options },
            Request::Valid { iter } => RequestView::Valid { iter },
            Request::Seek { iter, to } => RequestView::Seek { iter, to: to@ },
            Request::Key { iter } => RequestView::Key { iter },
            Request::Value { iter } => RequestView::Value { iter },
            Request::Status { iter } => RequestView::Status { iter },
            Request::ReadMessage { pointer } => RequestView::ReadMessage { pointer },
            Request::ReadBuffer { pointer, length } => RequestView::ReadBuffer { pointer, length },
            Request::Free { pointer } => RequestView::Free { pointer },
        }
    }
}

/// What a call of an entry point handed back: its return value and what it
/// wrote through its out-parameters.
///
/// An entry point fills the fields that it produces and leaves the others
/// as [`Reply::new`] made them; no operation reads a field that the call
/// it asked for does not produce.
#[derive(Debug)]
pub struct Reply {
    /// The pointer returned: a handle, a value or a slice of the engine's.
    pub pointer: usize,
    /// The length written beside a returned pointer.
    pub length: usize,
    /// The error-message pointer written, null where the call succeeded.
    pub error: usize,
    /// The flag returned.
    pub flag: u8,
    /// The bytes copied out of native memory.
    pub bytes: Vec<u8>,
    /// The handles written, one for each column family asked for.
    pub handles: Vec<usize>,
}

impl Reply {
    /// The reply of an entry point that hands nothing back.
    pub fn new() -> (reply: Reply)
        ensures
            reply.pointer == 0,
            reply.length == 0,
            reply.error == 0,
            reply.flag == 0,
            reply.bytes@ == Seq::<u8>::empty(),
            reply.handles@ == Seq::<usize>::empty(),
    {
        Reply { pointer: 0, length: 0, error: 0, flag: 0, bytes: Vec::new(), handles: Vec::new() }
    }
}

/// Whether a byte string holds a zero byte.
pub open spec fn has_nul(bytes: Seq<u8>) -> bool {
    exists|i: int| 0 <= i < bytes.len() && bytes[i] == 0
}

/// The C string that holds `bytes`: the bytes, then the terminator.
pub open spec fn c_string(bytes: Seq<u8>) -> Seq<u8> {
    bytes.push(0u8)
}

/// Encodes `bytes` as a C string. A C string cannot hold a zero byte before
/// its terminator, so bytes with one have no encoding.
pub fn encode_c_string(bytes: &[u8]) -> (encoded: Option<Vec<u8>>)
    ensures
        encoded is None <==> has_nul(bytes@),
        encoded matches Some(string) ==> string@ == c_string(bytes@),
{
    let mut string: Vec<u8> = Vec::new();
    let mut i: usize = 0;
    while i < bytes.len()
        invariant
            i <= bytes.len(),
            string@ == bytes@.take(i as int),
            forall|j: int| 0 <= j < i ==> bytes[j] != 0,
        decreases bytes.len() - i,
    {
        let byte: u8 = bytes[i];
        if byte == 0 {
            return None;
        }
        string.push(byte);
        assert(bytes@.take(i as int).push(byte) == bytes@.take(i + 1));
        i = i + 1;
    }
    assert(bytes@.take(i as int) == bytes@);
    string.push(0u8);
    Some(string)
}

} // verus!
