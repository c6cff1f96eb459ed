//! The database handle and the operations on it.

use crate::buffer::take_buffer;
use crate::error::{translate, translate_finish, translate_request, translated, Error, Result};
use crate::ffi::{
    byte_strings, c_string, encode_c_string, has_nul, rocksdb_column_family_handle_t, rocksdb_t,
    Kind, NativeHandle, Reply, Request, RequestView,
};
use crate::guard::{scoped, SCOPE};
use crate::options::{native_flag, to_native_flag, Options};
use crate::protocol::{Call, Next, Poll, Protocol};
use vstd::prelude::*;
use vstd::string::{StringExecFns, StringSliceAdditionalSpecFns};

verus! {

/// An open database, owned.
///
/// Operations borrow the database, so none is under way once
/// [`DB::close`] has taken it.
///
/// A database may be sent to other threads and shared between them. The
/// value is an address and a path that no operation changes, and the
/// engine takes calls on one database from several threads at once.
pub struct DB {
    inner: NativeHandle<rocksdb_t>,
    path: String,
}

/// A column family of a database, owned.
///
/// The handle means something only while its database is open: that it is
/// not used later is left to the caller. Like the database, it may be sent
/// to other threads and shared between them.
pub struct ColumnFamilyHandle {
    inner: NativeHandle<rocksdb_column_family_handle_t>,
}

impl ColumnFamilyHandle {
    /// The address of the native handle.
    pub closed spec fn address(&self) -> usize {
        self.inner.address()
    }

    /// The address of the native handle, for passing to an entry point.
    pub fn as_ptr(&self) -> (address: usize)
        ensures
            address == self.address(),
            address != 0,
    {
        self.inner.as_ptr()
    }

    /// Gives the handle up: the request that destroys it. The column family
    /// and its data stay in the database.
    pub fn destroy(self) -> (request: Request<'static>)
        ensures
            request@ == (RequestView::Destroy { kind: Kind::ColumnFamily, handle: self.address() }),
    {
        self.inner.destroy()
    }
}

/// The address of the column family, where one is given.
pub open spec fn cf_address(cf: Option<&ColumnFamilyHandle>) -> Option<usize> {
    match cf {
        Some(handle) => Some(handle.address()),
        None => None,
    }
}

fn cf_as_ptr(cf: Option<&ColumnFamilyHandle>) -> (address: Option<usize>)
    ensures
        address == cf_address(cf),
{
    match cf {
        Some(handle) => Some(handle.as_ptr()),
        None => None,
    }
}

/// A write under way: `put` where there is a value, `delete` where there is
/// none.
pub struct Write<'a> {
    db: &'a DB,
    cf: Option<&'a ColumnFamilyHandle>,
    key: &'a [u8],
    value: Option<&'a [u8]>,
}

/// The mathematical content of a [`Write`].
pub struct WriteView {
    pub db: usize,
    pub cf: Option<usize>,
    pub key: Seq<u8>,
    pub value: Option<Seq<u8>>,
}

impl<'a> View for Write<'a> {
    type V = WriteView;

    closed spec fn view(&self) -> WriteView {
        WriteView {
            db: self.db.address(),
            cf: cf_address(self.cf),
            key: self.key@,
            value: match self.value {
                Some(value) => Some(value@),
                None => None,
            },
        }
    }
}

/// The call that a write makes once it has its write options.
pub open spec fn write_request(write: WriteView, options: usize) -> RequestView {
    match write.value {
        Some(value) => RequestView::Put {
            db: write.db,
            options,
            cf: write.cf,
            key: write.key,
            value,
        },
        None => RequestView::Delete { db: write.db, options, cf: write.cf, key: write.key },
    }
}

/// What a write does.
///
/// It makes its call with write options of its own, and fails if the
/// engine hands back none. Once they are destroyed, it makes an error of
/// what the call reported.
pub open spec fn write_script(write: WriteView, replies: Seq<Reply>) -> Next<
    core::result::Result<(), Seq<char>>,
> {
    match scoped(Kind::WriteOptions, |options: usize| write_request(write, options), replies) {
        Next::Ask(request) => Next::Ask(request),
        Next::Done(None) => Next::Done(Err("Failed to create write options"@)),
        Next::Done(Some(reply)) => match translate(reply.error, replies, SCOPE as int) {
            Next::Ask(request) => Next::Ask(request),
            Next::Done(Some(message)) => Next::Done(Err(message)),
            Next::Done(None) => Next::Done(Ok(())),
        },
    }
}

/// The mathematical content of a result without a value.
pub open spec fn unit_outcome(output: Result<()>) -> core::result::Result<(), Seq<char>> {
    match output {
        Ok(_) => Ok(()),
        Err(error) => Err(error@),
    }
}

impl<'a> Protocol for Write<'a> {
    type Output = Result<()>;

    type Outcome = core::result::Result<(), Seq<char>>;

    open spec fn script(&self, replies: Seq<Reply>) -> Next<core::result::Result<(), Seq<char>>> {
        write_script(self@, replies)
    }

    open spec fn outcome(output: Result<()>) -> core::result::Result<(), Seq<char>> {
        unit_outcome(output)
    }

    fn finished(&self, replies: &Vec<Reply>) -> (done: bool) {
        replies.len() > 0 && (replies[0].pointer == 0 || (replies.len() > 2 && translated(
            replies[1].error,
            replies,
            SCOPE,
        )))
    }

    fn request<'b>(&'b self, replies: &'b Vec<Reply>) -> (request: Request<'b>) {
        if replies.len() == 0 {
            Request::Create { kind: Kind::WriteOptions }
        } else if replies.len() == 1 {
            let db: usize = self.db.as_ptr();
            let options: usize = replies[0].pointer;
            let cf: Option<usize> = cf_as_ptr(self.cf);
            match self.value {
                Some(value) => Request::Put { db, options, cf, key: self.key, value },
                None => Request::Delete { db, options, cf, key: self.key },
            }
        } else if replies.len() == 2 {
            Request::Destroy { kind: Kind::WriteOptions, handle: replies[0].pointer }
        } else {
            translate_request(replies[1].error, replies, SCOPE)
        }
    }

    fn finish(self, replies: Vec<Reply>) -> (output: Result<()>) {
        if replies[0].pointer == 0 {
            Err(Error::new("Failed to create write options"))
        } else {
            match translate_finish(replies[1].error, &replies, SCOPE) {
                Some(error) => Err(error),
                None => Ok(()),
            }
        }
    }
}

/// A read under way.
pub struct Read<'a> {
    db: &'a DB,
    cf: Option<&'a ColumnFamilyHandle>,
    key: &'a [u8],
}

/// The mathematical content of a [`Read`].
pub struct ReadView {
    pub db: usize,
    pub cf: Option<usize>,
    pub key: Seq<u8>,
}

impl<'a> View for Read<'a> {
    type V = ReadView;

    closed spec fn view(&self) -> ReadView {
        ReadView { db: self.db.address(), cf: cf_address(self.cf), key: self.key@ }
    }
}

/// What a read does.
///
/// It makes its call with read options of its own, and fails if the engine
/// hands back none. Once they are destroyed, an error that the call
/// reported comes first: it is made into the result and the value is not
/// looked at. Without an error, the result is the value that the call
/// handed over, and none where it handed over none: the absence of the key.
pub open spec fn read_script(read: ReadView, replies: Seq<Reply>) -> Next<
    core::result::Result<Option<Seq<u8>>, Seq<char>>,
> {
    let get = |options: usize|
        RequestView::Get { db: read.db, options, cf: read.cf, key: read.key };
    match scoped(Kind::ReadOptions, get, replies) {
        Next::Ask(request) => Next::Ask(request),
        Next::Done(None) => Next::Done(Err("Failed to create read options"@)),
        Next::Done(Some(reply)) => match translate(reply.error, replies, SCOPE as int) {
            Next::Ask(request) => Next::Ask(request),
            Next::Done(Some(message)) => Next::Done(Err(message)),
            Next::Done(None) => match take_buffer(
                reply.pointer,
                reply.length,
                replies,
                SCOPE as int,
            ) {
                Next::Ask(request) => Next::Ask(request),
                Next::Done(value) => Next::Done(Ok(value)),
            },
        },
    }
}

/// The mathematical content of the result of a read.
pub open spec fn value_outcome(output: Result<Option<Vec<u8>>>) -> core::result::Result<
    Option<Seq<u8>>,
    Seq<char>,
> {
    match output {
        Ok(Some(value)) => Ok(Some(value@)),
        Ok(None) => Ok(None),
        Err(error) => Err(error@),
    }
}

impl<'a> Protocol for Read<'a> {
    type Output = Result<Option<Vec<u8>>>;

    type Outcome = core::result::Result<Option<Seq<u8>>, Seq<char>>;

    open spec fn script(&self, replies: Seq<Reply>) -> Next<
        core::result::Result<Option<Seq<u8>>, Seq<char>>,
    > {
        read_script(self@, replies)
    }

    open spec fn outcome(output: Result<Option<Vec<u8>>>) -> core::result::Result<
        Option<Seq<u8>>,
        Seq<char>,
    > {
        value_outcome(output)
    }

    fn finished(&self, replies: &Vec<Reply>) -> (done: bool) {
        if replies.len() == 0 {
            false
        } else if replies[0].pointer == 0 {
            true
        } else if replies.len() <= 2 {
            false
        } else if replies[1].error != 0 {
            translated(replies[1].error, replies, SCOPE)
        } else {
            replies[1].pointer == 0 || replies.len() > 4
        }
    }

    fn request<'b>(&'b self, replies: &'b Vec<Reply>) -> (request: Request<'b>) {
        if replies.len() == 0 {
            Request::Create { kind: Kind::ReadOptions }
        } else if replies.len() == 1 {
            Request::Get {
                db: self.db.as_ptr(),
                options: replies[0].pointer,
                cf: cf_as_ptr(self.cf),
                key: self.key,
            }
        } else if replies.len() == 2 {
            Request::Destroy { kind: Kind::ReadOptions, handle: replies[0].pointer }
        } else if replies[1].error != 0 {
            translate_request(replies[1].error, replies, SCOPE)
        } else if replies.len() == SCOPE {
            Request::ReadBuffer { pointer: replies[1].pointer, length: replies[1].length }
        } else {
            Request::Free { pointer: replies[1].pointer }
        }
    }

    fn finish(self, replies: Vec<Reply>) -> (output: Result<Option<Vec<u8>>>) {
        if replies[0].pointer == 0 {
            Err(Error::new("Failed to create read options"))
        } else {
            match translate_finish(replies[1].error, &replies, SCOPE) {
                Some(error) => Err(error),
                None => if replies[1].pointer == 0 {
                    Ok(None)
                } else {
                    let mut replies = replies;
                    let copied: Reply = replies.remove(SCOPE);
                    Ok(Some(copied.bytes))
                },
            }
        }
    }
}

/// The opening of a database.
pub struct Open<'a> {
    options: &'a Options,
    path: &'a str,
    c_path: Vec<u8>,
    read_only: Option<bool>,
}

/// The mathematical content of an [`Open`].
pub struct OpenView {
    /// The address of the options.
    pub options: usize,
    /// The path as a C string.
    pub path: Seq<u8>,
    /// The path as the caller gave it.
    pub location: Seq<char>,
    /// Where the database is opened for reading only, whether a write-ahead
    /// log is then an error.
    pub read_only: Option<bool>,
}

impl<'a> View for Open<'a> {
    type V = OpenView;

    closed spec fn view(&self) -> OpenView {
        OpenView {
            options: self.options.address(),
            path: self.c_path@,
            location: self.path@,
            read_only: self.read_only,
        }
    }
}

/// The call that opens the database.
pub open spec fn open_request(open: OpenView) -> RequestView {
    match open.read_only {
        None => RequestView::Open { options: open.options, path: open.path },
        Some(flag) => RequestView::OpenForReadOnly {
            options: open.options,
            path: open.path,
            error_if_wal_file_exists: native_flag(flag),
        },
    }
}

/// What the opening fails with where the engine hands back neither a
/// database nor an error.
pub open spec fn open_failure(open: OpenView) -> Seq<char> {
    match open.read_only {
        None => "Failed to open database"@,
        Some(_) => "Failed to open database in read-only mode"@,
    }
}

/// What the opening of a database does.
///
/// It makes one call. An error that the call reported is made into the
/// result. Without an error, a null database is a failure all the same, and
/// any other is the database, at the path given.
pub open spec fn open_script(open: OpenView, replies: Seq<Reply>) -> Next<
    core::result::Result<(usize, Seq<char>), Seq<char>>,
> {
    if replies.len() == 0 {
        Next::Ask(open_request(open))
    } else {
        match translate(replies[0].error, replies, 1) {
            Next::Ask(request) => Next::Ask(request),
            Next::Done(Some(message)) => Next::Done(Err(message)),
            Next::Done(None) => if replies[0].pointer == 0 {
                Next::Done(Err(open_failure(open)))
            } else {
                Next::Done(Ok((replies[0].pointer, open.location)))
            },
        }
    }
}

/// The mathematical content of the result of an opening: the address of the
/// database and its path.
pub open spec fn db_outcome(output: Result<DB>) -> core::result::Result<
    (usize, Seq<char>),
    Seq<char>,
> {
    match output {
        Ok(db) => Ok((db.address(), db.location())),
        Err(error) => Err(error@),
    }
}

impl<'a> Protocol for Open<'a> {
    type Output = Result<DB>;

    type Outcome = core::result::Result<(usize, Seq<char>), Seq<char>>;

    open spec fn script(&self, replies: Seq<Reply>) -> Next<
        core::result::Result<(usize, Seq<char>), Seq<char>>,
    > {
        open_script(self@, replies)
    }

    open spec fn outcome(output: Result<DB>) -> core::result::Result<
        (usize, Seq<char>),
        Seq<char>,
    > {
        db_outcome(output)
    }

    fn finished(&self, replies: &Vec<Reply>) -> (done: bool) {
        replies.len() > 0 && translated(replies[0].error, replies, 1)
    }

    fn request<'b>(&'b self, replies: &'b Vec<Reply>) -> (request: Request<'b>) {
        if replies.len() == 0 {
            match self.read_only {
                None => Request::Open {
                    options: self.options.as_ptr(),
                    path: self.c_path.as_slice(),
                },
                Some(flag) => Request::OpenForReadOnly {
                    options: self.options.as_ptr(),
                    path: self.c_path.as_slice(),
                    error_if_wal_file_exists: to_native_flag(flag),
                },
            }
        } else {
            translate_request(replies[0].error, replies, 1)
        }
    }

    fn finish(self, replies: Vec<Reply>) -> (output: Result<DB>) {
        match translate_finish(replies[0].error, &replies, 1) {
            Some(error) => Err(error),
            None => match NativeHandle::new(replies[0].pointer) {
                Some(inner) => Ok(DB { inner, path: String::from_str(self.path) }),
                None => match self.read_only {
                    None => Err(Error::new("Failed to open database")),
                    Some(_) => Err(Error::new("Failed to open database in read-only mode")),
                },
            },
        }
    }
}

/// The creation of a column family.
pub struct CreateColumnFamily<'a> {
    db: &'a DB,
    options: &'a Options,
    name: Vec<u8>,
}

/// The mathematical content of a [`CreateColumnFamily`].
pub struct CreateColumnFamilyView {
    pub db: usize,
    pub options: usize,
    /// The name as a C string.
    pub name: Seq<u8>,
}

impl<'a> View for CreateColumnFamily<'a> {
    type V = CreateColumnFamilyView;

    closed spec fn view(&self) -> CreateColumnFamilyView {
        CreateColumnFamilyView {
            db: self.db.address(),
            options: self.options.address(),
            name: self.name@,
        }
    }
}

/// What the creation of a column family does.
///
/// It makes one call. An error that the call reported is made into the
/// result. Without an error, a null handle is a failure all the same, and
/// any other is the handle of the new column family.
pub open spec fn create_column_family_script(
    create: CreateColumnFamilyView,
    replies: Seq<Reply>,
) -> Next<core::result::Result<usize, Seq<char>>> {
    if replies.len() == 0 {
        Next::Ask(
            RequestView::CreateColumnFamily {
                db: create.db,
                options: create.options,
                name: create.name,
            },
        )
    } else {
        match translate(replies[0].error, replies, 1) {
            Next::Ask(request) => Next::Ask(request),
            Next::Done(Some(message)) => Next::Done(Err(message)),
            Next::Done(None) => if replies[0].pointer == 0 {
                Next::Done(Err("Failed to create column family"@))
            } else {
                Next::Done(Ok(replies[0].pointer))
            },
        }
    }
}

/// The mathematical content of the result of creating a column family: the
/// address of its handle.
pub open spec fn cf_outcome(output: Result<ColumnFamilyHandle>) -> core::result::Result<
    usize,
    Seq<char>,
> {
    match output {
        Ok(handle) => Ok(handle.address()),
        Err(error) => Err(error@),
    }
}

impl<'a> Protocol for CreateColumnFamily<'a> {
    type Output = Result<ColumnFamilyHandle>;

    type Outcome = core::result::Result<usize, Seq<char>>;

    open spec fn script(&self, replies: Seq<Reply>) -> Next<core::result::Result<usize, Seq<char>>> {
        create_column_family_script(self@, replies)
    }

    open spec fn outcome(output: Result<ColumnFamilyHandle>) -> core::result::Result<
        usize,
        Seq<char>,
    > {
        cf_outcome(output)
    }

    fn finished(&self, replies: &Vec<Reply>) -> (done: bool) {
        replies.len() > 0 && translated(replies[0].error, replies, 1)
    }

    fn request<'b>(&'b self, replies: &'b Vec<Reply>) -> (request: Request<'b>) {
        if replies.len() == 0 {
            Request::CreateColumnFamily {
                db: self.db.as_ptr(),
                options: self.options.as_ptr(),
                name: self.name.as_slice(),
            }
        } else {
            translate_request(replies[0].error, replies, 1)
        }
    }

    fn finish(self, replies: Vec<Reply>) -> (output: Result<ColumnFamilyHandle>) {
        match translate_finish(replies[0].error, &replies, 1) {
            Some(error) => Err(error),
            None => match NativeHandle::new(replies[0].pointer) {
                Some(inner) => Ok(ColumnFamilyHandle { inner }),
                None => Err(Error::new("Failed to create column family")),
            },
        }
    }
}

/// The dropping of a column family.
pub struct DropColumnFamily<'a> {
    db: &'a DB,
    handle: ColumnFamilyHandle,
}

/// The mathematical content of a [`DropColumnFamily`].
pub struct DropColumnFamilyView {
    pub db: usize,
    pub handle: usize,
}

impl<'a> View for DropColumnFamily<'a> {
    type V = DropColumnFamilyView;

    closed spec fn view(&self) -> DropColumnFamilyView {
        DropColumnFamilyView { db: self.db.address(), handle: self.handle.address() }
    }
}

/// What the dropping of a column family does.
///
/// It makes the call that drops the column family and its data. The handle
/// is of no use after that, whatever the call did, so it is destroyed.
/// Then an error is made of what the call reported.
pub open spec fn drop_column_family_script(drop: DropColumnFamilyView, replies: Seq<Reply>) -> Next<
    core::result::Result<(), Seq<char>>,
> {
    if replies.len() == 0 {
        Next::Ask(RequestView::DropColumnFamily { db: drop.db, handle: drop.handle })
    } else if replies.len() == 1 {
        Next::Ask(RequestView::Destroy { kind: Kind::ColumnFamily, handle: drop.handle })
    } else {
        match translate(replies[0].error, replies, 2) {
            Next::Ask(request) => Next::Ask(request),
            Next::Done(Some(message)) => Next::Done(Err(message)),
            Next::Done(None) => Next::Done(Ok(())),
        }
    }
}

impl<'a> Protocol for DropColumnFamily<'a> {
    type Output = Result<()>;

    type Outcome = core::result::Result<(), Seq<char>>;

    open spec fn script(&self, replies: Seq<Reply>) -> Next<core::result::Result<(), Seq<char>>> {
        drop_column_family_script(self@, replies)
    }

    open spec fn outcome(output: Result<()>) -> core::result::Result<(), Seq<char>> {
        unit_outcome(output)
    }

    fn finished(&self, replies: &Vec<Reply>) -> (done: bool) {
        replies.len() > 1 && translated(replies[0].error, replies, 2)
    }

    fn request<'b>(&'b self, replies: &'b Vec<Reply>) -> (request: Request<'b>) {
        if replies.len() == 0 {
            Request::DropColumnFamily { db: self.db.as_ptr(), handle: self.handle.as_ptr() }
        } else if replies.len() == 1 {
            Request::Destroy { kind: Kind::ColumnFamily, handle: self.handle.as_ptr() }
        } else {
            translate_request(replies[0].error, replies, 2)
        }
    }

    fn finish(self, replies: Vec<Reply>) -> (output: Result<()>) {
        match translate_finish(replies[0].error, &replies, 2) {
            Some(error) => Err(error),
            None => Ok(()),
        }
    }
}

/// The opening of a database with its column families.
pub struct OpenColumnFamilies<'a> {
    options: &'a Options,
    path: &'a str,
    c_path: Vec<u8>,
    names: Vec<Vec<u8>>,
    cf_options: Vec<usize>,
}

/// The mathematical content of an [`OpenColumnFamilies`].
pub struct OpenColumnFamiliesView {
    /// The address of the options.
    pub options: usize,
    /// The path as a C string.
    pub path: Seq<u8>,
    /// The path as the caller gave it.
    pub location: Seq<char>,
    /// The names of the column families, as C strings.
    pub names: Seq<Seq<u8>>,
    /// The addresses of the options of the column families, one for each
    /// name.
    pub cf_options: Seq<usize>,
}

impl<'a> View for OpenColumnFamilies<'a> {
    type V = OpenColumnFamiliesView;

    closed spec fn view(&self) -> OpenColumnFamiliesView {
        OpenColumnFamiliesView {
            options: self.options.address(),
            path: self.c_path@,
            location: self.path@,
            names: byte_strings(self.names@),
            cf_options: self.cf_options@,
        }
    }
}

/// The handles among `handles` that are not null, in their order.
pub open spec fn non_null(handles: Seq<usize>) -> Seq<usize>
    decreases handles.len(),
{
    if handles.len() == 0 {
        Seq::empty()
    } else if handles.last() != 0 {
        non_null(handles.drop_last()).push(handles.last())
    } else {
        non_null(handles.drop_last())
    }
}

/// Whether the engine handed back all that was asked for: a database, and a
/// handle for each of the `count` column families.
pub open spec fn complete(reply: Reply, count: nat) -> bool {
    &&& reply.pointer != 0
    &&& reply.handles@.len() == count
    &&& forall|i: int| 0 <= i < reply.handles@.len() ==> reply.handles@[i] != 0
}

/// What the opening of a database with its column families does.
///
/// It makes one call. An error that the call reported is made into the
/// result. Without an error, the database and the handles that came back,
/// one for each name and in the order of the names, are the result. Where
/// the database or one of the handles is missing, the names and the handles
/// no longer correspond and the opening fails: each handle that did come
/// back is destroyed, then the database is closed if there is one.
pub open spec fn open_column_families_script(
    open: OpenColumnFamiliesView,
    replies: Seq<Reply>,
) -> Next<core::result::Result<(usize, Seq<char>, Seq<usize>), Seq<char>>> {
    if replies.len() == 0 {
        Next::Ask(
            RequestView::OpenColumnFamilies {
                options: open.options,
                path: open.path,
                names: open.names,
                cf_options: open.cf_options,
            },
        )
    } else {
        match translate(replies[0].error, replies, 1) {
            Next::Ask(request) => Next::Ask(request),
            Next::Done(Some(message)) => Next::Done(Err(message)),
            Next::Done(None) => if complete(replies[0], open.names.len()) {
                Next::Done(Ok((replies[0].pointer, open.location, replies[0].handles@)))
            } else {
                let stray = non_null(replies[0].handles@);
                let destroyed = replies.len() - 1;
                if destroyed < stray.len() {
                    Next::Ask(
                        RequestView::Destroy { kind: Kind::ColumnFamily, handle: stray[destroyed] },
                    )
                } else if replies[0].pointer != 0 && destroyed == stray.len() {
                    Next::Ask(
                        RequestView::Destroy { kind: Kind::Database, handle: replies[0].pointer },
                    )
                } else {
                    Next::Done(Err("Failed to open database with column families"@))
                }
            },
        }
    }
}

/// The addresses of the handles.
pub open spec fn cf_addresses(handles: Seq<ColumnFamilyHandle>) -> Seq<usize> {
    Seq::new(handles.len(), |i: int| handles[i].address())
}

/// The mathematical content of the result of opening with column families:
/// the address of the database, its path, and the addresses of the handles.
pub open spec fn db_with_cfs_outcome(
    output: Result<(DB, Vec<ColumnFamilyHandle>)>,
) -> core::result::Result<(usize, Seq<char>, Seq<usize>), Seq<char>> {
    match output {
        Ok((db, handles)) => Ok((db.address(), db.location(), cf_addresses(handles@))),
        Err(error) => Err(error@),
    }
}

fn is_complete(reply: &Reply, count: usize) -> (whole: bool)
    ensures
        whole == complete(*reply, count as nat),
{
    if reply.pointer == 0 || reply.handles.len() != count {
        return false;
    }
    let mut i: usize = 0;
    while i < reply.handles.len()
        invariant
            i <= reply.handles.len(),
            forall|j: int| 0 <= j < i ==> reply.handles@[j] != 0,
        decreases reply.handles.len() - i,
    {
        if reply.handles[i] == 0 {
            return false;
        }
        i = i + 1;
    }
    true
}

fn strays(handles: &Vec<usize>) -> (stray: Vec<usize>)
    ensures
        stray@ == non_null(handles@),
{
    let mut stray: Vec<usize> = Vec::new();
    let mut i: usize = 0;
    while i < handles.len()
        invariant
            i <= handles.len(),
            stray@ == non_null(handles@.take(i as int)),
        decreases handles.len() - i,
    {
        let handle: usize = handles[i];
        assert(handles@.take(i + 1).drop_last() == handles@.take(i as int));
        if handle != 0 {
            stray.push(handle);
        }
        i = i + 1;
    }
    assert(handles@.take(i as int) == handles@);
    stray
}

impl<'a> Protocol for OpenColumnFamilies<'a> {
    type Output = Result<(DB, Vec<ColumnFamilyHandle>)>;

    type Outcome = core::result::Result<(usize, Seq<char>, Seq<usize>), Seq<char>>;

    open spec fn script(&self, replies: Seq<Reply>) -> Next<
        core::result::Result<(usize, Seq<char>, Seq<usize>), Seq<char>>,
    > {
        open_column_families_script(self@, replies)
    }

    open spec fn outcome(output: Result<(DB, Vec<ColumnFamilyHandle>)>) -> core::result::Result<
        (usize, Seq<char>, Seq<usize>),
        Seq<char>,
    > {
        db_with_cfs_outcome(output)
    }

    fn finished(&self, replies: &Vec<Reply>) -> (done: bool) {
        if replies.len() == 0 {
            false
        } else if replies[0].error != 0 {
            translated(replies[0].error, replies, 1)
        } else if is_complete(&replies[0], self.names.len()) {
            true
        } else {
            let stray = strays(&replies[0].handles);
            let destroyed: usize = replies.len() - 1;
            destroyed >= stray.len() && !(replies[0].pointer != 0 && destroyed == stray.len())
        }
    }

    fn request<'b>(&'b self, replies: &'b Vec<Reply>) -> (request: Request<'b>) {
        if replies.len() == 0 {
            Request::OpenColumnFamilies {
                options: self.options.as_ptr(),
                path: self.c_path.as_slice(),
                names: self.names.as_slice(),
                cf_options: self.cf_options.as_slice(),
            }
        } else if replies[0].error != 0 {
            translate_request(replies[0].error, replies, 1)
        } else {
            let stray = strays(&replies[0].handles);
            let destroyed: usize = replies.len() - 1;
            if destroyed < stray.len() {
                Request::Destroy { kind: Kind::ColumnFamily, handle: stray[destroyed] }
            } else {
                Request::Destroy { kind: Kind::Database, handle: replies[0].pointer }
            }
        }
    }

    fn finish(self, replies: Vec<Reply>) -> (output: Result<(DB, Vec<ColumnFamilyHandle>)>) {
        if let Some(error) = translate_finish(replies[0].error, &replies, 1) {
            Err(error)
        } else if is_complete(&replies[0], self.names.len()) {
            let reply: &Reply = &replies[0];
            let mut handles: Vec<ColumnFamilyHandle> = Vec::new();
            let mut i: usize = 0;
            while i < reply.handles.len()
                invariant
                    i <= reply.handles.len(),
                    forall|j: int| 0 <= j < reply.handles@.len() ==> reply.handles@[j] != 0,
                    handles@.len() == i,
                    forall|j: int| 0 <= j < i ==> handles@[j].address() == reply.handles@[j],
                decreases reply.handles.len() - i,
            {
                handles.push(ColumnFamilyHandle { inner: NativeHandle::new_unchecked(reply.handles[i]) });
                i = i + 1;
            }
            assert(cf_addresses(handles@) =~= reply.handles@);
            let db = DB {
                inner: NativeHandle::new_unchecked(reply.pointer),
                path: String::from_str(self.path),
            };
            Ok((db, handles))
        } else {
            Err(Error::new("Failed to open database with column families"))
        }
    }
}

/// The bytes of each name.
pub open spec fn name_bytes(names: Seq<&str>) -> Seq<Seq<u8>> {
    Seq::new(names.len(), |i: int| names[i].spec_bytes())
}

/// Why a database cannot be opened with the column families as given, where
/// it cannot: there is not one options object for each name, there is no
/// name at all, there are more names than the engine can count, or the path
/// or a name holds a zero byte.
pub open spec fn open_column_families_refusal(
    path: Seq<u8>,
    names: Seq<Seq<u8>>,
    options: nat,
) -> Option<Seq<char>> {
    if names.len() != options {
        Some("Column family names and options must have the same length"@)
    } else if names.len() == 0 {
        Some("At least one column family is required"@)
    } else if names.len() > i32::MAX {
        Some("Too many column families"@)
    } else if has_nul(path) {
        Some("Invalid path"@)
    } else if exists|i: int| 0 <= i < names.len() && has_nul(#[trigger] names[i]) {
        Some("Invalid column family name"@)
    } else {
        None
    }
}

impl DB {
    /// The address of the native database.
    pub closed spec fn address(&self) -> usize {
        self.inner.address()
    }

    /// The path that the database was opened at.
    pub closed spec fn location(&self) -> Seq<char> {
        self.path@
    }

    /// The address of the native database, for passing to an entry point.
    pub fn as_ptr(&self) -> (address: usize)
        ensures
            address == self.address(),
            address != 0,
    {
        self.inner.as_ptr()
    }

    /// Opens a database with the given options.
    ///
    /// A path with a zero byte in it cannot be passed to the engine: the
    /// opening fails before anything is asked of it.
    pub fn open<'a>(options: &'a Options, path: &'a str) -> (poll: Poll<Open<'a>>)
        ensures
            has_nul(path.spec_bytes()) ==> (poll matches Poll::Ready(Err(error)) && error@
                == "Invalid path"@),
            !has_nul(path.spec_bytes()) ==> (poll matches Poll::Pending(call) && call.replies()
                == Seq::<Reply>::empty() && call.op()@ == (OpenView {
                options: options.address(),
                path: c_string(path.spec_bytes()),
                location: path@,
                read_only: None,
            })),
    {
        match encode_c_string(path.as_bytes()) {
            None => Poll::Ready(Err(Error::new("Invalid path"))),
            Some(c_path) => Call::start(Open { options, path, c_path, read_only: None }),
        }
    }

    /// Opens a database in read-only mode; with `error_if_wal_file_exists`
    /// the engine is told to fail where a write-ahead log exists.
    ///
    /// A path with a zero byte in it cannot be passed to the engine: the
    /// opening fails before anything is asked of it.
    pub fn open_for_read_only<'a>(
        options: &'a Options,
        path: &'a str,
        error_if_wal_file_exists: bool,
    ) -> (poll: Poll<Open<'a>>)
        ensures
            has_nul(path.spec_bytes()) ==> (poll matches Poll::Ready(Err(error)) && error@
                == "Invalid path"@),
            !has_nul(path.spec_bytes()) ==> (poll matches Poll::Pending(call) && call.replies()
                == Seq::<Reply>::empty() && call.op()@ == (OpenView {
                options: options.address(),
                path: c_string(path.spec_bytes()),
                location: path@,
                read_only: Some(error_if_wal_file_exists),
            })),
    {
        match encode_c_string(path.as_bytes()) {
            None => Poll::Ready(Err(Error::new("Invalid path"))),
            Some(c_path) => Call::start(
                Open { options, path, c_path, read_only: Some(error_if_wal_file_exists) },
            ),
        }
    }

    /// Opens a database with the column families named, each with its own
    /// options; by convention the first is the family "default". The
    /// handles come back in the order of the names.
    ///
    /// What cannot be passed to the engine fails before anything is asked
    /// of it: see [`open_column_families_refusal`].
    pub fn open_with_column_families<'a>(
        options: &'a Options,
        path: &'a str,
        names: &[&str],
        cf_options: &[&Options],
    ) -> (poll: Poll<OpenColumnFamilies<'a>>)
        ensures
            match open_column_families_refusal(
                path.spec_bytes(),
                name_bytes(names@),
                cf_options@.len(),
            ) {
                Some(message) => poll matches Poll::Ready(Err(error)) && error@ == message,
                None => {
                    &&& poll matches Poll::Pending(call)
                    &&& call.replies() == Seq::<Reply>::empty()
                    &&& call.op()@.options == options.address()
                    &&& call.op()@.path == c_string(path.spec_bytes())
                    &&& call.op()@.location == path@
                    &&& call.op()@.names.len() == names@.len()
                    &&& forall|i: int|
                        0 <= i < names@.len() ==> #[trigger] call.op()@.names[i] == c_string(
                            names@[i].spec_bytes(),
                        )
                    &&& call.op()@.cf_options.len() == cf_options@.len()
                    &&& forall|i: int|
                        0 <= i < cf_options@.len() ==> #[trigger] call.op()@.cf_options[i]
                            == cf_options@[i].address()
                },
            },
    {
        if names.len() != cf_options.len() {
            return Poll::Ready(
                Err(Error::new("Column family names and options must have the same length")),
            );
        }
        if names.len() == 0 {
            return Poll::Ready(Err(Error::new("At least one column family is required")));
        }
        if names.len() > 0x7fff_ffff {
            return Poll::Ready(Err(Error::new("Too many column families")));
        }
        let c_path = match encode_c_string(path.as_bytes()) {
            None => {
                return Poll::Ready(Err(Error::new("Invalid path")));
            },
            Some(c_path) => c_path,
        };
        let mut c_names: Vec<Vec<u8>> = Vec::new();
        let mut i: usize = 0;
        while i < names.len()
            invariant
                i <= names.len(),
                names@.len() == cf_options@.len(),
                names@.len() != 0,
                names@.len() <= i32::MAX,
                !has_nul(path.spec_bytes()),
                c_names@.len() == i,
                forall|j: int| 0 <= j < i ==> !has_nul(#[trigger] name_bytes(names@)[j]),
                forall|j: int|
                    0 <= j < i ==> (#[trigger] c_names@[j])@ == c_string(names@[j].spec_bytes()),
            decreases names.len() - i,
        {
            match encode_c_string(names[i].as_bytes()) {
                None => {
                    assert(has_nul(name_bytes(names@)[i as int]));
                    return Poll::Ready(Err(Error::new("Invalid column family name")));
                },
                Some(c_name) => {
                    c_names.push(c_name);
                },
            }
            i = i + 1;
        }
        let mut addresses: Vec<usize> = Vec::new();
        let mut k: usize = 0;
        while k < cf_options.len()
            invariant
                k <= cf_options.len(),
                addresses@.len() == k,
                forall|j: int| 0 <= j < k ==> addresses@[j] == cf_options@[j].address(),
            decreases cf_options.len() - k,
        {
            addresses.push(cf_options[k].as_ptr());
            k = k + 1;
        }
        Call::start(
            OpenColumnFamilies { options, path, c_path, names: c_names, cf_options: addresses },
        )
    }

    /// Creates a column family.
    ///
    /// A name with a zero byte in it cannot be passed to the engine: the
    /// creation fails before anything is asked of it.
    pub fn create_column_family<'a>(&'a self, options: &'a Options, name: &str) -> (poll: Poll<
        CreateColumnFamily<'a>,
    >)
        ensures
            has_nul(name.spec_bytes()) ==> (poll matches Poll::Ready(Err(error)) && error@
                == "Invalid column family name"@),
            !has_nul(name.spec_bytes()) ==> (poll matches Poll::Pending(call) && call.replies()
                == Seq::<Reply>::empty() && call.op()@ == (CreateColumnFamilyView {
                db: self.address(),
                options: options.address(),
                name: c_string(name.spec_bytes()),
            })),
    {
        match encode_c_string(name.as_bytes()) {
            None => Poll::Ready(Err(Error::new("Invalid column family name"))),
            Some(name) => Call::start(CreateColumnFamily { db: self, options, name }),
        }
    }

    /// Drops a column family with its data. The handle is taken, so that it
    /// cannot be used again.
    pub fn drop_column_family<'a>(&'a self, handle: ColumnFamilyHandle) -> (poll: Poll<
        DropColumnFamily<'a>,
    >)
        ensures
            poll matches Poll::Pending(call) && call.replies() == Seq::<Reply>::empty()
                && call.op()@ == (DropColumnFamilyView {
                db: self.address(),
                handle: handle.address(),
            }),
    {
        Call::start(DropColumnFamily { db: self, handle })
    }

    /// Puts a key-value pair into the database.
    pub fn put<'a>(&'a self, key: &'a [u8], value: &'a [u8]) -> (poll: Poll<Write<'a>>)
        ensures
            poll matches Poll::Pending(call) && call.replies() == Seq::<Reply>::empty()
                && call.op()@ == (WriteView {
                db: self.address(),
                cf: None,
                key: key@,
                value: Some(value@),
            }),
    {
        Call::start(Write { db: self, cf: None, key, value: Some(value) })
    }

    /// Puts a key-value pair into a column family.
    pub fn put_cf<'a>(&'a self, cf: &'a ColumnFamilyHandle, key: &'a [u8], value: &'a [u8]) -> (poll:
        Poll<Write<'a>>)
        ensures
            poll matches Poll::Pending(call) && call.replies() == Seq::<Reply>::empty()
                && call.op()@ == (WriteView {
                db: self.address(),
                cf: Some(cf.address()),
                key: key@,
                value: Some(value@),
            }),
    {
        Call::start(Write { db: self, cf: Some(cf), key, value: Some(value) })
    }

    /// Deletes a key from the database.
    pub fn delete<'a>(&'a self, key: &'a [u8]) -> (poll: Poll<Write<'a>>)
        ensures
            poll matches Poll::Pending(call) && call.replies() == Seq::<Reply>::empty()
                && call.op()@ == (WriteView {
                db: self.address(),
                cf: None,
                key: key@,
                value: None,
            }),
    {
        Call::start(Write { db: self, cf: None, key, value: None })
    }

    /// Deletes a key from a column family.
    pub fn delete_cf<'a>(&'a self, cf: &'a ColumnFamilyHandle, key: &'a [u8]) -> (poll: Poll<
        Write<'a>,
    >)
        ensures
            poll matches Poll::Pending(call) && call.replies() == Seq::<Reply>::empty()
                && call.op()@ == (WriteView {
                db: self.address(),
                cf: Some(cf.address()),
                key: key@,
                value: None,
            }),
    {
        Call::start(Write { db: self, cf: Some(cf), key, value: None })
    }

    /// Gets the value under a key; `None` where the key is absent.
    pub fn get<'a>(&'a self, key: &'a [u8]) -> (poll: Poll<Read<'a>>)
        ensures
            poll matches Poll::Pending(call) && call.replies() == Seq::<Reply>::empty()
                && call.op()@ == (ReadView { db: self.address(), cf: None, key: key@ }),
    {
        Call::start(Read { db: self, cf: None, key })
    }

    /// Gets the value under a key of a column family; `None` where the key
    /// is absent from it.
    pub fn get_cf<'a>(&'a self, cf: &'a ColumnFamilyHandle, key: &'a [u8]) -> (poll: Poll<Read<'a>>)
        ensures
            poll matches Poll::Pending(call) && call.replies() == Seq::<Reply>::empty()
                && call.op()@ == (ReadView {
                db: self.address(),
                cf: Some(cf.address()),
                key: key@,
            }),
    {
        Call::start(Read { db: self, cf: Some(cf), key })
    }

    /// The path where this database is stored.
    pub fn path(&self) -> (path: &str)
        ensures
            path@ == self.location(),
    {
        self.path.as_str()
    }

    /// Gives the database up: the request that closes it.
    pub fn close(self) -> (request: Request<'static>)
        ensures
            request@ == (RequestView::Destroy { kind: Kind::Database, handle: self.address() }),
    {
        self.inner.destroy()
    }
}

} // verus!
