//! Cursors over a database, and the sequence of entries built on one.

use crate::db::{unit_outcome, DB};
use crate::error::{translate, translate_finish, translate_request, translated, Error, Result};
use crate::ffi::{
    rocksdb_iterator_t, Kind, NativeHandle, Position, PositionView, Reply, Request, RequestView,
};
use crate::guard::{scoped, SCOPE};
use crate::protocol::{Call, Next, Poll, Protocol};
use core::marker::PhantomData;
use vstd::prelude::*;

verus! {

/// The direction of a sequence of entries.
#[derive(Clone, Copy, PartialEq, Eq, Structural, Debug)]
pub enum Direction {
    /// From the first key to the last.
    Forward,
    /// From the last key to the first.
    Reverse,
}

/// A cursor over the entries of a database, in the order of their keys.
///
/// The cursor borrows the database: it cannot be kept once the database is
/// given up. It stands at an entry, or at none: before it has been placed,
/// and after it has run off either end.
pub struct DBIterator<'a> {
    inner: NativeHandle<rocksdb_iterator_t>,
    db: PhantomData<&'a DB>,
}

/// The creation of a cursor.
pub struct NewIterator<'a> {
    db: &'a DB,
}

/// The creation of a sequence of entries.
pub struct NewSequence<'a> {
    db: &'a DB,
    direction: Direction,
}

/// Where a sequence in the given direction begins.
pub open spec fn start_of(direction: Direction) -> PositionView {
    match direction {
        Direction::Forward => PositionView::First,
        Direction::Reverse => PositionView::Last,
    }
}

/// Where a sequence in the given direction goes on.
pub open spec fn step_of(direction: Direction) -> PositionView {
    match direction {
        Direction::Forward => PositionView::Next,
        Direction::Reverse => PositionView::Prev,
    }
}

fn start_position(direction: Direction) -> (to: Position<'static>)
    ensures
        to@ == start_of(direction),
{
    match direction {
        Direction::Forward => Position::First,
        Direction::Reverse => Position::Last,
    }
}

fn step_position(direction: Direction) -> (to: Position<'static>)
    ensures
        to@ == step_of(direction),
{
    match direction {
        Direction::Forward => Position::Next,
        Direction::Reverse => Position::Prev,
    }
}

/// What the creation of a cursor over the database at `db` does, where the
/// cursor is then to be placed at `first`, if anywhere.
///
/// It creates the iterator with read options of its own, and fails if the
/// engine hands back none. They are destroyed at once, whatever came back:
/// the iterator keeps nothing of them. The engine reports no error here; a
/// null iterator is a failure. Any other is placed as asked and is the
/// result.
pub open spec fn new_iterator_script(
    db: usize,
    first: Option<PositionView>,
    replies: Seq<Reply>,
) -> Next<core::result::Result<usize, Seq<char>>> {
    let create = |options: usize| RequestView::CreateIterator { db, options };
    match scoped(Kind::ReadOptions, create, replies) {
        Next::Ask(request) => Next::Ask(request),
        Next::Done(None) => Next::Done(Err("Failed to create read options"@)),
        Next::Done(Some(reply)) => if reply.pointer == 0 {
            Next::Done(Err("Failed to create iterator"@))
        } else if first is Some && replies.len() == SCOPE {
            Next::Ask(RequestView::Seek { iter: reply.pointer, to: first->Some_0 })
        } else {
            Next::Done(Ok(reply.pointer))
        },
    }
}

fn new_iterator_finished(placed: bool, replies: &Vec<Reply>) -> (done: bool)
    ensures
        forall|db: usize, first: Option<PositionView>|
            first is Some == placed ==> done == (#[trigger] new_iterator_script(
                db,
                first,
                replies@,
            ) is Done),
{
    if replies.len() == 0 {
        false
    } else if replies[0].pointer == 0 {
        true
    } else if replies.len() <= 2 {
        false
    } else {
        replies[1].pointer == 0 || !placed || replies.len() > 3
    }
}

fn new_iterator_request(db: usize, replies: &Vec<Reply>) -> (request: Request<'static>)
    requires
        replies@.len() <= 2,
        replies@.len() > 0 ==> replies@[0].pointer != 0,
    ensures
        forall|first: Option<PositionView>| #[trigger]
            new_iterator_script(db, first, replies@) == Next::<
                core::result::Result<usize, Seq<char>>,
            >::Ask(request@),
{
    if replies.len() == 0 {
        Request::Create { kind: Kind::ReadOptions }
    } else if replies.len() == 1 {
        Request::CreateIterator { db, options: replies[0].pointer }
    } else {
        Request::Destroy { kind: Kind::ReadOptions, handle: replies[0].pointer }
    }
}

fn new_iterator_finish<'a>(replies: &Vec<Reply>) -> (output: Result<DBIterator<'a>>)
    requires
        replies@.len() > 0,
        replies@[0].pointer != 0 ==> replies@.len() > 2,
    ensures
        forall|db: usize, first: Option<PositionView>| #[trigger]
            new_iterator_script(db, first, replies@) is Done ==> new_iterator_script(
                db,
                first,
                replies@,
            ) == Next::Done(cursor_outcome(output)),
{
    if replies[0].pointer == 0 {
        Err(Error::new("Failed to create read options"))
    } else {
        match NativeHandle::new(replies[1].pointer) {
            Some(inner) => Ok(DBIterator { inner, db: PhantomData }),
            None => Err(Error::new("Failed to create iterator")),
        }
    }
}

/// The mathematical content of the result of creating a cursor: its
/// address.
pub open spec fn cursor_outcome(output: Result<DBIterator<'_>>) -> core::result::Result<
    usize,
    Seq<char>,
> {
    match output {
        Ok(iter) => Ok(iter.address()),
        Err(error) => Err(error@),
    }
}

impl<'a> NewIterator<'a> {
    /// The address of the database.
    pub closed spec fn db(&self) -> usize {
        self.db.address()
    }
}

impl<'a> Protocol for NewIterator<'a> {
    type Output = Result<DBIterator<'a>>;

    type Outcome = core::result::Result<usize, Seq<char>>;

    open spec fn script(&self, replies: Seq<Reply>) -> Next<core::result::Result<usize, Seq<char>>> {
        new_iterator_script(self.db(), None, replies)
    }

    open spec fn outcome(output: Result<DBIterator<'a>>) -> core::result::Result<usize, Seq<char>> {
        cursor_outcome(output)
    }

    fn finished(&self, replies: &Vec<Reply>) -> (done: bool) {
        new_iterator_finished(false, replies)
    }

    fn request<'b>(&'b self, replies: &'b Vec<Reply>) -> (request: Request<'b>) {
        new_iterator_request(self.db.as_ptr(), replies)
    }

    fn finish(self, replies: Vec<Reply>) -> (output: Result<DBIterator<'a>>) {
        new_iterator_finish(&replies)
    }
}

/// A sequence of the entries of a database, each handed out once, in the
/// order of the keys or against it.
///
/// The cursor under it has been placed at the first entry of the sequence.
/// Once the sequence has ended, with or without an error, it stays ended.
pub struct DBIteratorAdapter<'a> {
    inner: DBIterator<'a>,
    direction: Direction,
    just_seeked: bool,
    finished: bool,
}

/// The mathematical content of a [`DBIteratorAdapter`].
pub struct SequenceView {
    /// The address of the cursor.
    pub iter: usize,
    /// The direction in which the cursor is moved.
    pub direction: Direction,
    /// Whether the cursor still stands where it was first placed.
    pub just_seeked: bool,
    /// Whether the sequence has ended.
    pub finished: bool,
}

impl<'a> View for DBIteratorAdapter<'a> {
    type V = SequenceView;

    closed spec fn view(&self) -> SequenceView {
        SequenceView {
            iter: self.inner.address(),
            direction: self.direction,
            just_seeked: self.just_seeked,
            finished: self.finished,
        }
    }
}

impl<'a> NewSequence<'a> {
    /// The address of the database.
    pub closed spec fn db(&self) -> usize {
        self.db.address()
    }

    /// The direction of the sequence.
    pub closed spec fn direction(&self) -> Direction {
        self.direction
    }
}

/// The mathematical content of the result of creating a sequence: the
/// sequence as it begins.
pub open spec fn new_sequence_outcome(output: Result<DBIteratorAdapter<'_>>) -> core::result::Result<
    SequenceView,
    Seq<char>,
> {
    match output {
        Ok(sequence) => Ok(sequence@),
        Err(error) => Err(error@),
    }
}

/// What the creation of a sequence does: it creates a cursor and places it
/// where the sequence begins.
pub open spec fn new_sequence_script(db: usize, direction: Direction, replies: Seq<Reply>) -> Next<
    core::result::Result<SequenceView, Seq<char>>,
> {
    match new_iterator_script(db, Some(start_of(direction)), replies) {
        Next::Ask(request) => Next::Ask(request),
        Next::Done(Err(message)) => Next::Done(Err(message)),
        Next::Done(Ok(iter)) => Next::Done(
            Ok(SequenceView { iter, direction, just_seeked: true, finished: false }),
        ),
    }
}

impl<'a> Protocol for NewSequence<'a> {
    type Output = Result<DBIteratorAdapter<'a>>;

    type Outcome = core::result::Result<SequenceView, Seq<char>>;

    open spec fn script(&self, replies: Seq<Reply>) -> Next<
        core::result::Result<SequenceView, Seq<char>>,
    > {
        new_sequence_script(self.db(), self.direction(), replies)
    }

    open spec fn outcome(output: Result<DBIteratorAdapter<'a>>) -> core::result::Result<
        SequenceView,
        Seq<char>,
    > {
        new_sequence_outcome(output)
    }

    fn finished(&self, replies: &Vec<Reply>) -> (done: bool) {
        let done = new_iterator_finished(true, replies);
        assert(done == (new_iterator_script(self.db(), Some(start_of(self.direction())), replies@)
            is Done));
        done
    }

    fn request<'b>(&'b self, replies: &'b Vec<Reply>) -> (request: Request<'b>) {
        if replies.len() <= 2 {
            new_iterator_request(self.db.as_ptr(), replies)
        } else {
            Request::Seek { iter: replies[1].pointer, to: start_position(self.direction) }
        }
    }

    fn finish(self, replies: Vec<Reply>) -> (output: Result<DBIteratorAdapter<'a>>) {
        assert(new_iterator_script(self.db(), Some(start_of(self.direction())), replies@) is Done);
        match new_iterator_finish(&replies) {
            Ok(inner) => Ok(DBIteratorAdapter::new(inner, self.direction)),
            Err(error) => Err(error),
        }
    }
}

/// The question whether a cursor stands at an entry.
pub struct Valid<'a, 'b> {
    iter: &'b DBIterator<'a>,
}

/// What asking for validity does: it asks, and a flag other than zero is
/// yes.
pub open spec fn valid_script(iter: usize, replies: Seq<Reply>) -> Next<bool> {
    if replies.len() == 0 {
        Next::Ask(RequestView::Valid { iter })
    } else {
        Next::Done(replies[0].flag != 0)
    }
}

impl<'a, 'b> Valid<'a, 'b> {
    /// The address of the cursor.
    pub closed spec fn iter(&self) -> usize {
        self.iter.address()
    }
}

impl<'a, 'b> Protocol for Valid<'a, 'b> {
    type Output = bool;

    type Outcome = bool;

    open spec fn script(&self, replies: Seq<Reply>) -> Next<bool> {
        valid_script(self.iter(), replies)
    }

    open spec fn outcome(output: bool) -> bool {
        output
    }

    fn finished(&self, replies: &Vec<Reply>) -> (done: bool) {
        replies.len() > 0
    }

    fn request<'c>(&'c self, replies: &'c Vec<Reply>) -> (request: Request<'c>) {
        Request::Valid { iter: self.iter.as_ptr() }
    }

    fn finish(self, replies: Vec<Reply>) -> (output: bool) {
        replies[0].flag != 0
    }
}

/// The two parts of an entry.
#[derive(Clone, Copy, PartialEq, Eq, Structural, Debug)]
pub enum Part {
    Key,
    Value,
}

/// The call that asks where a part of the entry at the cursor lies.
pub open spec fn part_request(part: Part, iter: usize) -> RequestView {
    match part {
        Part::Key => RequestView::Key { iter },
        Part::Value => RequestView::Value { iter },
    }
}

fn ask_part(part: Part, iter: usize) -> (request: Request<'static>)
    ensures
        request@ == part_request(part, iter),
{
    match part {
        Part::Key => Request::Key { iter },
        Part::Value => Request::Value { iter },
    }
}

/// The copying of one part of the entry at a cursor.
pub struct Slice<'a, 'b> {
    iter: &'b DBIterator<'a>,
    part: Part,
}

/// What the copying of a part of the entry at a cursor does.
///
/// It asks whether the cursor stands at an entry; where it does not, there
/// is nothing to copy. It asks where the part lies; a null pointer is
/// nothing to copy either. Then it copies the bytes. They are the
/// engine's, good until the cursor next moves, and are not freed.
pub open spec fn slice_script(iter: usize, part: Part, replies: Seq<Reply>) -> Next<
    Option<Seq<u8>>,
> {
    if replies.len() == 0 {
        Next::Ask(RequestView::Valid { iter })
    } else if replies[0].flag == 0 {
        Next::Done(None)
    } else if replies.len() == 1 {
        Next::Ask(part_request(part, iter))
    } else if replies[1].pointer == 0 {
        Next::Done(None)
    } else if replies.len() == 2 {
        Next::Ask(RequestView::ReadBuffer { pointer: replies[1].pointer, length: replies[1].length })
    } else {
        Next::Done(Some(replies[2].bytes@))
    }
}

/// The mathematical content of bytes that may be absent.
pub open spec fn bytes_outcome(output: Option<Vec<u8>>) -> Option<Seq<u8>> {
    match output {
        Some(bytes) => Some(bytes@),
        None => None,
    }
}

impl<'a, 'b> Slice<'a, 'b> {
    /// The address of the cursor.
    pub closed spec fn iter(&self) -> usize {
        self.iter.address()
    }

    /// The part that is copied.
    pub closed spec fn part(&self) -> Part {
        self.part
    }
}

impl<'a, 'b> Protocol for Slice<'a, 'b> {
    type Output = Option<Vec<u8>>;

    type Outcome = Option<Seq<u8>>;

    open spec fn script(&self, replies: Seq<Reply>) -> Next<Option<Seq<u8>>> {
        slice_script(self.iter(), self.part(), replies)
    }

    open spec fn outcome(output: Option<Vec<u8>>) -> Option<Seq<u8>> {
        bytes_outcome(output)
    }

    fn finished(&self, replies: &Vec<Reply>) -> (done: bool) {
        if replies.len() == 0 {
            false
        } else if replies[0].flag == 0 {
            true
        } else if replies.len() == 1 {
            false
        } else {
            replies[1].pointer == 0 || replies.len() > 2
        }
    }

    fn request<'c>(&'c self, replies: &'c Vec<Reply>) -> (request: Request<'c>) {
        if replies.len() == 0 {
            Request::Valid { iter: self.iter.as_ptr() }
        } else if replies.len() == 1 {
            ask_part(self.part, self.iter.as_ptr())
        } else {
            Request::ReadBuffer { pointer: replies[1].pointer, length: replies[1].length }
        }
    }

    fn finish(self, replies: Vec<Reply>) -> (output: Option<Vec<u8>>) {
        if replies[0].flag == 0 || replies[1].pointer == 0 {
            None
        } else {
            let mut replies = replies;
            let copied: Reply = replies.remove(2);
            Some(copied.bytes)
        }
    }
}

/// The copying of the entry at a cursor that stands at one, where the
/// replies from the one at `from` on belong to the copying.
///
/// It asks where the key lies and copies it, then the same for the value.
/// A null pointer for either is no entry. The bytes are the engine's and
/// are not freed.
pub open spec fn entry_script(iter: usize, replies: Seq<Reply>, from: int) -> Next<
    Option<(Seq<u8>, Seq<u8>)>,
> {
    if replies.len() <= from {
        Next::Ask(RequestView::Key { iter })
    } else if replies[from].pointer == 0 {
        Next::Done(None)
    } else if replies.len() == from + 1 {
        Next::Ask(
            RequestView::ReadBuffer { pointer: replies[from].pointer, length: replies[from].length },
        )
    } else if replies.len() == from + 2 {
        Next::Ask(RequestView::Value { iter })
    } else if replies[from + 2].pointer == 0 {
        Next::Done(None)
    } else if replies.len() == from + 3 {
        Next::Ask(
            RequestView::ReadBuffer {
                pointer: replies[from + 2].pointer,
                length: replies[from + 2].length,
            },
        )
    } else {
        Next::Done(Some((replies[from + 1].bytes@, replies[from + 3].bytes@)))
    }
}

fn entry_finished(replies: &Vec<Reply>, from: usize) -> (done: bool)
    requires
        from <= 4,
    ensures
        forall|iter: usize| done == (#[trigger] entry_script(iter, replies@, from as int) is Done),
{
    if replies.len() <= from {
        false
    } else if replies[from].pointer == 0 {
        true
    } else if replies.len() <= from + 2 {
        false
    } else {
        replies[from + 2].pointer == 0 || replies.len() > from + 3
    }
}

fn entry_request(iter: usize, replies: &Vec<Reply>, from: usize) -> (request: Request<'static>)
    requires
        from <= 4,
        entry_script(iter, replies@, from as int) is Ask,
    ensures
        entry_script(iter, replies@, from as int) == Next::<Option<(Seq<u8>, Seq<u8>)>>::Ask(
            request@,
        ),
{
    if replies.len() <= from {
        Request::Key { iter }
    } else if replies.len() == from + 1 {
        Request::ReadBuffer { pointer: replies[from].pointer, length: replies[from].length }
    } else if replies.len() == from + 2 {
        Request::Value { iter }
    } else {
        Request::ReadBuffer { pointer: replies[from + 2].pointer, length: replies[from + 2].length }
    }
}

/// The mathematical content of an entry that may be absent.
pub open spec fn entry_outcome(output: Option<(Vec<u8>, Vec<u8>)>) -> Option<(Seq<u8>, Seq<u8>)> {
    match output {
        Some((key, value)) => Some((key@, value@)),
        None => None,
    }
}

fn entry_finish(replies: Vec<Reply>, from: usize) -> (output: Option<(Vec<u8>, Vec<u8>)>)
    requires
        from <= 4,
        exists|iter: usize| entry_script(iter, replies@, from as int) is Done,
    ensures
        forall|iter: usize| #[trigger]
            entry_script(iter, replies@, from as int) == Next::Done(entry_outcome(output)),
{
    let ghost witness = choose|iter: usize| entry_script(iter, replies@, from as int) is Done;
    assert(entry_script(witness, replies@, from as int) is Done);
    if replies[from].pointer == 0 || replies[from + 2].pointer == 0 {
        None
    } else {
        let mut replies = replies;
        let value: Reply = replies.remove(from + 3);
        let key: Reply = replies.remove(from + 1);
        Some((key.bytes, value.bytes))
    }
}

/// The copying of the entry at a cursor.
pub struct Item<'a, 'b> {
    iter: &'b DBIterator<'a>,
}

/// What the copying of the entry at a cursor does: it asks whether the
/// cursor stands at an entry, and where it does, copies the key and the
/// value.
pub open spec fn item_script(iter: usize, replies: Seq<Reply>) -> Next<Option<(Seq<u8>, Seq<u8>)>> {
    if replies.len() == 0 {
        Next::Ask(RequestView::Valid { iter })
    } else if replies[0].flag == 0 {
        Next::Done(None)
    } else {
        entry_script(iter, replies, 1)
    }
}

impl<'a, 'b> Item<'a, 'b> {
    /// The address of the cursor.
    pub closed spec fn iter(&self) -> usize {
        self.iter.address()
    }
}

impl<'a, 'b> Protocol for Item<'a, 'b> {
    type Output = Option<(Vec<u8>, Vec<u8>)>;

    type Outcome = Option<(Seq<u8>, Seq<u8>)>;

    open spec fn script(&self, replies: Seq<Reply>) -> Next<Option<(Seq<u8>, Seq<u8>)>> {
        item_script(self.iter(), replies)
    }

    open spec fn outcome(output: Option<(Vec<u8>, Vec<u8>)>) -> Option<(Seq<u8>, Seq<u8>)> {
        entry_outcome(output)
    }

    fn finished(&self, replies: &Vec<Reply>) -> (done: bool) {
        if replies.len() == 0 {
            false
        } else if replies[0].flag == 0 {
            true
        } else {
            let done = entry_finished(replies, 1);
            assert(done == (entry_script(self.iter(), replies@, 1) is Done));
            done
        }
    }

    fn request<'c>(&'c self, replies: &'c Vec<Reply>) -> (request: Request<'c>) {
        if replies.len() == 0 {
            Request::Valid { iter: self.iter.as_ptr() }
        } else {
            entry_request(self.iter.as_ptr(), replies, 1)
        }
    }

    fn finish(self, replies: Vec<Reply>) -> (output: Option<(Vec<u8>, Vec<u8>)>) {
        if replies[0].flag == 0 {
            None
        } else {
            entry_finish(replies, 1)
        }
    }
}

/// The question whether a cursor has met an error.
pub struct Status<'a, 'b> {
    iter: &'b DBIterator<'a>,
}

/// What asking a cursor for its status does: it asks, and makes an error
/// of what the call reported. A cursor that has run off the end of the
/// entries has met no error.
pub open spec fn status_script(iter: usize, replies: Seq<Reply>) -> Next<
    core::result::Result<(), Seq<char>>,
> {
    if replies.len() == 0 {
        Next::Ask(RequestView::Status { iter })
    } else {
        match translate(replies[0].error, replies, 1) {
            Next::Ask(request) => Next::Ask(request),
            Next::Done(Some(message)) => Next::Done(Err(message)),
            Next::Done(None) => Next::Done(Ok(())),
        }
    }
}

impl<'a, 'b> Status<'a, 'b> {
    /// The address of the cursor.
    pub closed spec fn iter(&self) -> usize {
        self.iter.address()
    }
}

impl<'a, 'b> Protocol for Status<'a, 'b> {
    type Output = Result<()>;

    type Outcome = core::result::Result<(), Seq<char>>;

    open spec fn script(&self, replies: Seq<Reply>) -> Next<core::result::Result<(), Seq<char>>> {
        status_script(self.iter(), replies)
    }

    open spec fn outcome(output: Result<()>) -> core::result::Result<(), Seq<char>> {
        unit_outcome(output)
    }

    fn finished(&self, replies: &Vec<Reply>) -> (done: bool) {
        replies.len() > 0 && translated(replies[0].error, replies, 1)
    }

    fn request<'c>(&'c self, replies: &'c Vec<Reply>) -> (request: Request<'c>) {
        if replies.len() == 0 {
            Request::Status { iter: self.iter.as_ptr() }
        } else {
            translate_request(replies[0].error, replies, 1)
        }
    }

    fn finish(self, replies: Vec<Reply>) -> (output: Result<()>) {
        match translate_finish(replies[0].error, &replies, 1) {
            Some(error) => Err(error),
            None => Ok(()),
        }
    }
}

impl<'a> DBIterator<'a> {
    /// The address of the native iterator.
    pub closed spec fn address(&self) -> usize {
        self.inner.address()
    }

    /// The address of the native iterator, for passing to an entry point.
    pub fn as_ptr(&self) -> (address: usize)
        ensures
            address == self.address(),
            address != 0,
    {
        self.inner.as_ptr()
    }

    /// Checks whether the cursor stands at an entry.
    pub fn valid<'b>(&'b self) -> (poll: Poll<Valid<'a, 'b>>)
        ensures
            poll matches Poll::Pending(call) && call.replies() == Seq::<Reply>::empty()
                && call.op().iter() == self.address(),
    {
        Call::start(Valid { iter: self })
    }

    /// Places the cursor at the first entry.
    pub fn seek_to_first(&mut self) -> (request: Request<'static>)
        ensures
            *final(self) == *old(self),
            request@ == (RequestView::Seek { iter: old(self).address(), to: PositionView::First }),
    {
        Request::Seek { iter: self.inner.as_ptr(), to: Position::First }
    }

    /// Places the cursor at the last entry.
    pub fn seek_to_last(&mut self) -> (request: Request<'static>)
        ensures
            *final(self) == *old(self),
            request@ == (RequestView::Seek { iter: old(self).address(), to: PositionView::Last }),
    {
        Request::Seek { iter: self.inner.as_ptr(), to: Position::Last }
    }

    /// Places the cursor at the first entry whose key is at or after `key`.
    pub fn seek<'k>(&mut self, key: &'k [u8]) -> (request: Request<'k>)
        ensures
            *final(self) == *old(self),
            request@ == (RequestView::Seek {
                iter: old(self).address(),
                to: PositionView::AtOrAfter(key@),
            }),
    {
        Request::Seek { iter: self.inner.as_ptr(), to: Position::AtOrAfter(key) }
    }

    /// Places the cursor at the last entry whose key is at or before `key`.
    pub fn seek_for_prev<'k>(&mut self, key: &'k [u8]) -> (request: Request<'k>)
        ensures
            *final(self) == *old(self),
            request@ == (RequestView::Seek {
                iter: old(self).address(),
                to: PositionView::AtOrBefore(key@),
            }),
    {
        Request::Seek { iter: self.inner.as_ptr(), to: Position::AtOrBefore(key) }
    }

    /// Moves the cursor to the next entry. The cursor has to stand at an
    /// entry: the engine has no answer to a move from none.
    pub fn next(&mut self) -> (request: Request<'static>)
        ensures
            *final(self) == *old(self),
            request@ == (RequestView::Seek { iter: old(self).address(), to: PositionView::Next }),
    {
        Request::Seek { iter: self.inner.as_ptr(), to: Position::Next }
    }

    /// Moves the cursor to the previous entry. The cursor has to stand at
    /// an entry: the engine has no answer to a move from none.
    pub fn prev(&mut self) -> (request: Request<'static>)
        ensures
            *final(self) == *old(self),
            request@ == (RequestView::Seek { iter: old(self).address(), to: PositionView::Prev }),
    {
        Request::Seek { iter: self.inner.as_ptr(), to: Position::Prev }
    }

    /// Copies the key at the cursor; `None` where the cursor stands at no
    /// entry.
    pub fn key<'b>(&'b self) -> (poll: Poll<Slice<'a, 'b>>)
        ensures
            poll matches Poll::Pending(call) && call.replies() == Seq::<Reply>::empty()
                && call.op().iter() == self.address() && call.op().part() == Part::Key,
    {
        Call::start(Slice { iter: self, part: Part::Key })
    }

    /// Copies the value at the cursor; `None` where the cursor stands at no
    /// entry.
    pub fn value<'b>(&'b self) -> (poll: Poll<Slice<'a, 'b>>)
        ensures
            poll matches Poll::Pending(call) && call.replies() == Seq::<Reply>::empty()
                && call.op().iter() == self.address() && call.op().part() == Part::Value,
    {
        Call::start(Slice { iter: self, part: Part::Value })
    }

    /// Copies the key and the value at the cursor; `None` where the cursor
    /// stands at no entry.
    pub fn item<'b>(&'b self) -> (poll: Poll<Item<'a, 'b>>)
        ensures
            poll matches Poll::Pending(call) && call.replies() == Seq::<Reply>::empty()
                && call.op().iter() == self.address(),
    {
        Call::start(Item { iter: self })
    }

    /// Checks for an error that the cursor has met.
    pub fn status<'b>(&'b self) -> (poll: Poll<Status<'a, 'b>>)
        ensures
            poll matches Poll::Pending(call) && call.replies() == Seq::<Reply>::empty()
                && call.op().iter() == self.address(),
    {
        Call::start(Status { iter: self })
    }

    /// Gives the cursor up: the request that destroys the iterator.
    pub fn destroy(self) -> (request: Request<'static>)
        ensures
            request@ == (RequestView::Destroy { kind: Kind::Iterator, handle: self.address() }),
    {
        self.inner.destroy()
    }
}

impl<'a> DBIteratorAdapter<'a> {
    /// The sequence that goes on, in `direction`, from where `inner` has
    /// just been placed.
    pub fn new(inner: DBIterator<'a>, direction: Direction) -> (sequence: Self)
        ensures
            sequence@ == (SequenceView {
                iter: inner.address(),
                direction,
                just_seeked: true,
                finished: false,
            }),
    {
        DBIteratorAdapter { inner, direction, just_seeked: true, finished: false }
    }

    /// Gives the sequence up: the request that destroys its iterator.
    pub fn destroy(self) -> (request: Request<'static>)
        ensures
            request@ == (RequestView::Destroy { kind: Kind::Iterator, handle: self@.iter }),
    {
        self.inner.destroy()
    }
}

/// One step of a sequence.
pub struct Advance<'a> {
    sequence: DBIteratorAdapter<'a>,
}

impl<'a> View for Advance<'a> {
    type V = SequenceView;

    closed spec fn view(&self) -> SequenceView {
        self.sequence@
    }
}

/// What a step hands out: an entry, an error, or nothing at the end.
pub type Yield = Option<Result<(Vec<u8>, Vec<u8>)>>;

/// The mathematical content of a [`Yield`].
pub type YieldView = Option<core::result::Result<(Seq<u8>, Seq<u8>), Seq<char>>>;

/// The sequence once it has ended.
pub open spec fn ended(sequence: SequenceView) -> SequenceView {
    SequenceView { just_seeked: false, finished: true, ..sequence }
}

/// The sequence once it has handed out an entry.
pub open spec fn moved(sequence: SequenceView) -> SequenceView {
    SequenceView { just_seeked: false, finished: false, ..sequence }
}

/// The number of replies that a step has had before it asks whether the
/// cursor stands at an entry: none on the first step, where the cursor
/// stands where it was placed, and on each later step the one to the move.
pub open spec fn moves(sequence: SequenceView) -> int {
    if sequence.just_seeked {
        0
    } else {
        1
    }
}

/// What one step of a sequence does.
///
/// A sequence that has ended asks nothing and hands out nothing. On every
/// step but the first the cursor is moved on in the direction of the
/// sequence. Where the cursor then stands at an entry, the key and the
/// value are copied and handed out. Where it stands at none, the sequence
/// has ended: the cursor is asked for its status, and an error that it has
/// met is handed out as the last item.
pub open spec fn advance_script(sequence: SequenceView, replies: Seq<Reply>) -> Next<
    (SequenceView, YieldView),
> {
    let skip = moves(sequence);
    if sequence.finished {
        Next::Done((sequence, None))
    } else if replies.len() < skip {
        Next::Ask(RequestView::Seek { iter: sequence.iter, to: step_of(sequence.direction) })
    } else if replies.len() == skip {
        Next::Ask(RequestView::Valid { iter: sequence.iter })
    } else if replies[skip].flag == 0 {
        if replies.len() == skip + 1 {
            Next::Ask(RequestView::Status { iter: sequence.iter })
        } else {
            match translate(replies[skip + 1].error, replies, skip + 2) {
                Next::Ask(request) => Next::Ask(request),
                Next::Done(Some(message)) => Next::Done((ended(sequence), Some(Err(message)))),
                Next::Done(None) => Next::Done((ended(sequence), None)),
            }
        }
    } else {
        match entry_script(sequence.iter, replies, skip + 1) {
            Next::Ask(request) => Next::Ask(request),
            Next::Done(Some(entry)) => Next::Done((moved(sequence), Some(Ok(entry)))),
            Next::Done(None) => Next::Done((ended(sequence), None)),
        }
    }
}

/// The mathematical content of the result of a step: the sequence after
/// it, and what it handed out.
pub open spec fn advance_outcome(output: (DBIteratorAdapter<'_>, Yield)) -> (
    SequenceView,
    YieldView,
) {
    (
        output.0@,
        match output.1 {
            Some(Ok((key, value))) => Some(Ok((key@, value@))),
            Some(Err(error)) => Some(Err(error@)),
            None => None,
        },
    )
}

impl<'a> Protocol for Advance<'a> {
    type Output = (DBIteratorAdapter<'a>, Yield);

    type Outcome = (SequenceView, YieldView);

    open spec fn script(&self, replies: Seq<Reply>) -> Next<(SequenceView, YieldView)> {
        advance_script(self@, replies)
    }

    open spec fn outcome(output: (DBIteratorAdapter<'a>, Yield)) -> (SequenceView, YieldView) {
        advance_outcome(output)
    }

    fn finished(&self, replies: &Vec<Reply>) -> (done: bool) {
        let skip: usize = if self.sequence.just_seeked {
            0
        } else {
            1
        };
        if self.sequence.finished {
            true
        } else if replies.len() <= skip {
            false
        } else if replies[skip].flag == 0 {
            replies.len() > skip + 1 && translated(replies[skip + 1].error, replies, skip + 2)
        } else {
            let done = entry_finished(replies, skip + 1);
            assert(done == (entry_script(self@.iter, replies@, skip + 1) is Done));
            done
        }
    }

    fn request<'b>(&'b self, replies: &'b Vec<Reply>) -> (request: Request<'b>) {
        let skip: usize = if self.sequence.just_seeked {
            0
        } else {
            1
        };
        let iter: usize = self.sequence.inner.as_ptr();
        if replies.len() < skip {
            Request::Seek { iter, to: step_position(self.sequence.direction) }
        } else if replies.len() == skip {
            Request::Valid { iter }
        } else if replies[skip].flag == 0 {
            if replies.len() == skip + 1 {
                Request::Status { iter }
            } else {
                translate_request(replies[skip + 1].error, replies, skip + 2)
            }
        } else {
            entry_request(iter, replies, skip + 1)
        }
    }

    fn finish(self, replies: Vec<Reply>) -> (output: (DBIteratorAdapter<'a>, Yield)) {
        let skip: usize = if self.sequence.just_seeked {
            0
        } else {
            1
        };
        let DBIteratorAdapter { inner, direction, just_seeked, finished } = self.sequence;
        if finished {
            (DBIteratorAdapter { inner, direction, just_seeked, finished }, None)
        } else if replies[skip].flag == 0 {
            let last = match translate_finish(replies[skip + 1].error, &replies, skip + 2) {
                Some(error) => Some(Err(error)),
                None => None,
            };
            (DBIteratorAdapter { inner, direction, just_seeked: false, finished: true }, last)
        } else {
            assert(entry_script(inner.address(), replies@, skip + 1) is Done);
            match entry_finish(replies, skip + 1) {
                Some(entry) => (
                    DBIteratorAdapter { inner, direction, just_seeked: false, finished: false },
                    Some(Ok(entry)),
                ),
                None => (
                    DBIteratorAdapter { inner, direction, just_seeked: false, finished: true },
                    None,
                ),
            }
        }
    }
}

impl<'a> DBIteratorAdapter<'a> {
    /// Takes the next step of the sequence. The sequence is taken for the
    /// step and comes back with what the step hands out.
    pub fn next(self) -> (poll: Poll<Advance<'a>>)
        ensures
            self@.finished ==> (poll matches Poll::Ready((sequence, None)) && sequence@ == self@),
            !self@.finished ==> (poll matches Poll::Pending(call) && call.replies() == Seq::<
                Reply,
            >::empty() && call.op()@ == self@),
    {
        Call::start(Advance { sequence: self })
    }
}

impl DB {
    /// Creates a sequence of the entries of the database, in the order of
    /// the keys or against it.
    pub fn iter<'a>(&'a self, direction: Direction) -> (poll: Poll<NewSequence<'a>>)
        ensures
            poll matches Poll::Pending(call) && call.replies() == Seq::<Reply>::empty()
                && call.op().db() == self.address() && call.op().direction() == direction,
    {
        Call::start(NewSequence { db: self, direction })
    }

    /// Creates a cursor that has not been placed, for the caller to move.
    pub fn raw_iterator<'a>(&'a self) -> (poll: Poll<NewIterator<'a>>)
        ensures
            poll matches Poll::Pending(call) && call.replies() == Seq::<Reply>::empty()
                && call.op().db() == self.address(),
    {
        Call::start(NewIterator { db: self })
    }
}

} // verus!
