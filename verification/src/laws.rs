//! The laws that the operations keep.
//!
//! Each law is about one operation and every conversation that it can have
//! with the engine. An operation fails exactly where the engine does. Every
//! request that it makes is permitted by the ledger, and when it is over
//! the ledger is as it was, but for what the operation hands to its caller
//! or takes from it.

use crate::db::{
    complete, create_column_family_script, drop_column_family_script, non_null,
    open_column_families_refusal, open_column_families_script, open_failure, open_script,
    read_script,
    write_script, CreateColumnFamilyView, DropColumnFamilyView, OpenColumnFamiliesView, OpenView,
    ReadView, WriteView,
};
use crate::error::utf8_lossy;
use crate::ffi::{c_string, has_nul, Kind, PositionView, Reply, RequestView};
use crate::iterator::{
    advance_script, item_script, moves, new_iterator_script, new_sequence_script, slice_script,
    start_of, status_script, valid_script, Direction, Part, SequenceView,
};
use crate::ledger::{
    after, holds_cf, is_c_string, is_one_of, lend, permits, permitted, with_error, Ledger, Object,
};
use crate::model::{after_all, asked, conversation};
use crate::options::new_options_script;
use crate::protocol::Next;
use vstd::prelude::*;

verus! {

/// The C string made of bytes without a zero byte is a C string.
pub proof fn c_string_is_c_string(bytes: Seq<u8>)
    requires
        !has_nul(bytes),
    ensures
        is_c_string(c_string(bytes)),
{
    assert(c_string(bytes).drop_last() =~= bytes);
}

/// What a write asks, after the replies given.
pub open spec fn write_asks(write: WriteView) -> spec_fn(Seq<Reply>) -> Option<RequestView> {
    |replies: Seq<Reply>| asked(write_script(write, replies))
}

spec fn write_ledger(ledger: Ledger, replies: Seq<Reply>) -> Ledger {
    if replies.len() == 0 || replies[0].pointer == 0 {
        ledger
    } else if replies.len() == 1 {
        ledger.with(replies[0].pointer, Object::Handle(Kind::WriteOptions))
    } else if replies.len() == 2 {
        with_error(ledger.with(replies[0].pointer, Object::Handle(Kind::WriteOptions)), replies[1])
    } else if replies.len() <= 4 {
        with_error(ledger, replies[1])
    } else {
        ledger
    }
}

proof fn lemma_write(write: WriteView, ledger: Ledger, replies: Seq<Reply>)
    requires
        ledger.holds(write.db, Kind::Database),
        holds_cf(ledger, write.cf),
        conversation(write_asks(write), ledger, replies),
    ensures
        permitted(write_asks(write), ledger, replies),
        after_all(write_asks(write), ledger, replies) == write_ledger(ledger, replies),
        replies.len() <= 5,
        replies.len() > 0 && replies[0].pointer != 0 ==> ledger.fresh(replies[0].pointer),
        replies.len() > 1 && replies[0].pointer != 0 && replies[1].error != 0 ==> ledger.fresh(
            replies[1].error,
        ) && replies[1].error != replies[0].pointer,
    decreases replies.len(),
{
    if replies.len() > 0 {
        let earlier = replies.drop_last();
        lemma_write(write, ledger, earlier);
        assert(forall|i: int| 0 <= i < earlier.len() ==> earlier[i] == replies[i]);
        assert(after_all(write_asks(write), ledger, replies) =~= write_ledger(ledger, replies));
    }
}

/// A write keeps the ledger.
///
/// Where the database and the column family of a write are live, every
/// request that the write makes is permitted, whatever the engine replies.
/// When the write is over, with or without an error, the ledger is as it
/// was: the write options have been destroyed and the error message freed.
pub proof fn write_keeps_the_ledger(write: WriteView, ledger: Ledger, replies: Seq<Reply>)
    requires
        ledger.holds(write.db, Kind::Database),
        holds_cf(ledger, write.cf),
        conversation(write_asks(write), ledger, replies),
    ensures
        permitted(write_asks(write), ledger, replies),
        write_script(write, replies) is Done ==> after_all(write_asks(write), ledger, replies)
            == ledger,
{
    lemma_write(write, ledger, replies);
}

/// A write fails exactly where the engine does.
///
/// A write that is over has failed where its options could not be created,
/// and where its call reported an error: then with the message that the
/// engine gave. Everywhere else it has succeeded.
pub proof fn a_write_fails_where_the_engine_does(write: WriteView, replies: Seq<Reply>)
    requires
        write_script(write, replies) is Done,
    ensures
        write_script(write, replies) == Next::<core::result::Result<(), Seq<char>>>::Done(
            if replies[0].pointer == 0 {
                Err("Failed to create write options"@)
            } else if replies[1].error != 0 {
                Err(utf8_lossy(replies[3].bytes@))
            } else {
                Ok(())
            },
        ),
{
}

/// What a read asks, after the replies given.
pub open spec fn read_asks(read: ReadView) -> spec_fn(Seq<Reply>) -> Option<RequestView> {
    |replies: Seq<Reply>| asked(read_script(read, replies))
}

spec fn got(ledger: Ledger, reply: Reply) -> Ledger {
    with_error(ledger.with_some(reply.pointer, Object::Buffer(reply.length)), reply)
}

spec fn read_ledger(ledger: Ledger, replies: Seq<Reply>) -> Ledger {
    if replies.len() == 0 || replies[0].pointer == 0 {
        ledger
    } else if replies.len() == 1 {
        ledger.with(replies[0].pointer, Object::Handle(Kind::ReadOptions))
    } else if replies.len() == 2 {
        got(ledger.with(replies[0].pointer, Object::Handle(Kind::ReadOptions)), replies[1])
    } else if replies.len() <= 4 {
        got(ledger, replies[1])
    } else {
        ledger
    }
}

proof fn lemma_read(read: ReadView, ledger: Ledger, replies: Seq<Reply>)
    requires
        ledger.holds(read.db, Kind::Database),
        holds_cf(ledger, read.cf),
        conversation(read_asks(read), ledger, replies),
    ensures
        permitted(read_asks(read), ledger, replies),
        after_all(read_asks(read), ledger, replies) == read_ledger(ledger, replies),
        replies.len() <= 5,
        replies.len() > 0 && replies[0].pointer != 0 ==> ledger.fresh(replies[0].pointer),
        replies.len() > 1 && replies[0].pointer != 0 ==> {
            &&& replies[1].error != 0 ==> ledger.fresh(replies[1].error) && replies[1].error
                != replies[0].pointer && replies[1].pointer == 0
            &&& replies[1].pointer != 0 ==> ledger.fresh(replies[1].pointer) && replies[1].pointer
                != replies[0].pointer
        },
    decreases replies.len(),
{
    if replies.len() > 0 {
        let earlier = replies.drop_last();
        lemma_read(read, ledger, earlier);
        assert(forall|i: int| 0 <= i < earlier.len() ==> earlier[i] == replies[i]);
        assert(after_all(read_asks(read), ledger, replies) =~= read_ledger(ledger, replies));
    }
}

/// A read keeps the ledger.
///
/// Where the database and the column family of a read are live, every
/// request that the read makes is permitted, whatever the engine replies:
/// the value is copied while the binding owns it, and at its own length.
/// When the read is over, the ledger is as it was: the read options have
/// been destroyed, and the value or the error message freed.
pub proof fn read_keeps_the_ledger(read: ReadView, ledger: Ledger, replies: Seq<Reply>)
    requires
        ledger.holds(read.db, Kind::Database),
        holds_cf(ledger, read.cf),
        conversation(read_asks(read), ledger, replies),
    ensures
        permitted(read_asks(read), ledger, replies),
        read_script(read, replies) is Done ==> after_all(read_asks(read), ledger, replies)
            == ledger,
{
    lemma_read(read, ledger, replies);
    assert(after_all(read_asks(read), ledger, replies) =~= read_ledger(ledger, replies));
}

/// A read fails exactly where the engine does.
///
/// A read that is over has failed where its options could not be created,
/// and where its call reported an error: then with the message that the
/// engine gave, whatever else the call handed back. Everywhere else it has
/// succeeded: with no value where the engine handed back a null pointer,
/// which is no error, and else with the bytes copied from the value.
pub proof fn a_read_fails_where_the_engine_does(read: ReadView, replies: Seq<Reply>)
    requires
        read_script(read, replies) is Done,
    ensures
        read_script(read, replies) == Next::<
            core::result::Result<Option<Seq<u8>>, Seq<char>>,
        >::Done(
            if replies[0].pointer == 0 {
                Err("Failed to create read options"@)
            } else if replies[1].error != 0 {
                Err(utf8_lossy(replies[3].bytes@))
            } else if replies[1].pointer == 0 {
                Ok(None)
            } else {
                Ok(Some(replies[3].bytes@))
            },
        ),
{
}

/// What the opening of a database asks, after the replies given.
pub open spec fn open_asks(open: OpenView) -> spec_fn(Seq<Reply>) -> Option<RequestView> {
    |replies: Seq<Reply>| asked(open_script(open, replies))
}

spec fn made(ledger: Ledger, kind: Kind, reply: Reply) -> Ledger {
    with_error(ledger.with_some(reply.pointer, Object::Handle(kind)), reply)
}

spec fn made_ledger(ledger: Ledger, kind: Kind, replies: Seq<Reply>) -> Ledger {
    if replies.len() == 0 {
        ledger
    } else if replies.len() <= 2 {
        made(ledger, kind, replies[0])
    } else {
        ledger
    }
}

proof fn lemma_open(open: OpenView, ledger: Ledger, replies: Seq<Reply>)
    requires
        ledger.holds(open.options, Kind::Options),
        is_c_string(open.path),
        conversation(open_asks(open), ledger, replies),
    ensures
        permitted(open_asks(open), ledger, replies),
        after_all(open_asks(open), ledger, replies) == made_ledger(
            ledger,
            Kind::Database,
            replies,
        ),
        replies.len() <= 3,
        replies.len() > 0 ==> {
            &&& replies[0].error != 0 ==> ledger.fresh(replies[0].error) && replies[0].pointer == 0
            &&& replies[0].pointer != 0 ==> ledger.fresh(replies[0].pointer)
        },
    decreases replies.len(),
{
    if replies.len() > 0 {
        let earlier = replies.drop_last();
        lemma_open(open, ledger, earlier);
        assert(forall|i: int| 0 <= i < earlier.len() ==> earlier[i] == replies[i]);
        assert(after_all(open_asks(open), ledger, replies) =~= made_ledger(
            ledger,
            Kind::Database,
            replies,
        ));
    }
}

/// The opening of a database leaves nothing behind but the database.
///
/// Where the options are live and the path is a C string, every request
/// that the opening makes is permitted, whatever the engine replies. When
/// the opening is over, the ledger is as it was, but for the database
/// where there is one: a failure leaves nothing behind.
pub proof fn open_keeps_the_ledger(open: OpenView, ledger: Ledger, replies: Seq<Reply>)
    requires
        ledger.holds(open.options, Kind::Options),
        is_c_string(open.path),
        conversation(open_asks(open), ledger, replies),
    ensures
        permitted(open_asks(open), ledger, replies),
        match open_script(open, replies) {
            Next::Done(Ok((db, _))) => after_all(open_asks(open), ledger, replies)
                == ledger.with(db, Object::Handle(Kind::Database)),
            Next::Done(Err(_)) => after_all(open_asks(open), ledger, replies) == ledger,
            Next::Ask(_) => true,
        },
{
    lemma_open(open, ledger, replies);
    assert(after_all(open_asks(open), ledger, replies) =~= made_ledger(
        ledger,
        Kind::Database,
        replies,
    ));
}

/// An opening fails exactly where the engine does.
///
/// An opening that is over has failed where its call reported an error,
/// with the message that the engine gave, and where the call handed back
/// no database. Everywhere else it has the database that the call handed
/// back, at the path that the caller gave.
pub proof fn an_opening_fails_where_the_engine_does(open: OpenView, replies: Seq<Reply>)
    requires
        open_script(open, replies) is Done,
    ensures
        open_script(open, replies) == Next::<
            core::result::Result<(usize, Seq<char>), Seq<char>>,
        >::Done(
            if replies[0].error != 0 {
                Err(utf8_lossy(replies[1].bytes@))
            } else if replies[0].pointer == 0 {
                Err(open_failure(open))
            } else {
                Ok((replies[0].pointer, open.location))
            },
        ),
{
}

/// Opening a database and closing it leave the ledger as it was.
///
/// The database that an opening hands out may be closed, and once it is
/// closed nothing is left of the opening, however often the two are done.
pub proof fn open_and_close_keep_the_ledger(
    open: OpenView,
    ledger: Ledger,
    replies: Seq<Reply>,
    closed: Reply,
)
    requires
        ledger.holds(open.options, Kind::Options),
        is_c_string(open.path),
        conversation(open_asks(open), ledger, replies),
        open_script(open, replies) is Done,
    ensures
        open_script(open, replies) matches Next::Done(Ok((db, _))) ==> {
            let close = RequestView::Destroy { kind: Kind::Database, handle: db };
            let opened = after_all(open_asks(open), ledger, replies);
            &&& permits(opened, close)
            &&& after(opened, close, closed) == ledger
        },
{
    lemma_open(open, ledger, replies);
    open_keeps_the_ledger(open, ledger, replies);
    if let Next::Done(Ok((db, _))) = open_script(open, replies) {
        let close = RequestView::Destroy { kind: Kind::Database, handle: db };
        let opened = after_all(open_asks(open), ledger, replies);
        assert(after(opened, close, closed) =~= ledger);
    }
}

/// What the creation of a column family asks, after the replies given.
pub open spec fn create_column_family_asks(create: CreateColumnFamilyView) -> spec_fn(
    Seq<Reply>,
) -> Option<RequestView> {
    |replies: Seq<Reply>| asked(create_column_family_script(create, replies))
}

proof fn lemma_create_column_family(
    create: CreateColumnFamilyView,
    ledger: Ledger,
    replies: Seq<Reply>,
)
    requires
        ledger.holds(create.db, Kind::Database),
        ledger.holds(create.options, Kind::Options),
        is_c_string(create.name),
        conversation(create_column_family_asks(create), ledger, replies),
    ensures
        permitted(create_column_family_asks(create), ledger, replies),
        after_all(create_column_family_asks(create), ledger, replies) == made_ledger(
            ledger,
            Kind::ColumnFamily,
            replies,
        ),
        replies.len() <= 3,
        replies.len() > 0 ==> {
            &&& replies[0].error != 0 ==> ledger.fresh(replies[0].error) && replies[0].pointer == 0
            &&& replies[0].pointer != 0 ==> ledger.fresh(replies[0].pointer)
        },
    decreases replies.len(),
{
    if replies.len() > 0 {
        let earlier = replies.drop_last();
        lemma_create_column_family(create, ledger, earlier);
        assert(forall|i: int| 0 <= i < earlier.len() ==> earlier[i] == replies[i]);
        assert(after_all(create_column_family_asks(create), ledger, replies) =~= made_ledger(
            ledger,
            Kind::ColumnFamily,
            replies,
        ));
    }
}

/// The creation of a column family leaves nothing behind but its handle.
///
/// Where the database and the options are live and the name is a C string,
/// every request that the creation makes is permitted, whatever the engine
/// replies. When the creation is over, the ledger is as it was, but for
/// the handle where there is one.
pub proof fn create_column_family_keeps_the_ledger(
    create: CreateColumnFamilyView,
    ledger: Ledger,
    replies: Seq<Reply>,
)
    requires
        ledger.holds(create.db, Kind::Database),
        ledger.holds(create.options, Kind::Options),
        is_c_string(create.name),
        conversation(create_column_family_asks(create), ledger, replies),
    ensures
        permitted(create_column_family_asks(create), ledger, replies),
        match create_column_family_script(create, replies) {
            Next::Done(Ok(handle)) => after_all(
                create_column_family_asks(create),
                ledger,
                replies,
            ) == ledger.with(handle, Object::Handle(Kind::ColumnFamily)),
            Next::Done(Err(_)) => after_all(create_column_family_asks(create), ledger, replies)
                == ledger,
            Next::Ask(_) => true,
        },
{
    lemma_create_column_family(create, ledger, replies);
    assert(after_all(create_column_family_asks(create), ledger, replies) =~= made_ledger(
        ledger,
        Kind::ColumnFamily,
        replies,
    ));
}

/// What the dropping of a column family asks, after the replies given.
pub open spec fn drop_column_family_asks(drop: DropColumnFamilyView) -> spec_fn(
    Seq<Reply>,
) -> Option<RequestView> {
    |replies: Seq<Reply>| asked(drop_column_family_script(drop, replies))
}

spec fn drop_ledger(drop: DropColumnFamilyView, ledger: Ledger, replies: Seq<Reply>) -> Ledger {
    if replies.len() == 0 {
        ledger
    } else if replies.len() == 1 {
        with_error(ledger, replies[0])
    } else if replies.len() <= 3 {
        with_error(ledger.without(drop.handle), replies[0])
    } else {
        ledger.without(drop.handle)
    }
}

proof fn lemma_drop_column_family(drop: DropColumnFamilyView, ledger: Ledger, replies: Seq<Reply>)
    requires
        ledger.holds(drop.db, Kind::Database),
        ledger.holds(drop.handle, Kind::ColumnFamily),
        conversation(drop_column_family_asks(drop), ledger, replies),
    ensures
        permitted(drop_column_family_asks(drop), ledger, replies),
        after_all(drop_column_family_asks(drop), ledger, replies) == drop_ledger(
            drop,
            ledger,
            replies,
        ),
        replies.len() <= 4,
        replies.len() > 0 && replies[0].error != 0 ==> ledger.fresh(replies[0].error),
    decreases replies.len(),
{
    if replies.len() > 0 {
        let earlier = replies.drop_last();
        lemma_drop_column_family(drop, ledger, earlier);
        assert(forall|i: int| 0 <= i < earlier.len() ==> earlier[i] == replies[i]);
        assert(after_all(drop_column_family_asks(drop), ledger, replies) =~= drop_ledger(
            drop,
            ledger,
            replies,
        ));
    }
}

/// The dropping of a column family takes its handle and nothing else.
///
/// Where the database and the handle are live, every request that the
/// dropping makes is permitted, whatever the engine replies. When the
/// dropping is over, with or without an error, the handle has been
/// destroyed and the ledger is otherwise as it was.
pub proof fn drop_column_family_keeps_the_ledger(
    drop: DropColumnFamilyView,
    ledger: Ledger,
    replies: Seq<Reply>,
)
    requires
        ledger.holds(drop.db, Kind::Database),
        ledger.holds(drop.handle, Kind::ColumnFamily),
        conversation(drop_column_family_asks(drop), ledger, replies),
    ensures
        permitted(drop_column_family_asks(drop), ledger, replies),
        drop_column_family_script(drop, replies) is Done ==> after_all(
            drop_column_family_asks(drop),
            ledger,
            replies,
        ) == ledger.without(drop.handle),
{
    lemma_drop_column_family(drop, ledger, replies);
    assert(after_all(drop_column_family_asks(drop), ledger, replies) =~= drop_ledger(
        drop,
        ledger,
        replies,
    ));
}

/// Creating a column family and dropping it leave the ledger as it was.
///
/// The handle that a creation hands out may be dropped, every request of
/// the dropping is permitted, and once it is over nothing is left of the
/// two, however often they are done.
pub proof fn create_and_drop_keep_the_ledger(
    create: CreateColumnFamilyView,
    ledger: Ledger,
    creating: Seq<Reply>,
    dropping: Seq<Reply>,
)
    requires
        ledger.holds(create.db, Kind::Database),
        ledger.holds(create.options, Kind::Options),
        is_c_string(create.name),
        conversation(create_column_family_asks(create), ledger, creating),
        create_column_family_script(create, creating) matches Next::Done(Ok(handle))
            && conversation(
            drop_column_family_asks(DropColumnFamilyView { db: create.db, handle }),
            after_all(create_column_family_asks(create), ledger, creating),
            dropping,
        ),
    ensures
        create_column_family_script(create, creating) matches Next::Done(Ok(handle)) && {
            let drop = DropColumnFamilyView { db: create.db, handle };
            let created = after_all(create_column_family_asks(create), ledger, creating);
            &&& permitted(drop_column_family_asks(drop), created, dropping)
            &&& drop_column_family_script(drop, dropping) is Done ==> after_all(
                drop_column_family_asks(drop),
                created,
                dropping,
            ) == ledger
        },
{
    lemma_create_column_family(create, ledger, creating);
    create_column_family_keeps_the_ledger(create, ledger, creating);
    let handle = create_column_family_script(create, creating)->Done_0->Ok_0;
    let drop = DropColumnFamilyView { db: create.db, handle };
    let created = after_all(create_column_family_asks(create), ledger, creating);
    drop_column_family_keeps_the_ledger(drop, created, dropping);
    if drop_column_family_script(drop, dropping) is Done {
        assert(created.without(handle) =~= ledger);
    }
}

/// What the creation of an options object asks, after the replies given.
pub open spec fn new_options_asks() -> spec_fn(Seq<Reply>) -> Option<RequestView> {
    |replies: Seq<Reply>| asked(new_options_script(replies))
}

/// The creation of an options object leaves nothing behind but the object.
pub proof fn new_options_keeps_the_ledger(ledger: Ledger, replies: Seq<Reply>)
    requires
        conversation(new_options_asks(), ledger, replies),
    ensures
        permitted(new_options_asks(), ledger, replies),
        match new_options_script(replies) {
            Next::Done(Some(options)) => after_all(new_options_asks(), ledger, replies)
                == ledger.with(options, Object::Handle(Kind::Options)),
            Next::Done(None) => after_all(new_options_asks(), ledger, replies) == ledger,
            Next::Ask(_) => true,
        },
    decreases replies.len(),
{
    if replies.len() > 0 {
        let earlier = replies.drop_last();
        new_options_keeps_the_ledger(ledger, earlier);
        assert(forall|i: int| 0 <= i < earlier.len() ==> earlier[i] == replies[i]);
    }
}

/// What the creation of a cursor asks, after the replies given.
pub open spec fn new_iterator_asks(db: usize, first: Option<PositionView>) -> spec_fn(
    Seq<Reply>,
) -> Option<RequestView> {
    |replies: Seq<Reply>| asked(new_iterator_script(db, first, replies))
}

/// The ledger once the binding owns the iterator, placed where it was
/// first to be placed.
pub open spec fn with_iterator(ledger: Ledger, iter: usize, first: Option<PositionView>) -> Ledger {
    let created = ledger.with(iter, Object::Handle(Kind::Iterator));
    if first is Some {
        created.unsettled(iter)
    } else {
        created
    }
}

spec fn new_iterator_ledger(ledger: Ledger, first: Option<PositionView>, replies: Seq<Reply>) -> Ledger {
    let options = Object::Handle(Kind::ReadOptions);
    let iterator = Object::Handle(Kind::Iterator);
    if replies.len() == 0 || replies[0].pointer == 0 {
        ledger
    } else if replies.len() == 1 {
        ledger.with(replies[0].pointer, options)
    } else if replies.len() == 2 {
        ledger.with(replies[0].pointer, options).with_some(replies[1].pointer, iterator)
    } else if replies.len() == 3 {
        ledger.with_some(replies[1].pointer, iterator)
    } else {
        with_iterator(ledger, replies[1].pointer, first)
    }
}

proof fn lemma_new_iterator(
    db: usize,
    first: Option<PositionView>,
    ledger: Ledger,
    replies: Seq<Reply>,
)
    requires
        ledger.holds(db, Kind::Database),
        first matches Some(to) ==> !(to is Next || to is Prev),
        conversation(new_iterator_asks(db, first), ledger, replies),
    ensures
        permitted(new_iterator_asks(db, first), ledger, replies),
        after_all(new_iterator_asks(db, first), ledger, replies) == new_iterator_ledger(
            ledger,
            first,
            replies,
        ),
        replies.len() <= 4,
        replies.len() == 4 ==> first is Some && replies[1].pointer != 0,
        replies.len() > 0 && replies[0].pointer != 0 ==> ledger.fresh(replies[0].pointer),
        replies.len() > 1 && replies[0].pointer != 0 && replies[1].pointer != 0 ==> ledger.fresh(
            replies[1].pointer,
        ) && replies[1].pointer != replies[0].pointer,
    decreases replies.len(),
{
    if replies.len() > 0 {
        let earlier = replies.drop_last();
        lemma_new_iterator(db, first, ledger, earlier);
        assert(forall|i: int| 0 <= i < earlier.len() ==> earlier[i] == replies[i]);
        assert(after_all(new_iterator_asks(db, first), ledger, replies) =~= new_iterator_ledger(
            ledger,
            first,
            replies,
        ));
    }
}

/// The creation of a cursor leaves nothing behind but the iterator.
///
/// Where the database is live, every request that the creation makes is
/// permitted, whatever the engine replies. When the creation is over, the
/// read options have been destroyed, and the ledger is as it was, but for
/// the iterator where there is one.
pub proof fn new_iterator_keeps_the_ledger(
    db: usize,
    first: Option<PositionView>,
    ledger: Ledger,
    replies: Seq<Reply>,
)
    requires
        ledger.holds(db, Kind::Database),
        first matches Some(to) ==> !(to is Next || to is Prev),
        conversation(new_iterator_asks(db, first), ledger, replies),
    ensures
        permitted(new_iterator_asks(db, first), ledger, replies),
        match new_iterator_script(db, first, replies) {
            Next::Done(Ok(iter)) => after_all(new_iterator_asks(db, first), ledger, replies)
                == with_iterator(ledger, iter, first),
            Next::Done(Err(_)) => after_all(new_iterator_asks(db, first), ledger, replies)
                == ledger,
            Next::Ask(_) => true,
        },
{
    lemma_new_iterator(db, first, ledger, replies);
    assert(after_all(new_iterator_asks(db, first), ledger, replies) =~= new_iterator_ledger(
        ledger,
        first,
        replies,
    ));
}

/// What asking a cursor for validity asks, after the replies given.
pub open spec fn valid_asks(iter: usize) -> spec_fn(Seq<Reply>) -> Option<RequestView> {
    |replies: Seq<Reply>| asked(valid_script(iter, replies))
}

/// Asking a live cursor whether it stands at an entry is permitted, and
/// settles that it does or does not; nothing else changes.
pub proof fn valid_keeps_the_ledger(iter: usize, ledger: Ledger, replies: Seq<Reply>)
    requires
        ledger.holds(iter, Kind::Iterator),
        conversation(valid_asks(iter), ledger, replies),
    ensures
        permitted(valid_asks(iter), ledger, replies),
        valid_script(iter, replies) matches Next::Done(valid) ==> after_all(
            valid_asks(iter),
            ledger,
            replies,
        ) == ledger.settled(iter, valid),
    decreases replies.len(),
{
    if replies.len() > 0 {
        let earlier = replies.drop_last();
        valid_keeps_the_ledger(iter, ledger, earlier);
        assert(forall|i: int| 0 <= i < earlier.len() ==> earlier[i] == replies[i]);
    }
}

/// What asking a cursor for its status asks, after the replies given.
pub open spec fn status_asks(iter: usize) -> spec_fn(Seq<Reply>) -> Option<RequestView> {
    |replies: Seq<Reply>| asked(status_script(iter, replies))
}

spec fn status_ledger(ledger: Ledger, replies: Seq<Reply>) -> Ledger {
    if replies.len() == 0 || replies.len() > 2 {
        ledger
    } else {
        with_error(ledger, replies[0])
    }
}

proof fn lemma_status(iter: usize, ledger: Ledger, replies: Seq<Reply>)
    requires
        ledger.holds(iter, Kind::Iterator),
        conversation(status_asks(iter), ledger, replies),
    ensures
        permitted(status_asks(iter), ledger, replies),
        after_all(status_asks(iter), ledger, replies) == status_ledger(ledger, replies),
        replies.len() <= 3,
        replies.len() > 0 && replies[0].error != 0 ==> ledger.fresh(replies[0].error),
    decreases replies.len(),
{
    if replies.len() > 0 {
        let earlier = replies.drop_last();
        lemma_status(iter, ledger, earlier);
        assert(forall|i: int| 0 <= i < earlier.len() ==> earlier[i] == replies[i]);
        assert(after_all(status_asks(iter), ledger, replies) =~= status_ledger(
            ledger,
            replies,
        ));
    }
}

/// Asking a live cursor for its status keeps the ledger: every request is
/// permitted, and an error message has been freed when the asking is over.
pub proof fn status_keeps_the_ledger(iter: usize, ledger: Ledger, replies: Seq<Reply>)
    requires
        ledger.holds(iter, Kind::Iterator),
        conversation(status_asks(iter), ledger, replies),
    ensures
        permitted(status_asks(iter), ledger, replies),
        status_script(iter, replies) is Done ==> after_all(status_asks(iter), ledger, replies)
            == ledger,
{
    lemma_status(iter, ledger, replies);
    assert(after_all(status_asks(iter), ledger, replies) =~= status_ledger(ledger, replies));
}

/// What the copying of a part of an entry asks, after the replies given.
pub open spec fn slice_asks(iter: usize, part: Part) -> spec_fn(Seq<Reply>) -> Option<
    RequestView,
> {
    |replies: Seq<Reply>| asked(slice_script(iter, part, replies))
}

spec fn slice_ledger(iter: usize, ledger: Ledger, replies: Seq<Reply>) -> Ledger {
    if replies.len() == 0 {
        ledger
    } else if replies.len() == 1 {
        ledger.settled(iter, replies[0].flag != 0)
    } else {
        lend(ledger.settled(iter, replies[0].flag != 0), iter, replies[1])
    }
}

proof fn lemma_slice(iter: usize, part: Part, ledger: Ledger, replies: Seq<Reply>)
    requires
        ledger.holds(iter, Kind::Iterator),
        conversation(slice_asks(iter, part), ledger, replies),
    ensures
        permitted(slice_asks(iter, part), ledger, replies),
        after_all(slice_asks(iter, part), ledger, replies) == slice_ledger(
            iter,
            ledger,
            replies,
        ),
        replies.len() <= 3,
    decreases replies.len(),
{
    if replies.len() > 0 {
        let earlier = replies.drop_last();
        lemma_slice(iter, part, ledger, earlier);
        assert(forall|i: int| 0 <= i < earlier.len() ==> earlier[i] == replies[i]);
        assert(after_all(slice_asks(iter, part), ledger, replies) =~= slice_ledger(
            iter,
            ledger,
            replies,
        ));
    }
}

/// The copying of a part of the entry at a live cursor is permitted
/// throughout: the part is asked for only once the cursor has said that it
/// stands at an entry, and is copied while it is on loan, at its own
/// length. The binding owns what it owned.
pub proof fn slice_keeps_the_ledger(iter: usize, part: Part, ledger: Ledger, replies: Seq<Reply>)
    requires
        ledger.holds(iter, Kind::Iterator),
        conversation(slice_asks(iter, part), ledger, replies),
    ensures
        permitted(slice_asks(iter, part), ledger, replies),
        after_all(slice_asks(iter, part), ledger, replies).owned == ledger.owned,
{
    lemma_slice(iter, part, ledger, replies);
}

/// What the copying of an entry asks, after the replies given.
pub open spec fn item_asks(iter: usize) -> spec_fn(Seq<Reply>) -> Option<RequestView> {
    |replies: Seq<Reply>| asked(item_script(iter, replies))
}

/// The ledger in the course of copying the entry at a cursor, where the
/// replies from the one at `from` on belong to the copying.
spec fn entry_ledger(iter: usize, ledger: Ledger, replies: Seq<Reply>, from: int) -> Ledger {
    if replies.len() <= from {
        ledger
    } else if replies.len() <= from + 2 {
        lend(ledger, iter, replies[from])
    } else {
        lend(lend(ledger, iter, replies[from]), iter, replies[from + 2])
    }
}

spec fn item_ledger(iter: usize, ledger: Ledger, replies: Seq<Reply>) -> Ledger {
    if replies.len() == 0 {
        ledger
    } else {
        entry_ledger(iter, ledger.settled(iter, replies[0].flag != 0), replies, 1)
    }
}

proof fn lemma_item(iter: usize, ledger: Ledger, replies: Seq<Reply>)
    requires
        ledger.holds(iter, Kind::Iterator),
        conversation(item_asks(iter), ledger, replies),
    ensures
        permitted(item_asks(iter), ledger, replies),
        after_all(item_asks(iter), ledger, replies) == item_ledger(iter, ledger, replies),
        replies.len() <= 5,
    decreases replies.len(),
{
    if replies.len() > 0 {
        let earlier = replies.drop_last();
        lemma_item(iter, ledger, earlier);
        assert(forall|i: int| 0 <= i < earlier.len() ==> earlier[i] == replies[i]);
        assert(after_all(item_asks(iter), ledger, replies) =~= item_ledger(
            iter,
            ledger,
            replies,
        ));
    }
}

/// The copying of the entry at a live cursor is permitted throughout: the
/// key and the value are asked for only once the cursor has said that it
/// stands at an entry, and each is copied while it is on loan, at its own
/// length. The binding owns what it owned.
pub proof fn item_keeps_the_ledger(iter: usize, ledger: Ledger, replies: Seq<Reply>)
    requires
        ledger.holds(iter, Kind::Iterator),
        conversation(item_asks(iter), ledger, replies),
    ensures
        permitted(item_asks(iter), ledger, replies),
        after_all(item_asks(iter), ledger, replies).owned == ledger.owned,
{
    lemma_item(iter, ledger, replies);
}

/// What a step of a sequence asks, after the replies given.
pub open spec fn advance_asks(sequence: SequenceView) -> spec_fn(Seq<Reply>) -> Option<
    RequestView,
> {
    |replies: Seq<Reply>| asked(advance_script(sequence, replies))
}

/// Whether the sequence may take a step: its cursor is live, and unless
/// the sequence has ended or has yet to hand out its first entry, the
/// cursor stands at an entry, the one handed out last.
pub open spec fn ready(ledger: Ledger, sequence: SequenceView) -> bool {
    &&& ledger.holds(sequence.iter, Kind::Iterator)
    &&& !sequence.finished && !sequence.just_seeked ==> ledger.standing.contains(sequence.iter)
}

spec fn advance_ledger(sequence: SequenceView, ledger: Ledger, replies: Seq<Reply>) -> Ledger {
    let skip = moves(sequence);
    let iter = sequence.iter;
    let placed = if skip == 1 && replies.len() >= 1 {
        ledger.unsettled(iter)
    } else {
        ledger
    };
    if replies.len() <= skip {
        placed
    } else {
        let asked = placed.settled(iter, replies[skip].flag != 0);
        if replies[skip].flag != 0 {
            entry_ledger(iter, asked, replies, skip + 1)
        } else if replies.len() == skip + 1 || replies.len() >= skip + 4 {
            asked
        } else {
            with_error(asked, replies[skip + 1])
        }
    }
}

/// A sequence that has just been created may take its first step.
pub proof fn a_new_sequence_is_ready(
    db: usize,
    direction: Direction,
    ledger: Ledger,
    replies: Seq<Reply>,
)
    requires
        ledger.holds(db, Kind::Database),
        conversation(new_iterator_asks(db, Some(start_of(direction))), ledger, replies),
    ensures
        new_sequence_script(db, direction, replies) matches Next::Done(Ok(sequence)) ==> ready(
            after_all(new_iterator_asks(db, Some(start_of(direction))), ledger, replies),
            sequence,
        ),
{
    new_iterator_keeps_the_ledger(db, Some(start_of(direction)), ledger, replies);
}

proof fn lemma_advance(sequence: SequenceView, ledger: Ledger, replies: Seq<Reply>)
    requires
        ready(ledger, sequence),
        conversation(advance_asks(sequence), ledger, replies),
    ensures
        permitted(advance_asks(sequence), ledger, replies),
        after_all(advance_asks(sequence), ledger, replies) == advance_ledger(
            sequence,
            ledger,
            replies,
        ),
        replies.len() > 0 ==> !sequence.finished,
        replies.len() <= moves(sequence) + 5,
        replies.len() > moves(sequence) + 1 && replies[moves(sequence)].flag == 0 && replies[moves(
            sequence,
        ) + 1].error != 0 ==> !ledger.owned.contains_key(replies[moves(sequence) + 1].error),
        replies.len() > moves(sequence) + 1 && replies[moves(sequence)].flag == 0 ==> replies.len()
            <= moves(sequence) + 4,
    decreases replies.len(),
{
    if replies.len() > 0 {
        let earlier = replies.drop_last();
        lemma_advance(sequence, ledger, earlier);
        assert(forall|i: int| 0 <= i < earlier.len() ==> earlier[i] == replies[i]);
        assert(after_all(advance_asks(sequence), ledger, replies) =~= advance_ledger(
            sequence,
            ledger,
            replies,
        ));
    }
}

/// A step of a sequence keeps the ledger, and leaves the sequence ready for
/// the next.
///
/// Where the sequence may take a step, every request that the step makes
/// is permitted, whatever the engine replies. In particular the cursor is
/// moved on only from an entry: a sequence that has ended moves it no
/// more. When the step is over, the binding owns what it owned, an error
/// message has been freed, and the sequence may take another step.
pub proof fn advance_keeps_the_ledger(sequence: SequenceView, ledger: Ledger, replies: Seq<Reply>)
    requires
        ready(ledger, sequence),
        conversation(advance_asks(sequence), ledger, replies),
    ensures
        permitted(advance_asks(sequence), ledger, replies),
        advance_script(sequence, replies) matches Next::Done((after, _)) ==> {
            &&& after_all(advance_asks(sequence), ledger, replies).owned == ledger.owned
            &&& ready(after_all(advance_asks(sequence), ledger, replies), after)
        },
{
    lemma_advance(sequence, ledger, replies);
    if advance_script(sequence, replies) is Done {
        assert(after_all(advance_asks(sequence), ledger, replies).owned =~= ledger.owned);
    }
}

/// What the opening of a database with its column families asks, after
/// the replies given.
pub open spec fn open_column_families_asks(open: OpenColumnFamiliesView) -> spec_fn(
    Seq<Reply>,
) -> Option<RequestView> {
    |replies: Seq<Reply>| asked(open_column_families_script(open, replies))
}

/// Whether the opening may be asked of the engine: the options of the
/// database and of each column family are live, there is a name for each
/// and at least one, and the path and the names are C strings.
pub open spec fn may_open_column_families(ledger: Ledger, open: OpenColumnFamiliesView) -> bool {
    permits(
        ledger,
        RequestView::OpenColumnFamilies {
            options: open.options,
            path: open.path,
            names: open.names,
            cf_options: open.cf_options,
        },
    )
}

/// What is not refused may be asked of the engine.
///
/// Where the path and the names of an opening with column families are not
/// refused and the options are live, the opening made of them may be asked
/// of the engine: no string with a zero byte in it, no count that the
/// engine cannot hold and no list without its counterpart reaches it.
pub proof fn what_is_not_refused_may_be_asked(
    ledger: Ledger,
    open: OpenColumnFamiliesView,
    path: Seq<u8>,
    names: Seq<Seq<u8>>,
)
    requires
        open_column_families_refusal(path, names, open.cf_options.len()) is None,
        open.path == c_string(path),
        open.names.len() == names.len(),
        forall|i: int| 0 <= i < names.len() ==> #[trigger] open.names[i] == c_string(names[i]),
        ledger.holds(open.options, Kind::Options),
        forall|i: int|
            0 <= i < open.cf_options.len() ==> ledger.holds(
                #[trigger] open.cf_options[i],
                Kind::Options,
            ),
    ensures
        may_open_column_families(ledger, open),
{
    c_string_is_c_string(path);
    assert forall|i: int| 0 <= i < open.names.len() implies is_c_string(
        #[trigger] open.names[i],
    ) by {
        assert(!has_nul(names[i]));
        c_string_is_c_string(names[i]);
    }
}

/// The handles that are not null are those of the handles that are not
/// null, each as often as it stands among them.
proof fn lemma_non_null(handles: Seq<usize>)
    ensures
        forall|i: int| 0 <= i < non_null(handles).len() ==> is_one_of(handles, non_null(handles)[i]),
        forall|address: usize|
            is_one_of(handles, address) ==> is_one_of(non_null(handles), address),
        (forall|i: int, j: int|
            0 <= i < j < handles.len() && handles[i] != 0 ==> handles[i] != handles[j]) ==> (
        forall|i: int, j: int|
            0 <= i < j < non_null(handles).len() ==> non_null(handles)[i] != non_null(handles)[j]),
        (forall|i: int| 0 <= i < handles.len() ==> handles[i] != 0) ==> non_null(handles)
            == handles,
    decreases handles.len(),
{
    if handles.len() > 0 {
        let earlier = handles.drop_last();
        lemma_non_null(earlier);
        assert(forall|i: int| 0 <= i < earlier.len() ==> earlier[i] == handles[i]);
        let kept = non_null(earlier);
        let all = non_null(handles);
        assert forall|i: int| 0 <= i < all.len() implies is_one_of(handles, all[i]) by {
            if i < kept.len() {
                assert(is_one_of(earlier, kept[i]));
                let k = choose|k: int| 0 <= k < earlier.len() && earlier[k] == kept[i];
                assert(handles[k] == all[i]);
            } else {
                assert(handles[handles.len() - 1] == all[i]);
            }
        }
        assert forall|address: usize| is_one_of(handles, address) implies is_one_of(
            all,
            address,
        ) by {
            let k = choose|k: int| 0 <= k < handles.len() && handles[k] == address;
            if k < earlier.len() {
                assert(earlier[k] == address);
                assert(is_one_of(earlier, address));
                assert(is_one_of(kept, address));
                let m = choose|m: int| 0 <= m < kept.len() && kept[m] == address;
                assert(all[m] == address);
            } else {
                assert(all[all.len() - 1] == address);
            }
        }
        if forall|i: int, j: int|
            0 <= i < j < handles.len() && handles[i] != 0 ==> handles[i] != handles[j] {
            assert forall|i: int, j: int| 0 <= i < j < all.len() implies all[i] != all[j] by {
                if j == kept.len() {
                    assert(is_one_of(earlier, kept[i]));
                    let k = choose|k: int| 0 <= k < earlier.len() && earlier[k] == kept[i];
                    assert(handles[k] != handles[handles.len() - 1]);
                }
            }
        }
        if forall|i: int| 0 <= i < handles.len() ==> handles[i] != 0 {
            assert(all =~= handles);
        }
    }
}

spec fn opened_with(ledger: Ledger, reply: Reply) -> Ledger {
    with_error(
        ledger.with_column_families(reply.handles@).with_some(
            reply.pointer,
            Object::Handle(Kind::Database),
        ),
        reply,
    )
}

spec fn open_column_families_ledger(
    open: OpenColumnFamiliesView,
    ledger: Ledger,
    replies: Seq<Reply>,
) -> Ledger {
    if replies.len() == 0 {
        ledger
    } else if replies[0].error != 0 {
        if replies.len() <= 2 {
            opened_with(ledger, replies[0])
        } else {
            ledger
        }
    } else {
        let stray = non_null(replies[0].handles@);
        let destroyed = replies.len() - 1;
        if destroyed <= stray.len() {
            opened_with(ledger, replies[0]).without_first(stray, destroyed)
        } else {
            opened_with(ledger, replies[0]).without_first(stray, stray.len() as int).without(
                replies[0].pointer,
            )
        }
    }
}

spec fn came_back_new(ledger: Ledger, reply: Reply) -> bool {
    &&& reply.error != 0 ==> ledger.fresh(reply.error) && reply.pointer == 0
    &&& reply.pointer != 0 ==> ledger.fresh(reply.pointer)
    &&& forall|address: usize| #[trigger]
        is_one_of(reply.handles@, address) ==> ledger.fresh(address) && address != reply.pointer
            && reply.error == 0
    &&& forall|i: int, j: int|
        0 <= i < j < reply.handles@.len() && reply.handles@[i] != 0 ==> reply.handles@[i]
            != reply.handles@[j]
}

proof fn lemma_open_column_families(
    open: OpenColumnFamiliesView,
    ledger: Ledger,
    replies: Seq<Reply>,
)
    requires
        may_open_column_families(ledger, open),
        conversation(open_column_families_asks(open), ledger, replies),
    ensures
        permitted(open_column_families_asks(open), ledger, replies),
        after_all(open_column_families_asks(open), ledger, replies)
            == open_column_families_ledger(open, ledger, replies),
        replies.len() > 0 ==> came_back_new(ledger, replies[0]),
        replies.len() > 0 && replies[0].error != 0 ==> replies.len() <= 3,
        replies.len() > 0 && replies[0].error == 0 ==> replies.len() <= non_null(
            replies[0].handles@,
        ).len() + 2,
        replies.len() > 1 && replies[0].error == 0 ==> !complete(replies[0], open.names.len()),
        replies.len() > 0 && replies[0].error == 0 && replies.len() == non_null(
            replies[0].handles@,
        ).len() + 2 ==> replies[0].pointer != 0,
    decreases replies.len(),
{
    if replies.len() > 0 {
        let earlier = replies.drop_last();
        lemma_open_column_families(open, ledger, earlier);
        assert(forall|i: int| 0 <= i < earlier.len() ==> earlier[i] == replies[i]);
        let now = after_all(open_column_families_asks(open), ledger, replies);
        let handles = replies[0].handles@;
        let stray = non_null(handles);
        lemma_non_null(handles);
        if replies.len() == 1 {
            assert forall|address: usize| #[trigger]
                is_one_of(handles, address) implies ledger.fresh(address) && address
                != replies[0].pointer && replies[0].error == 0 by {
                let k = choose|k: int| 0 <= k < handles.len() && handles[k] == address;
                assert(handles[k] != 0);
            }
            assert(came_back_new(ledger, replies[0]));
            if replies[0].error == 0 {
                assert(stray.take(0) =~= Seq::<usize>::empty());
                assert(now =~= open_column_families_ledger(open, ledger, replies));
            } else {
                assert(now =~= open_column_families_ledger(open, ledger, replies));
            }
        } else if replies[0].error != 0 {
            assert(opened_with(ledger, replies[0]) =~= ledger.with(
                replies[0].error,
                Object::Message,
            ));
            assert(now =~= open_column_families_ledger(open, ledger, replies));
        } else {
            let destroyed = replies.len() - 2;
            if destroyed < stray.len() {
                let upto = stray.take(destroyed);
                let next = stray.take(destroyed + 1);
                assert(is_one_of(handles, stray[destroyed]));
                assert forall|address: usize|
                    is_one_of(next, address) <==> is_one_of(upto, address) || address
                        == stray[destroyed] by {
                    if is_one_of(next, address) {
                        let k = choose|k: int| 0 <= k < next.len() && next[k] == address;
                        if k < destroyed {
                            assert(upto[k] == address);
                        }
                    }
                    if is_one_of(upto, address) {
                        let k = choose|k: int| 0 <= k < upto.len() && upto[k] == address;
                        assert(next[k] == address);
                    }
                    if address == stray[destroyed] {
                        assert(next[destroyed] == address);
                    }
                }
                assert(now =~= open_column_families_ledger(open, ledger, replies));
            } else {
                assert(now =~= open_column_families_ledger(open, ledger, replies));
            }
        }
        let request = open_column_families_asks(open)(replies);
        if request is Some && replies[0].error == 0 {
            let destroyed = replies.len() - 1;
            let upto = stray.take(destroyed);
            if destroyed < stray.len() {
                assert(is_one_of(handles, stray[destroyed]));
                assert(!is_one_of(upto, stray[destroyed])) by {
                    if is_one_of(upto, stray[destroyed]) {
                        let k = choose|k: int| 0 <= k < upto.len() && upto[k] == stray[destroyed];
                        assert(stray[k] == stray[destroyed]);
                    }
                }
            } else {
                assert(!is_one_of(upto, replies[0].pointer)) by {
                    if is_one_of(upto, replies[0].pointer) {
                        let k = choose|k: int| 0 <= k < upto.len() && upto[k] == replies[0].pointer;
                        assert(is_one_of(handles, stray[k]));
                    }
                }
            }
        }
    }
}

/// The opening of a database with its column families leaves nothing
/// behind but the database and the handles.
///
/// Where the opening may be asked of the engine, every request that it
/// makes is permitted, whatever the engine replies. When the opening has
/// succeeded, the ledger is as it was, but for the database and the handle
/// of each column family. When it has failed, the ledger is as it was:
/// where the engine handed back only part of what was asked for, each
/// handle that came back has been destroyed and the database closed.
pub proof fn open_column_families_keeps_the_ledger(
    open: OpenColumnFamiliesView,
    ledger: Ledger,
    replies: Seq<Reply>,
)
    requires
        may_open_column_families(ledger, open),
        conversation(open_column_families_asks(open), ledger, replies),
    ensures
        permitted(open_column_families_asks(open), ledger, replies),
        match open_column_families_script(open, replies) {
            Next::Done(Ok((db, _, handles))) => after_all(
                open_column_families_asks(open),
                ledger,
                replies,
            ) == ledger.with_column_families(handles).with(db, Object::Handle(Kind::Database)),
            Next::Done(Err(_)) => after_all(open_column_families_asks(open), ledger, replies)
                == ledger,
            Next::Ask(_) => true,
        },
{
    lemma_open_column_families(open, ledger, replies);
    let now = after_all(open_column_families_asks(open), ledger, replies);
    match open_column_families_script(open, replies) {
        Next::Done(Ok((db, _, handles))) => {
            assert(non_null(handles).take(0) =~= Seq::<usize>::empty());
            assert(now =~= ledger.with_column_families(handles).with(
                db,
                Object::Handle(Kind::Database),
            ));
        },
        Next::Done(Err(_)) => {
            let handles = replies[0].handles@;
            let stray = non_null(handles);
            lemma_non_null(handles);
            if replies[0].error == 0 {
                assert(stray.take(stray.len() as int) =~= stray);
                assert forall|address: usize| is_one_of(handles, address) implies !now.owned.contains_key(address) by {
                    assert(is_one_of(stray, address));
                }
                assert(now =~= ledger);
            } else {
                assert(now =~= ledger);
            }
        },
        Next::Ask(_) => {},
    }
}

} // verus!
