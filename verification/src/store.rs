//! What reading and writing come to where the engine does its part.
//!
//! The engine is not part of this library, and what it keeps is its own
//! affair. This module says what is expected of it as a store: that it
//! hands out the options it is asked for, that a write goes into the table
//! of its column family, and that a read finds what is there. Against an
//! engine that answers so, the laws below say what the operations of this
//! library come to.

use crate::db::{
    drop_column_family_script, read_script, write_script, DropColumnFamilyView, ReadView, WriteView,
};
use crate::ffi::{Reply, RequestView};
use crate::laws::{drop_column_family_asks, read_asks, write_asks};
use crate::model::{after_all, conversation, Model};
use crate::protocol::Next;
use vstd::prelude::*;

verus! {

/// A column family of a database: the default one where no handle is named.
pub struct Place {
    pub db: usize,
    pub cf: Option<usize>,
}

/// What the engine keeps, as far as reading and writing go.
#[verifier::ext_equal]
pub struct Store {
    /// The entries of each column family.
    pub tables: Map<Place, Map<Seq<u8>, Seq<u8>>>,
    /// The values that it has handed out, by their pointers.
    pub memory: Map<usize, Seq<u8>>,
}

impl Store {
    /// The entries of the column family.
    pub open spec fn table(self, place: Place) -> Map<Seq<u8>, Seq<u8>> {
        if self.tables.contains_key(place) {
            self.tables[place]
        } else {
            Map::empty()
        }
    }

    /// The value under the key in the column family, where there is one.
    pub open spec fn value(self, place: Place, key: Seq<u8>) -> Option<Seq<u8>> {
        if self.table(place).contains_key(key) {
            Some(self.table(place)[key])
        } else {
            None
        }
    }

    /// The store once the value has been put under the key.
    pub open spec fn put(self, place: Place, key: Seq<u8>, value: Seq<u8>) -> Store {
        Store { tables: self.tables.insert(place, self.table(place).insert(key, value)), ..self }
    }

    /// The store once the key has been deleted.
    pub open spec fn delete(self, place: Place, key: Seq<u8>) -> Store {
        Store { tables: self.tables.insert(place, self.table(place).remove(key)), ..self }
    }

    /// The store once the write has been made.
    pub open spec fn written(self, write: WriteView) -> Store {
        let place = Place { db: write.db, cf: write.cf };
        match write.value {
            Some(value) => self.put(place, write.key, value),
            None => self.delete(place, write.key),
        }
    }

    /// The store once the column family has been dropped.
    pub open spec fn dropped(self, place: Place) -> Store {
        Store { tables: self.tables.remove(place), ..self }
    }
}

/// Whether the reply is what the engine gives where it does its part.
///
/// It hands out the options asked for. A write and the dropping of a
/// column family meet no error. A read meets none either: it hands out the
/// value under the key, at its length, and a null pointer where there is
/// none. What is copied from a value handed out is that value.
pub open spec fn answers(store: Store, request: RequestView, reply: Reply) -> bool {
    match request {
        RequestView::Create { .. } => reply.pointer != 0,
        RequestView::Put { .. } => reply.error == 0,
        RequestView::Delete { .. } => reply.error == 0,
        RequestView::DropColumnFamily { .. } => reply.error == 0,
        RequestView::Get { db, cf, key, .. } => {
            &&& reply.error == 0
            &&& match store.value(Place { db, cf }, key) {
                Some(value) => reply.pointer != 0 && reply.length == value.len(),
                None => reply.pointer == 0,
            }
        },
        RequestView::ReadBuffer { pointer, .. } => store.memory.contains_key(pointer)
            ==> reply.bytes@ == store.memory[pointer],
        _ => true,
    }
}

/// The store once the request has been made and answered.
pub open spec fn store_after(store: Store, request: RequestView, reply: Reply) -> Store {
    match request {
        RequestView::Put { db, cf, key, value, .. } => store.put(Place { db, cf }, key, value),
        RequestView::Delete { db, cf, key, .. } => store.delete(Place { db, cf }, key),
        RequestView::DropColumnFamily { db, handle } => store.dropped(
            Place { db, cf: Some(handle) },
        ),
        RequestView::Get { db, cf, key, .. } => match store.value(Place { db, cf }, key) {
            Some(value) => Store { memory: store.memory.insert(reply.pointer, value), ..store },
            None => store,
        },
        RequestView::Free { pointer } => Store { memory: store.memory.remove(pointer), ..store },
        _ => store,
    }
}

impl Model for Store {
    open spec fn expects(self, request: RequestView, reply: Reply) -> bool {
        answers(self, request, reply)
    }

    open spec fn after(self, request: RequestView, reply: Reply) -> Store {
        store_after(self, request, reply)
    }
}

spec fn write_store(write: WriteView, store: Store, replies: Seq<Reply>) -> Store {
    if replies.len() <= 1 {
        store
    } else {
        store.written(write)
    }
}

proof fn lemma_write_store(write: WriteView, store: Store, replies: Seq<Reply>)
    requires
        conversation(write_asks(write), store, replies),
    ensures
        after_all(write_asks(write), store, replies) == write_store(write, store, replies),
        replies.len() <= 3,
        replies.len() > 0 ==> replies[0].pointer != 0,
        replies.len() > 1 ==> replies[1].error == 0,
    decreases replies.len(),
{
    if replies.len() > 0 {
        let earlier = replies.drop_last();
        lemma_write_store(write, store, earlier);
        assert(forall|i: int| 0 <= i < earlier.len() ==> earlier[i] == replies[i]);
        assert(after_all(write_asks(write), store, replies) =~= write_store(
            write,
            store,
            replies,
        ));
    }
}

/// A write succeeds and is made.
///
/// Against an engine that does its part, a write that is over has
/// succeeded, and the store is as before but for the entry written: the
/// key has its new value, or is gone.
pub proof fn a_write_is_made(write: WriteView, store: Store, replies: Seq<Reply>)
    requires
        conversation(write_asks(write), store, replies),
        write_script(write, replies) is Done,
    ensures
        write_script(write, replies) == Next::<core::result::Result<(), Seq<char>>>::Done(Ok(())),
        after_all(write_asks(write), store, replies) == store.written(write),
{
    lemma_write_store(write, store, replies);
}

spec fn read_store(read: ReadView, store: Store, replies: Seq<Reply>) -> Store {
    let place = Place { db: read.db, cf: read.cf };
    if replies.len() <= 1 {
        store
    } else {
        match store.value(place, read.key) {
            Some(value) => if replies.len() <= 4 {
                Store { memory: store.memory.insert(replies[1].pointer, value), ..store }
            } else {
                Store {
                    memory: store.memory.insert(replies[1].pointer, value).remove(
                        replies[1].pointer,
                    ),
                    ..store
                }
            },
            None => store,
        }
    }
}

proof fn lemma_read_store(read: ReadView, store: Store, replies: Seq<Reply>)
    requires
        conversation(read_asks(read), store, replies),
    ensures
        after_all(read_asks(read), store, replies) == read_store(read, store, replies),
        replies.len() <= 5,
        replies.len() > 0 ==> replies[0].pointer != 0,
        replies.len() > 1 ==> replies[1].error == 0 && (replies[1].pointer != 0 <==> store.value(
            Place { db: read.db, cf: read.cf },
            read.key,
        ) is Some),
        replies.len() > 3 ==> Some(replies[3].bytes@) == store.value(
            Place { db: read.db, cf: read.cf },
            read.key,
        ),
    decreases replies.len(),
{
    if replies.len() > 0 {
        let earlier = replies.drop_last();
        lemma_read_store(read, store, earlier);
        assert(forall|i: int| 0 <= i < earlier.len() ==> earlier[i] == replies[i]);
        assert(after_all(read_asks(read), store, replies) =~= read_store(
            read,
            store,
            replies,
        ));
    }
}

/// A read finds what is there.
///
/// Against an engine that does its part, a read that is over has
/// succeeded, with the value that the store holds under the key in the
/// column family, byte for byte, and with none where it holds none. The
/// entries are as before.
pub proof fn a_read_finds_what_is_there(read: ReadView, store: Store, replies: Seq<Reply>)
    requires
        conversation(read_asks(read), store, replies),
        read_script(read, replies) is Done,
    ensures
        read_script(read, replies) == Next::<
            core::result::Result<Option<Seq<u8>>, Seq<char>>,
        >::Done(Ok(store.value(Place { db: read.db, cf: read.cf }, read.key))),
        after_all(read_asks(read), store, replies).tables == store.tables,
{
    lemma_read_store(read, store, replies);
}

/// A value that is put comes back.
///
/// For every key and value, empty ones and ones with zero bytes in them
/// too: against an engine that does its part, a `put` and then a `get` of
/// the key in the same column family give the value, byte for byte.
pub proof fn a_value_put_is_the_value_got(
    db: usize,
    cf: Option<usize>,
    key: Seq<u8>,
    value: Seq<u8>,
    store: Store,
    put: Seq<Reply>,
    get: Seq<Reply>,
)
    requires
        conversation(write_asks(WriteView { db, cf, key, value: Some(value) }), store, put),
        write_script(WriteView { db, cf, key, value: Some(value) }, put) is Done,
        conversation(
            read_asks(ReadView { db, cf, key }),
            after_all(write_asks(WriteView { db, cf, key, value: Some(value) }), store, put),
            get,
        ),
        read_script(ReadView { db, cf, key }, get) is Done,
    ensures
        read_script(ReadView { db, cf, key }, get) == Next::<
            core::result::Result<Option<Seq<u8>>, Seq<char>>,
        >::Done(Ok(Some(value))),
{
    let write = WriteView { db, cf, key, value: Some(value) };
    a_write_is_made(write, store, put);
    a_read_finds_what_is_there(ReadView { db, cf, key }, store.written(write), get);
}

/// A key that is deleted is absent.
///
/// For every key: against an engine that does its part, a `delete` and
/// then a `get` of the key in the same column family give no value,
/// whatever was put under the key before.
pub proof fn a_key_deleted_is_absent(
    db: usize,
    cf: Option<usize>,
    key: Seq<u8>,
    store: Store,
    delete: Seq<Reply>,
    get: Seq<Reply>,
)
    requires
        conversation(write_asks(WriteView { db, cf, key, value: None }), store, delete),
        write_script(WriteView { db, cf, key, value: None }, delete) is Done,
        conversation(
            read_asks(ReadView { db, cf, key }),
            after_all(write_asks(WriteView { db, cf, key, value: None }), store, delete),
            get,
        ),
        read_script(ReadView { db, cf, key }, get) is Done,
    ensures
        read_script(ReadView { db, cf, key }, get) == Next::<
            core::result::Result<Option<Seq<u8>>, Seq<char>>,
        >::Done(Ok(None)),
{
    let write = WriteView { db, cf, key, value: None };
    a_write_is_made(write, store, delete);
    a_read_finds_what_is_there(ReadView { db, cf, key }, store.written(write), get);
}

/// A key that was never written is absent, and that is no error.
pub proof fn a_key_never_written_is_absent(read: ReadView, store: Store, replies: Seq<Reply>)
    requires
        store.value(Place { db: read.db, cf: read.cf }, read.key) is None,
        conversation(read_asks(read), store, replies),
        read_script(read, replies) is Done,
    ensures
        read_script(read, replies) == Next::<
            core::result::Result<Option<Seq<u8>>, Seq<char>>,
        >::Done(Ok(None)),
{
    a_read_finds_what_is_there(read, store, replies);
}

/// A write to one column family leaves the others as they are.
///
/// Against an engine that does its part, a write to a column family
/// changes no entry of any other column family, of this database or of
/// another: the same key may have one value here and another there.
pub proof fn a_write_stays_in_its_column_family(
    write: WriteView,
    other: Place,
    key: Seq<u8>,
    store: Store,
    replies: Seq<Reply>,
)
    requires
        other != (Place { db: write.db, cf: write.cf }),
        conversation(write_asks(write), store, replies),
    ensures
        after_all(write_asks(write), store, replies).value(other, key) == store.value(
            other,
            key,
        ),
{
    lemma_write_store(write, store, replies);
}

spec fn drop_store(drop: DropColumnFamilyView, store: Store, replies: Seq<Reply>) -> Store {
    if replies.len() == 0 {
        store
    } else {
        store.dropped(Place { db: drop.db, cf: Some(drop.handle) })
    }
}

proof fn lemma_drop_store(drop: DropColumnFamilyView, store: Store, replies: Seq<Reply>)
    requires
        conversation(drop_column_family_asks(drop), store, replies),
    ensures
        after_all(drop_column_family_asks(drop), store, replies) == drop_store(
            drop,
            store,
            replies,
        ),
        replies.len() <= 2,
        replies.len() > 0 ==> replies[0].error == 0,
    decreases replies.len(),
{
    if replies.len() > 0 {
        let earlier = replies.drop_last();
        lemma_drop_store(drop, store, earlier);
        assert(forall|i: int| 0 <= i < earlier.len() ==> earlier[i] == replies[i]);
        assert(after_all(drop_column_family_asks(drop), store, replies) =~= drop_store(
            drop,
            store,
            replies,
        ));
    }
}

/// The dropping of a column family leaves the others as they are.
///
/// Against an engine that does its part, the dropping of a column family
/// succeeds and changes no entry of any other column family.
pub proof fn a_drop_stays_in_its_column_family(
    drop: DropColumnFamilyView,
    other: Place,
    key: Seq<u8>,
    store: Store,
    replies: Seq<Reply>,
)
    requires
        other != (Place { db: drop.db, cf: Some(drop.handle) }),
        conversation(drop_column_family_asks(drop), store, replies),
    ensures
        drop_column_family_script(drop, replies) is Done ==> drop_column_family_script(
            drop,
            replies,
        ) == Next::<core::result::Result<(), Seq<char>>>::Done(Ok(())),
        after_all(drop_column_family_asks(drop), store, replies).value(other, key)
            == store.value(other, key),
{
    lemma_drop_store(drop, store, replies);
}

} // verus!
