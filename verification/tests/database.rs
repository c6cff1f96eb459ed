//! The operations, run against an engine that keeps its data in memory and
//! panics on any request that names what is not live.

use rust_small_rocksdb::ffi::{Kind, Position, Reply, Request, Setting};
use rust_small_rocksdb::protocol::{Poll, Protocol};
use rust_small_rocksdb::{ColumnFamilyHandle, DBIterator, Direction, Options, DB};
use std::collections::{BTreeMap, HashMap};

type Table = BTreeMap<Vec<u8>, Vec<u8>>;

enum Native {
    Options { create_if_missing: bool, error_if_exists: bool },
    ReadOptions,
    WriteOptions,
    Database { path: String },
    ColumnFamily { path: String, name: String },
    Iterator { entries: Vec<(Vec<u8>, Vec<u8>)>, at: Option<usize> },
    Message(Vec<u8>),
    Buffer(Vec<u8>),
    Loan { iter: usize, bytes: Vec<u8> },
}

struct Engine {
    next_address: usize,
    natives: HashMap<usize, Native>,
    disk: HashMap<String, BTreeMap<String, Table>>,
    calls: usize,
    failing: Option<Vec<u8>>,
    exhausted: bool,
}

fn c_str(bytes: &[u8]) -> String {
    assert_eq!(bytes.last(), Some(&0u8), "a C string ends in its terminator");
    let text = &bytes[..bytes.len() - 1];
    assert!(!text.contains(&0u8), "a C string holds no other zero byte");
    String::from_utf8(text.to_vec()).unwrap()
}

impl Engine {
    fn new() -> Engine {
        Engine {
            next_address: 0x1000,
            natives: HashMap::new(),
            disk: HashMap::new(),
            calls: 0,
            failing: None,
            exhausted: false,
        }
    }

    fn live(&self) -> usize {
        self.natives.len()
    }

    fn allocate(&mut self, native: Native) -> usize {
        let address = self.next_address;
        self.next_address += 0x10;
        self.natives.insert(address, native);
        address
    }

    fn fail(&mut self, reply: &mut Reply) -> bool {
        match self.failing.take() {
            Some(message) => {
                reply.error = self.allocate(Native::Message(message));
                true
            }
            None => false,
        }
    }

    fn refuse(&mut self, reply: &mut Reply, message: &str) {
        reply.error = self.allocate(Native::Message(message.as_bytes().to_vec()));
    }

    fn is(&self, address: usize, kind: Kind) -> bool {
        match (self.natives.get(&address), kind) {
            (Some(Native::Options { .. }), Kind::Options) => true,
            (Some(Native::ReadOptions), Kind::ReadOptions) => true,
            (Some(Native::WriteOptions), Kind::WriteOptions) => true,
            (Some(Native::Database { .. }), Kind::Database) => true,
            (Some(Native::ColumnFamily { .. }), Kind::ColumnFamily) => true,
            (Some(Native::Iterator { .. }), Kind::Iterator) => true,
            _ => false,
        }
    }

    fn expect(&self, address: usize, kind: Kind) {
        assert!(self.is(address, kind), "{:#x} is not a live {:?}", address, kind);
    }

    fn flags(&self, options: usize) -> (bool, bool) {
        match self.natives.get(&options) {
            Some(Native::Options { create_if_missing, error_if_exists }) => {
                (*create_if_missing, *error_if_exists)
            }
            _ => panic!("{:#x} is not a live options object", options),
        }
    }

    fn table(&mut self, db: usize, cf: Option<usize>) -> &mut Table {
        let path = match self.natives.get(&db) {
            Some(Native::Database { path }) => path.clone(),
            _ => panic!("{:#x} is not a live database", db),
        };
        let name = match cf {
            None => String::from("default"),
            Some(handle) => match self.natives.get(&handle) {
                Some(Native::ColumnFamily { path: owner, name }) => {
                    assert_eq!(owner, &path, "the column family is of another database");
                    name.clone()
                }
                _ => panic!("{:#x} is not a live column family", handle),
            },
        };
        self.disk
            .get_mut(&path)
            .unwrap()
            .get_mut(&name)
            .expect("the column family has been dropped")
    }

    fn unsettle(&mut self, iter: usize) {
        self.natives
            .retain(|_, native| !matches!(native, Native::Loan { iter: lender, .. } if *lender == iter));
    }

    fn cursor(&mut self, iter: usize) -> (&Vec<(Vec<u8>, Vec<u8>)>, &mut Option<usize>) {
        match self.natives.get_mut(&iter) {
            Some(Native::Iterator { entries, at }) => (entries, at),
            _ => panic!("{:#x} is not a live iterator", iter),
        }
    }

    fn open(&mut self, options: usize, path: &[u8], must_exist: bool) -> Reply {
        let mut reply = Reply::new();
        let (create_if_missing, error_if_exists) = self.flags(options);
        let path = c_str(path);
        if self.fail(&mut reply) {
            return reply;
        }
        if self.disk.contains_key(&path) {
            if error_if_exists && !must_exist {
                self.refuse(&mut reply, "Invalid argument: exists (error_if_exists is true)");
                return reply;
            }
        } else if create_if_missing && !must_exist {
            let mut families = BTreeMap::new();
            families.insert(String::from("default"), Table::new());
            self.disk.insert(path.clone(), families);
        } else {
            self.refuse(
                &mut reply,
                "Invalid argument: does not exist (create_if_missing is false)",
            );
            return reply;
        }
        reply.pointer = self.allocate(Native::Database { path });
        reply
    }

    fn perform(&mut self, request: Request) -> Reply {
        self.calls += 1;
        let mut reply = Reply::new();
        match request {
            Request::Create { kind } => {
                if self.exhausted {
                    self.exhausted = false;
                    return reply;
                }
                reply.pointer = self.allocate(match kind {
                    Kind::Options => {
                        Native::Options { create_if_missing: false, error_if_exists: false }
                    }
                    Kind::ReadOptions => Native::ReadOptions,
                    Kind::WriteOptions => Native::WriteOptions,
                    other => panic!("a {:?} is not created this way", other),
                });
            }
            Request::Destroy { kind, handle } => {
                self.expect(handle, kind);
                self.natives.remove(&handle);
                if kind == Kind::Iterator {
                    self.unsettle(handle);
                }
            }
            Request::Configure { options, setting, enabled } => {
                assert!(enabled == 0 || enabled == 1);
                match self.natives.get_mut(&options) {
                    Some(Native::Options { create_if_missing, error_if_exists }) => match setting {
                        Setting::CreateIfMissing => *create_if_missing = enabled == 1,
                        Setting::ErrorIfExists => *error_if_exists = enabled == 1,
                    },
                    _ => panic!("{:#x} is not a live options object", options),
                }
            }
            Request::Open { options, path } => return self.open(options, path, false),
            Request::OpenForReadOnly { options, path, error_if_wal_file_exists } => {
                assert!(error_if_wal_file_exists == 0 || error_if_wal_file_exists == 1);
                return self.open(options, path, true);
            }
            Request::OpenColumnFamilies { options, path, names, cf_options } => {
                assert!(!names.is_empty());
                assert_eq!(names.len(), cf_options.len());
                for each in cf_options {
                    self.expect(*each, Kind::Options);
                }
                let names: Vec<String> = names.iter().map(|name| c_str(name)).collect();
                reply = self.open(options, path, false);
                if reply.pointer == 0 {
                    return reply;
                }
                let path = c_str(path);
                let missing = names.iter().any(|name| !self.disk[&path].contains_key(name));
                if missing {
                    self.natives.remove(&reply.pointer);
                    reply.pointer = 0;
                    self.refuse(&mut reply, "Invalid argument: Column family not found");
                    return reply;
                }
                for name in names {
                    let handle = self.allocate(Native::ColumnFamily { path: path.clone(), name });
                    reply.handles.push(handle);
                }
            }
            Request::Put { db, options, cf, key, value } => {
                self.expect(options, Kind::WriteOptions);
                self.table(db, cf);
                if !self.fail(&mut reply) {
                    self.table(db, cf).insert(key.to_vec(), value.to_vec());
                }
            }
            Request::Delete { db, options, cf, key } => {
                self.expect(options, Kind::WriteOptions);
                self.table(db, cf);
                if !self.fail(&mut reply) {
                    self.table(db, cf).remove(key);
                }
            }
            Request::Get { db, options, cf, key } => {
                self.expect(options, Kind::ReadOptions);
                let found = self.table(db, cf).get(key).cloned();
                if !self.fail(&mut reply) {
                    if let Some(value) = found {
                        reply.length = value.len();
                        reply.pointer = self.allocate(Native::Buffer(value));
                    }
                }
            }
            Request::CreateColumnFamily { db, options, name } => {
                self.expect(options, Kind::Options);
                let name = c_str(name);
                let path = match self.natives.get(&db) {
                    Some(Native::Database { path }) => path.clone(),
                    _ => panic!("{:#x} is not a live database", db),
                };
                if self.fail(&mut reply) {
                    return reply;
                }
                if self.disk[&path].contains_key(&name) {
                    self.refuse(&mut reply, "Invalid argument: Column family already exists");
                    return reply;
                }
                self.disk.get_mut(&path).unwrap().insert(name.clone(), Table::new());
                reply.pointer = self.allocate(Native::ColumnFamily { path, name });
            }
            Request::DropColumnFamily { db, handle } => {
                self.expect(db, Kind::Database);
                let (path, name) = match self.natives.get(&handle) {
                    Some(Native::ColumnFamily { path, name }) => (path.clone(), name.clone()),
                    _ => panic!("{:#x} is not a live column family", handle),
                };
                if !self.fail(&mut reply) {
                    self.disk.get_mut(&path).unwrap().remove(&name);
                }
            }
            Request::CreateIterator { db, options } => {
                self.expect(options, Kind::ReadOptions);
                if self.exhausted {
                    self.exhausted = false;
                    self.expect(db, Kind::Database);
                    return reply;
                }
                let entries: Vec<(Vec<u8>, Vec<u8>)> = self
                    .table(db, None)
                    .iter()
                    .map(|(key, value)| (key.clone(), value.clone()))
                    .collect();
                reply.pointer = self.allocate(Native::Iterator { entries, at: None });
            }
            Request::Valid { iter } => {
                let (_, at) = self.cursor(iter);
                reply.flag = if at.is_some() { 1 } else { 0 };
            }
            Request::Seek { iter, to } => {
                self.unsettle(iter);
                let (entries, at) = self.cursor(iter);
                let count = entries.len();
                *at = match to {
                    Position::First => (count > 0).then_some(0),
                    Position::Last => count.checked_sub(1),
                    Position::AtOrAfter(key) => entries.iter().position(|(k, _)| &k[..] >= key),
                    Position::AtOrBefore(key) => entries.iter().rposition(|(k, _)| &k[..] <= key),
                    Position::Next => {
                        let here = at.expect("the cursor is moved on only from an entry");
                        (here + 1 < count).then_some(here + 1)
                    }
                    Position::Prev => {
                        let here = at.expect("the cursor is moved back only from an entry");
                        here.checked_sub(1)
                    }
                };
            }
            Request::Key { iter } => {
                let (entries, at) = self.cursor(iter);
                let bytes = entries[at.expect("the cursor stands at no entry")].0.clone();
                reply.length = bytes.len();
                reply.pointer = self.allocate(Native::Loan { iter, bytes });
            }
            Request::Value { iter } => {
                let (entries, at) = self.cursor(iter);
                let bytes = entries[at.expect("the cursor stands at no entry")].1.clone();
                reply.length = bytes.len();
                reply.pointer = self.allocate(Native::Loan { iter, bytes });
            }
            Request::Status { iter } => {
                self.expect(iter, Kind::Iterator);
                self.fail(&mut reply);
            }
            Request::ReadMessage { pointer } => match self.natives.get(&pointer) {
                Some(Native::Message(bytes)) => reply.bytes = bytes.clone(),
                _ => panic!("{:#x} is not a live message", pointer),
            },
            Request::ReadBuffer { pointer, length } => match self.natives.get(&pointer) {
                Some(Native::Buffer(bytes)) | Some(Native::Loan { bytes, .. }) => {
                    assert_eq!(length, bytes.len());
                    reply.bytes = bytes.clone();
                }
                _ => panic!("{:#x} is not memory that can be read", pointer),
            },
            Request::Free { pointer } => match self.natives.remove(&pointer) {
                Some(Native::Message(_)) | Some(Native::Buffer(_)) => {}
                _ => panic!("{:#x} is not memory that can be freed", pointer),
            },
        }
        reply
    }

    fn drive<P: Protocol>(&mut self, mut poll: Poll<P>) -> P::Output {
        loop {
            match poll {
                Poll::Ready(output) => return output,
                Poll::Pending(call) => {
                    let reply = self.perform(call.request());
                    poll = call.resume(reply);
                }
            }
        }
    }

    fn options(&mut self) -> Options {
        self.drive(Options::new()).expect("Failed to create options")
    }

    fn creating(&mut self) -> Options {
        let mut options = self.options();
        let request = options.create_if_missing(true);
        self.perform(request);
        options
    }

    fn collect(&mut self, db: &DB, direction: Direction) -> Vec<(Vec<u8>, Vec<u8>)> {
        let mut sequence = self.drive(db.iter(direction)).expect("Failed to create iterator");
        let mut items: Vec<(Vec<u8>, Vec<u8>)> = Vec::new();
        loop {
            let (rest, item) = self.drive(sequence.next());
            sequence = rest;
            match item {
                Some(item) => {
                    let (key, value) = item.unwrap();
                    items.push((key.to_vec(), value.to_vec()));
                }
                None => break,
            }
        }
        self.perform(sequence.destroy());
        items
    }

    fn key_at(&mut self, iter: &DBIterator) -> Option<Vec<u8>> {
        self.drive(iter.key())
    }
}

fn drop_cf(engine: &mut Engine, handle: ColumnFamilyHandle) {
    engine.perform(handle.destroy());
}

#[test]
fn test_open_and_close() {
    let path = "/tmp/rust_rocksdb_test_open";
    let mut engine = Engine::new();
    let opts = engine.creating();

    let db = engine.drive(DB::open(&opts, path)).expect("Failed to open database");
    assert_eq!(db.path(), path);

    engine.perform(db.close());
    engine.perform(opts.destroy());
    assert_eq!(engine.live(), 0);
}

#[test]
fn test_put_and_get() {
    let path = "/tmp/rust_rocksdb_test_put_get";
    let mut engine = Engine::new();
    let opts = engine.creating();

    let db = engine.drive(DB::open(&opts, path)).expect("Failed to open database");

    engine.drive(db.put(b"test_key", b"test_value")).expect("Failed to put value");

    let value = engine.drive(db.get(b"test_key")).expect("Failed to get value");
    assert_eq!(value.as_deref(), Some(&b"test_value"[..]));

    let missing = engine.drive(db.get(b"missing_key")).expect("Failed to get value");
    assert_eq!(missing, None);

    engine.perform(db.close());
}

#[test]
fn test_delete() {
    let path = "/tmp/rust_rocksdb_test_delete";
    let mut engine = Engine::new();
    let opts = engine.creating();

    let db = engine.drive(DB::open(&opts, path)).expect("Failed to open database");

    engine.drive(db.put(b"delete_key", b"delete_value")).expect("Failed to put value");

    let value = engine.drive(db.get(b"delete_key")).expect("Failed to get value");
    assert_eq!(value.as_deref(), Some(&b"delete_value"[..]));

    engine.drive(db.delete(b"delete_key")).expect("Failed to delete key");

    let value = engine.drive(db.get(b"delete_key")).expect("Failed to get value");
    assert_eq!(value, None);

    engine.perform(db.close());
}

#[test]
fn test_multiple_operations() {
    let path = "/tmp/rust_rocksdb_test_multiple";
    let mut engine = Engine::new();
    let opts = engine.creating();

    let db = engine.drive(DB::open(&opts, path)).expect("Failed to open database");

    for i in 0..10 {
        let key = format!("key_{}", i);
        let value = format!("value_{}", i);
        engine.drive(db.put(key.as_bytes(), value.as_bytes())).expect("Failed to put value");
    }

    for i in 0..10 {
        let key = format!("key_{}", i);
        let expected = format!("value_{}", i);
        let value = engine.drive(db.get(key.as_bytes())).expect("Failed to get value");
        assert_eq!(value.as_deref(), Some(expected.as_bytes()));
    }

    for i in 0..5 {
        let key = format!("key_{}", i);
        engine.drive(db.delete(key.as_bytes())).expect("Failed to delete key");
    }

    for i in 0..5 {
        let key = format!("key_{}", i);
        let value = engine.drive(db.get(key.as_bytes())).expect("Failed to get value");
        assert_eq!(value, None);
    }

    for i in 5..10 {
        let key = format!("key_{}", i);
        let expected = format!("value_{}", i);
        let value = engine.drive(db.get(key.as_bytes())).expect("Failed to get value");
        assert_eq!(value.as_deref(), Some(expected.as_bytes()));
    }

    engine.perform(db.close());
}

#[test]
fn test_binary_data() {
    let path = "/tmp/rust_rocksdb_test_binary";
    let mut engine = Engine::new();
    let opts = engine.creating();

    let db = engine.drive(DB::open(&opts, path)).expect("Failed to open database");

    let key = b"\x00\x01\x02\xff\xfe";
    let value = b"\x00\x00\xff\xff\x12\x34";

    engine.drive(db.put(key, value)).expect("Failed to put binary value");

    let retrieved = engine.drive(db.get(key)).expect("Failed to get binary value");
    assert_eq!(retrieved.as_deref(), Some(&value[..]));

    engine.perform(db.close());
}

#[test]
fn test_iterator_forward() {
    let path = "/tmp/rust_rocksdb_test_iterator_forward";
    let mut engine = Engine::new();
    let opts = engine.creating();

    let db = engine.drive(DB::open(&opts, path)).expect("Failed to open database");

    engine.drive(db.put(b"key1", b"value1")).unwrap();
    engine.drive(db.put(b"key2", b"value2")).unwrap();
    engine.drive(db.put(b"key3", b"value3")).unwrap();

    let items = engine.collect(&db, Direction::Forward);

    assert_eq!(items.len(), 3);
    assert_eq!(items[0], (b"key1".to_vec(), b"value1".to_vec()));
    assert_eq!(items[1], (b"key2".to_vec(), b"value2".to_vec()));
    assert_eq!(items[2], (b"key3".to_vec(), b"value3".to_vec()));

    engine.perform(db.close());
}

#[test]
fn test_iterator_reverse() {
    let path = "/tmp/rust_rocksdb_test_iterator_reverse";
    let mut engine = Engine::new();
    let opts = engine.creating();

    let db = engine.drive(DB::open(&opts, path)).expect("Failed to open database");

    engine.drive(db.put(b"key1", b"value1")).unwrap();
    engine.drive(db.put(b"key2", b"value2")).unwrap();
    engine.drive(db.put(b"key3", b"value3")).unwrap();

    let items = engine.collect(&db, Direction::Reverse);

    assert_eq!(items.len(), 3);
    assert_eq!(items[0], (b"key3".to_vec(), b"value3".to_vec()));
    assert_eq!(items[1], (b"key2".to_vec(), b"value2".to_vec()));
    assert_eq!(items[2], (b"key1".to_vec(), b"value1".to_vec()));

    engine.perform(db.close());
}

#[test]
fn test_raw_iterator() {
    let path = "/tmp/rust_rocksdb_test_raw_iterator";
    let mut engine = Engine::new();
    let opts = engine.creating();

    let db = engine.drive(DB::open(&opts, path)).expect("Failed to open database");

    engine.drive(db.put(b"aaa", b"value1")).unwrap();
    engine.drive(db.put(b"bbb", b"value2")).unwrap();
    engine.drive(db.put(b"ccc", b"value3")).unwrap();

    let mut iter = engine.drive(db.raw_iterator()).expect("Failed to create iterator");
    engine.perform(iter.seek(b"bbb"));

    assert!(engine.drive(iter.valid()));
    assert_eq!(engine.drive(iter.key()).as_deref(), Some(&b"bbb"[..]));
    assert_eq!(engine.drive(iter.value()).as_deref(), Some(&b"value2"[..]));

    engine.perform(iter.next());
    assert!(engine.drive(iter.valid()));
    assert_eq!(engine.drive(iter.key()).as_deref(), Some(&b"ccc"[..]));

    engine.perform(iter.prev());
    assert!(engine.drive(iter.valid()));
    assert_eq!(engine.drive(iter.key()).as_deref(), Some(&b"bbb"[..]));

    engine.perform(iter.seek_to_first());
    assert!(engine.drive(iter.valid()));
    assert_eq!(engine.drive(iter.key()).as_deref(), Some(&b"aaa"[..]));

    engine.perform(iter.seek_to_last());
    assert!(engine.drive(iter.valid()));
    assert_eq!(engine.drive(iter.key()).as_deref(), Some(&b"ccc"[..]));

    engine.perform(iter.destroy());
    engine.perform(db.close());
}

#[test]
fn test_create_column_family() {
    let path = "/tmp/rust_rocksdb_test_cf";
    let mut engine = Engine::new();
    let opts = engine.creating();

    let db = engine.drive(DB::open(&opts, path)).expect("Failed to open database");

    let cf_opts = engine.options();
    let cf_handle = engine
        .drive(db.create_column_family(&cf_opts, "test_cf"))
        .expect("Failed to create column family");

    drop_cf(&mut engine, cf_handle);
    engine.perform(db.close());
}

#[test]
fn test_create_multiple_column_families() {
    let path = "/tmp/rust_rocksdb_test_multiple_cf";
    let mut engine = Engine::new();
    let opts = engine.creating();

    let db = engine.drive(DB::open(&opts, path)).expect("Failed to open database");

    let cf_opts = engine.options();

    {
        let cf1 = engine
            .drive(db.create_column_family(&cf_opts, "users"))
            .expect("Failed to create users CF");
        drop_cf(&mut engine, cf1);
    }

    {
        let cf2 = engine
            .drive(db.create_column_family(&cf_opts, "posts"))
            .expect("Failed to create posts CF");
        drop_cf(&mut engine, cf2);
    }

    engine.perform(db.close());
}

#[test]
fn test_column_family_invalid_name() {
    let path = "/tmp/rust_rocksdb_test_cf_invalid";
    let mut engine = Engine::new();
    let opts = engine.creating();

    let db = engine.drive(DB::open(&opts, path)).expect("Failed to open database");

    let cf_opts = engine.options();
    let result = engine.drive(db.create_column_family(&cf_opts, "test\0invalid"));

    assert!(result.is_err());

    engine.perform(db.close());
}

#[test]
fn test_put_get_cf() {
    let path = "/tmp/rust_rocksdb_test_put_get_cf";
    let mut engine = Engine::new();
    let opts = engine.creating();

    let db = engine.drive(DB::open(&opts, path)).expect("Failed to open database");

    let cf_opts = engine.options();
    let cf_handle = engine
        .drive(db.create_column_family(&cf_opts, "users"))
        .expect("Failed to create column family");

    engine.drive(db.put_cf(&cf_handle, b"user:1", b"Alice")).expect("Failed to put in CF");
    engine.drive(db.put_cf(&cf_handle, b"user:2", b"Bob")).expect("Failed to put in CF");

    let value1 = engine.drive(db.get_cf(&cf_handle, b"user:1")).expect("Failed to get");
    assert_eq!(value1.as_deref(), Some(&b"Alice"[..]));

    let value2 = engine.drive(db.get_cf(&cf_handle, b"user:2")).expect("Failed to get");
    assert_eq!(value2.as_deref(), Some(&b"Bob"[..]));

    let value3 = engine.drive(db.get_cf(&cf_handle, b"user:3")).expect("Failed to get");
    assert_eq!(value3, None);

    drop_cf(&mut engine, cf_handle);
    engine.perform(db.close());
}

#[test]
fn test_delete_cf() {
    let path = "/tmp/rust_rocksdb_test_delete_cf";
    let mut engine = Engine::new();
    let opts = engine.creating();

    let db = engine.drive(DB::open(&opts, path)).expect("Failed to open database");

    let cf_opts = engine.options();
    let cf_handle = engine
        .drive(db.create_column_family(&cf_opts, "users"))
        .expect("Failed to create column family");

    engine.drive(db.put_cf(&cf_handle, b"user:1", b"Alice")).expect("Failed to put");
    engine.drive(db.delete_cf(&cf_handle, b"user:1")).expect("Failed to delete");

    let value = engine.drive(db.get_cf(&cf_handle, b"user:1")).expect("Failed to get");
    assert_eq!(value, None);

    drop_cf(&mut engine, cf_handle);
    engine.perform(db.close());
}

#[test]
fn test_cf_isolation() {
    let path = "/tmp/rust_rocksdb_test_cf_isolation";
    let mut engine = Engine::new();
    let opts = engine.creating();

    let db = engine.drive(DB::open(&opts, path)).expect("Failed to open database");

    let cf_opts = engine.options();
    let cf1 = engine.drive(db.create_column_family(&cf_opts, "cf1")).expect("Failed to create CF1");
    let cf2 = engine.drive(db.create_column_family(&cf_opts, "cf2")).expect("Failed to create CF2");

    engine.drive(db.put_cf(&cf1, b"key", b"value_cf1")).expect("Failed to put in CF1");
    engine.drive(db.put_cf(&cf2, b"key", b"value_cf2")).expect("Failed to put in CF2");

    let val1 = engine.drive(db.get_cf(&cf1, b"key")).expect("Failed to get from CF1");
    let val2 = engine.drive(db.get_cf(&cf2, b"key")).expect("Failed to get from CF2");

    assert_eq!(val1.as_deref(), Some(&b"value_cf1"[..]));
    assert_eq!(val2.as_deref(), Some(&b"value_cf2"[..]));

    drop_cf(&mut engine, cf1);
    drop_cf(&mut engine, cf2);
    engine.perform(db.close());
}

#[test]
fn test_drop_column_family() {
    let path = "/tmp/rust_rocksdb_test_drop_cf";
    let mut engine = Engine::new();
    let opts = engine.creating();

    let db = engine.drive(DB::open(&opts, path)).expect("Failed to open database");

    let cf_opts = engine.options();
    let cf_handle = engine
        .drive(db.create_column_family(&cf_opts, "temp"))
        .expect("Failed to create column family");

    engine.drive(db.put_cf(&cf_handle, b"key", b"value")).expect("Failed to put");

    engine.drive(db.drop_column_family(cf_handle)).expect("Failed to drop CF");

    engine.perform(db.close());
}

#[test]
fn test_open_with_column_families() {
    let path = "/tmp/rust_rocksdb_test_open_with_cf";
    let mut engine = Engine::new();

    {
        let opts = engine.creating();

        let db = engine.drive(DB::open(&opts, path)).expect("Failed to open database");

        let cf_opts = engine.options();
        let cf1 = engine
            .drive(db.create_column_family(&cf_opts, "users"))
            .expect("Failed to create users CF");
        let cf2 = engine
            .drive(db.create_column_family(&cf_opts, "posts"))
            .expect("Failed to create posts CF");

        engine.drive(db.put_cf(&cf1, b"user:1", b"Alice")).expect("Failed to put");
        engine.drive(db.put_cf(&cf2, b"post:1", b"Hello")).expect("Failed to put");

        drop_cf(&mut engine, cf1);
        drop_cf(&mut engine, cf2);
        engine.perform(db.close());
    }

    {
        let opts = engine.options();
        let cf_names = vec!["default", "users", "posts"];
        let cf_opts = vec![engine.options(), engine.options(), engine.options()];
        let cf_opts: Vec<&Options> = cf_opts.iter().collect();

        let (db, cf_handles) = engine
            .drive(DB::open_with_column_families(&opts, path, &cf_names, &cf_opts))
            .expect("Failed to open with CFs");

        assert_eq!(cf_handles.len(), 3);

        let value1 = engine
            .drive(db.get_cf(&cf_handles[1], b"user:1"))
            .expect("Failed to get from users CF");
        assert_eq!(value1.as_deref(), Some(&b"Alice"[..]));

        let value2 = engine
            .drive(db.get_cf(&cf_handles[2], b"post:1"))
            .expect("Failed to get from posts CF");
        assert_eq!(value2.as_deref(), Some(&b"Hello"[..]));

        for handle in cf_handles {
            drop_cf(&mut engine, handle);
        }
        engine.perform(db.close());
    }
}

#[test]
fn test_open_with_column_families_errors() {
    let path = "/tmp/rust_rocksdb_test_open_with_cf_errors";
    let mut engine = Engine::new();

    let opts = engine.options();

    let cf_names = vec!["default", "users"];
    let cf_opts = vec![engine.options()];
    let cf_opts: Vec<&Options> = cf_opts.iter().collect();

    let result = engine.drive(DB::open_with_column_families(&opts, path, &cf_names, &cf_opts));
    assert!(result.is_err());

    let cf_names: Vec<&str> = vec![];
    let cf_opts: Vec<&Options> = vec![];

    let result = engine.drive(DB::open_with_column_families(&opts, path, &cf_names, &cf_opts));
    assert!(result.is_err());
}

#[test]
fn a_value_comes_back_as_it_was_put() {
    let mut engine = Engine::new();
    let opts = engine.creating();
    let db = engine.drive(DB::open(&opts, "/db")).unwrap();

    let pairs: Vec<(Vec<u8>, Vec<u8>)> = vec![
        (vec![0], vec![0]),
        (vec![0, 0, 0], vec![1, 0, 2, 0]),
        (vec![255], (0..=255).collect()),
        (b"plain".to_vec(), b"text".to_vec()),
    ];
    for (key, value) in &pairs {
        engine.drive(db.put(key, value)).unwrap();
    }
    for (key, value) in &pairs {
        assert_eq!(engine.drive(db.get(key)).unwrap().as_ref(), Some(value));
    }

    engine.drive(db.put(b"plain", b"again")).unwrap();
    assert_eq!(engine.drive(db.get(b"plain")).unwrap(), Some(b"again".to_vec()));
    engine.perform(db.close());
}

#[test]
fn a_key_never_written_is_absent_and_no_error() {
    let mut engine = Engine::new();
    let opts = engine.creating();
    let db = engine.drive(DB::open(&opts, "/db")).unwrap();

    assert!(matches!(engine.drive(db.get(b"never")), Ok(None)));
    assert!(matches!(engine.drive(db.get(b"")), Ok(None)));
    engine.drive(db.delete(b"never")).unwrap();
    assert!(matches!(engine.drive(db.get(b"never")), Ok(None)));
    engine.perform(db.close());
}

#[test]
fn dropping_one_column_family_leaves_the_other() {
    let mut engine = Engine::new();
    let opts = engine.creating();
    let db = engine.drive(DB::open(&opts, "/db")).unwrap();
    let a = engine.drive(db.create_column_family(&opts, "A")).unwrap();
    let b = engine.drive(db.create_column_family(&opts, "B")).unwrap();

    engine.drive(db.put_cf(&a, b"k", b"v1")).unwrap();
    engine.drive(db.put_cf(&b, b"k", b"v2")).unwrap();
    assert_eq!(engine.drive(db.get(b"k")).unwrap(), None);
    assert_eq!(engine.drive(db.get_cf(&a, b"k")).unwrap(), Some(b"v1".to_vec()));
    assert_eq!(engine.drive(db.get_cf(&b, b"k")).unwrap(), Some(b"v2".to_vec()));

    engine.drive(db.drop_column_family(a)).unwrap();
    assert_eq!(engine.drive(db.get_cf(&b, b"k")).unwrap(), Some(b"v2".to_vec()));

    drop_cf(&mut engine, b);
    engine.perform(db.close());
}

#[test]
fn the_cursor_finds_its_way() {
    let mut engine = Engine::new();
    let opts = engine.creating();
    let db = engine.drive(DB::open(&opts, "/db")).unwrap();
    engine.drive(db.put(b"b", b"2")).unwrap();
    engine.drive(db.put(b"d", b"4")).unwrap();
    engine.drive(db.put(b"f", b"6")).unwrap();

    let mut iter = engine.drive(db.raw_iterator()).unwrap();
    assert!(!engine.drive(iter.valid()));
    assert_eq!(engine.key_at(&iter), None);
    assert_eq!(engine.drive(iter.value()), None);
    assert_eq!(engine.drive(iter.item()), None);

    engine.perform(iter.seek(b"d"));
    assert_eq!(engine.drive(iter.item()), Some((b"d".to_vec(), b"4".to_vec())));

    engine.perform(iter.seek(b"c"));
    assert_eq!(engine.key_at(&iter), Some(b"d".to_vec()));

    engine.perform(iter.seek_for_prev(b"c"));
    assert_eq!(engine.key_at(&iter), Some(b"b".to_vec()));

    engine.perform(iter.seek_for_prev(b"a"));
    assert!(!engine.drive(iter.valid()));

    engine.perform(iter.seek(b"g"));
    assert!(!engine.drive(iter.valid()));
    assert!(engine.drive(iter.status()).is_ok());

    engine.perform(iter.seek_to_last());
    assert_eq!(engine.key_at(&iter), Some(b"f".to_vec()));
    engine.perform(iter.next());
    assert!(!engine.drive(iter.valid()));
    assert_eq!(engine.key_at(&iter), None);
    assert!(engine.drive(iter.status()).is_ok());

    engine.perform(iter.destroy());
    engine.perform(db.close());
}

#[test]
fn a_cursor_reports_the_error_it_met() {
    let mut engine = Engine::new();
    let opts = engine.creating();
    let db = engine.drive(DB::open(&opts, "/db")).unwrap();
    let iter = engine.drive(db.raw_iterator()).unwrap();

    engine.failing = Some(b"Corruption: block checksum mismatch".to_vec());
    let status = engine.drive(iter.status());
    assert_eq!(status.unwrap_err().message(), "Corruption: block checksum mismatch");

    engine.perform(iter.destroy());
    engine.perform(db.close());
    engine.perform(opts.destroy());
    assert_eq!(engine.live(), 0);
}

#[test]
fn an_empty_database_has_no_entries() {
    let mut engine = Engine::new();
    let opts = engine.creating();
    let db = engine.drive(DB::open(&opts, "/db")).unwrap();
    assert_eq!(engine.collect(&db, Direction::Forward), vec![]);
    assert_eq!(engine.collect(&db, Direction::Reverse), vec![]);
    engine.perform(db.close());
}

#[test]
fn a_sequence_that_has_ended_stays_ended() {
    let mut engine = Engine::new();
    let opts = engine.creating();
    let db = engine.drive(DB::open(&opts, "/db")).unwrap();
    engine.drive(db.put(b"only", b"one")).unwrap();

    let sequence = engine.drive(db.iter(Direction::Forward)).unwrap();
    let (sequence, first) = engine.drive(sequence.next());
    assert_eq!(first.unwrap().unwrap(), (b"only".to_vec(), b"one".to_vec()));
    let (sequence, second) = engine.drive(sequence.next());
    assert!(second.is_none());

    let calls = engine.calls;
    let (sequence, third) = engine.drive(sequence.next());
    assert!(third.is_none());
    assert_eq!(engine.calls, calls);

    engine.perform(sequence.destroy());
    engine.perform(db.close());
}

#[test]
fn a_sequence_ends_with_the_error_that_the_cursor_met() {
    let mut engine = Engine::new();
    let opts = engine.creating();
    let db = engine.drive(DB::open(&opts, "/db")).unwrap();
    engine.drive(db.put(b"only", b"one")).unwrap();

    let sequence = engine.drive(db.iter(Direction::Reverse)).unwrap();
    let (sequence, first) = engine.drive(sequence.next());
    assert!(first.unwrap().is_ok());

    engine.failing = Some(b"IO error: read failed".to_vec());
    let (sequence, second) = engine.drive(sequence.next());
    assert_eq!(second.unwrap().unwrap_err().message(), "IO error: read failed");

    let calls = engine.calls;
    let (sequence, third) = engine.drive(sequence.next());
    assert!(third.is_none());
    assert_eq!(engine.calls, calls);

    engine.perform(sequence.destroy());
    engine.perform(db.close());
    engine.perform(opts.destroy());
    assert_eq!(engine.live(), 0);
}

#[test]
fn what_was_written_is_there_when_the_database_is_opened_again() {
    let mut engine = Engine::new();
    let opts = engine.creating();
    let db = engine.drive(DB::open(&opts, "/db")).unwrap();
    let users = engine.drive(db.create_column_family(&opts, "users")).unwrap();
    engine.drive(db.put(b"k", b"default")).unwrap();
    engine.drive(db.put_cf(&users, b"k", b"users")).unwrap();
    drop_cf(&mut engine, users);
    engine.perform(db.close());

    let names = vec!["default", "users"];
    let each = vec![engine.options(), engine.options()];
    let each: Vec<&Options> = each.iter().collect();
    let (db, handles) =
        engine.drive(DB::open_with_column_families(&opts, "/db", &names, &each)).unwrap();
    assert_eq!(db.path(), "/db");
    assert_eq!(engine.drive(db.get(b"k")).unwrap(), Some(b"default".to_vec()));
    assert_eq!(engine.drive(db.get_cf(&handles[0], b"k")).unwrap(), Some(b"default".to_vec()));
    assert_eq!(engine.drive(db.get_cf(&handles[1], b"k")).unwrap(), Some(b"users".to_vec()));
    for handle in handles {
        drop_cf(&mut engine, handle);
    }
    engine.perform(db.close());

    let db = engine.drive(DB::open_for_read_only(&opts, "/db", false)).unwrap();
    assert_eq!(engine.drive(db.get(b"k")).unwrap(), Some(b"default".to_vec()));
    engine.perform(db.close());
}

#[test]
fn what_cannot_be_opened_is_refused_before_the_engine_is_asked() {
    let mut engine = Engine::new();
    let opts = engine.options();
    let one = vec![&opts];
    let two = vec![&opts, &opts];
    let calls = engine.calls;

    let mismatched = engine.drive(DB::open_with_column_families(&opts, "/db", &["default", "users"], &one));
    assert_eq!(
        mismatched.err().unwrap().message(),
        "Column family names and options must have the same length"
    );
    let empty = engine.drive(DB::open_with_column_families(&opts, "/db", &[], &[]));
    assert_eq!(empty.err().unwrap().message(), "At least one column family is required");
    let path = engine.drive(DB::open_with_column_families(&opts, "/d\0b", &["default"], &one));
    assert_eq!(path.err().unwrap().message(), "Invalid path");
    let name =
        engine.drive(DB::open_with_column_families(&opts, "/db", &["default", "us\0ers"], &two));
    assert_eq!(name.err().unwrap().message(), "Invalid column family name");
    let plain = engine.drive(DB::open(&opts, "/d\0b"));
    assert_eq!(plain.err().unwrap().message(), "Invalid path");
    let read_only = engine.drive(DB::open_for_read_only(&opts, "\0", true));
    assert_eq!(read_only.err().unwrap().message(), "Invalid path");

    assert_eq!(engine.calls, calls);
}

#[test]
fn the_engine_says_why_it_does_not_open() {
    let mut engine = Engine::new();
    let mut opts = engine.options();

    let absent = engine.drive(DB::open(&opts, "/db"));
    assert_eq!(
        absent.err().unwrap().to_string(),
        "RocksDB error: Invalid argument: does not exist (create_if_missing is false)"
    );
    let absent = engine.drive(DB::open_for_read_only(&opts, "/db", true));
    assert!(absent.is_err());

    let request = opts.create_if_missing(true);
    engine.perform(request);
    let db = engine.drive(DB::open(&opts, "/db")).unwrap();
    engine.perform(db.close());

    let request = opts.error_if_exists(true);
    engine.perform(request);
    let present = engine.drive(DB::open(&opts, "/db"));
    assert_eq!(
        present.err().unwrap().message(),
        "Invalid argument: exists (error_if_exists is true)"
    );

    let request = opts.error_if_exists(false);
    engine.perform(request);
    let db = engine.drive(DB::open(&opts, "/db")).unwrap();
    let each = vec![&opts, &opts];
    let unknown =
        engine.drive(DB::open_with_column_families(&opts, "/db", &["default", "nowhere"], &each));
    assert!(unknown.is_err());
    engine.perform(db.close());
}

#[test]
fn nothing_is_left_behind() {
    let mut engine = Engine::new();
    let opts = engine.creating();
    let held = engine.live();

    for _ in 0..5 {
        let db = engine.drive(DB::open(&opts, "/db")).unwrap();
        assert_eq!(engine.live(), held + 1);
        engine.perform(db.close());
        assert_eq!(engine.live(), held);
    }

    let db = engine.drive(DB::open(&opts, "/db")).unwrap();
    let open = engine.live();
    for round in 0..5 {
        let handle = engine.drive(db.create_column_family(&opts, "temp")).unwrap();
        assert_eq!(engine.live(), open + 1);
        engine.drive(db.put_cf(&handle, b"k", &[round])).unwrap();
        assert_eq!(engine.drive(db.get_cf(&handle, b"k")).unwrap(), Some(vec![round]));
        engine.drive(db.drop_column_family(handle)).unwrap();
        assert_eq!(engine.live(), open);
    }

    engine.drive(db.put(b"k", b"v")).unwrap();
    engine.drive(db.get(b"k")).unwrap();
    engine.drive(db.get(b"absent")).unwrap();
    engine.drive(db.delete(b"k")).unwrap();
    engine.collect(&db, Direction::Forward);
    assert_eq!(engine.live(), open);

    let iter = engine.drive(db.raw_iterator()).unwrap();
    assert_eq!(engine.live(), open + 1);
    engine.perform(iter.destroy());
    assert_eq!(engine.live(), open);

    engine.perform(db.close());
    engine.perform(opts.destroy());
    assert_eq!(engine.live(), 0);
}

#[test]
fn a_failure_leaves_nothing_behind() {
    let mut engine = Engine::new();
    let opts = engine.creating();
    let db = engine.drive(DB::open(&opts, "/db")).unwrap();
    let handle = engine.drive(db.create_column_family(&opts, "cf")).unwrap();
    let held = engine.live();

    engine.failing = Some(b"IO error: disk full".to_vec());
    assert_eq!(engine.drive(db.put(b"k", b"v")).unwrap_err().message(), "IO error: disk full");
    assert_eq!(engine.live(), held);
    assert_eq!(engine.drive(db.get(b"k")).unwrap(), None);

    engine.failing = Some(b"IO error: disk full".to_vec());
    assert!(engine.drive(db.delete_cf(&handle, b"k")).is_err());
    assert_eq!(engine.live(), held);

    engine.drive(db.put(b"k", b"v")).unwrap();
    engine.failing = Some(b"Corruption".to_vec());
    assert_eq!(engine.drive(db.get(b"k")).unwrap_err().message(), "Corruption");
    assert_eq!(engine.live(), held);

    engine.failing = Some(b"Busy".to_vec());
    assert!(engine.drive(DB::open(&opts, "/other")).is_err());
    assert_eq!(engine.live(), held);

    engine.failing = Some(b"Busy".to_vec());
    assert!(engine.drive(db.create_column_family(&opts, "more")).is_err());
    assert_eq!(engine.live(), held);
    assert!(engine.drive(db.create_column_family(&opts, "cf")).is_err());
    assert_eq!(engine.live(), held);

    engine.failing = Some(b"Busy".to_vec());
    assert!(engine.drive(db.drop_column_family(handle)).is_err());
    assert_eq!(engine.live(), held - 1);

    engine.exhausted = true;
    assert_eq!(
        engine.drive(db.put(b"k", b"v")).unwrap_err().message(),
        "Failed to create write options"
    );
    engine.exhausted = true;
    assert_eq!(
        engine.drive(db.delete(b"k")).unwrap_err().message(),
        "Failed to create write options"
    );
    engine.exhausted = true;
    assert_eq!(engine.drive(db.get(b"k")).unwrap_err().message(), "Failed to create read options");
    engine.exhausted = true;
    assert_eq!(
        engine.drive(db.raw_iterator()).err().unwrap().message(),
        "Failed to create read options"
    );
    engine.exhausted = true;
    assert!(engine.drive(db.iter(Direction::Forward)).is_err());
    engine.exhausted = true;
    assert!(engine.drive(Options::new()).is_none());
    assert_eq!(engine.live(), held - 1);

    engine.perform(db.close());
    engine.perform(opts.destroy());
    assert_eq!(engine.live(), 0);
}

#[test]
fn a_message_that_is_not_text_is_made_text() {
    let mut engine = Engine::new();
    let opts = engine.creating();
    let db = engine.drive(DB::open(&opts, "/db")).unwrap();

    engine.failing = Some(vec![b'f', 0xff, b'o', 0xc3]);
    let error = engine.drive(db.put(b"k", b"v")).unwrap_err();
    assert_eq!(error.message(), "f\u{fffd}o\u{fffd}");

    engine.failing = Some("d\u{e9}j\u{e0} vu".as_bytes().to_vec());
    let error = engine.drive(db.put(b"k", b"v")).unwrap_err();
    assert_eq!(error.message(), "d\u{e9}j\u{e0} vu");
    engine.perform(db.close());
}
