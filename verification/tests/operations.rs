use std::collections::BTreeMap;

use storage_dal::codec::encode;
use storage_dal::path::{record_path, sequence_path};
use storage_dal::{
    CloudConfig, Current, Fault, Get, Insert, Next, Pending, Remove, Reply, Scan, Storage,
    StorageData, Tier,
};

/// A tier kept in memory, which can be told to fail and counts what it is asked.
#[derive(Default, Debug)]
struct Memory {
    held: BTreeMap<String, Vec<u8>>,
    broken: bool,
    reads: usize,
    writes: usize,
    deletes: usize,
}

impl Memory {
    fn read(&mut self, path: &str) -> Result<Vec<u8>, Fault> {
        self.reads += 1;
        if self.broken {
            return Err(Fault::IoError);
        }
        self.held.get(path).cloned().ok_or(Fault::NotFound)
    }

    fn write(&mut self, path: &str, bytes: Vec<u8>) -> bool {
        self.writes += 1;
        if self.broken {
            return false;
        }
        self.held.insert(path.to_string(), bytes);
        true
    }

    fn delete(&mut self, path: &str) -> bool {
        self.deletes += 1;
        if self.broken {
            return false;
        }
        self.held.remove(path);
        true
    }

    fn list(&self, prefix: &str) -> Vec<String> {
        self.held.keys().filter(|path| path.starts_with(prefix)).cloned().collect()
    }
}

type Store = Storage<Memory, Memory, Memory>;

fn local_store() -> Store {
    Storage::new(Memory::default(), Memory::default(), None)
}

fn cloud_store() -> Store {
    Storage::new(Memory::default(), Memory::default(), Some(Memory::default()))
}

fn tier(store: &mut Store, tier: Tier) -> &mut Memory {
    match tier {
        Tier::Cache => &mut store.cache,
        Tier::Disk => &mut store.disk,
        Tier::Cloud => store.cloud.as_mut().expect("the cloud was asked though none is configured"),
    }
}

/// A record that can be turned into bytes and back.
trait Record: StorageData + Clone {
    fn to_bytes(&self) -> Vec<u8>;
    fn from_bytes(bytes: &[u8]) -> Option<Self>;
}

#[derive(Clone, Debug, Default, PartialEq)]
struct Test {
    name: String,
    age: u32,
}

impl StorageData for Test {
    fn name() -> String {
        "Test".to_string()
    }
}

impl Record for Test {
    fn to_bytes(&self) -> Vec<u8> {
        let mut bytes = self.age.to_be_bytes().to_vec();
        bytes.extend_from_slice(self.name.as_bytes());
        bytes
    }

    fn from_bytes(bytes: &[u8]) -> Option<Self> {
        if bytes.len() < 4 {
            return None;
        }
        let age = u32::from_be_bytes(bytes[..4].try_into().ok()?);
        let name = String::from_utf8(bytes[4..].to_vec()).ok()?;
        Some(Test { name, age })
    }
}

#[derive(Clone, Debug, Default, PartialEq)]
struct Test1 {
    name: String,
}

impl StorageData for Test1 {
    fn name() -> String {
        "Test1".to_string()
    }
}

impl Record for Test1 {
    fn to_bytes(&self) -> Vec<u8> {
        self.name.as_bytes().to_vec()
    }

    fn from_bytes(bytes: &[u8]) -> Option<Self> {
        Some(Test1 { name: String::from_utf8(bytes.to_vec()).ok()? })
    }
}

fn read_record<T: Record>(memory: &mut Memory, path: &str) -> Reply<T> {
    match memory.read(path) {
        Ok(bytes) => match T::from_bytes(&bytes) {
            Some(record) => Reply::Value(record),
            None => Reply::Fault(Fault::DecodeError),
        },
        Err(fault) => Reply::Fault(fault),
    }
}

fn write_record<T: Record>(memory: &mut Memory, path: &str, record: &T) -> Reply<T> {
    if memory.write(path, record.to_bytes()) {
        Reply::Done
    } else {
        Reply::Fault(Fault::IoError)
    }
}

fn run_get<T: Record>(store: &mut Store, mut op: Get<T>) -> Option<T> {
    loop {
        let reply = match op.pending() {
            Pending::Read(at) => read_record::<T>(tier(store, at), op.path()),
            Pending::Write(at) => write_record(tier(store, at), op.path(), op.payload().unwrap()),
            Pending::Delete(_) => unreachable!("a lookup deletes nothing"),
            Pending::Finished => return op.result(),
        };
        op = op.step(reply);
    }
}

fn run_insert<T: Record>(store: &mut Store, mut op: Insert<T>) -> Option<T> {
    loop {
        let reply = match op.pending() {
            Pending::Write(at) => write_record(tier(store, at), op.path(), op.payload().unwrap()),
            Pending::Finished => return op.result(),
            _ => unreachable!("an insert only writes"),
        };
        op = op.step(reply);
    }
}

fn run_remove(store: &mut Store, mut op: Remove) -> bool {
    loop {
        let completed = match op.pending() {
            Pending::Delete(at) => tier(store, at).delete(op.path()),
            Pending::Finished => return op.result(),
            _ => unreachable!("a removal only deletes"),
        };
        op = op.step(completed);
    }
}

fn read_bytes(memory: &mut Memory, path: &str) -> Reply<Vec<u8>> {
    match memory.read(path) {
        Ok(bytes) => Reply::Value(bytes),
        Err(fault) => Reply::Fault(fault),
    }
}

fn write_bytes(memory: &mut Memory, path: &str, bytes: Vec<u8>) -> Reply<Vec<u8>> {
    if memory.write(path, bytes) {
        Reply::Done
    } else {
        Reply::Fault(Fault::IoError)
    }
}

fn run_next(store: &mut Store, mut op: Next) -> u32 {
    loop {
        let reply = match op.pending() {
            Pending::Read(at) => read_bytes(tier(store, at), op.path()),
            Pending::Write(at) => write_bytes(tier(store, at), op.path(), op.payload().unwrap()),
            Pending::Finished => return op.result(),
            Pending::Delete(_) => unreachable!("an increment deletes nothing"),
        };
        op = op.step(reply);
    }
}

fn run_current(store: &mut Store, mut op: Current) -> u32 {
    loop {
        let reply = match op.pending() {
            Pending::Read(at) => read_bytes(tier(store, at), op.path()),
            Pending::Finished => return op.result(),
            _ => unreachable!("a look only reads"),
        };
        op = op.step(reply);
    }
}

fn get<T: Record>(store: &mut Store, key: &str) -> Option<T> {
    let op = store.get::<T>(key);
    run_get(store, op)
}

fn insert<T: Record>(store: &mut Store, key: &str, value: T) -> Option<T> {
    let op = store.insert(key, value);
    run_insert(store, op)
}

fn remove<T: Record>(store: &mut Store, key: &str) -> bool {
    let op = store.remove::<T>(key);
    run_remove(store, op)
}

fn next(store: &mut Store, name: &str) -> u32 {
    let op = store.next(name);
    run_next(store, op)
}

fn current(store: &mut Store, name: &str) -> u32 {
    let op = store.current(name);
    run_current(store, op)
}

fn scan<T: Record>(store: &Store) -> Vec<String> {
    let Scan { tier, prefix } = store.scan::<T>();
    assert_eq!(tier, Tier::Disk);
    store.disk.list(&prefix)
}

fn get_by_path<T: Record>(memory: &mut Memory, path: &str) -> Option<T> {
    match read_record::<T>(memory, path) {
        Reply::Value(record) => Some(record),
        _ => None,
    }
}

fn sample() -> Test {
    Test { name: "test".to_string(), age: 10 }
}

#[test]
fn disk_sequence() {
    let mut store = local_store();
    let look = Current::new("test");
    assert_eq!(look.path(), "SEQUENCE/test");
    println!("{}", run_current(&mut store, look));
    for expected in 1..=100u32 {
        let handed = run_next(&mut store, Next::new("test"));
        println!("{}", handed);
        assert_eq!(handed, expected);
    }
    assert_eq!(run_current(&mut store, Current::new("test")), 100);
    assert_eq!(store.disk.held.get("SEQUENCE/test"), Some(&vec![0, 0, 0, 100]));
}

#[test]
fn storage_sequence() {
    let mut store = local_store();
    println!("{}", current(&mut store, "test"));
    assert_eq!(current(&mut store, "test"), 0);
    let mut handed = Vec::new();
    for _ in 0..100 {
        let value = next(&mut store, "test");
        println!("{}", value);
        handed.push(value);
    }
    assert_eq!(handed, (1..=100).collect::<Vec<u32>>());
    assert_eq!(current(&mut store, "test"), 100);
}

#[test]
fn list() {
    let mut store = local_store();
    for i in 0..5 {
        assert!(insert(&mut store, &i.to_string(), Test { name: i.to_string(), age: 0 }).is_some());
        assert!(insert(&mut store, &i.to_string(), Test1 { name: i.to_string() }).is_some());
    }
    let paths = scan::<Test>(&store);
    assert_eq!(paths.len(), 5);
    for (i, path) in paths.iter().enumerate() {
        println!("{:?}", path);
        let record = get_by_path::<Test>(&mut store.disk, path).unwrap();
        println!("{:?}", record);
        assert_eq!(path, &format!("STRUCTURED/Test/{}", i));
        assert_eq!(record.name, i.to_string());
    }
}

#[test]
fn storage() {
    let mut store = local_store();
    let test = Test { name: "test".to_string(), age: 10 };
    assert_eq!(insert(&mut store, "test", test.clone()), Some(test.clone()));
    println!("{:?}", get::<Test>(&mut store, "test"));
    println!("{:?}", get::<Test>(&mut store, "test"));
    assert_eq!(get::<Test>(&mut store, "test"), Some(test));
}

#[test]
fn get_starts_at_the_cache_under_the_record_path() {
    let store = cloud_store();
    let op = store.get::<Test>("k");
    assert_eq!(op.pending(), Pending::Read(Tier::Cache));
    assert_eq!(op.path(), "STRUCTURED/Test/k");
    assert!(op.payload().is_none());
    assert!(!op.is_finished());
    assert_eq!(op.result(), None);
}

#[test]
fn get_hit_in_cache_ends_at_once() {
    let op = Get::new(record_path("Test", "k"), true);
    let op = op.step(Reply::Value(sample()));
    assert_eq!(op.pending(), Pending::Finished);
    assert!(op.is_finished());
    assert_eq!(op.result(), Some(sample()));
}

#[test]
fn get_asks_each_tier_in_turn() {
    let op = Get::<Test>::new(record_path("Test", "k"), true);
    assert_eq!(op.pending(), Pending::Read(Tier::Cache));
    let op = op.step(Reply::Fault(Fault::NotFound));
    assert_eq!(op.pending(), Pending::Read(Tier::Disk));
    let op = op.step(Reply::Fault(Fault::NotFound));
    assert_eq!(op.pending(), Pending::Read(Tier::Cloud));
    let op = op.step(Reply::Fault(Fault::NotFound));
    assert_eq!(op.pending(), Pending::Finished);
    assert_eq!(op.result(), None);
}

#[test]
fn get_without_cloud_stops_after_the_disk() {
    let op = Get::<Test>::new(record_path("Test", "k"), false);
    let op = op.step(Reply::Fault(Fault::NotFound));
    let op = op.step(Reply::Fault(Fault::NotFound));
    assert_eq!(op.pending(), Pending::Finished);
    assert_eq!(op.result(), None);
}

#[test]
fn get_hit_on_disk_is_copied_into_the_cache() {
    let op = Get::new(record_path("Test", "k"), true);
    let op = op.step(Reply::Fault(Fault::NotFound));
    let op = op.step(Reply::Value(sample()));
    assert_eq!(op.pending(), Pending::Write(Tier::Cache));
    assert_eq!(op.payload(), Some(&sample()));
    assert_eq!(op.path(), "STRUCTURED/Test/k");
    let op = op.step(Reply::Done);
    assert_eq!(op.pending(), Pending::Finished);
    assert_eq!(op.result(), Some(sample()));
}

#[test]
fn get_hit_in_cloud_is_copied_to_disk_then_cache() {
    let op = Get::new(record_path("Test", "k"), true);
    let op = op.step(Reply::Fault(Fault::NotFound));
    let op = op.step(Reply::Fault(Fault::NotFound));
    let op = op.step(Reply::Value(sample()));
    assert_eq!(op.pending(), Pending::Write(Tier::Disk));
    assert_eq!(op.payload(), Some(&sample()));
    let op = op.step(Reply::Done);
    assert_eq!(op.pending(), Pending::Write(Tier::Cache));
    assert_eq!(op.payload(), Some(&sample()));
    let op = op.step(Reply::Done);
    assert_eq!(op.pending(), Pending::Finished);
    assert_eq!(op.result(), Some(sample()));
}

#[test]
fn get_ignores_how_promotion_went() {
    let op = Get::new(record_path("Test", "k"), true);
    let op = op.step(Reply::Fault(Fault::NotFound));
    let op = op.step(Reply::Fault(Fault::NotFound));
    let op = op.step(Reply::Value(sample()));
    let op = op.step(Reply::Fault(Fault::IoError));
    assert_eq!(op.pending(), Pending::Write(Tier::Cache));
    let op = op.step(Reply::Fault(Fault::IoError));
    assert_eq!(op.result(), Some(sample()));
}

#[test]
fn get_takes_every_fault_as_a_miss() {
    for fault in [Fault::NotFound, Fault::DecodeError, Fault::IoError] {
        let op = Get::<Test>::new(record_path("Test", "k"), false);
        let op = op.step(Reply::Fault(fault));
        assert_eq!(op.pending(), Pending::Read(Tier::Disk));
        let op = op.step(Reply::Fault(fault));
        assert_eq!(op.pending(), Pending::Finished);
        assert_eq!(op.result(), None);
    }
    let op = Get::<Test>::new(record_path("Test", "k"), false);
    let op = op.step(Reply::Done);
    assert_eq!(op.pending(), Pending::Read(Tier::Disk));
}

#[test]
fn finished_get_ignores_further_replies() {
    let op = Get::new(record_path("Test", "k"), false);
    let op = op.step(Reply::Value(sample()));
    let op = op.step(Reply::Fault(Fault::IoError));
    let op = op.step(Reply::Value(Test::default()));
    assert_eq!(op.pending(), Pending::Finished);
    assert_eq!(op.result(), Some(sample()));
}

#[test]
fn get_promotes_from_disk() {
    let mut store = local_store();
    let path = record_path("Test", "k");
    store.disk.held.insert(path.clone(), sample().to_bytes());
    assert_eq!(get::<Test>(&mut store, "k"), Some(sample()));
    assert_eq!(get_by_path::<Test>(&mut store.cache, &path), Some(sample()));
    assert_eq!(store.cache.held.get(&path), store.disk.held.get(&path));
    let disk_reads = store.disk.reads;
    assert_eq!(get::<Test>(&mut store, "k"), Some(sample()));
    assert_eq!(store.disk.reads, disk_reads);
}

#[test]
fn get_promotes_from_cloud() {
    let mut store = cloud_store();
    let path = record_path("Test", "k");
    store.cloud.as_mut().unwrap().held.insert(path.clone(), sample().to_bytes());
    assert_eq!(get::<Test>(&mut store, "k"), Some(sample()));
    assert_eq!(store.disk.held.get(&path), Some(&sample().to_bytes()));
    assert_eq!(store.cache.held.get(&path), Some(&sample().to_bytes()));
    assert_eq!(store.cloud.as_ref().unwrap().writes, 0);
}

#[test]
fn get_finds_nothing_where_nothing_is() {
    let mut store = cloud_store();
    assert_eq!(get::<Test>(&mut store, "k"), None);
    assert_eq!(store.cache.reads, 1);
    assert_eq!(store.disk.reads, 1);
    assert_eq!(store.cloud.as_ref().unwrap().reads, 1);
    assert_eq!(store.cache.writes + store.disk.writes, 0);
}

#[test]
fn get_falls_through_bytes_that_do_not_decode() {
    let mut store = local_store();
    let path = record_path("Test", "k");
    store.cache.held.insert(path.clone(), vec![1]);
    store.disk.held.insert(path.clone(), sample().to_bytes());
    assert_eq!(get::<Test>(&mut store, "k"), Some(sample()));
    assert_eq!(store.cache.held.get(&path), Some(&sample().to_bytes()));
    store.cache.held.insert(path.clone(), vec![1]);
    store.disk.held.insert(path.clone(), vec![2]);
    assert_eq!(get::<Test>(&mut store, "k"), None);
}

#[test]
fn get_survives_a_broken_cache() {
    let mut store = local_store();
    store.disk.held.insert(record_path("Test", "k"), sample().to_bytes());
    store.cache.broken = true;
    assert_eq!(get::<Test>(&mut store, "k"), Some(sample()));
    assert_eq!(store.cache.writes, 1);
    assert!(store.cache.held.is_empty());
}

#[test]
fn insert_starts_at_the_cache_under_the_record_path() {
    let store = local_store();
    let op = store.insert("k", sample());
    assert_eq!(op.pending(), Pending::Write(Tier::Cache));
    assert_eq!(op.path(), "STRUCTURED/Test/k");
    assert_eq!(op.payload(), Some(&sample()));
    assert!(!op.is_finished());
    assert_eq!(op.result(), None);
}

#[test]
fn insert_writes_cache_then_disk() {
    let op = Insert::new(record_path("Test", "k"), sample());
    let op = op.step(Reply::Done);
    assert_eq!(op.pending(), Pending::Write(Tier::Disk));
    assert_eq!(op.payload(), Some(&sample()));
    let op = op.step(Reply::Done);
    assert_eq!(op.pending(), Pending::Finished);
    assert!(op.payload().is_none());
    assert!(op.is_finished());
    assert_eq!(op.result(), Some(sample()));
}

#[test]
fn insert_stops_at_a_failed_cache_write() {
    let op = Insert::new(record_path("Test", "k"), sample());
    let op = op.step(Reply::Fault(Fault::IoError));
    assert_eq!(op.pending(), Pending::Finished);
    assert_eq!(op.result(), None);
}

#[test]
fn insert_fails_at_a_failed_disk_write() {
    let op = Insert::new(record_path("Test", "k"), sample());
    let op = op.step(Reply::Done);
    let op = op.step(Reply::Fault(Fault::IoError));
    assert_eq!(op.pending(), Pending::Finished);
    assert_eq!(op.result(), None);
}

#[test]
fn insert_writes_through() {
    let mut store = cloud_store();
    assert_eq!(insert(&mut store, "k", sample()), Some(sample()));
    let path = record_path("Test", "k");
    assert_eq!(store.cache.held.get(&path), Some(&sample().to_bytes()));
    assert_eq!(store.disk.held.get(&path), Some(&sample().to_bytes()));
    assert!(store.cloud.as_ref().unwrap().held.is_empty());
    assert_eq!(store.cloud.as_ref().unwrap().writes, 0);
    assert_eq!(get::<Test>(&mut store, "k"), Some(sample()));
}

#[test]
fn insert_replaces_what_was_there() {
    let mut store = local_store();
    insert(&mut store, "k", sample());
    let newer = Test { name: "newer".to_string(), age: 11 };
    assert_eq!(insert(&mut store, "k", newer.clone()), Some(newer.clone()));
    assert_eq!(get::<Test>(&mut store, "k"), Some(newer));
}

#[test]
fn insert_with_broken_cache_leaves_disk_alone() {
    let mut store = local_store();
    store.cache.broken = true;
    assert_eq!(insert(&mut store, "k", sample()), None);
    assert_eq!(store.disk.writes, 0);
}

#[test]
fn insert_with_broken_disk_does_not_roll_the_cache_back() {
    let mut store = local_store();
    store.disk.broken = true;
    assert_eq!(insert(&mut store, "k", sample()), None);
    assert_eq!(store.cache.held.get(&record_path("Test", "k")), Some(&sample().to_bytes()));
}

#[test]
fn remove_starts_at_the_cache_under_the_record_path() {
    let store = local_store();
    let op = store.remove::<Test>("k");
    assert_eq!(op.pending(), Pending::Delete(Tier::Cache));
    assert_eq!(op.path(), "STRUCTURED/Test/k");
    assert!(!op.is_finished());
    assert!(!op.result());
}

#[test]
fn remove_deletes_tier_by_tier() {
    let op = Remove::new(record_path("Test", "k"), true);
    let op = op.step(true);
    assert_eq!(op.pending(), Pending::Delete(Tier::Disk));
    let op = op.step(true);
    assert_eq!(op.pending(), Pending::Delete(Tier::Cloud));
    let op = op.step(true);
    assert_eq!(op.pending(), Pending::Finished);
    assert!(op.result());
    let op = op.step(false);
    assert!(op.result());
}

#[test]
fn remove_without_cloud_ends_after_the_disk() {
    let op = Remove::new(record_path("Test", "k"), false);
    let op = op.step(true).step(true);
    assert_eq!(op.pending(), Pending::Finished);
    assert!(op.result());
}

#[test]
fn remove_stops_at_the_first_failure() {
    let op = Remove::new(record_path("Test", "k"), true).step(false);
    assert_eq!(op.pending(), Pending::Finished);
    assert!(!op.result());
    let op = Remove::new(record_path("Test", "k"), true).step(true).step(false);
    assert_eq!(op.pending(), Pending::Finished);
    assert!(!op.result());
    let op = Remove::new(record_path("Test", "k"), true).step(true).step(true).step(false);
    assert_eq!(op.pending(), Pending::Finished);
    assert!(!op.result());
}

#[test]
fn remove_twice_succeeds_twice() {
    for mut store in [local_store(), cloud_store()] {
        insert(&mut store, "k", sample());
        assert!(remove::<Test>(&mut store, "k"));
        assert_eq!(get::<Test>(&mut store, "k"), None);
        assert!(remove::<Test>(&mut store, "k"));
        assert_eq!(get::<Test>(&mut store, "k"), None);
    }
}

#[test]
fn remove_of_a_missing_key_succeeds() {
    let mut store = cloud_store();
    assert!(remove::<Test>(&mut store, "never-there"));
}

#[test]
fn remove_clears_the_cloud_too() {
    let mut store = cloud_store();
    let path = record_path("Test", "k");
    insert(&mut store, "k", sample());
    store.cloud.as_mut().unwrap().held.insert(path.clone(), sample().to_bytes());
    assert!(remove::<Test>(&mut store, "k"));
    assert!(store.cloud.as_ref().unwrap().held.is_empty());
    assert_eq!(get::<Test>(&mut store, "k"), None);
}

#[test]
fn remove_reports_a_failing_cloud_after_clearing_the_rest() {
    let mut store = cloud_store();
    insert(&mut store, "k", sample());
    store.cloud.as_mut().unwrap().broken = true;
    assert!(!remove::<Test>(&mut store, "k"));
    assert!(store.cache.held.is_empty());
    assert!(store.disk.held.is_empty());
}

#[test]
fn remove_with_broken_cache_touches_nothing_else() {
    let mut store = cloud_store();
    insert(&mut store, "k", sample());
    store.cache.broken = true;
    assert!(!remove::<Test>(&mut store, "k"));
    assert_eq!(store.disk.deletes, 0);
    assert_eq!(store.cloud.as_ref().unwrap().deletes, 0);
    assert_eq!(store.disk.held.len(), 1);
}

#[test]
fn same_key_under_two_types_is_two_records() {
    let mut store = local_store();
    insert(&mut store, "k", sample());
    insert(&mut store, "k", Test1 { name: "other".to_string() });
    assert_eq!(get::<Test>(&mut store, "k"), Some(sample()));
    assert_eq!(get::<Test1>(&mut store, "k"), Some(Test1 { name: "other".to_string() }));
    assert!(remove::<Test>(&mut store, "k"));
    assert_eq!(get::<Test>(&mut store, "k"), None);
    assert_eq!(get::<Test1>(&mut store, "k"), Some(Test1 { name: "other".to_string() }));
}

#[test]
fn scan_lists_the_disk_under_the_type_prefix() {
    let store = cloud_store();
    let scan = store.scan::<Test1>();
    assert_eq!(scan.tier, Tier::Disk);
    assert_eq!(scan.prefix, "STRUCTURED/Test1/");
    let scan = Scan::new("Test");
    assert_eq!(scan.tier, Tier::Disk);
    assert_eq!(scan.prefix, "STRUCTURED/Test/");
}

#[test]
fn scan_yields_one_type_only() {
    let mut store = local_store();
    for key in ["a", "b", "c"] {
        insert(&mut store, key, sample());
    }
    insert(&mut store, "a", Test1 { name: "one".to_string() });
    next(&mut store, "a");
    assert_eq!(
        scan::<Test>(&store),
        vec!["STRUCTURED/Test/a", "STRUCTURED/Test/b", "STRUCTURED/Test/c"]
    );
    assert_eq!(scan::<Test1>(&store), vec!["STRUCTURED/Test1/a"]);
}

#[test]
fn scan_does_not_look_at_the_cache() {
    let mut store = local_store();
    store.cache.held.insert(record_path("Test", "only-cached"), sample().to_bytes());
    assert!(scan::<Test>(&store).is_empty());
}

#[test]
fn next_reads_then_writes_the_disk() {
    let op = Next::new("x");
    assert_eq!(op.pending(), Pending::Read(Tier::Disk));
    assert_eq!(op.path(), "SEQUENCE/x");
    assert_eq!(op.payload(), None);
    assert_eq!(op.result(), 0);
    let op = op.step(Reply::Value(vec![0, 0, 1, 0]));
    assert_eq!(op.pending(), Pending::Write(Tier::Disk));
    assert_eq!(op.payload(), Some(vec![0, 0, 1, 1]));
    assert_eq!(op.path(), "SEQUENCE/x");
    assert!(!op.is_finished());
    assert_eq!(op.result(), 0);
    let op = op.step(Reply::Done);
    assert_eq!(op.pending(), Pending::Finished);
    assert!(op.is_finished());
    assert_eq!(op.result(), 257);
    let op = op.step(Reply::Fault(Fault::IoError));
    assert_eq!(op.result(), 257);
}

#[test]
fn next_starts_a_missing_counter_at_one() {
    for fault in [Fault::NotFound, Fault::IoError, Fault::DecodeError] {
        let op = Next::new("x").step(Reply::Fault(fault));
        assert_eq!(op.payload(), Some(vec![0, 0, 0, 1]));
        assert_eq!(op.step(Reply::Done).result(), 1);
    }
}

#[test]
fn next_starts_a_malformed_counter_at_one() {
    for bytes in [vec![], vec![9], vec![1, 2, 3], vec![0, 0, 0, 0, 5]] {
        let op = Next::new("x").step(Reply::Value(bytes));
        assert_eq!(op.payload(), Some(vec![0, 0, 0, 1]));
        assert_eq!(op.step(Reply::Done).result(), 1);
    }
}

#[test]
fn next_hands_out_zero_when_the_write_fails() {
    let op = Next::new("x").step(Reply::Value(vec![0, 0, 0, 4]));
    let op = op.step(Reply::Fault(Fault::IoError));
    assert!(op.is_finished());
    assert_eq!(op.result(), 0);
    let mut store = local_store();
    assert_eq!(next(&mut store, "x"), 1);
    store.disk.broken = true;
    assert_eq!(next(&mut store, "x"), 0);
    store.disk.broken = false;
    assert_eq!(current(&mut store, "x"), 1);
    assert_eq!(next(&mut store, "x"), 2);
}

#[test]
fn next_stops_at_the_largest_value() {
    let op = Next::new("x").step(Reply::Value(vec![255, 255, 255, 254]));
    assert_eq!(op.payload(), Some(vec![255, 255, 255, 255]));
    assert_eq!(op.step(Reply::Done).result(), u32::MAX);
    let op = Next::new("x").step(Reply::Value(vec![255, 255, 255, 255]));
    assert_eq!(op.pending(), Pending::Finished);
    assert!(op.is_finished());
    assert_eq!(op.payload(), None);
    assert_eq!(op.result(), 0);
}

#[test]
fn counter_at_the_largest_value_stays_there() {
    let mut store = local_store();
    store.disk.held.insert(sequence_path("x"), vec![255, 255, 255, 255]);
    assert_eq!(current(&mut store, "x"), u32::MAX);
    assert_eq!(next(&mut store, "x"), 0);
    assert_eq!(store.disk.writes, 0);
    assert_eq!(store.disk.held.get("SEQUENCE/x"), Some(&vec![255, 255, 255, 255]));
    assert_eq!(current(&mut store, "x"), u32::MAX);
    assert_eq!(next(&mut store, "x"), 0);
    assert_eq!(current(&mut store, "x"), u32::MAX);
}

#[test]
fn counter_never_goes_down() {
    let mut store = local_store();
    store.disk.held.insert(sequence_path("x"), vec![255, 255, 255, 253]);
    let mut last = current(&mut store, "x");
    for _ in 0..5 {
        next(&mut store, "x");
        let now = current(&mut store, "x");
        assert!(now >= last);
        last = now;
    }
    assert_eq!(last, u32::MAX);
}

#[test]
fn current_reads_the_disk_once() {
    let op = Current::new("x");
    assert_eq!(op.pending(), Pending::Read(Tier::Disk));
    assert_eq!(op.path(), "SEQUENCE/x");
    assert!(!op.is_finished());
    assert_eq!(op.result(), 0);
    let op = op.step(Reply::Value(vec![0, 0, 0, 9]));
    assert_eq!(op.pending(), Pending::Finished);
    assert!(op.is_finished());
    assert_eq!(op.result(), 9);
    let op = op.step(Reply::Value(vec![0, 0, 0, 1]));
    assert_eq!(op.result(), 9);
}

#[test]
fn current_takes_absent_and_malformed_as_zero() {
    assert_eq!(Current::new("x").step(Reply::Fault(Fault::NotFound)).result(), 0);
    assert_eq!(Current::new("x").step(Reply::Fault(Fault::IoError)).result(), 0);
    assert_eq!(Current::new("x").step(Reply::Value(vec![1, 2])).result(), 0);
    assert_eq!(Current::new("x").step(Reply::Done).result(), 0);
}

#[test]
fn current_changes_nothing() {
    let mut store = local_store();
    assert_eq!(current(&mut store, "x"), 0);
    assert_eq!(store.disk.writes, 0);
    assert!(store.disk.held.is_empty());
}

#[test]
fn counters_live_on_disk_only() {
    let mut store = cloud_store();
    assert_eq!(next(&mut store, "x"), 1);
    assert_eq!(store.disk.held.get(&sequence_path("x")), Some(&encode(1)));
    assert_eq!(store.cache.reads + store.cache.writes, 0);
    let cloud = store.cloud.as_ref().unwrap();
    assert_eq!(cloud.reads + cloud.writes, 0);
}

#[test]
fn counters_are_kept_apart_by_name() {
    let mut store = local_store();
    assert_eq!(next(&mut store, "a"), 1);
    assert_eq!(next(&mut store, "a"), 2);
    assert_eq!(next(&mut store, "b"), 1);
    assert_eq!(current(&mut store, "a"), 2);
    assert_eq!(current(&mut store, "b"), 1);
    assert_eq!(current(&mut store, "c"), 0);
}

#[test]
fn overlapping_next_calls_hand_out_duplicates() {
    let mut store = local_store();
    assert_eq!(next(&mut store, "x"), 1);
    let one = store.next("x");
    let other = store.next("x");
    let one = one.step(read_bytes(&mut store.disk, "SEQUENCE/x"));
    let other = other.step(read_bytes(&mut store.disk, "SEQUENCE/x"));
    let reply = write_bytes(&mut store.disk, "SEQUENCE/x", one.payload().unwrap());
    let one = one.step(reply);
    let reply = write_bytes(&mut store.disk, "SEQUENCE/x", other.payload().unwrap());
    let other = other.step(reply);
    assert_eq!(one.result(), 2);
    assert_eq!(other.result(), 2);
    assert_eq!(current(&mut store, "x"), 2);
}

#[test]
fn interleaved_next_calls_may_yield_fewer_distinct_values() {
    let callers = 8;
    let mut store = local_store();
    let mut ops: Vec<Next> = (0..callers).map(|_| store.next("x")).collect();
    ops = ops.into_iter().map(|op| op.step(read_bytes(&mut store.disk, "SEQUENCE/x"))).collect();
    let mut handed = Vec::new();
    for op in ops {
        let reply = write_bytes(&mut store.disk, op.path(), op.payload().unwrap());
        handed.push(op.step(reply).result());
    }
    handed.sort();
    handed.dedup();
    assert!(handed.len() < callers);
    assert_eq!(handed, vec![1]);
    let mut store = local_store();
    let handed: Vec<u32> = (0..callers).map(|_| next(&mut store, "x")).collect();
    assert_eq!(handed, (1..=callers as u32).collect::<Vec<u32>>());
}

#[test]
fn storage_holds_its_tiers() {
    let store = Storage::new(1u8, "disk", Some('c'));
    assert_eq!(store.cache, 1);
    assert_eq!(store.disk, "disk");
    assert_eq!(store.cloud, Some('c'));
    assert!(store.has_cloud());
    let store = Storage::new((), (), None::<()>);
    assert!(!store.has_cloud());
}

#[test]
fn storage_passes_its_configuration_on() {
    let store = cloud_store();
    let op = store.get::<Test>("k");
    let op = op.step(Reply::Fault(Fault::NotFound)).step(Reply::Fault(Fault::NotFound));
    assert_eq!(op.pending(), Pending::Read(Tier::Cloud));
    let store = local_store();
    let op = store.get::<Test>("k");
    let op = op.step(Reply::Fault(Fault::NotFound)).step(Reply::Fault(Fault::NotFound));
    assert_eq!(op.pending(), Pending::Finished);
    let op = store.remove::<Test>("k").step(true).step(true);
    assert_eq!(op.pending(), Pending::Finished);
    assert_eq!(store.next("n").path(), "SEQUENCE/n");
    assert_eq!(store.current("n").path(), "SEQUENCE/n");
}

#[test]
fn reply_tells_hits_and_completions() {
    assert_eq!(Reply::Value(7).into_hit(), Some(7));
    assert_eq!(Reply::<u8>::Done.into_hit(), None);
    assert_eq!(Reply::<u8>::Fault(Fault::NotFound).into_hit(), None);
    assert!(Reply::<u8>::Done.is_completed());
    assert!(!Reply::Value(7).is_completed());
    assert!(!Reply::<u8>::Fault(Fault::IoError).is_completed());
}

#[test]
fn cloud_config_starts_blank() {
    let config = CloudConfig::default();
    assert_eq!(config.service_type, "");
    assert_eq!(config.access_key_id, "");
    assert_eq!(config.secret_access_key, "");
    assert_eq!(config.endpoint, "");
    assert_eq!(config.bucket, "");
    assert_eq!(config.root, "");
    let copy = config.clone();
    assert_eq!(copy.bucket, config.bucket);
}

/// Carries out every interleaving of the callers' remaining turns, and checks the range of
/// what they are handed once all have finished.
fn explore(disk: &BTreeMap<String, Vec<u8>>, reading: Vec<usize>, writing: Vec<Next>, handed: Vec<u32>, callers: usize, seen: &mut Vec<Vec<u32>>) {
    if reading.is_empty() && writing.is_empty() {
        let mut memory = Memory { held: disk.clone(), ..Memory::default() };
        let last = Current::new("x").step(read_bytes(&mut memory, "SEQUENCE/x")).result();
        assert!(1 <= last && last as usize <= callers);
        for value in &handed {
            assert!(1 <= *value && *value as usize <= callers);
        }
        seen.push(handed);
        return;
    }
    for at in 0..reading.len() {
        let mut memory = Memory { held: disk.clone(), ..Memory::default() };
        let op = Next::new("x").step(read_bytes(&mut memory, "SEQUENCE/x"));
        let mut rest = reading.clone();
        rest.remove(at);
        let mut waiting: Vec<Next> = writing.iter().map(again).collect();
        waiting.push(op);
        explore(&memory.held, rest, waiting, handed.clone(), callers, seen);
    }
    for at in 0..writing.len() {
        let mut memory = Memory { held: disk.clone(), ..Memory::default() };
        let mut waiting: Vec<Next> = writing.iter().map(again).collect();
        let op = waiting.remove(at);
        let reply = write_bytes(&mut memory, "SEQUENCE/x", op.payload().unwrap());
        let mut given = handed.clone();
        given.push(op.step(reply).result());
        explore(&memory.held, reading.clone(), waiting, given, callers, seen);
    }
}

/// A second increment in the state of the first, which has read and not yet written.
fn again(op: &Next) -> Next {
    Next::new("x").step(Reply::Value(previous(op.payload().unwrap())))
}

/// The layout of the number before the one laid out in `bytes`.
fn previous(bytes: Vec<u8>) -> Vec<u8> {
    (u32::from_be_bytes(bytes.try_into().unwrap()) - 1).to_be_bytes().to_vec()
}

#[test]
fn every_interleaving_of_three_callers_stays_in_range() {
    let callers = 3;
    let mut seen = Vec::new();
    explore(&BTreeMap::new(), (0..callers).collect(), Vec::new(), Vec::new(), callers, &mut seen);
    assert_eq!(seen.len(), 90);
    assert!(seen.contains(&vec![1, 1, 1]));
    assert!(seen.contains(&vec![1, 2, 3]));
    assert!(seen.iter().any(|handed| {
        let mut distinct = handed.clone();
        distinct.sort();
        distinct.dedup();
        distinct.len() < callers
    }));
}

#[test]
fn readers_before_writers_all_get_one() {
    let callers = 5;
    let mut store = local_store();
    let mut ops = Vec::new();
    for _ in 0..callers {
        ops.push(store.next("x").step(read_bytes(&mut store.disk, "SEQUENCE/x")));
    }
    for op in ops.into_iter().rev() {
        let reply = write_bytes(&mut store.disk, "SEQUENCE/x", op.payload().unwrap());
        assert_eq!(op.step(reply).result(), 1);
    }
    assert_eq!(store.disk.held.get("SEQUENCE/x"), Some(&vec![0, 0, 0, 1]));
    assert_eq!(current(&mut store, "x"), 1);
}

#[test]
fn type_name_is_asked_of_the_type() {
    let store = local_store();
    assert_eq!(store.get::<Test>("k").path(), "STRUCTURED/Test/k");
    assert_eq!(store.get::<Test1>("k").path(), "STRUCTURED/Test1/k");
    assert_eq!(store.insert("k", Test1::default()).path(), "STRUCTURED/Test1/k");
    assert_eq!(store.remove::<Test1>("k").path(), "STRUCTURED/Test1/k");
    assert_eq!(store.scan::<Test>().prefix, "STRUCTURED/Test/");
    assert_eq!(store.scan::<Test1>().prefix, "STRUCTURED/Test1/");
}
