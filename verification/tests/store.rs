use std::collections::HashMap;

use diskmap::codec::{get_int_result, read_int};
use diskmap::paths::check_key;
use diskmap::store::{
    delete_result, insert_result, write_back_result, DiskMap, ReadOutcome, ReadRequest,
    RemoveRequest, WriteOutcome, WriteRequest,
};
use diskmap::Error;

// The tests drive the store's protocol against a simulated directory: a
// map from file path to file content, standing in for the file system.

type Disk = HashMap<String, Vec<u8>>;

fn run_write(disk: &mut Disk, req: WriteRequest) -> WriteOutcome {
    let exists = disk.contains_key(&req.path);
    if req.create_new && exists {
        return WriteOutcome::OpenFailed;
    }
    if !req.create_new && !exists {
        return WriteOutcome::OpenFailed;
    }
    disk.insert(req.path, req.payload);
    WriteOutcome::Written
}

fn run_read(disk: &Disk, req: &ReadRequest) -> ReadOutcome {
    match disk.get(&req.path) {
        Some(bytes) => ReadOutcome::Content(bytes.clone()),
        None => ReadOutcome::OpenFailed,
    }
}

fn run_remove(disk: &mut Disk, req: &RemoveRequest) -> bool {
    disk.remove(&req.path).is_some()
}

fn run_list(disk: &Disk, dir: &str) -> Option<Vec<String>> {
    let prefix = format!("{}/", dir);
    Some(
        disk.keys()
            .filter_map(|path| path.strip_prefix(&prefix).map(|name| name.to_string()))
            .collect(),
    )
}

fn insert_int(disk: &mut Disk, d: &DiskMap, key: &str, value: i64) -> Result<(), Error> {
    let req = d.insert_int(key, value);
    insert_result(&run_write(disk, req))
}

fn get_int(disk: &Disk, d: &DiskMap, key: &str) -> Result<i64, Error> {
    get_int_result(run_read(disk, &d.get(key)))
}

#[test]
fn insert_and_get() {
    let d = DiskMap::open_new("/tmp/test_db_1", true).unwrap();
    let mut disk = Disk::new();

    insert_int(&mut disk, &d, "a", 1).unwrap();
    insert_int(&mut disk, &d, "b", 2).unwrap();
    insert_int(&mut disk, &d, "c", 3).unwrap();

    let v = get_int(&disk, &d, "a").unwrap();

    assert_eq!(v, 1);
}

#[test]
fn alter() {
    let d = DiskMap::open_new("/tmp/test_db_2", true).unwrap();
    let mut disk = Disk::new();

    insert_int(&mut disk, &d, "a", 12000).unwrap();
    insert_int(&mut disk, &d, "b", 2).unwrap();
    insert_int(&mut disk, &d, "c", 3).unwrap();

    let read = run_read(&disk, &d.get("a"));
    let req = d
        .alter("a", read, |_old: Vec<u8>| serde_cbor::to_vec(&1i64).unwrap())
        .unwrap();
    write_back_result(&run_write(&mut disk, req)).unwrap();

    let v = get_int(&disk, &d, "a").unwrap();

    assert_eq!(v, 1);
}

#[test]
fn delete() {
    let d = DiskMap::open_new("/tmp/test_db_3", true).unwrap();
    let mut disk = Disk::new();

    insert_int(&mut disk, &d, "a", 1).unwrap();
    insert_int(&mut disk, &d, "b", 2).unwrap();
    insert_int(&mut disk, &d, "c", 3).unwrap();

    delete_result(run_remove(&mut disk, &d.delete("a"))).unwrap();

    let v = get_int(&disk, &d, "a");

    assert!(match v {
        Err(Error::CannotOpenFile) => true,
        _ => false,
    });
}

#[test]
fn get_keys() {
    let d = DiskMap::open_new("/tmp/test_db_4", true).unwrap();
    let mut disk = Disk::new();

    insert_int(&mut disk, &d, "a", 1).unwrap();
    insert_int(&mut disk, &d, "b", 2).unwrap();
    insert_int(&mut disk, &d, "c", 3).unwrap();

    let mut keys = d.get_keys(run_list(&disk, "/tmp/test_db_4")).unwrap();
    keys.sort();

    assert_eq!(
        keys,
        vec!["a".to_owned(), "b".to_owned(), "c".to_owned()]
    );
}

#[test]
fn insert_twice_fails() {
    let d = DiskMap::open_new("/tmp/test_db_7", true).unwrap();
    let mut disk = Disk::new();

    insert_int(&mut disk, &d, "a", 1).unwrap();
    let second = insert_int(&mut disk, &d, "a", 2);

    assert_eq!(second, Err(Error::CannotOpenFile));
    assert_eq!(get_int(&disk, &d, "a"), Ok(1));
}

#[test]
fn store_scenario() {
    let d = DiskMap::open_new("/tmp/test_db_8", true).unwrap();
    let mut disk = Disk::new();

    insert_int(&mut disk, &d, "a", 1).unwrap();
    insert_int(&mut disk, &d, "b", 2).unwrap();
    insert_int(&mut disk, &d, "c", 3).unwrap();

    assert_eq!(get_int(&disk, &d, "a"), Ok(1));

    let read = run_read(&disk, &d.get("a"));
    let req = d
        .alter("a", read, |old: Vec<u8>| {
            let v = read_int(&old).unwrap();
            serde_cbor::to_vec(&(v + 1)).unwrap()
        })
        .unwrap();
    write_back_result(&run_write(&mut disk, req)).unwrap();
    assert_eq!(get_int(&disk, &d, "a"), Ok(2));

    delete_result(run_remove(&mut disk, &d.delete("b"))).unwrap();

    let mut keys = d.get_keys(run_list(&disk, "/tmp/test_db_8")).unwrap();
    keys.sort();
    assert_eq!(keys, vec!["a".to_owned(), "c".to_owned()]);

    let n = d.len(run_list(&disk, "/tmp/test_db_8")).unwrap();
    assert_eq!(n, 2);
}

#[test]
fn alter_with_default_absent() {
    let d = DiskMap::open_new("/tmp/test_db_9", true).unwrap();
    let mut disk = Disk::new();

    let plan = d
        .alter_with_default("k", serde_cbor::to_vec(&10i64).unwrap(), run_list(&disk, "/tmp/test_db_9"))
        .unwrap();
    if let Some(req) = plan.insert_first {
        insert_result(&run_write(&mut disk, req)).unwrap();
    }
    let read = run_read(&disk, &plan.read);
    let req = d
        .alter("k", read, |old: Vec<u8>| {
            let v = read_int(&old).unwrap();
            serde_cbor::to_vec(&(v * 2)).unwrap()
        })
        .unwrap();
    write_back_result(&run_write(&mut disk, req)).unwrap();

    assert_eq!(get_int(&disk, &d, "k"), Ok(20));
}

#[test]
fn alter_with_default_present() {
    let d = DiskMap::open_new("/tmp/test_db_10", true).unwrap();
    let mut disk = Disk::new();

    insert_int(&mut disk, &d, "k", 7).unwrap();

    let plan = d
        .alter_with_default("k", serde_cbor::to_vec(&10i64).unwrap(), run_list(&disk, "/tmp/test_db_10"))
        .unwrap();
    assert!(plan.insert_first.is_none());
    let read = run_read(&disk, &plan.read);
    let req = d
        .alter("k", read, |old: Vec<u8>| {
            let v = read_int(&old).unwrap();
            serde_cbor::to_vec(&(v * 2)).unwrap()
        })
        .unwrap();
    write_back_result(&run_write(&mut disk, req)).unwrap();

    assert_eq!(get_int(&disk, &d, "k"), Ok(14));
}

#[test]
fn clear_then_len() {
    let d = DiskMap::open_new("/tmp/test_db_11", true).unwrap();
    let mut disk = Disk::new();

    insert_int(&mut disk, &d, "a", 1).unwrap();
    insert_int(&mut disk, &d, "b", 2).unwrap();
    insert_int(&mut disk, &d, "c", 3).unwrap();

    let keys = d.get_keys(run_list(&disk, "/tmp/test_db_11")).unwrap();
    let mut removals = Vec::new();
    for key in keys.iter() {
        removals.push(run_remove(&mut disk, &d.delete(key)));
    }
    d.clear(Some(keys), &removals).unwrap();

    let n = d.len(run_list(&disk, "/tmp/test_db_11")).unwrap();
    assert_eq!(n, 0);
}

#[test]
fn clear_fails_on_failed_removal() {
    let d = DiskMap::open_new("/tmp/test_db_12", true).unwrap();
    let mut disk = Disk::new();

    insert_int(&mut disk, &d, "a", 1).unwrap();
    insert_int(&mut disk, &d, "b", 2).unwrap();

    let keys = d.get_keys(run_list(&disk, "/tmp/test_db_12")).unwrap();
    // One file vanishes before its removal is attempted.
    run_remove(&mut disk, &d.delete("b"));
    let mut removals = Vec::new();
    for key in keys.iter() {
        removals.push(run_remove(&mut disk, &d.delete(key)));
    }
    let r = d.clear(Some(keys), &removals);

    assert_eq!(r, Err(Error::CannotDeleteFile));
}

#[test]
fn as_vec_pairs() {
    let d = DiskMap::open_new("/tmp/test_db_13", true).unwrap();
    let mut disk = Disk::new();

    insert_int(&mut disk, &d, "a", 1).unwrap();
    insert_int(&mut disk, &d, "b", 2).unwrap();

    let keys = d.get_keys(run_list(&disk, "/tmp/test_db_13")).unwrap();
    let mut reads = Vec::new();
    for key in keys.iter() {
        reads.push(run_read(&disk, &d.get(key)));
    }
    let pairs = d.as_vec(Some(keys), reads).unwrap();

    let mut decoded: Vec<(String, i64)> = pairs
        .iter()
        .map(|(k, bytes)| (k.clone(), read_int(bytes).unwrap()))
        .collect();
    decoded.sort();
    assert_eq!(decoded, vec![("a".to_owned(), 1), ("b".to_owned(), 2)]);
}

#[test]
fn as_vec_stops_on_failed_read() {
    let d = DiskMap::open_new("/tmp/test_db_14", true).unwrap();
    let mut disk = Disk::new();

    insert_int(&mut disk, &d, "a", 1).unwrap();

    let keys = vec!["a".to_owned(), "gone".to_owned()];
    let reads = vec![
        run_read(&disk, &d.get("a")),
        ReadOutcome::LockFailed,
    ];
    let r = d.as_vec(Some(keys), reads);

    assert_eq!(r.unwrap_err(), Error::CannotGetLock);
}

#[test]
fn contains_key_reports_presence() {
    let d = DiskMap::open_new("/tmp/test_db_15", true).unwrap();
    let mut disk = Disk::new();

    insert_int(&mut disk, &d, "a", 1).unwrap();

    assert_eq!(d.contains_key(run_list(&disk, "/tmp/test_db_15"), "a"), Ok(true));
    assert_eq!(d.contains_key(run_list(&disk, "/tmp/test_db_15"), "b"), Ok(false));
}

#[test]
fn unlistable_directory_errors() {
    let d = DiskMap::open_new("/tmp/test_db_16", true).unwrap();

    assert_eq!(d.get_keys(None), Err(Error::CannotOpenDirectory));
    assert_eq!(d.contains_key(None, "a"), Err(Error::CannotOpenDirectory));
    assert_eq!(d.len(None), Err(Error::CannotOpenDirectory));
    assert_eq!(d.clear(None, &Vec::new()), Err(Error::CannotOpenDirectory));
    assert!(matches!(
        d.as_vec(None, Vec::new()),
        Err(Error::CannotOpenDirectory)
    ));
    assert!(matches!(
        d.alter_with_default("a", Vec::new(), None),
        Err(Error::CannotOpenDirectory)
    ));
}

#[test]
fn open_reports_directory_failure() {
    let r = DiskMap::open("/tmp/test_db_17", false);
    assert!(matches!(r, Err(Error::CannotOpenDirectory)));
}

#[test]
fn error_of_each_step() {
    // Insert: each step's failure has its own error.
    assert_eq!(insert_result(&WriteOutcome::OpenFailed), Err(Error::CannotOpenFile));
    assert_eq!(insert_result(&WriteOutcome::LockFailed), Err(Error::CannotGetLock));
    assert_eq!(insert_result(&WriteOutcome::WriteFailed), Err(Error::CannotInsert));
    assert_eq!(insert_result(&WriteOutcome::Written), Ok(()));
    // The write phase of alter and overwrite differs in the write error.
    assert_eq!(write_back_result(&WriteOutcome::OpenFailed), Err(Error::CannotOpenFile));
    assert_eq!(write_back_result(&WriteOutcome::LockFailed), Err(Error::CannotGetLock));
    assert_eq!(write_back_result(&WriteOutcome::WriteFailed), Err(Error::CannotAlterFile));
    // A failed lock or read on a get.
    assert_eq!(get_int_result(ReadOutcome::LockFailed), Err(Error::CannotGetLock));
    assert_eq!(get_int_result(ReadOutcome::ReadFailed), Err(Error::CannotReadFromFile));
    assert_eq!(get_int_result(ReadOutcome::OpenFailed), Err(Error::CannotOpenFile));
    // A failed removal.
    assert_eq!(delete_result(false), Err(Error::CannotDeleteFile));
}

#[test]
fn filename_joins_directory_and_key() {
    let d = DiskMap::open("/tmp/test_db_18", true).unwrap();
    assert_eq!(d.filename("k"), "/tmp/test_db_18/k".to_owned());
    assert_eq!(d.directory(), "/tmp/test_db_18");
}

#[test]
fn overwrite_replaces_value() {
    let d = DiskMap::open_new("/tmp/test_db_19", true).unwrap();
    let mut disk = Disk::new();

    insert_int(&mut disk, &d, "a", 1).unwrap();
    let req = d.overwrite_int("a", 5);
    write_back_result(&run_write(&mut disk, req)).unwrap();

    assert_eq!(get_int(&disk, &d, "a"), Ok(5));
}

#[test]
fn overwrite_needs_existing_entry() {
    let d = DiskMap::open_new("/tmp/test_db_20", true).unwrap();
    let mut disk = Disk::new();

    let req = d.overwrite_int("missing", 5);
    let r = write_back_result(&run_write(&mut disk, req));

    assert_eq!(r, Err(Error::CannotOpenFile));
}

#[test]
fn encoding_matches_serializer() {
    let d = DiskMap::open("/tmp/test_db_21", true).unwrap();

    let req = d.insert_int("a", 12000);
    assert_eq!(req.payload, serde_cbor::to_vec(&12000i64).unwrap());

    assert_eq!(read_int(&serde_cbor::to_vec(&-7i64).unwrap()), Ok(-7));
    assert_eq!(read_int(&vec![0xff, 0xff]), Err(Error::CannotReadFromFile));
}

#[test]
fn alter_int_applies_function() {
    let d = DiskMap::open_new("/tmp/test_db_22", true).unwrap();
    let mut disk = Disk::new();

    insert_int(&mut disk, &d, "n", 41).unwrap();

    let read = run_read(&disk, &d.get("n"));
    let req = d.alter_int("n", read, |v| v + 1).unwrap();
    write_back_result(&run_write(&mut disk, req)).unwrap();
    assert_eq!(get_int(&disk, &d, "n"), Ok(42));

    // Malformed content stops the alter as a read failure.
    let bad = d.alter_int("n", ReadOutcome::Content(vec![0xff, 0xff]), |v| v + 1);
    assert!(matches!(bad, Err(Error::CannotReadFromFile)));
    let gone = d.alter_int("gone", ReadOutcome::OpenFailed, |v| v + 1);
    assert!(matches!(gone, Err(Error::CannotOpenFile)));
}

#[test]
fn key_validity() {
    assert!(check_key("a"));
    assert!(check_key("state_1_2_3"));
    assert!(!check_key(""));
    assert!(!check_key("a/b"));
    assert!(!check_key("a\0b"));
    assert!(!check_key("."));
    assert!(!check_key(".."));
    assert!(check_key("..."));
}
