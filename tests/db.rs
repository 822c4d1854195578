use std::cell::Cell;
use std::time::{Duration, Instant};
use wastebin_store::cache::{Cache, CacheKey};
use wastebin_store::db::{Database, InsertEntry, Open};
use wastebin_store::errors::Error;
use wastebin_store::id::Id;

fn new_db() -> Database {
    Database::new(Open::Memory, Cache::new(128)).unwrap()
}

fn wait(secs: u64) {
    let start = Instant::now();
    while start.elapsed() < Duration::from_secs(secs) {
        std::hint::spin_loop();
    }
}

#[test]
fn insert() {
    let mut db = new_db();

    let entry = InsertEntry {
        text: "hello world".to_string(),
        uid: Some(10),
        ..Default::default()
    };

    let id = Id::from(1234);
    db.insert(id, entry).unwrap();

    let entry = db.get(id).unwrap();
    assert_eq!(entry.text, "hello world");
    assert!(entry.uid.is_some());
    assert_eq!(entry.uid.unwrap(), 10);

    let result = db.get(Id::from(5678));
    assert!(result.is_err());
}

#[test]
fn burn_after_reading() {
    let mut db = new_db();
    let entry = InsertEntry {
        burn_after_reading: Some(true),
        ..Default::default()
    };
    let id = Id::from(1234);
    db.insert(id, entry).unwrap();
    assert!(db.get(id).is_ok());
    assert!(db.get(id).is_err());
}

#[test]
fn expired_does_not_exist() {
    let mut db = new_db();

    let entry = InsertEntry {
        expires: Some(1),
        ..Default::default()
    };

    let id = Id::from(1234);
    db.insert(id, entry).unwrap();

    wait(2);

    let result = db.get(id);
    assert!(result.is_err());
    assert!(matches!(result.err().unwrap(), Error::NotFound));
}

#[test]
fn delete() {
    let mut db = new_db();

    let id = Id::from(1234);
    db.insert(id, InsertEntry::default()).unwrap();

    assert!(db.get(id).is_ok());
    assert!(db.delete(id).is_ok());
    assert!(db.get(id).is_err());
}

#[test]
fn get_never_inserted_is_not_found() {
    let mut db = new_db();
    assert_eq!(db.get(Id::from(42)).err(), Some(Error::NotFound));
    assert_eq!(db.get_uid(Id::from(42)).err(), Some(Error::NotFound));
}

#[test]
fn expired_stays_gone_and_is_deleted() {
    let mut db = new_db();
    let id = Id::from(77);
    let entry = InsertEntry {
        text: "soon gone".to_string(),
        expires: Some(1),
        ..Default::default()
    };
    db.insert(id, entry).unwrap();
    assert_eq!(db.get_uid(id).unwrap(), None);
    wait(2);
    assert_eq!(db.get(id).err(), Some(Error::NotFound));
    assert_eq!(db.get(id).err(), Some(Error::NotFound));
    assert!(db.failed_cleanups().is_empty());
    // the identifier can be used again once the row is gone
    db.insert(id, InsertEntry::default()).unwrap();
}

#[test]
fn expired_owner_probe_is_not_found() {
    let mut db = new_db();
    let id = Id::from(78);
    let entry = InsertEntry {
        expires: Some(1),
        uid: Some(3),
        ..Default::default()
    };
    db.insert(id, entry).unwrap();
    wait(2);
    assert_eq!(db.get_uid(id).err(), Some(Error::NotFound));
    assert_eq!(db.get(id).err(), Some(Error::NotFound));
}

#[test]
fn owner_probe_does_not_burn() {
    let mut db = new_db();
    let id = Id::from(9);
    let entry = InsertEntry {
        text: "secret".to_string(),
        burn_after_reading: Some(true),
        uid: Some(5),
        ..Default::default()
    };
    db.insert(id, entry).unwrap();
    assert_eq!(db.get_uid(id).unwrap(), Some(5));
    assert_eq!(db.get_uid(id).unwrap(), Some(5));
    let read = db.get(id).unwrap();
    assert_eq!(read.text, "secret");
    assert!(read.must_be_deleted);
    assert_eq!(db.get(id).err(), Some(Error::NotFound));
}

#[test]
fn delete_never_inserted_is_ok() {
    let mut db = new_db();
    assert!(db.delete(Id::from(31337)).is_ok());
}

#[test]
fn duplicate_id_is_rejected() {
    let mut db = new_db();
    let id = Id::from(5);
    let first = InsertEntry {
        text: "first".to_string(),
        ..Default::default()
    };
    let second = InsertEntry {
        text: "second".to_string(),
        ..Default::default()
    };
    db.insert(id, first).unwrap();
    assert_eq!(db.insert(id, second).err(), Some(Error::DuplicateId));
    assert_eq!(db.get(id).unwrap().text, "first");
}

#[test]
fn next_uid_counts_up_without_gaps() {
    let mut db = new_db();
    let values: Vec<i64> = (0..5).map(|_| db.next_uid().unwrap()).collect();
    assert_eq!(values, vec![1, 2, 3, 4, 5]);
}

#[test]
fn render_is_cached_after_first_call() {
    let mut db = new_db();
    let id = Id::from(1234);
    let entry = InsertEntry {
        text: "fn main() {}".to_string(),
        ..Default::default()
    };
    db.insert(id, entry).unwrap();
    let key = CacheKey::from_str("aaae0c.rs").unwrap();
    assert_eq!(key.id, id);
    let calls = Cell::new(0);
    let render = |text: String, ext: String| -> Result<String, Error> {
        calls.set(calls.get() + 1);
        Ok(format!("<{ext}>{text}</{ext}>"))
    };
    let first = db.get_html(&key, &render).unwrap();
    let second = db.get_html(&key, &render).unwrap();
    assert_eq!(first, "<rs>fn main() {}</rs>");
    assert_eq!(second, first);
    assert_eq!(calls.get(), 1);
    assert_eq!(db.cached(&key), Some(first));
}

#[test]
fn burned_render_is_not_cached() {
    let mut db = new_db();
    let id = Id::from(1234);
    let entry = InsertEntry {
        text: "once".to_string(),
        burn_after_reading: Some(true),
        ..Default::default()
    };
    db.insert(id, entry).unwrap();
    let key = CacheKey::from_str("aaae0c").unwrap();
    let render = |text: String, _ext: String| -> Result<String, Error> { Ok(text) };
    assert_eq!(db.get_html(&key, render).unwrap(), "once");
    assert_eq!(db.cached(&key), None);
    assert_eq!(db.get_html(&key, render).err(), Some(Error::NotFound));
}

#[test]
fn render_failure_is_reported_and_not_cached() {
    let mut db = new_db();
    let id = Id::from(1234);
    db.insert(id, InsertEntry::default()).unwrap();
    let key = CacheKey::from_str("aaae0c.xyz").unwrap();
    let render = |_text: String, ext: String| -> Result<String, Error> { Err(Error::Render(ext)) };
    assert_eq!(db.get_html(&key, render).err(), Some(Error::Render("xyz".to_string())));
    assert_eq!(db.cached(&key), None);
}

#[test]
fn missing_entry_render_is_not_found() {
    let mut db = new_db();
    let key = CacheKey::from_str("bJZCna").unwrap();
    let render = |text: String, _ext: String| -> Result<String, Error> { Ok(text) };
    assert_eq!(db.get_html(&key, render).err(), Some(Error::NotFound));
}

#[test]
fn unicode_text_survives_storage() {
    let mut db = new_db();
    let id = Id::from(u32::MAX);
    let text = "grüße, 世界 🦀\n\ttabs".to_string();
    let entry = InsertEntry {
        text: text.clone(),
        uid: Some(-1),
        ..Default::default()
    };
    db.insert(id, entry).unwrap();
    let read = db.get(id).unwrap();
    assert_eq!(read.text, text);
    assert_eq!(read.uid, Some(-1));
    assert!(!read.must_be_deleted);
}
