use wastebin_store::cache::{Cache, CacheKey};
use wastebin_store::codec::{compress, decompress};
use wastebin_store::db::{compress_rows, owner_outcome, read_outcome, OwnerStep, ReadStep};
use wastebin_store::errors::Error;
use wastebin_store::id::Id;
use wastebin_store::json::{cap_expiry, Entry};

#[test]
fn cache_key() {
    let key = CacheKey::from_str("bJZCna").unwrap();
    assert_eq!(key.id(), "bJZCna");
    assert_eq!(key.id, 104651828.into());
    assert_eq!(key.ext, "txt");

    let key = CacheKey::from_str("sIiFec.rs").unwrap();
    assert_eq!(key.id(), "sIiFec");
    assert_eq!(key.id, 1243750162.into());
    assert_eq!(key.ext, "rs");

    assert!(CacheKey::from_str("foo").is_err());
    assert!(CacheKey::from_str("bar.rs").is_err());
}

#[test]
fn key_splits_at_first_dot() {
    let key = CacheKey::from_str("bJZCna.tar.gz").unwrap();
    assert_eq!(key.id, Id::from(104651828));
    assert_eq!(key.ext, "tar.gz");
    let key = CacheKey::from_str("bJZCna.").unwrap();
    assert_eq!(key.ext, "");
}

#[test]
fn id_text_forms() {
    assert_eq!(Id::from(0).to_string(), "aaaaaa");
    assert_eq!(Id::from(u32::MAX).to_string(), "+++++d");
    assert_eq!(Id::parse("aaaaaa"), Ok(Id::from(0)));
    assert_eq!(Id::parse("+++++d"), Ok(Id::from(u32::MAX)));
    assert_eq!(Id::from(1243750162).to_string(), "sIiFec");
    assert_eq!(Id::from(7).as_u32(), 7);
}

#[test]
fn id_parse_errors() {
    assert_eq!(Id::parse("foo"), Err(Error::WrongSize));
    assert_eq!(Id::parse(""), Err(Error::WrongSize));
    assert_eq!(Id::parse("bJZCnaa"), Err(Error::WrongSize));
    assert_eq!(Id::parse("bJZ*na"), Err(Error::IllegalCharacters));
    assert_eq!(Id::parse("bJZCne"), Err(Error::IllegalCharacters));
    assert_eq!(Id::parse("bJZCnä"), Err(Error::IllegalCharacters));
    assert_eq!(CacheKey::from_str("bar.rs").err(), Some(Error::WrongSize));
}

#[test]
fn codec_round_trip() {
    let long = "abc".repeat(1000);
    for text in ["", "hello world", "ünïcödé ✓", long.as_str()] {
        let frame = compress(text).unwrap();
        assert_ne!(frame, text.as_bytes());
        assert_eq!(decompress(&frame).unwrap(), text);
    }
}

#[test]
fn codec_rejects_garbage() {
    assert!(matches!(decompress(b"not a zstd frame"), Err(Error::Compression(_))));
    let frame = compress("text").unwrap();
    assert!(matches!(decompress(&frame[..frame.len() - 2]), Err(Error::Compression(_))));
}

#[test]
fn cache_evicts_least_recently_used() {
    let mut cache = Cache::new(2);
    let a = CacheKey::from_str("aaaaaa").unwrap();
    let b = CacheKey::from_str("aaaaab").unwrap();
    let c = CacheKey::from_str("aaaaac").unwrap();
    cache.put(&a, "A".to_string());
    cache.put(&b, "B".to_string());
    assert_eq!(cache.get(&a), Some("A".to_string()));
    cache.put(&c, "C".to_string());
    assert_eq!(cache.peek(&b), None);
    assert_eq!(cache.peek(&a), Some("A".to_string()));
    assert_eq!(cache.peek(&c), Some("C".to_string()));
    cache.put(&a, "A2".to_string());
    assert_eq!(cache.peek(&a), Some("A2".to_string()));
}

#[test]
fn expiry_cap() {
    assert_eq!(cap_expiry(None, None), None);
    assert_eq!(cap_expiry(Some(10), None), Some(10));
    assert_eq!(cap_expiry(None, Some(60)), Some(60));
    assert_eq!(cap_expiry(Some(10), Some(60)), Some(10));
    assert_eq!(cap_expiry(Some(600), Some(60)), Some(60));
}

#[test]
fn submitted_entry_conversion() {
    let entry = Entry {
        text: "body".to_string(),
        extension: Some("rs".to_string()),
        filename: Some("main.rs".to_string()),
        expires: Some(500),
        burn_after_reading: Some(true),
        password: None,
    };
    let insert = entry.into_insert_entry(Some(100));
    assert_eq!(insert.text, "body");
    assert_eq!(insert.extension, Some("rs".to_string()));
    assert_eq!(insert.expires, Some(100));
    assert_eq!(insert.burn_after_reading, Some(true));
    assert_eq!(insert.uid, None);
}

#[test]
fn read_outcome_decides_each_row() {
    assert!(matches!(read_outcome(None), ReadStep::Absent));
    assert!(matches!(read_outcome(Some((vec![1], Some(true), Some(2), Some(true)))), ReadStep::Expired));
    match read_outcome(Some((vec![1, 2], Some(true), Some(2), Some(false)))) {
        ReadStep::Serve { data, burn, uid } => {
            assert_eq!(data, vec![1, 2]);
            assert!(burn);
            assert_eq!(uid, Some(2));
        }
        _ => panic!("live row must be served"),
    }
    match read_outcome(Some((vec![], None, None, None))) {
        ReadStep::Serve { data, burn, uid } => {
            assert!(data.is_empty());
            assert!(!burn);
            assert_eq!(uid, None);
        }
        _ => panic!("row without expiry must be served"),
    }
}

#[test]
fn owner_outcome_decides_each_row() {
    assert!(matches!(owner_outcome(None), OwnerStep::Absent));
    assert!(matches!(owner_outcome(Some((Some(4), Some(true)))), OwnerStep::Expired));
    assert!(matches!(owner_outcome(Some((Some(4), Some(false)))), OwnerStep::Owner(Some(4))));
    assert!(matches!(owner_outcome(Some((None, None))), OwnerStep::Owner(None)));
}

#[test]
fn old_rows_are_compressed_in_order() {
    let rows = vec![(3u32, "three".to_string()), (1u32, String::new())];
    let frames = compress_rows(&rows).unwrap();
    assert_eq!(frames.len(), 2);
    assert_eq!(frames[0].0, 3);
    assert_eq!(frames[1].0, 1);
    assert_eq!(decompress(&frames[0].1).unwrap(), "three");
    assert_eq!(decompress(&frames[1].1).unwrap(), "");
    assert!(compress_rows(&Vec::new()).unwrap().is_empty());
}
