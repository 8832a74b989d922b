use tg2mx_bot::db::{
    decode_entry, decode_hash, decode_media, encode_entry, encode_hash, encode_media,
    read_media_map, write_media_map, AccountDataDatabase, MediaMap, HASH_LEN,
};
use tg2mx_bot::json::Json;

fn hash(seed: u8) -> [u8; 64] {
    let mut out = [0u8; 64];
    for (i, byte) in out.iter_mut().enumerate() {
        *byte = seed.wrapping_add(i as u8).wrapping_mul(3);
    }
    out
}

#[test]
fn cache_answers_with_the_address_that_was_added() {
    let mut db = AccountDataDatabase::load(None);
    assert_eq!(db.get(&hash(1)), None);
    db.add(hash(1), "mxc://x/one".to_string());
    assert_eq!(db.get(&hash(1)), Some("mxc://x/one".to_string()));
    assert_eq!(db.get(&hash(2)), None);
    db.add(hash(2), "mxc://x/two".to_string());
    assert_eq!(db.get(&hash(1)), Some("mxc://x/one".to_string()));
    assert_eq!(db.get(&hash(2)), Some("mxc://x/two".to_string()));
}

#[test]
fn cache_keeps_the_latest_address_of_a_hash() {
    let mut db = AccountDataDatabase::load(None);
    db.add(hash(1), "mxc://x/old".to_string());
    db.add(hash(2), "mxc://x/two".to_string());
    db.add(hash(1), "mxc://x/new".to_string());
    assert_eq!(db.get(&hash(1)), Some("mxc://x/new".to_string()));
    assert_eq!(db.get(&hash(2)), Some("mxc://x/two".to_string()));
    let back = AccountDataDatabase::load(Some(&db.store()));
    assert_eq!(back.get(&hash(1)), Some("mxc://x/new".to_string()));
    assert_eq!(back.get(&hash(2)), Some("mxc://x/two".to_string()));
    assert_eq!(back.store(), db.store());
}

#[test]
fn stored_cache_is_loaded_again() {
    let mut db = AccountDataDatabase::load(None);
    for seed in 0..20u8 {
        db.add(hash(seed), format!("mxc://x/{seed}"));
    }
    let bytes = db.store();
    let back = AccountDataDatabase::load(Some(&bytes));
    for seed in 0..20u8 {
        assert_eq!(back.get(&hash(seed)), Some(format!("mxc://x/{seed}")));
    }
    assert_eq!(back.get(&hash(20)), None);
}

#[test]
fn missing_or_unreadable_cache_is_empty() {
    assert_eq!(String::from_utf8(AccountDataDatabase::load(None).store()).unwrap(), "[]");
    assert_eq!(String::from_utf8(AccountDataDatabase::load(Some(b"{")).store()).unwrap(), "[]");
    assert_eq!(String::from_utf8(AccountDataDatabase::load(Some(b"{}")).store()).unwrap(), "[]");
    assert!(read_media_map(None).is_none());
    assert!(read_media_map(Some(b"null")).is_none());
    assert!(read_media_map(Some(b"[{\"hash\":[1,2,3],\"url\":\"u\"}]")).is_none());
    assert!(read_media_map(Some(b"[]")).is_some());
}

#[test]
fn media_map_keeps_the_order_of_first_insertion() {
    let mut map = MediaMap::new();
    assert_eq!(map.len(), 0);
    map.insert(hash(5), "five".to_string());
    map.insert(hash(3), "three".to_string());
    map.insert(hash(5), "cinq".to_string());
    assert_eq!(map.len(), 2);
    assert_eq!(map.get(&hash(5)), Some(&"cinq".to_string()));
    assert_eq!(map.get(&hash(3)), Some(&"three".to_string()));
    assert_eq!(map.get(&hash(4)), None);
    assert_eq!(map.get_index(0), Some((&hash(5), &"cinq".to_string())));
    assert_eq!(map.get_index(1), Some((&hash(3), &"three".to_string())));
    assert_eq!(map.get_index(2), None);
    let doc = encode_media(&map);
    let back = decode_media(&doc).unwrap();
    assert_eq!(back.len(), 2);
    assert_eq!(back.get_index(0), Some((&hash(5), &"cinq".to_string())));
    assert_eq!(back.get_index(1), Some((&hash(3), &"three".to_string())));
    let text = write_media_map(&map);
    let again = read_media_map(Some(&text)).unwrap();
    assert_eq!(again.get(&hash(3)), Some(&"three".to_string()));
    assert_eq!(MediaMap::default().len(), 0);
}

#[test]
fn hash_documents() {
    let doc = encode_hash(&hash(9));
    match &doc {
        Json::Array(items) => {
            assert_eq!(items.len(), HASH_LEN);
            assert_eq!(items[0], Json::Unsigned(hash(9)[0] as u64));
            assert_eq!(items[63], Json::Unsigned(hash(9)[63] as u64));
        }
        other => panic!("no array: {other:?}"),
    }
    assert_eq!(decode_hash(&doc), Some(hash(9)));
    assert_eq!(decode_hash(&Json::Array(vec![Json::Unsigned(1); 63])), None);
    assert_eq!(decode_hash(&Json::Array(vec![Json::Unsigned(1); 65])), None);
    assert_eq!(decode_hash(&Json::Array(vec![Json::Unsigned(256); 64])), None);
    assert_eq!(decode_hash(&Json::Array(vec![Json::Null; 64])), None);
    assert_eq!(decode_hash(&Json::Null), None);
    assert_eq!(decode_hash(&Json::Array(vec![Json::Unsigned(255); 64])), Some([255u8; 64]));
}

#[test]
fn entry_documents() {
    let doc = encode_entry(&hash(1), &"mxc://x/1".to_string());
    assert_eq!(doc.get("url"), Some(&Json::Text("mxc://x/1".to_string())));
    assert_eq!(decode_entry(&doc), Some((hash(1), "mxc://x/1".to_string())));
    assert_eq!(decode_entry(&Json::Object(vec![])), None);
    assert_eq!(
        decode_entry(&Json::Object(vec![("hash".to_string(), encode_hash(&hash(1)))])),
        None
    );
    assert_eq!(
        decode_entry(&Json::Object(vec![
            ("hash".to_string(), encode_hash(&hash(1))),
            ("url".to_string(), Json::Unsigned(1)),
        ])),
        None
    );
}

#[test]
fn later_entry_of_a_stored_hash_counts() {
    let first = encode_entry(&hash(1), &"old".to_string());
    let other = encode_entry(&hash(2), &"two".to_string());
    let second = encode_entry(&hash(1), &"new".to_string());
    let map = decode_media(&Json::Array(vec![first, other, second])).unwrap();
    assert_eq!(map.len(), 2);
    assert_eq!(map.get_index(0), Some((&hash(1), &"new".to_string())));
    assert_eq!(map.get_index(1), Some((&hash(2), &"two".to_string())));
}
