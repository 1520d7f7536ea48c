use fastedge::helper::serialize_list;
use fastedge::proxywasm::key_value::{
    bf_exists_reply, get_reply, open_reply, scan_reply, scored_reply, split_scored, Error, Store,
};
use fastedge::proxywasm::{dictionary, secret, utils};

fn scored(value: &[u8], score: f64) -> Vec<u8> {
    let mut item = value.to_vec();
    item.extend_from_slice(&score.to_le_bytes());
    item
}

#[test]
fn scored_entry_decodes_value_and_score() {
    let (value, bits) = split_scored(&scored(b"abc", 3.14));
    assert_eq!(value, b"abc".to_vec());
    assert_eq!(f64::from_bits(bits), 3.14);
}

#[test]
fn short_scored_entry_is_empty_with_zero_score() {
    for len in 0..=8 {
        let item = vec![0x41u8; len];
        let (value, bits) = split_scored(&item);
        assert!(value.is_empty());
        assert_eq!(f64::from_bits(bits), 0.0);
    }
}

#[test]
fn scored_reply_decodes_each_entry() {
    let list = vec![scored(b"a", 1.5), scored(b"", -2.0), vec![1, 2, 3]];
    let r = scored_reply(0, Some(serialize_list(&list))).unwrap();
    let decoded: Vec<(Vec<u8>, f64)> = r.into_iter().map(|(v, b)| (v, f64::from_bits(b))).collect();
    assert_eq!(decoded, vec![(b"a".to_vec(), 1.5), (vec![], 0.0), (vec![], 0.0)]);
}

#[test]
fn scored_reply_without_buffer_is_empty() {
    assert!(scored_reply(0, None).unwrap().is_empty());
}

#[test]
fn scored_reply_with_malformed_list() {
    match scored_reply(0, Some(vec![2, 0, 0, 0, 1, 0, 0, 0])) {
        Err(Error::Other(m)) => assert_eq!(m, "malformed value list"),
        other => panic!("unexpected outcome {:?}", other),
    }
}

#[test]
fn success_with_null_pointer_is_absent() {
    assert_eq!(get_reply(0, None).unwrap(), None);
    assert_eq!(get_reply(0, Some(vec![])).unwrap(), Some(vec![]));
    assert_eq!(get_reply(0, Some(vec![5])).unwrap(), Some(vec![5]));
    assert_eq!(secret::get_reply(0, None), Ok(None));
    assert_eq!(dictionary::get_reply(0, None), None);
}

#[test]
fn unexpected_status_is_other_error() {
    match get_reply(3, None) {
        Err(Error::Other(m)) => assert_eq!(m, "unexpected status: 3"),
        other => panic!("unexpected outcome {:?}", other),
    }
    match bf_exists_reply(12345, 1) {
        Err(e) => assert_eq!(e.to_string(), "other error: unexpected status: 12345"),
        Ok(_) => panic!("expected an error"),
    }
}

#[test]
fn open_status_mapping() {
    assert!(open_reply(0, 42).is_ok());
    assert!(matches!(open_reply(1, 0), Err(Error::NoSuchStore)));
    assert!(matches!(open_reply(2, 0), Err(Error::AccessDenied)));
    match open_reply(9, 0) {
        Err(Error::Other(m)) => assert_eq!(m, "unexpected status: 9"),
        _ => panic!("expected an error"),
    }
    assert_eq!(Error::NoSuchStore.to_string(), "no such store");
    assert_eq!(Error::AccessDenied.to_string(), "access denied");
}

#[test]
fn store_operations_pass_handle_and_arguments() {
    let store = Store::open("books", |name: &str| {
        assert_eq!(name, "books");
        (0, 42)
    })
    .unwrap();
    let v = store
        .get("k", |h: u32, k: &str| {
            assert_eq!((h, k), (42, "k"));
            (0, Some(b"v".to_vec()))
        })
        .unwrap();
    assert_eq!(v, Some(b"v".to_vec()));
    let keys = store
        .scan("user:*", |h: u32, p: &str| {
            assert_eq!((h, p), (42, "user:*"));
            (0, Some(serialize_list(&vec![b"user:1".to_vec(), vec![0x66, 0xff]])))
        })
        .unwrap();
    assert_eq!(keys, vec!["user:1".to_string(), "f\u{fffd}".to_string()]);
    let found = store
        .bf_exists("filter", "x", |h: u32, k: &str, i: &str| {
            assert_eq!((h, k, i), (42, "filter", "x"));
            (0, 7)
        })
        .unwrap();
    assert!(found);
    let entries = store
        .zscan("set", "*", |h: u32, k: &str, p: &str| {
            assert_eq!((h, k, p), (42, "set", "*"));
            (0, Some(serialize_list(&vec![scored(b"m", 2.5)])))
        })
        .unwrap();
    assert_eq!(entries, vec![(b"m".to_vec(), 2.5f64.to_bits())]);
    let range = store
        .zrange_by_score("set", |_h: u32, _k: &str| (1, None))
        .map_err(|e| e.to_string());
    assert_eq!(range, Err("other error: unexpected status: 1".to_string()));
}

#[test]
fn default_store_is_named_default() {
    let store = Store::new(|name: &str| {
        assert_eq!(name, "default");
        (1, 0)
    });
    assert!(matches!(store, Err(Error::NoSuchStore)));
}

#[test]
fn scan_without_buffer_is_empty() {
    assert!(scan_reply(0, None).unwrap().is_empty());
}

#[test]
fn secret_statuses() {
    assert_eq!(secret::get_reply(0, Some(b"s3cr3t".to_vec())), Ok(Some(b"s3cr3t".to_vec())));
    assert_eq!(secret::get_reply(1, Some(b"x".to_vec())), Ok(None));
    let at = secret::get_effective_at("token", 1700000000, |k: &str, t: u32| {
        assert_eq!((k, t), ("token", 1700000000));
        (0, Some(vec![1]))
    });
    assert_eq!(at, Ok(Some(vec![1])));
    assert_eq!(secret::get("token", |_k: &str| (1, None)), Ok(None));
}

#[test]
fn dictionary_values_are_text() {
    assert_eq!(dictionary::get_reply(0, Some(b"value".to_vec())), Some("value".to_string()));
    assert_eq!(dictionary::get_reply(0, Some(vec![0xff, 0xfe])), None);
    assert_eq!(dictionary::get_reply(1, Some(b"x".to_vec())), None);
    assert_eq!(dictionary::get("k", |_k: &str| (0, Some(b"v".to_vec()))), Some("v".to_string()));
}

#[test]
fn user_diag_passes_the_message() {
    let mut seen = String::new();
    utils::set_user_diag("msg", |v: &str| {
        seen = v.to_string();
        0
    });
    assert_eq!(seen, "msg");
}
