use fastedge::helper::{deserialize_list, serialize_list, MalformedList};

fn serialize_list_by_hand(list: Vec<&[u8]>) -> Vec<u8> {
    let size = list.iter().fold(4, |size, v| size + v.len() + 5);

    let mut bytes = Vec::with_capacity(size);
    bytes.extend_from_slice(&(list.len() as i32).to_le_bytes());

    for value in &list {
        bytes.extend_from_slice(&(value.len() as i32).to_le_bytes());
    }

    for value in list {
        bytes.extend(value);
        bytes.push(0);
    }
    bytes
}

#[test]
fn test_serialize_list() {
    let list = vec![
        b"hello".to_vec(),
        b"world".to_vec(),
        b"8734258932949023402343242312382183912390213932134".to_vec(),
        b"X".to_vec(),
    ];
    let serialized = serialize_list_by_hand(list.iter().map(|v| v.as_slice()).collect());
    let deserialized = deserialize_list(&serialized).unwrap();
    assert_eq!(4, deserialized.len());
    assert_eq!(list, deserialized);
}

#[test]
fn library_encoding_matches_layout() {
    let list = vec![b"ab".to_vec(), vec![], vec![0, 0, 7]];
    let bytes = serialize_list(&list);
    assert_eq!(
        bytes,
        vec![3, 0, 0, 0, 2, 0, 0, 0, 0, 0, 0, 0, 3, 0, 0, 0, b'a', b'b', 0, 0, 0, 0, 7, 0]
    );
}

#[test]
fn round_trip_with_empty_and_zero_bytes() {
    let list = vec![vec![], vec![0u8], b"x\0y".to_vec(), vec![], vec![255, 0, 255]];
    let bytes = serialize_list(&list);
    assert_eq!(deserialize_list(&bytes).unwrap(), list);
}

#[test]
fn round_trip_of_no_items() {
    let list: Vec<Vec<u8>> = vec![];
    let bytes = serialize_list(&list);
    assert_eq!(bytes, vec![0, 0, 0, 0]);
    assert_eq!(deserialize_list(&bytes).unwrap(), list);
}

#[test]
fn short_buffer_is_empty_list() {
    assert_eq!(deserialize_list(&[]).unwrap(), Vec::<Vec<u8>>::new());
    assert_eq!(deserialize_list(&[1, 0, 0]).unwrap(), Vec::<Vec<u8>>::new());
}

#[test]
fn truncated_payload_is_refused() {
    // one item of length 5, but only 3 payload bytes follow
    let bytes = vec![1, 0, 0, 0, 5, 0, 0, 0, b'a', b'b', b'c'];
    assert_eq!(deserialize_list(&bytes), Err(MalformedList));
}

#[test]
fn missing_separator_is_refused() {
    let bytes = vec![1, 0, 0, 0, 2, 0, 0, 0, b'a', b'b'];
    assert_eq!(deserialize_list(&bytes), Err(MalformedList));
    let bytes = vec![1, 0, 0, 0, 2, 0, 0, 0, b'a', b'b', 0];
    assert_eq!(deserialize_list(&bytes).unwrap(), vec![b"ab".to_vec()]);
}

#[test]
fn length_table_past_end_is_refused() {
    let bytes = vec![200, 0, 0, 0, 1, 0, 0, 0];
    assert_eq!(deserialize_list(&bytes), Err(MalformedList));
}
