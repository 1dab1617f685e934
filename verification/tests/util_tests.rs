use tracker_lib::util::{bencode_to_usize, format_hash, nonempty_matches, Bencode};

#[test]
fn hash_is_percent_encoded() {
    assert_eq!(format_hash("abcd"), "%ab%cd");
    assert_eq!(format_hash("abc"), "%ab%c");
    assert_eq!(format_hash(""), "");
}

#[test]
fn bencoded_integers() {
    assert_eq!(bencode_to_usize(&Bencode::Integer(7)), Ok(7));
    assert_eq!(bencode_to_usize(&Bencode::Integer(-1)), Ok(usize::MAX));
    assert_eq!(
        bencode_to_usize(&Bencode::String("x".to_string())),
        Err("BencodeElem is not an Integer!".to_string())
    );
    assert!(bencode_to_usize(&Bencode::List(vec![Bencode::Integer(1)])).is_err());
    assert!(bencode_to_usize(&Bencode::Dictionary(vec![("a".to_string(), Bencode::Integer(1))])).is_err());
}

#[test]
fn empty_lookup_is_none() {
    assert_eq!(nonempty_matches::<u8>(Some(vec![])), None);
    assert_eq!(nonempty_matches(Some(vec![1u8])), Some(vec![1u8]));
    assert_eq!(nonempty_matches::<u8>(None), None);
}
