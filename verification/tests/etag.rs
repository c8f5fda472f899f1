use bufd::ETag;
use bytes::Bytes;

#[test]
fn empty_token_is_two_quotes() {
    assert_eq!(ETag::empty().0.as_bytes(), b"\"\"");
    assert_eq!(ETag::from_buf(Bytes::new()).0.as_bytes(), b"\"\"");
    assert_eq!(ETag::from_digest(&[]).0.as_bytes(), b"\"\"");
}

#[test]
fn token_of_abc() {
    let etag = ETag::from_buf(Bytes::from_static(b"abc"));
    assert_eq!(
        etag.0.as_bytes(),
        &b"\"ba7816bf8f01cfea414140de5dae2223b00361a396177a9cb410ff61f20015ad\""[..]
    );
}

#[test]
fn token_of_one_zero_byte_is_a_hash() {
    let etag = ETag::from_buf(Bytes::from_static(&[0]));
    assert_eq!(
        etag.0.as_bytes(),
        &b"\"6e340b9cffb37a989ca544e6bb780a2c78901d3fb33738768511a30617afa01d\""[..]
    );
}

#[test]
fn token_is_the_same_for_the_same_bytes() {
    let a = ETag::from_buf(Bytes::from(vec![7u8; 5000]));
    let b = ETag::from_buf(Bytes::from(vec![7u8; 5000]));
    let c = ETag::from_buf(Bytes::from(vec![7u8; 5001]));
    assert_eq!(a.0, b.0);
    assert_ne!(a.0, c.0);
    assert_eq!(a.0.len(), 66);
    assert_eq!(a.clone().0, a.0);
}

#[test]
fn digest_is_framed_in_lower_case_hex() {
    let etag = ETag::from_digest(&[0x00, 0x09, 0x0a, 0x0f, 0x10, 0x9a, 0xa9, 0xff]);
    assert_eq!(etag.0.as_bytes(), b"\"00090a0f109aa9ff\"");
    let all: Vec<u8> = (0u8..=255).collect();
    let etag = ETag::from_digest(&all);
    let mut expected = String::from("\"");
    for byte in &all {
        expected.push_str(&format!("{:02x}", byte));
    }
    expected.push('"');
    assert_eq!(etag.0.as_bytes(), expected.as_bytes());
}

#[test]
fn matches_is_a_plain_search() {
    let etag = ETag::from_buf(Bytes::from_static(b"abc"));
    let token = etag.0.as_bytes().to_vec();
    assert!(etag.matches(&token));

    let mut list = b"\"other\", W/".to_vec();
    list.extend_from_slice(&token);
    list.extend_from_slice(b", \"more\"");
    assert!(etag.matches(&list));

    assert!(!etag.matches(b""));
    assert!(!etag.matches(b"*"));
    assert!(!etag.matches(&token[..token.len() - 1]));
    assert!(!etag.matches(&token[1..]));
    let mut upper = token.clone();
    upper.make_ascii_uppercase();
    assert!(!etag.matches(&upper));
}

#[test]
fn empty_token_matches_any_pair_of_quotes() {
    let etag = ETag::empty();
    assert!(etag.matches(b"\"\""));
    assert!(etag.matches(b"x\"\"y"));
    assert!(!etag.matches(b"\"x\""));
}

#[test]
fn hashable_lengths() {
    assert!(bufd::digest::is_hashable(0));
    assert!(bufd::digest::is_hashable(1 << 20));
    assert!(bufd::digest::is_hashable(usize::MAX >> 3));
    assert!(!bufd::digest::is_hashable((usize::MAX >> 3) + 1));
    assert!(!bufd::digest::is_hashable(usize::MAX));
    assert_eq!(bufd::digest::SHA256_LEN, 32);
}
