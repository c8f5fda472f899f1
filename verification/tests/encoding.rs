use bufd::Encoding;

#[test]
fn test() {
    let hv = http::HeaderValue::from_static("br, gzip");
    assert!(Encoding::Br.is_contained_in(hv.as_bytes()));
    assert!(Encoding::Gzip.is_contained_in(hv.as_bytes()));
    assert!(!Encoding::Identity.is_contained_in(hv.as_bytes()));
    assert!(!Encoding::Deflate.is_contained_in(hv.as_bytes()));
}

#[test]
fn wire_names() {
    assert_eq!(Encoding::Identity.as_str(), "identity");
    assert_eq!(Encoding::Br.as_str(), "br");
    assert_eq!(Encoding::Gzip.as_str(), "gzip");
    assert_eq!(Encoding::Deflate.as_str(), "deflate");
    assert_eq!(Encoding::Identity.as_bytes(), b"identity");
    assert_eq!(Encoding::Br.as_bytes(), b"br");
    assert_eq!(Encoding::Gzip.as_bytes(), b"gzip");
    assert_eq!(Encoding::Deflate.as_bytes(), b"deflate");
}

#[test]
fn containment_is_a_plain_search() {
    // A name inside a longer token counts, and a quality value of zero is
    // not looked at.
    assert!(Encoding::Br.is_contained_in(b"abracadabra"));
    assert!(Encoding::Gzip.is_contained_in(b"gzip;q=0"));
    assert!(Encoding::Gzip.is_contained_in(b"x-gzip"));
    assert!(Encoding::Deflate.is_contained_in(b"deflate"));
    assert!(Encoding::Identity.is_contained_in(b"br, identity"));
}

#[test]
fn containment_needs_the_whole_name() {
    assert!(!Encoding::Gzip.is_contained_in(b""));
    assert!(!Encoding::Gzip.is_contained_in(b"gzi"));
    assert!(!Encoding::Gzip.is_contained_in(b"gz ip"));
    assert!(!Encoding::Gzip.is_contained_in(b"GZIP"));
    assert!(!Encoding::Deflate.is_contained_in(b"deflat"));
    assert!(!Encoding::Br.is_contained_in(b"b, r"));
}

#[test]
fn scan_finds_a_window_anywhere() {
    assert!(bufd::scan::contains(b"hello world", b"hello"));
    assert!(bufd::scan::contains(b"hello world", b"o w"));
    assert!(bufd::scan::contains(b"hello world", b"world"));
    assert!(bufd::scan::contains(b"hello world", b"hello world"));
    assert!(bufd::scan::contains(b"hello world", b""));
    assert!(bufd::scan::contains(b"", b""));
    assert!(!bufd::scan::contains(b"hello world", b"worlds"));
    assert!(!bufd::scan::contains(b"hello world", b"hello world!"));
    assert!(!bufd::scan::contains(b"", b"a"));
    assert!(bufd::scan::matches_at(b"abcabc", b"bc", 1));
    assert!(bufd::scan::matches_at(b"abcabc", b"bc", 4));
    assert!(!bufd::scan::matches_at(b"abcabc", b"bc", 0));
    assert!(bufd::scan::matches_at(b"abcabc", b"", 6));
}
