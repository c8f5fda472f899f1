//! The identity token of a payload: the validator that a client sends back to
//! ask whether the payload has changed.

use crate::buffer::{bytes_as_slice, bytes_view};
use crate::digest::{hashable, sha256, sha256_digest, SHA256_LEN};
use crate::header::{header_value_from_bytes, header_value_view, is_value, is_value_byte};
use crate::scan::{contains, contains_subseq, occurs_at};
use bytes::Bytes;
use http::HeaderValue;
use vstd::pervasive::unreached;
use vstd::prelude::*;

verus! {

/// The quote character that stands before and behind a token.
pub const QUOTE: u8 = 0x22;

/// The lower-case hexadecimal digit for `nibble`, which is below 16.
pub open spec fn hex_digit(nibble: int) -> u8 {
    if nibble < 10 {
        (0x30 + nibble) as u8
    } else {
        (0x57 + nibble) as u8
    }
}

/// `bytes` in lower-case hexadecimal: two digits for each byte, the high half
/// first, with nothing in between.
pub open spec fn hex_encode(bytes: Seq<u8>) -> Seq<u8> {
    Seq::new(
        2 * bytes.len(),
        |i: int|
            if i % 2 == 0 {
                hex_digit(bytes[i / 2] as int / 16)
            } else {
                hex_digit(bytes[i / 2] as int % 16)
            },
    )
}

/// `text` between two quote characters.
pub open spec fn quoted(text: Seq<u8>) -> Seq<u8> {
    seq![QUOTE] + text + seq![QUOTE]
}

/// The token of the payload that holds nothing: two quote characters.
pub open spec fn empty_identity() -> Seq<u8> {
    quoted(Seq::empty())
}

/// The identity token of a payload: for one that holds nothing, the reserved
/// token; for any other, its SHA-256 digest in hexadecimal between quotes.
pub open spec fn identity_of(payload: Seq<u8>) -> Seq<u8> {
    if payload.len() == 0 {
        empty_identity()
    } else {
        quoted(hex_encode(sha256(payload)))
    }
}

/// Hexadecimal digits and the quote may all stand in a header value.
pub proof fn lemma_quoted_hex_is_value(bytes: Seq<u8>)
    ensures
        is_value(quoted(hex_encode(bytes))),
{
    let token = quoted(hex_encode(bytes));
    assert forall|i: int| 0 <= i < token.len() implies is_value_byte(#[trigger] token[i]) by {
        if 0 < i < token.len() - 1 {
            let b = bytes[(i - 1) / 2] as int;
            assert(0 <= b / 16 < 16 && 0 <= b % 16 < 16);
            assert(token[i] == hex_encode(bytes)[i - 1]);
        }
    }
}

/// The identity token depends on the bytes of the payload and on nothing
/// else: computed twice over the same bytes it is the same token. For the
/// payload without bytes it is the reserved token of two quote characters,
/// for which nothing is hashed.
pub proof fn law_identity_is_determined(first: Seq<u8>, second: Seq<u8>)
    ensures
        first == second ==> identity_of(first) == identity_of(second),
        first.len() == 0 ==> identity_of(first) == seq![QUOTE, QUOTE],
        first.len() > 0 ==> identity_of(first) == quoted(hex_encode(sha256(first))),
{
    assert(empty_identity() =~= seq![QUOTE, QUOTE]);
}

/// Two tokens that `ETag::from_buf` has computed from buffers with the same
/// bytes are the same token.
pub proof fn law_from_buf_is_determined(first: Bytes, second: Bytes, a: ETag, b: ETag)
    requires
        bytes_view(first) == bytes_view(second),
        call_ensures(ETag::from_buf, (first,), a),
        call_ensures(ETag::from_buf, (second,), b),
    ensures
        a@ == b@,
{
}

/// A token is found in every header value that holds it, whatever stands
/// before it and behind it.
pub proof fn law_token_is_found(token: Seq<u8>, before: Seq<u8>, after: Seq<u8>)
    ensures
        contains_subseq(before + token + after, token),
{
    let header = before + token + after;
    let at = before.len() as int;
    assert(header.subrange(at, at + token.len()) =~= token);
    assert(occurs_at(header, token, at));
}

/// `ETag::matches` finds a token in every header value that holds it.
pub proof fn law_matches_finds_token(
    etag: ETag,
    header: &[u8],
    before: Seq<u8>,
    after: Seq<u8>,
    found: bool,
)
    requires
        header@ == before + etag@ + after,
        call_ensures(ETag::matches, (&etag, header), found),
    ensures
        found,
{
    law_token_is_found(etag@, before, after);
}

fn hex_char(nibble: u8) -> (digit: u8)
    requires
        nibble < 16,
    ensures
        digit == hex_digit(nibble as int),
{
    if nibble < 10 {
        0x30 + nibble
    } else {
        0x57 + nibble
    }
}

/// An identity token, kept as the header value that carries it.
#[derive(Debug)]
pub struct ETag(pub HeaderValue);

impl View for ETag {
    type V = Seq<u8>;

    /// The bytes of the token.
    open spec fn view(&self) -> Seq<u8> {
        header_value_view(self.0)
    }
}

impl Clone for ETag {
    fn clone(&self) -> (copy: Self)
        ensures
            copy@ == self@,
    {
        ETag(self.0.clone())
    }
}

impl ETag {
    /// The token of the payload that holds nothing.
    pub fn empty() -> (etag: Self)
        ensures
            etag@ == empty_identity(),
    {
        let none: Vec<u8> = Vec::new();
        let etag = Self::from_digest(none.as_slice());
        proof {
            assert(hex_encode(none@) =~= Seq::<u8>::empty());
        }
        etag
    }

    /// The identity token of the bytes in `buf`. Where `buf` holds a byte,
    /// the token frames a digest, and so is not the reserved token.
    pub fn from_buf(buf: Bytes) -> (etag: Self)
        requires
            hashable(bytes_view(buf).len()),
        ensures
            etag@ == identity_of(bytes_view(buf)),
            bytes_view(buf).len() > 0 ==> etag@.len() == 2 + 2 * SHA256_LEN,
    {
        if buf.is_empty() {
            Self::empty()
        } else {
            let digest = sha256_digest(bytes_as_slice(&buf));
            Self::from_digest(digest.as_slice())
        }
    }

    /// The token that frames `digest`: its bytes in lower-case hexadecimal
    /// between two quote characters.
    pub fn from_digest(digest: &[u8]) -> (etag: Self)
        ensures
            etag@ == quoted(hex_encode(digest@)),
    {
        let mut token: Vec<u8> = Vec::new();
        token.push(QUOTE);
        let mut i: usize = 0;
        while i < digest.len()
            invariant
                i <= digest@.len(),
                token@ == seq![QUOTE] + hex_encode(digest@.take(i as int)),
            decreases digest@.len() - i,
        {
            let byte = digest[i];
            token.push(hex_char(byte / 16));
            token.push(hex_char(byte % 16));
            proof {
                let old_hex = hex_encode(digest@.take(i as int));
                let new_hex = hex_encode(digest@.take(i + 1));
                assert(new_hex =~= old_hex.push(hex_digit(byte as int / 16)).push(
                    hex_digit(byte as int % 16),
                )) by {
                    assert forall|k: int| 0 <= k < 2 * i implies new_hex[k] == old_hex[k] by {
                        assert(digest@.take(i + 1)[k / 2] == digest@.take(i as int)[k / 2]);
                    }
                }
                assert(token@ =~= seq![QUOTE] + new_hex);
            }
            i += 1;
        }
        token.push(QUOTE);
        proof {
            assert(digest@.take(digest@.len() as int) =~= digest@);
            assert(token@ =~= quoted(hex_encode(digest@)));
            lemma_quoted_hex_is_value(digest@);
        }
        match header_value_from_bytes(token.as_slice()) {
            Ok(value) => ETag(value),
            Err(_) => unreached(),
        }
    }

    /// Whether the token occurs anywhere in `if_none_match_header`, byte for
    /// byte. The test is a plain search for the token: it takes no notice of
    /// list syntax.
    pub fn matches(&self, if_none_match_header: &[u8]) -> (found: bool)
        ensures
            found == contains_subseq(if_none_match_header@, self@),
    {
        contains(if_none_match_header, self.0.as_bytes())
    }
}

} // verus!
