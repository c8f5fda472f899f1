//! Header names, header values and header maps of the `http` crate.
//!
//! Verus cannot look inside these types. What each holds is named by a spec
//! function, and each operation that the library uses is listed here with
//! what is taken on trust about it.

use http::header::{HeaderName, HeaderValue, InvalidHeaderValue, MaxSizeReached};
use http::HeaderMap;
use vstd::prelude::*;
use vstd::string::StringSliceAdditionalSpecFns;

verus! {

/// `http::header::HeaderName`, taken as it is.
#[verifier::external_type_specification]
#[verifier::external_body]
pub struct ExHeaderName(HeaderName);

/// `http::header::HeaderValue`, taken as it is.
#[verifier::external_type_specification]
#[verifier::external_body]
pub struct ExHeaderValue(HeaderValue);

/// `http::HeaderMap`, taken as it is.
#[verifier::external_type_specification]
#[verifier::external_body]
#[verifier::reject_recursive_types(T)]
pub struct ExHeaderMap<T>(HeaderMap<T>);

/// `http::header::InvalidHeaderValue`, the error of a header value that
/// holds a byte it may not hold.
#[verifier::external_type_specification]
#[verifier::external_body]
pub struct ExInvalidHeaderValue(InvalidHeaderValue);

/// `http::header::MaxSizeReached`, the error of a header map that cannot
/// grow any further.
#[verifier::external_type_specification]
#[verifier::external_body]
pub struct ExMaxSizeReached(MaxSizeReached);

/// What a header map holds: for each name that is present, the values listed
/// under it, in the order in which they were added.
pub type Fields = Map<Seq<u8>, Seq<Seq<u8>>>;

/// The bytes of a header name, in the lower case in which `http` keeps it.
pub uninterp spec fn header_name_view(name: HeaderName) -> Seq<u8>;

/// The bytes of a header value.
pub uninterp spec fn header_value_view(value: HeaderValue) -> Seq<u8>;

/// The names and values that a header map holds.
pub uninterp spec fn header_map_view(map: HeaderMap) -> Fields;

/// Whether a header map has room for a value under `name`: whether the next
/// `try_insert` or `try_append` under that name succeeds. That depends on
/// the map alone: on how many names it holds, on the size to which its table
/// has grown, and on whether the name is present.
pub uninterp spec fn header_map_takes(map: HeaderMap, name: Seq<u8>) -> bool;

/// Whether `http` accepts `b` as a byte of a header value: anything from the
/// space upwards but DEL, and the tab.
pub open spec fn is_value_byte(b: u8) -> bool {
    (b >= 32 && b != 127) || b == 9
}

/// Whether every byte of `s` may stand in a header value.
pub open spec fn is_value(s: Seq<u8>) -> bool {
    forall|i: int| 0 <= i < s.len() ==> is_value_byte(#[trigger] s[i])
}

/// The first value listed under `name`, if the name is present.
pub open spec fn first_value(fields: Fields, name: Seq<u8>) -> Option<Seq<u8>> {
    if fields.contains_key(name) {
        Some(fields[name].first())
    } else {
        None
    }
}

/// `fields` with `value` as the only value under `name`.
pub open spec fn with_only(fields: Fields, name: Seq<u8>, value: Seq<u8>) -> Fields {
    fields.insert(name, seq![value])
}

/// `fields` with `value` added behind the values already under `name`.
pub open spec fn with_added(fields: Fields, name: Seq<u8>, value: Seq<u8>) -> Fields {
    if fields.contains_key(name) {
        fields.insert(name, fields[name].push(value))
    } else {
        fields.insert(name, seq![value])
    }
}

/// The name `etag`.
pub open spec fn etag_field() -> Seq<u8> {
    "etag".spec_bytes()
}

/// The name `if-none-match`.
pub open spec fn if_none_match_field() -> Seq<u8> {
    "if-none-match".spec_bytes()
}

/// The name `accept-encoding`.
pub open spec fn accept_encoding_field() -> Seq<u8> {
    "accept-encoding".spec_bytes()
}

/// The name `content-encoding`.
pub open spec fn content_encoding_field() -> Seq<u8> {
    "content-encoding".spec_bytes()
}

/// The constant `http::header::ETAG`, whose name is `etag`.
#[verifier::external_body]
pub(crate) fn etag_name() -> (name: HeaderName)
    ensures
        header_name_view(name) == etag_field(),
{
    http::header::ETAG
}

/// The constant `http::header::IF_NONE_MATCH`, whose name is `if-none-match`.
#[verifier::external_body]
pub(crate) fn if_none_match_name() -> (name: HeaderName)
    ensures
        header_name_view(name) == if_none_match_field(),
{
    http::header::IF_NONE_MATCH
}

/// The constant `http::header::ACCEPT_ENCODING`, whose name is
/// `accept-encoding`.
#[verifier::external_body]
pub(crate) fn accept_encoding_name() -> (name: HeaderName)
    ensures
        header_name_view(name) == accept_encoding_field(),
{
    http::header::ACCEPT_ENCODING
}

/// The constant `http::header::CONTENT_ENCODING`, whose name is
/// `content-encoding`.
#[verifier::external_body]
pub(crate) fn content_encoding_name() -> (name: HeaderName)
    ensures
        header_name_view(name) == content_encoding_field(),
{
    http::header::CONTENT_ENCODING
}

/// `HeaderValue::from_bytes`: copies `src` into a header value. It fails
/// exactly when some byte of `src` may not stand in a header value.
#[verifier::external_body]
pub(crate) fn header_value_from_bytes(src: &[u8]) -> (r: Result<HeaderValue, InvalidHeaderValue>)
    ensures
        r is Ok <==> is_value(src@),
        r matches Ok(value) ==> header_value_view(value) == src@,
{
    HeaderValue::from_bytes(src)
}

/// `HeaderValue::as_bytes`: the bytes of the value as a slice.
pub assume_specification[ HeaderValue::as_bytes ](value: &HeaderValue) -> (s: &[u8])
    ensures
        s@ == header_value_view(*value),
;

/// `<HeaderValue as Clone>::clone`: a second value with the same bytes.
pub assume_specification[ <HeaderValue as Clone>::clone ](value: &HeaderValue) -> (copy:
    HeaderValue)
    ensures
        header_value_view(copy) == header_value_view(*value),
;

/// `HeaderMap::new`: a map that holds nothing, and that has room for a
/// first value under any name.
#[verifier::external_body]
pub(crate) fn header_map_new() -> (map: HeaderMap)
    ensures
        header_map_view(map) == Fields::empty(),
        forall|name: Seq<u8>| #[trigger] header_map_takes(map, name),
{
    HeaderMap::new()
}

/// `<HeaderMap as Clone>::clone`: a second map that holds the same names and
/// values in a table of the same size, so that it has room for what the
/// first has room for.
#[verifier::external_body]
pub(crate) fn header_map_clone(map: &HeaderMap) -> (copy: HeaderMap)
    ensures
        header_map_view(copy) == header_map_view(*map),
        forall|name: Seq<u8>| #[trigger]
            header_map_takes(copy, name) == header_map_takes(*map, name),
{
    map.clone()
}

/// `HeaderMap::get`: the first value listed under `name`, if there is one.
#[verifier::external_body]
pub(crate) fn header_map_get<'a>(map: &'a HeaderMap, name: &HeaderName) -> (found: Option<
    &'a HeaderValue,
>)
    ensures
        found is Some <==> header_map_view(*map).contains_key(header_name_view(*name)),
        found matches Some(value) ==> first_value(
            header_map_view(*map),
            header_name_view(*name),
        ) == Some(header_value_view(*value)),
{
    map.get(name)
}

/// `HeaderMap::try_insert`: makes `value` the only value under `name` and
/// hands back the first of the values that stood there. Where the map has
/// no room for it, it fails and leaves the map as it was.
#[verifier::external_body]
pub(crate) fn header_map_try_insert(map: &mut HeaderMap, name: HeaderName, value: HeaderValue) -> (r:
    Result<Option<HeaderValue>, MaxSizeReached>)
    ensures
        r is Ok <==> header_map_takes(*old(map), header_name_view(name)),
        r is Ok ==> header_map_view(*final(map)) == with_only(
            header_map_view(*old(map)),
            header_name_view(name),
            header_value_view(value),
        ),
        r is Err ==> header_map_view(*final(map)) == header_map_view(*old(map)),
{
    map.try_insert(name, value)
}

/// `HeaderMap::try_append`: adds `value` behind the values already under
/// `name` and tells whether the name was present. Where the map has no room
/// for it, it fails and leaves the map as it was.
#[verifier::external_body]
pub(crate) fn header_map_try_append(map: &mut HeaderMap, name: HeaderName, value: HeaderValue) -> (r:
    Result<bool, MaxSizeReached>)
    ensures
        r is Ok <==> header_map_takes(*old(map), header_name_view(name)),
        r is Ok ==> header_map_view(*final(map)) == with_added(
            header_map_view(*old(map)),
            header_name_view(name),
            header_value_view(value),
        ),
        r is Err ==> header_map_view(*final(map)) == header_map_view(*old(map)),
{
    map.try_append(name, value)
}

/// `HeaderMap::remove`: drops `name` with all its values and hands back the
/// first of them.
#[verifier::external_body]
pub(crate) fn header_map_remove(map: &mut HeaderMap, name: &HeaderName) -> (removed: Option<
    HeaderValue,
>)
    ensures
        header_map_view(*final(map)) == header_map_view(*old(map)).remove(header_name_view(*name)),
{
    map.remove(name)
}

} // verus!
