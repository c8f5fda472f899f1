//! The payload store and the protocol by which it answers a request.

use crate::body::{Body, BodyView};
use crate::buffer::bytes_view;
use crate::digest::{hashable, is_hashable};
use crate::encoding::Encoding;
use crate::etag::{empty_identity, identity_of, ETag};
use crate::header::{
    accept_encoding_field, accept_encoding_name, content_encoding_field, content_encoding_name,
    etag_field, etag_name, first_value, header_map_clone, header_map_get, header_map_new,
    header_map_remove, header_map_takes, header_map_try_append, header_map_try_insert,
    header_map_view,
    if_none_match_field, if_none_match_name, with_added, with_only, Fields,
};
use crate::inflate::{decoded, Decoder};
use crate::scan::{contains_subseq, occurs_at};
use bytes::Bytes;
use http::header::{HeaderValue, MaxSizeReached};
use http::HeaderMap;
use vstd::pervasive::unreached;
use vstd::prelude::*;
use vstd::string::StringSliceAdditionalSpecFns;

verus! {

/// The method of a request, as far as the store tells methods apart.
#[derive(Debug, PartialEq, Eq, Clone, Copy, Structural)]
pub enum Method {
    Get,
    Head,
    /// Any method but GET and HEAD.
    Other,
}

/// The status of a response.
#[derive(Debug, PartialEq, Eq, Clone, Copy, Structural)]
pub enum Status {
    Success,
    NoContent,
    NotModified,
    MethodNotAllowed,
}

impl Status {
    /// The status code as a number.
    pub open spec fn number(self) -> u16 {
        match self {
            Status::Success => 200,
            Status::NoContent => 204,
            Status::NotModified => 304,
            Status::MethodNotAllowed => 405,
        }
    }

    /// The status code as a number.
    pub fn code(&self) -> (code: u16)
        ensures
            code == self.number(),
    {
        match self {
            Status::Success => 200,
            Status::NoContent => 204,
            Status::NotModified => 304,
            Status::MethodNotAllowed => 405,
        }
    }
}

/// What the store reads of a request: its method and its headers.
pub struct Request {
    pub method: Method,
    pub headers: HeaderMap,
}

/// What a request holds.
pub struct RequestView {
    pub method: Method,
    pub headers: Fields,
}

impl View for Request {
    type V = RequestView;

    open spec fn view(&self) -> RequestView {
        RequestView { method: self.method, headers: header_map_view(self.headers) }
    }
}

/// The answer to a request.
pub struct Response {
    pub status: Status,
    pub headers: HeaderMap,
    pub body: Body,
}

/// What a response holds.
pub struct ResponseView {
    pub status: Status,
    pub headers: Fields,
    pub body: BodyView,
}

impl View for Response {
    type V = ResponseView;

    open spec fn view(&self) -> ResponseView {
        ResponseView {
            status: self.status,
            headers: header_map_view(self.headers),
            body: self.body@,
        }
    }
}

/// A header map has no room for a header that was to be added to it.
#[derive(Debug, PartialEq, Eq, Clone, Copy, Structural)]
pub struct HeaderLimit;

/// The branch of the protocol that a request takes.
#[derive(Debug, PartialEq, Eq, Clone, Copy, Structural)]
pub enum Outcome {
    /// The method is neither GET nor HEAD.
    MethodNotAllowed,
    /// Nothing has been stored yet.
    NoContent,
    /// The client holds the payload already.
    NotModified,
    /// The method is HEAD: headers only.
    Head,
    /// The stored payload has no bytes.
    EmptyBuffer,
    /// The stored bytes are served as they are.
    PassThrough,
    /// The stored bytes are decoded for the client.
    Decode,
}

impl Outcome {
    /// Whether the response carries the payload's headers, with status 200.
    pub open spec fn serves(self) -> bool {
        self is Head || self is EmptyBuffer || self is PassThrough || self is Decode
    }

    /// The response that serves `payload`, stored in `encoding`, on this
    /// branch. It goes out under `headers`, without the content-encoding
    /// header where the stored bytes do not go out as they are. Its body is
    /// the stored bytes, or the stream of a new decoder over them, or
    /// nothing.
    pub open spec fn serve(self, encoding: Encoding, payload: Seq<u8>, headers: Fields) -> ResponseView {
        ResponseView {
            status: Status::Success,
            headers: if self is EmptyBuffer || self is Decode {
                headers.remove(content_encoding_field())
            } else {
                headers
            },
            body: match self {
                Outcome::PassThrough => BodyView::Buf { inner: Some(payload) },
                Outcome::Decode => BodyView::Stream {
                    encoding,
                    source: payload,
                    drawn: Seq::empty(),
                    pending: decoded(encoding, payload).0,
                    broken: decoded(encoding, payload).1,
                    finished: false,
                },
                _ => BodyView::Empty,
            },
        }
    }

    /// Whether the response carries the payload's headers, with status 200.
    pub fn is_served(&self) -> (served: bool)
        ensures
            served == self.serves(),
    {
        match self {
            Outcome::Head | Outcome::EmptyBuffer | Outcome::PassThrough | Outcome::Decode => true,
            _ => false,
        }
    }
}

/// The body of the response to a method that is not allowed.
pub open spec fn method_not_allowed_text() -> Seq<u8> {
    "Method not allowed".spec_bytes()
}

/// What a store holds: the headers that its owner has configured, the
/// encoding that stored bytes are declared to be in, and the stored bytes, if
/// any have been stored.
pub struct ServiceView {
    pub headers: Fields,
    pub encoding: Encoding,
    pub stored: Option<Seq<u8>>,
}

impl ServiceView {
    /// The store that holds nothing.
    pub open spec fn empty() -> ServiceView {
        ServiceView { headers: Map::empty(), encoding: Encoding::Identity, stored: None }
    }

    /// The store after `payload` has been stored.
    pub open spec fn fill(self, payload: Seq<u8>) -> ServiceView {
        ServiceView { stored: Some(payload), ..self }
    }

    /// The store after `encoding` has been declared. A content-encoding
    /// header that names it is configured with it, except for the identity
    /// encoding, for which no such header is sent.
    pub open spec fn set_encoding(self, encoding: Encoding) -> ServiceView {
        ServiceView {
            headers: if encoding == Encoding::Identity {
                self.headers.remove(content_encoding_field())
            } else {
                with_only(self.headers, content_encoding_field(), encoding.wire_name())
            },
            encoding,
            ..self
        }
    }

    /// Whether the request carries a validator list in which the identity
    /// token of the stored `payload` occurs.
    pub open spec fn revalidates(req: RequestView, payload: Seq<u8>) -> bool {
        first_value(req.headers, if_none_match_field()) matches Some(list) && contains_subseq(
            list,
            identity_of(payload),
        )
    }

    /// Whether the stored bytes can go out as they are: the client names no
    /// encodings, or the bytes are not encoded, or the name of their encoding
    /// occurs in what the client accepts.
    pub open spec fn acceptable(self, req: RequestView) -> bool {
        match first_value(req.headers, accept_encoding_field()) {
            None => true,
            Some(offer) => self.encoding == Encoding::Identity || contains_subseq(
                offer,
                self.encoding.wire_name(),
            ),
        }
    }

    /// The branch of the protocol that `req` takes.
    pub open spec fn outcome(self, req: RequestView) -> Outcome {
        if req.method == Method::Other {
            Outcome::MethodNotAllowed
        } else {
            match self.stored {
                None => Outcome::NoContent,
                Some(payload) => if Self::revalidates(req, payload) {
                    Outcome::NotModified
                } else if req.method == Method::Head {
                    Outcome::Head
                } else if payload.len() == 0 {
                    Outcome::EmptyBuffer
                } else if self.acceptable(req) {
                    Outcome::PassThrough
                } else {
                    Outcome::Decode
                },
            }
        }
    }

    /// The configured headers with the identity token of `payload` added
    /// under `etag`.
    pub open spec fn identified(self, payload: Seq<u8>) -> Fields {
        with_added(self.headers, etag_field(), identity_of(payload))
    }

    /// The response to `req`.
    pub open spec fn response(self, req: RequestView) -> ResponseView {
        let payload = self.stored.unwrap();
        match self.outcome(req) {
            Outcome::MethodNotAllowed => ResponseView {
                status: Status::MethodNotAllowed,
                headers: Map::empty(),
                body: BodyView::Bytes { inner: Some(method_not_allowed_text()) },
            },
            Outcome::NoContent => ResponseView {
                status: Status::NoContent,
                headers: Map::empty(),
                body: BodyView::Empty,
            },
            Outcome::NotModified => ResponseView {
                status: Status::NotModified,
                headers: Map::empty(),
                body: BodyView::Empty,
            },
            served => served.serve(self.encoding, payload, self.identified(payload)),
        }
    }
}

/// A payload with its identity token. The token is computed when the
/// snapshot is made and never changed.
pub struct Snapshot {
    etag: ETag,
    body: Bytes,
}

impl View for Snapshot {
    type V = Seq<u8>;

    /// The bytes of the payload.
    closed spec fn view(&self) -> Seq<u8> {
        bytes_view(self.body)
    }
}

impl Snapshot {
    #[verifier::type_invariant]
    spec fn consistent(self) -> bool {
        self.etag@ == identity_of(bytes_view(self.body))
    }

    /// The snapshot of `body`, for which its identity token is computed.
    pub fn new(body: Bytes) -> (snapshot: Self)
        requires
            hashable(bytes_view(body).len()),
        ensures
            snapshot@ == bytes_view(body),
    {
        let etag = ETag::from_buf(body.clone());
        Snapshot { etag, body }
    }

    /// The snapshot of `body`, where its identity token can be computed.
    pub fn try_new(body: Bytes) -> (snapshot: Option<Self>)
        ensures
            snapshot is Some <==> hashable(bytes_view(body).len()),
            snapshot matches Some(made) ==> made@ == bytes_view(body),
    {
        if is_hashable(body.len()) {
            Some(Snapshot::new(body))
        } else {
            None
        }
    }

    /// The identity token of the payload.
    pub fn etag(&self) -> (etag: &ETag)
        ensures
            etag@ == identity_of(self@),
    {
        proof {
            use_type_invariant(self);
        }
        &self.etag
    }

    /// The payload.
    pub fn body(&self) -> (body: &Bytes)
        ensures
            bytes_view(*body) == self@,
    {
        &self.body
    }
}

/// The view of the slot in which a store keeps its snapshot.
pub open spec fn stored_view(payload: Option<Snapshot>) -> Option<Seq<u8>> {
    match payload {
        Some(snapshot) => Some(snapshot@),
        None => None,
    }
}

/// A store of one payload.
pub struct Service {
    /// Headers that go out with every response that serves the payload.
    pub headers: HeaderMap,
    encoding: Encoding,
    payload: Option<Snapshot>,
}

impl View for Service {
    type V = ServiceView;

    closed spec fn view(&self) -> ServiceView {
        ServiceView {
            headers: header_map_view(self.headers),
            encoding: self.encoding,
            stored: stored_view(self.payload),
        }
    }
}

impl Default for Service {
    fn default() -> (service: Self)
        ensures
            service@ == ServiceView::empty(),
            forall|name: Seq<u8>| #[trigger] service.takes(name),
    {
        Service { headers: header_map_new(), encoding: Encoding::Identity, payload: None }
    }
}

/// The response to a request when nothing has been stored.
pub fn no_content() -> (response: Response)
    ensures
        response@ == (ResponseView {
            status: Status::NoContent,
            headers: Map::empty(),
            body: BodyView::Empty,
        }),
{
    Response { status: Status::NoContent, headers: header_map_new(), body: Body::Empty }
}

/// The response to a request whose sender holds the payload already.
pub fn not_modified() -> (response: Response)
    ensures
        response@ == (ResponseView {
            status: Status::NotModified,
            headers: Map::empty(),
            body: BodyView::Empty,
        }),
{
    Response { status: Status::NotModified, headers: header_map_new(), body: Body::Empty }
}

/// The response to a request whose method is neither GET nor HEAD.
pub fn method_not_allowed() -> (response: Response)
    ensures
        response@ == (ResponseView {
            status: Status::MethodNotAllowed,
            headers: Map::empty(),
            body: BodyView::Bytes { inner: Some(method_not_allowed_text()) },
        }),
{
    Response {
        status: Status::MethodNotAllowed,
        headers: header_map_new(),
        body: Body::from_static("Method not allowed".as_bytes()),
    }
}

impl Service {
    /// Whether the configured headers have room for a value under `name`,
    /// so that a header of that name can be configured, or added to the
    /// headers of a response.
    pub closed spec fn takes(&self, name: Seq<u8>) -> bool {
        header_map_takes(self.headers, name)
    }

    /// A store that holds nothing, with no headers configured and the
    /// identity encoding declared. Its headers have room for any name.
    pub fn new() -> (service: Self)
        ensures
            service@ == ServiceView::empty(),
            forall|name: Seq<u8>| #[trigger] service.takes(name),
    {
        Service::default()
    }

    /// The configured headers.
    pub fn headers(&self) -> (headers: &HeaderMap)
        ensures
            header_map_view(*headers) == self@.headers,
            forall|name: Seq<u8>| #[trigger]
                header_map_takes(*headers, name) == self.takes(name),
    {
        &self.headers
    }

    /// Configures `headers` in place of the headers configured before.
    pub fn set_headers(&mut self, headers: HeaderMap)
        ensures
            final(self)@ == (ServiceView { headers: header_map_view(headers), ..old(self)@ }),
            forall|name: Seq<u8>| #[trigger]
                final(self).takes(name) == header_map_takes(headers, name),
    {
        self.headers = headers;
    }

    /// The encoding that stored bytes are declared to be in.
    pub fn configured_encoding(&self) -> (encoding: Encoding)
        ensures
            encoding == self@.encoding,
    {
        self.encoding
    }

    /// Declares the encoding that stored bytes are in, and configures the
    /// content-encoding header to go with it: for the identity encoding the
    /// header is removed, for another it is set to the name of the encoding.
    /// It fails exactly where the header is to be set and the configured
    /// headers have no room for it, and then nothing changes.
    pub fn set_encoding(&mut self, encoding: Encoding) -> (r: Result<(), HeaderLimit>)
        ensures
            r is Ok <==> (encoding == Encoding::Identity || old(self).takes(
                content_encoding_field(),
            )),
            r is Ok ==> final(self)@ == old(self)@.set_encoding(encoding),
            r is Err ==> final(self)@ == old(self)@,
    {
        let configured = if encoding == Encoding::Identity {
            Ok(header_map_remove(&mut self.headers, &content_encoding_name()))
        } else {
            let value = encoding.header_value();
            header_map_try_insert(&mut self.headers, content_encoding_name(), value)
        };
        self.declare(encoding, configured)
    }

    /// Declares `encoding` once the header map has taken the header that
    /// goes with it, as `configured` tells: the encoding is declared exactly
    /// when the header was configured, and the headers stay as they are.
    pub fn declare(
        &mut self,
        encoding: Encoding,
        configured: Result<Option<HeaderValue>, MaxSizeReached>,
    ) -> (r: Result<(), HeaderLimit>)
        ensures
            r is Ok <==> configured is Ok,
            r is Ok ==> final(self)@ == (ServiceView { encoding, ..old(self)@ }),
            r is Err ==> final(self)@ == old(self)@,
            forall|name: Seq<u8>| #[trigger] final(self).takes(name) == old(self).takes(name),
    {
        match configured {
            Ok(_) => {
                self.encoding = encoding;
                Ok(())
            },
            Err(_) => Err(HeaderLimit),
        }
    }

    /// Puts `snapshot` in place of what was stored before. The configured
    /// headers are not touched.
    pub fn store(&mut self, snapshot: Snapshot)
        ensures
            final(self)@ == old(self)@.fill(snapshot@),
            forall|name: Seq<u8>| #[trigger] final(self).takes(name) == old(self).takes(name),
    {
        self.payload = Some(snapshot);
    }

    /// Stores `body` in place of what was stored before, together with its
    /// identity token.
    pub fn fill(&mut self, body: Bytes)
        requires
            hashable(bytes_view(body).len()),
        ensures
            final(self)@ == old(self)@.fill(bytes_view(body)),
            forall|name: Seq<u8>| #[trigger] final(self).takes(name) == old(self).takes(name),
    {
        self.store(Snapshot::new(body));
    }

    /// Stores `body` as `fill` does, where its identity token can be
    /// computed, and tells whether it did.
    pub fn try_fill(&mut self, body: Bytes) -> (stored: bool)
        ensures
            stored == hashable(bytes_view(body).len()),
            stored ==> final(self)@ == old(self)@.fill(bytes_view(body)),
            !stored ==> final(self)@ == old(self)@,
            forall|name: Seq<u8>| #[trigger] final(self).takes(name) == old(self).takes(name),
    {
        match Snapshot::try_new(body) {
            Some(snapshot) => {
                self.store(snapshot);
                true
            },
            None => false,
        }
    }

    /// The branch of the protocol that `req` takes.
    pub fn decide(&self, req: &Request) -> (outcome: Outcome)
        ensures
            outcome == self@.outcome(req@),
    {
        let head = match req.method {
            Method::Head => true,
            Method::Get => false,
            Method::Other => {
                return Outcome::MethodNotAllowed;
            },
        };
        match &self.payload {
            None => Outcome::NoContent,
            Some(snapshot) => {
                if let Some(if_none_match) = header_map_get(&req.headers, &if_none_match_name()) {
                    if snapshot.etag().matches(if_none_match.as_bytes()) {
                        return Outcome::NotModified;
                    }
                }
                if head {
                    return Outcome::Head;
                }
                if snapshot.body().is_empty() {
                    return Outcome::EmptyBuffer;
                }
                let encoding = self.encoding;
                let acceptable = match header_map_get(&req.headers, &accept_encoding_name()) {
                    None => true,
                    Some(accept_encoding) => encoding == Encoding::Identity
                        || encoding.is_contained_in(accept_encoding.as_bytes()),
                };
                if acceptable {
                    Outcome::PassThrough
                } else {
                    Outcome::Decode
                }
            },
        }
    }

    /// Answers `req`. There is no response exactly where the response is to
    /// carry the payload's headers and the configured headers have no room
    /// for the identity header.
    pub fn call(&self, req: Request) -> (r: Result<Response, HeaderLimit>)
        ensures
            r is Ok <==> (!self@.outcome(req@).serves() || self.takes(etag_field())),
            r matches Ok(response) ==> response@ == self@.response(req@),
    {
        let outcome = self.decide(&req);
        if !outcome.is_served() {
            return Ok(
                match outcome {
                    Outcome::MethodNotAllowed => method_not_allowed(),
                    Outcome::NotModified => not_modified(),
                    _ => no_content(),
                },
            );
        }
        let snapshot = match &self.payload {
            Some(snapshot) => snapshot,
            None => unreached(),
        };
        let mut headers = header_map_clone(&self.headers);
        let appended = header_map_try_append(&mut headers, etag_name(), snapshot.etag().clone().0);
        Response::serving(outcome, self.encoding, snapshot.body().clone(), headers, appended)
    }
}

impl Response {
    /// The response that serves `payload`, stored in `encoding`, on the
    /// branch `outcome`, once the identity header has been added to
    /// `headers`, as `appended` tells. There is a response exactly when the
    /// header was added.
    pub fn serving(
        outcome: Outcome,
        encoding: Encoding,
        payload: Bytes,
        headers: HeaderMap,
        appended: Result<bool, MaxSizeReached>,
    ) -> (r: Result<Response, HeaderLimit>)
        requires
            outcome.serves(),
            outcome is Decode ==> encoding != Encoding::Identity,
        ensures
            r is Ok <==> appended is Ok,
            r matches Ok(response) ==> response@ == outcome.serve(
                encoding,
                bytes_view(payload),
                header_map_view(headers),
            ),
    {
        if appended.is_err() {
            return Err(HeaderLimit);
        }
        let mut headers = headers;
        let body = match outcome {
            Outcome::PassThrough => Body::new(payload),
            Outcome::Decode => {
                header_map_remove(&mut headers, &content_encoding_name());
                Body::from(Decoder::new(encoding, payload))
            },
            Outcome::EmptyBuffer => {
                header_map_remove(&mut headers, &content_encoding_name());
                Body::Empty
            },
            _ => Body::Empty,
        };
        Ok(Response { status: Status::Success, headers, body })
    }
}

/// A request whose method is neither GET nor HEAD is answered with status
/// 405 and the text that says so, whatever the store holds.
pub proof fn law_method_gate(store: ServiceView, req: RequestView)
    requires
        req.method == Method::Other,
    ensures
        store.response(req) == (ResponseView {
            status: Status::MethodNotAllowed,
            headers: Map::empty(),
            body: BodyView::Bytes { inner: Some(method_not_allowed_text()) },
        }),
{
}

/// As long as nothing has been stored, a GET or HEAD request is answered
/// with status 204, no header and no body. That is so of a new store, and
/// declaring an encoding stores nothing.
pub proof fn law_nothing_stored(store: ServiceView, req: RequestView, encoding: Encoding)
    requires
        store.stored is None,
        req.method != Method::Other,
    ensures
        store.response(req) == (ResponseView {
            status: Status::NoContent,
            headers: Map::empty(),
            body: BodyView::Empty,
        }),
        ServiceView::empty().stored is None,
        store.set_encoding(encoding).stored is None,
{
}

/// What `Service::call` answers to a GET or HEAD request on a store that
/// `Service::new` has just made: status 204, no header and no body.
pub proof fn law_new_store_has_no_content(
    service: Service,
    req: Request,
    r: Result<Response, HeaderLimit>,
)
    requires
        call_ensures(Service::new, (), service),
        req.method != Method::Other,
        call_ensures(Service::call, (&service, req), r),
    ensures
        r is Ok,
        r.unwrap()@ == (ResponseView {
            status: Status::NoContent,
            headers: Map::empty(),
            body: BodyView::Empty,
        }),
{
}

/// Once a payload has been stored, a HEAD request that does not revalidate
/// is answered with status 200 and no body, and the last value under `etag`
/// is the identity token of the payload.
pub proof fn law_head_after_fill(store: ServiceView, payload: Seq<u8>, req: RequestView)
    requires
        req.method == Method::Head,
        !ServiceView::revalidates(req, payload),
    ensures
        store.fill(payload).response(req).status == Status::Success,
        store.fill(payload).response(req).body == BodyView::Empty,
        store.fill(payload).response(req).headers.contains_key(etag_field()),
        store.fill(payload).response(req).headers[etag_field()].last() == identity_of(payload),
{
}

/// Once a payload has been stored, a GET or HEAD request whose validator is
/// the identity token of the payload is answered with status 304, no header
/// and no body.
pub proof fn law_revalidation_after_fill(store: ServiceView, payload: Seq<u8>, req: RequestView)
    requires
        req.method != Method::Other,
        first_value(req.headers, if_none_match_field()) == Some(identity_of(payload)),
    ensures
        store.fill(payload).response(req) == (ResponseView {
            status: Status::NotModified,
            headers: Map::empty(),
            body: BodyView::Empty,
        }),
{
    let token = identity_of(payload);
    assert(token.subrange(0, token.len() as int) =~= token);
    assert(occurs_at(token, token, 0));
}

/// Once a payload with at least one byte has been stored, a GET request that
/// does not revalidate and names no encodings is answered with status 200 and
/// the stored bytes, whatever encoding is declared. With the identity encoding
/// declared that is so whatever the request accepts. The configured headers
/// go out as they are, with the identity token added.
pub proof fn law_get_after_fill(store: ServiceView, payload: Seq<u8>, req: RequestView)
    requires
        payload.len() > 0,
        req.method == Method::Get,
        !ServiceView::revalidates(req, payload),
        store.encoding == Encoding::Identity || !req.headers.contains_key(accept_encoding_field()),
    ensures
        store.fill(payload).response(req) == (ResponseView {
            status: Status::Success,
            headers: with_added(store.headers, etag_field(), identity_of(payload)),
            body: BodyView::Buf { inner: Some(payload) },
        }),
{
}

/// The names `etag` and `content-encoding` differ.
pub proof fn lemma_field_names_differ()
    ensures
        etag_field() != content_encoding_field(),
{
    broadcast use vstd::string::is_ascii_spec_bytes;

    reveal_strlit("etag");
    reveal_strlit("content-encoding");
    assert(vstd::string::is_ascii("etag"));
    assert(vstd::string::is_ascii("content-encoding"));
    assert(etag_field().len() == 4);
    assert(content_encoding_field().len() == 16);
}

/// With an encoding other than the identity declared and a payload of at
/// least one byte stored, a GET request that does not revalidate is answered
/// with status 200 and: the stored bytes under the content-encoding header of
/// the declared encoding, where the request names no encodings or one in
/// which the name of the declared encoding occurs; else the bytes that a
/// decoder of the declared encoding draws from the stored bytes, under no
/// content-encoding header.
pub proof fn law_negotiation(
    store: ServiceView,
    encoding: Encoding,
    payload: Seq<u8>,
    req: RequestView,
)
    requires
        encoding != Encoding::Identity,
        payload.len() > 0,
        req.method == Method::Get,
        !ServiceView::revalidates(req, payload),
    ensures
        ({
            let filled = store.set_encoding(encoding).fill(payload);
            let response = filled.response(req);
            let offer = first_value(req.headers, accept_encoding_field());
            &&& response.status == Status::Success
            &&& response.headers.contains_key(etag_field())
            &&& response.headers[etag_field()].last() == identity_of(payload)
            &&& if offer is None || contains_subseq(offer.unwrap(), encoding.wire_name()) {
                &&& response.body == (BodyView::Buf { inner: Some(payload) })
                &&& first_value(response.headers, content_encoding_field()) == Some(
                    encoding.wire_name(),
                )
            } else {
                &&& response.body == (BodyView::Stream {
                    encoding,
                    source: payload,
                    drawn: Seq::empty(),
                    pending: decoded(encoding, payload).0,
                    broken: decoded(encoding, payload).1,
                    finished: false,
                })
                &&& !response.headers.contains_key(content_encoding_field())
            }
        }),
{
    lemma_field_names_differ();
}

/// Once a payload without bytes has been stored, a GET request that does not
/// revalidate is answered with status 200, no body, no content-encoding
/// header and the reserved token under `etag`, whatever encoding is declared.
pub proof fn law_empty_payload(store: ServiceView, payload: Seq<u8>, req: RequestView)
    requires
        payload.len() == 0,
        req.method == Method::Get,
        !ServiceView::revalidates(req, payload),
    ensures
        store.fill(payload).response(req).status == Status::Success,
        store.fill(payload).response(req).body == BodyView::Empty,
        !store.fill(payload).response(req).headers.contains_key(content_encoding_field()),
        store.fill(payload).response(req).headers.contains_key(etag_field()),
        store.fill(payload).response(req).headers[etag_field()].last() == empty_identity(),
{
    lemma_field_names_differ();
}

/// What goes out to a client that cannot take the stored encoding is the
/// decoded form of the payload: the body is the stream of a decoder of the
/// declared encoding over the stored bytes, from which nothing has been drawn
/// and which has still to hand out all that decoding them gives.
pub proof fn law_decoded_payload_goes_out(store: ServiceView, req: RequestView)
    requires
        store.outcome(req) is Decode,
    ensures
        store.stored is Some,
        store.response(req).body == (BodyView::Stream {
            encoding: store.encoding,
            source: store.stored.unwrap(),
            drawn: Seq::empty(),
            pending: decoded(store.encoding, store.stored.unwrap()).0,
            broken: decoded(store.encoding, store.stored.unwrap()).1,
            finished: false,
        }),
        store.response(req).body.faithful(),
{
    let payload = store.stored.unwrap();
    assert(Seq::<u8>::empty() + decoded(store.encoding, payload).0 =~= decoded(
        store.encoding,
        payload,
    ).0);
}

/// Every response that serves the payload is made of one stored payload: the
/// last value under `etag` is the identity token of the very bytes that the
/// body hands out or decodes, and a decoder is one of the declared encoding.
pub proof fn law_identity_goes_with_body(store: ServiceView, req: RequestView)
    requires
        store.outcome(req).serves(),
    ensures
        store.stored is Some,
        store.response(req).status == Status::Success,
        store.response(req).headers.contains_key(etag_field()),
        store.response(req).headers[etag_field()].last() == identity_of(store.stored.unwrap()),
        match store.response(req).body {
            BodyView::Empty => true,
            BodyView::Buf { inner } => inner == store.stored,
            BodyView::Bytes { .. } => false,
            BodyView::Stream { encoding, source, drawn, pending, broken, finished } => {
                &&& encoding == store.encoding
                &&& Some(source) == store.stored
                &&& drawn.len() == 0
                &&& pending == decoded(encoding, source).0
                &&& broken == decoded(encoding, source).1
                &&& !finished
            },
        },
{
    lemma_field_names_differ();
}

} // verus!
