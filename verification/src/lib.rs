//! A store of one in-memory payload that answers HTTP-like requests for it:
//! with conditional requests by a content-derived identity token, and with
//! negotiation of the content encoding, decoding the stored bytes for a
//! client that cannot take them as they are.

pub mod body;
pub mod buffer;
pub mod digest;
pub mod encoding;
pub mod etag;
pub mod header;
pub mod inflate;
pub mod scan;
pub mod service;

pub use body::{Body, BodyChunk, Frame, SizeHint};
pub use encoding::Encoding;
pub use etag::ETag;
pub use inflate::{DecodeError, DecodeStep, Decoder};
pub use service::{
    HeaderLimit, Method, Outcome, Request, Response, Service, Snapshot, Status,
};
