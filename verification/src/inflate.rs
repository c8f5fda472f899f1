//! Decoding a stored payload chunk by chunk, for a client that cannot take
//! the encoding it is stored in.
//!
//! The decompressors are those of `flate2` and `brotli_decompressor`. Verus
//! cannot look inside them: what is taken on trust about each call is listed
//! with it.

use crate::buffer::{bytes_from_vec, bytes_view};
use crate::encoding::Encoding;
use bytes::buf::Reader;
use bytes::Bytes;
use flate2::read::{DeflateDecoder, GzDecoder};
use vstd::prelude::*;

verus! {

/// `bytes::buf::Reader`, which reads from a buffer as `std::io::Read` asks.
#[verifier::external_type_specification]
#[verifier::external_body]
#[verifier::reject_recursive_types(B)]
pub struct ExReader<B>(Reader<B>);

/// `flate2::read::GzDecoder`, taken as it is.
#[verifier::external_type_specification]
#[verifier::external_body]
#[verifier::reject_recursive_types(R)]
pub struct ExGzDecoder<R>(GzDecoder<R>);

/// `flate2::read::DeflateDecoder`, taken as it is.
#[verifier::external_type_specification]
#[verifier::external_body]
#[verifier::reject_recursive_types(R)]
pub struct ExDeflateDecoder<R>(DeflateDecoder<R>);

/// `std::io::Error`, with which a decompressor fails.
#[verifier::external_type_specification]
#[verifier::external_body]
pub struct ExIoError(std::io::Error);

/// A `brotli_decompressor::Decompressor` over a payload. The outside type is
/// bounded by `std::io::Read`, so it is kept behind this struct.
#[verifier::external_body]
pub struct BrotliDecoder {
    inner: brotli_decompressor::Decompressor<Reader<Bytes>>,
}

/// The largest number of bytes that one chunk holds.
pub const CHUNK_SIZE: usize = 512;

/// What decoding `source` as gzip gives: the bytes that can be decoded from
/// it before the data ends or breaks, and whether it breaks, which is
/// whether the first read that yields no chunk is one that fails.
pub uninterp spec fn gzip_decoded(source: Seq<u8>) -> (Seq<u8>, bool);

/// What decoding `source` as deflate gives: the bytes that can be decoded from
/// it before the data ends or breaks, and whether it breaks, which is
/// whether the first read that yields no chunk is one that fails.
pub uninterp spec fn deflate_decoded(source: Seq<u8>) -> (Seq<u8>, bool);

/// What decoding `source` as brotli gives: the bytes that can be decoded from
/// it before the data ends or breaks, and whether it breaks, which is
/// whether the first read that yields no chunk is one that fails.
pub uninterp spec fn brotli_decoded(source: Seq<u8>) -> (Seq<u8>, bool);

/// The decoded bytes that a gzip decompressor has still to hand out: all
/// that can be decoded from where it stands before the data ends or breaks.
pub uninterp spec fn gzip_pending(decoder: GzDecoder<Reader<Bytes>>) -> Seq<u8>;

/// Whether the data that a gzip decompressor has still to decode breaks, so
/// that the first of its reads that yields no chunk is one that fails rather
/// than one of no bytes.
pub uninterp spec fn gzip_broken(decoder: GzDecoder<Reader<Bytes>>) -> bool;

/// The decoded bytes that a deflate decompressor has still to hand out: all
/// that can be decoded from where it stands before the data ends or breaks.
pub uninterp spec fn deflate_pending(decoder: DeflateDecoder<Reader<Bytes>>) -> Seq<u8>;

/// Whether the data that a deflate decompressor has still to decode breaks, so
/// that the first of its reads that yields no chunk is one that fails rather
/// than one of no bytes.
pub uninterp spec fn deflate_broken(decoder: DeflateDecoder<Reader<Bytes>>) -> bool;

/// The decoded bytes that a brotli decompressor has still to hand out: all
/// that can be decoded from where it stands before the data ends or breaks.
pub uninterp spec fn brotli_pending(decoder: BrotliDecoder) -> Seq<u8>;

/// Whether the data that a brotli decompressor has still to decode breaks, so
/// that the first of its reads that yields no chunk is one that fails rather
/// than one of no bytes.
pub uninterp spec fn brotli_broken(decoder: BrotliDecoder) -> bool;

/// What a read of `n` bytes into a buffer with `room` does to the bytes that
/// a decompressor has still to hand out. The bytes at the front of the
/// buffer, `filled`, are the next `n` of them, and they are handed out: what
/// is left `after` the read is what there was `before` without them. A read
/// of no bytes into a buffer that has room tells that none were left; of
/// what the decompressor holds after such a read nothing is said.
pub open spec fn hands_out(
    before: Seq<u8>,
    after: Seq<u8>,
    room: nat,
    filled: Seq<u8>,
    n: nat,
) -> bool {
    &&& n <= room
    &&& n <= before.len()
    &&& filled.take(n as int) == before.take(n as int)
    &&& n > 0 ==> after == before.skip(n as int)
    &&& n == 0 && room > 0 ==> before.len() == 0
}

/// What a read tells of whether the data of a decompressor breaks: `broken`
/// before the read, `left` after it. A read that fails comes only where the
/// data breaks. A read of no bytes into a buffer that has room comes only
/// where it does not. A read of some bytes leaves open which it is, and
/// changes nothing in it. Of a decompressor after a read of no bytes, or
/// after one that failed, nothing is said.
pub open spec fn tells(
    broken: bool,
    left: bool,
    room: nat,
    read: Result<usize, std::io::Error>,
) -> bool {
    match read {
        Ok(n) => (n > 0 ==> left == broken) && (n == 0 && room > 0 ==> !broken),
        Err(_) => broken,
    }
}

/// `GzDecoder::new` over `Buf::reader`: a gzip decompressor that will read
/// `source`, so that what it has to hand out is what decoding `source` gives.
#[verifier::external_body]
fn gzip_decoder(source: Bytes) -> (decoder: GzDecoder<Reader<Bytes>>)
    ensures
        gzip_pending(decoder) == gzip_decoded(bytes_view(source)).0,
        gzip_broken(decoder) == gzip_decoded(bytes_view(source)).1,
{
    GzDecoder::new(bytes::Buf::reader(source))
}

/// `DeflateDecoder::new` over `Buf::reader`: a deflate decompressor that will
/// read `source`, so that what it has to hand out is what decoding `source`
/// gives.
#[verifier::external_body]
fn deflate_decoder(source: Bytes) -> (decoder: DeflateDecoder<Reader<Bytes>>)
    ensures
        deflate_pending(decoder) == deflate_decoded(bytes_view(source)).0,
        deflate_broken(decoder) == deflate_decoded(bytes_view(source)).1,
{
    DeflateDecoder::new(bytes::Buf::reader(source))
}

/// `Decompressor::new` over `Buf::reader`: a brotli decompressor that will
/// read `source` through an input buffer of `buffer_size` bytes, so that what
/// it has to hand out is what decoding `source` gives.
#[verifier::external_body]
fn brotli_decoder(source: Bytes, buffer_size: usize) -> (decoder: BrotliDecoder)
    ensures
        brotli_pending(decoder) == brotli_decoded(bytes_view(source)).0,
        brotli_broken(decoder) == brotli_decoded(bytes_view(source)).1,
{
    let reader = bytes::Buf::reader(source);
    BrotliDecoder { inner: brotli_decompressor::Decompressor::new(reader, buffer_size) }
}

/// `<GzDecoder<_> as Read>::read`: writes the next decoded bytes to the
/// front of `buf` and tells how many, which is no more than `buf` has room
/// for. It tells of none only at the end of the data, and fails only where
/// the data is broken. What a read after the end of the data or after a
/// failure gives is left open.
#[verifier::external_body]
fn gzip_read(decoder: &mut GzDecoder<Reader<Bytes>>, buf: &mut Vec<u8>) -> (r: Result<
    usize,
    std::io::Error,
>)
    ensures
        final(buf)@.len() == old(buf)@.len(),
        r matches Ok(n) ==> hands_out(
            gzip_pending(*old(decoder)),
            gzip_pending(*final(decoder)),
            old(buf)@.len(),
            final(buf)@,
            n as nat,
        ),
        tells(gzip_broken(*old(decoder)), gzip_broken(*final(decoder)), old(buf)@.len(), r),
{
    std::io::Read::read(decoder, buf.as_mut_slice())
}

/// `<DeflateDecoder<_> as Read>::read`: writes the next decoded bytes to the
/// front of `buf` and tells how many, which is no more than `buf` has room
/// for. It tells of none only at the end of the data, and fails only where
/// the data is broken. What a read after the end of the data or after a
/// failure gives is left open.
#[verifier::external_body]
fn deflate_read(decoder: &mut DeflateDecoder<Reader<Bytes>>, buf: &mut Vec<u8>) -> (r: Result<
    usize,
    std::io::Error,
>)
    ensures
        final(buf)@.len() == old(buf)@.len(),
        r matches Ok(n) ==> hands_out(
            deflate_pending(*old(decoder)),
            deflate_pending(*final(decoder)),
            old(buf)@.len(),
            final(buf)@,
            n as nat,
        ),
        tells(deflate_broken(*old(decoder)), deflate_broken(*final(decoder)), old(buf)@.len(), r),
{
    std::io::Read::read(decoder, buf.as_mut_slice())
}

/// `<Decompressor<_> as Read>::read`: writes the next decoded bytes to the
/// front of `buf` and tells how many, which is no more than `buf` has room
/// for. It tells of none only at the end of the data, and fails only where
/// the data is broken. What a read after the end of the data or after a
/// failure gives is left open.
#[verifier::external_body]
fn brotli_read(decoder: &mut BrotliDecoder, buf: &mut Vec<u8>) -> (r: Result<usize, std::io::Error>)
    ensures
        final(buf)@.len() == old(buf)@.len(),
        r matches Ok(n) ==> hands_out(
            brotli_pending(*old(decoder)),
            brotli_pending(*final(decoder)),
            old(buf)@.len(),
            final(buf)@,
            n as nat,
        ),
        tells(brotli_broken(*old(decoder)), brotli_broken(*final(decoder)), old(buf)@.len(), r),
{
    std::io::Read::read(&mut decoder.inner, buf.as_mut_slice())
}

/// A stored payload could not be decoded from the encoding it was declared
/// to be in.
#[derive(Debug, PartialEq, Eq, Clone, Copy, Structural)]
pub struct DecodeError {
    pub encoding: Encoding,
}

/// What one pull on a decoder gave.
#[derive(Debug)]
pub enum DecodeStep {
    /// The next decoded bytes.
    Chunk(Bytes),
    /// The payload has been decoded to its end.
    End,
    /// The payload is malformed.
    Fault(DecodeError),
}

impl DecodeStep {
    /// What a read of `encoding`'s decompressor into `buf` amounts to. A read
    /// of no bytes is the end of the data. A read of some bytes is a chunk of
    /// that many bytes from the front of `buf`. An error of the decompressor
    /// is a fault, and so is a count above what `buf` holds.
    pub fn from_read(encoding: Encoding, read: Result<usize, std::io::Error>, buf: Vec<u8>) -> (step:
        Self)
        ensures
            match read {
                Ok(n) => if n == 0 {
                    step is End
                } else if n <= buf@.len() {
                    step matches DecodeStep::Chunk(chunk) && bytes_view(chunk) == buf@.take(
                        n as int,
                    )
                } else {
                    step == DecodeStep::Fault(DecodeError { encoding })
                },
                Err(_) => step == DecodeStep::Fault(DecodeError { encoding }),
            },
    {
        match read {
            Ok(n) => {
                if n == 0 {
                    DecodeStep::End
                } else if n <= buf.len() {
                    let mut buf = buf;
                    buf.truncate(n);
                    DecodeStep::Chunk(bytes_from_vec(buf))
                } else {
                    DecodeStep::Fault(DecodeError { encoding })
                }
            },
            Err(_) => DecodeStep::Fault(DecodeError { encoding }),
        }
    }
}

/// What decoding `source` from `encoding` gives: the decoded bytes up to the
/// end of the data or to the place where it is broken, and whether it is
/// broken. Bytes in the identity encoding are their own decoded form.
pub open spec fn decoded(encoding: Encoding, source: Seq<u8>) -> (Seq<u8>, bool) {
    match encoding {
        Encoding::Identity => (source, false),
        Encoding::Br => brotli_decoded(source),
        Encoding::Gzip => gzip_decoded(source),
        Encoding::Deflate => deflate_decoded(source),
    }
}

enum Inflater {
    Br(BrotliDecoder),
    Gzip(GzDecoder<Reader<Bytes>>),
    Deflate(DeflateDecoder<Reader<Bytes>>),
}

/// A decompressor at work on one stored payload.
pub struct Decoder {
    inflater: Inflater,
    source: Ghost<Seq<u8>>,
    drawn: Ghost<Seq<u8>>,
}

impl Decoder {
    /// The encoding that is being decoded.
    pub closed spec fn encoding(&self) -> Encoding {
        match self.inflater {
            Inflater::Br(_) => Encoding::Br,
            Inflater::Gzip(_) => Encoding::Gzip,
            Inflater::Deflate(_) => Encoding::Deflate,
        }
    }

    /// The stored bytes that the decompressor was given to read.
    pub closed spec fn source(&self) -> Seq<u8> {
        self.source@
    }

    /// The decoded bytes that have been drawn from it so far.
    pub closed spec fn drawn(&self) -> Seq<u8> {
        self.drawn@
    }

    /// The decoded bytes that the decompressor has still to hand out.
    pub closed spec fn pending(&self) -> Seq<u8> {
        match self.inflater {
            Inflater::Br(decoder) => brotli_pending(decoder),
            Inflater::Gzip(decoder) => gzip_pending(decoder),
            Inflater::Deflate(decoder) => deflate_pending(decoder),
        }
    }

    /// Whether the pending bytes end in a fault, rather than in the end of
    /// the data.
    pub closed spec fn broken(&self) -> bool {
        match self.inflater {
            Inflater::Br(decoder) => brotli_broken(decoder),
            Inflater::Gzip(decoder) => gzip_broken(decoder),
            Inflater::Deflate(decoder) => deflate_broken(decoder),
        }
    }

    /// No decoder is at work on the identity encoding.
    pub proof fn lemma_encoding(&self)
        ensures
            self.encoding() != Encoding::Identity,
    {
    }

    /// A decompressor for `encoding` over `source`, from which nothing has
    /// been drawn yet: it has still to hand out all that decoding `source`
    /// gives. The identity encoding needs no decoding.
    pub fn new(encoding: Encoding, source: Bytes) -> (decoder: Self)
        requires
            encoding != Encoding::Identity,
        ensures
            decoder.encoding() == encoding,
            decoder.source() == bytes_view(source),
            decoder.drawn() == Seq::<u8>::empty(),
            decoder.pending() == decoded(encoding, bytes_view(source)).0,
            decoder.broken() == decoded(encoding, bytes_view(source)).1,
    {
        let ghost bytes = bytes_view(source);
        let inflater = match encoding {
            Encoding::Br => Inflater::Br(brotli_decoder(source, CHUNK_SIZE)),
            Encoding::Gzip => Inflater::Gzip(gzip_decoder(source)),
            _ => Inflater::Deflate(deflate_decoder(source)),
        };
        Decoder { inflater, source: Ghost(bytes), drawn: Ghost(Seq::empty()) }
    }

    /// Draws the next chunk by one read of the decompressor into a buffer of
    /// `CHUNK_SIZE` bytes.
    ///
    /// A chunk holds the next decoded bytes that the decompressor had to hand
    /// out: at least one and at most `CHUNK_SIZE`, and they are handed out
    /// with it. The end of the data is told only when the decompressor has
    /// none left and its data is not broken. A fault is one of this
    /// decoder's encoding and comes only where the data is broken. After the
    /// end of the data and after a fault it is left open what the
    /// decompressor holds: a further read may give either.
    pub fn read_chunk(&mut self) -> (step: DecodeStep)
        ensures
            final(self).encoding() == old(self).encoding(),
            final(self).source() == old(self).source(),
            match step {
                DecodeStep::Chunk(chunk) => {
                    &&& 0 < bytes_view(chunk).len() <= CHUNK_SIZE
                    &&& bytes_view(chunk).len() <= old(self).pending().len()
                    &&& bytes_view(chunk) == old(self).pending().take(
                        bytes_view(chunk).len() as int,
                    )
                    &&& final(self).pending() == old(self).pending().skip(
                        bytes_view(chunk).len() as int,
                    )
                    &&& final(self).broken() == old(self).broken()
                    &&& final(self).drawn() == old(self).drawn() + bytes_view(chunk)
                },
                DecodeStep::End => {
                    &&& old(self).pending().len() == 0
                    &&& !old(self).broken()
                    &&& final(self).drawn() == old(self).drawn()
                },
                DecodeStep::Fault(error) => {
                    &&& error.encoding == old(self).encoding()
                    &&& old(self).broken()
                    &&& final(self).drawn() == old(self).drawn()
                },
            },
    {
        let mut buf: Vec<u8> = vec![0u8; CHUNK_SIZE];
        let (encoding, read) = match &mut self.inflater {
            Inflater::Br(decoder) => (Encoding::Br, brotli_read(decoder, &mut buf)),
            Inflater::Gzip(decoder) => (Encoding::Gzip, gzip_read(decoder, &mut buf)),
            Inflater::Deflate(decoder) => (Encoding::Deflate, deflate_read(decoder, &mut buf)),
        };
        let step = DecodeStep::from_read(encoding, read, buf);
        proof {
            if let DecodeStep::Chunk(chunk) = &step {
                self.drawn@ = self.drawn@ + bytes_view(*chunk);
            }
        }
        step
    }
}

} // verus!
