use bufd::body::{Feed, QUEUE_CAPACITY};
use bufd::inflate::CHUNK_SIZE;
use bufd::{Body, BodyChunk, DecodeError, DecodeStep, Decoder, Encoding, Frame, SizeHint};
use bytes::Bytes;
use std::io::Write;

fn gzip_of(plain: &[u8]) -> Vec<u8> {
    let mut encoder = flate2::write::GzEncoder::new(vec![], flate2::Compression::default());
    encoder.write_all(plain).unwrap();
    encoder.finish().unwrap()
}

fn deflate_of(plain: &[u8]) -> Vec<u8> {
    let mut encoder = flate2::write::DeflateEncoder::new(vec![], flate2::Compression::default());
    encoder.write_all(plain).unwrap();
    encoder.finish().unwrap()
}

fn brotli_of(plain: &[u8]) -> Vec<u8> {
    let mut encoder = brotli::CompressorWriter::new(vec![], 4096, 5, 22);
    encoder.write_all(plain).unwrap();
    encoder.into_inner()
}

fn plain_text(len: usize) -> Vec<u8> {
    (0..len).map(|i| b"abcdefghijklmnopqrstuvwxyz\n"[(i * i + i / 7) % 27]).collect()
}

fn stream(encoding: Encoding, stored: Vec<u8>) -> Body {
    Body::from(Decoder::new(encoding, Bytes::from(stored)))
}

#[test]
fn empty_body_is_done_at_once() {
    let mut body = Body::Empty;
    assert!(body.is_end_stream());
    assert_eq!(body.size_hint(), SizeHint { lower: 0, upper: Some(0) });
    assert!(matches!(body.next_frame(), Frame::End));
    assert!(matches!(body.next_frame(), Frame::End));
    assert!(body.is_end_stream());
}

#[test]
fn buffered_body_hands_out_one_chunk() {
    let mut body = Body::new(Bytes::from_static(b"hello"));
    assert!(!body.is_end_stream());
    assert_eq!(body.size_hint(), SizeHint { lower: 5, upper: Some(5) });
    match body.next_frame() {
        Frame::Data(BodyChunk::Buf(chunk)) => assert_eq!(&chunk[..], b"hello"),
        _ => panic!("a chunk of the stored payload is due"),
    }
    assert!(body.is_end_stream());
    assert_eq!(body.size_hint(), SizeHint { lower: 0, upper: Some(0) });
    assert!(matches!(body.next_frame(), Frame::End));
    assert!(matches!(body.next_frame(), Frame::End));
}

#[test]
fn static_body_hands_out_one_chunk() {
    let mut body = Body::from_static(b"Method not allowed");
    assert!(!body.is_end_stream());
    assert_eq!(body.size_hint(), SizeHint { lower: 18, upper: Some(18) });
    match body.next_frame() {
        Frame::Data(BodyChunk::Bytes(chunk)) => assert_eq!(&chunk[..], b"Method not allowed"),
        _ => panic!("a chunk of plain bytes is due"),
    }
    assert!(body.is_end_stream());
    assert!(matches!(body.next_frame(), Frame::End));

    let mut body = Body::from(Bytes::from(vec![1, 2, 3]));
    assert_eq!(body.size_hint(), SizeHint { lower: 3, upper: Some(3) });
    match body.next_frame() {
        Frame::Data(BodyChunk::Bytes(chunk)) => assert_eq!(&chunk[..], [1, 2, 3]),
        _ => panic!("a chunk of plain bytes is due"),
    }
}

#[test]
fn body_of_no_bytes_still_hands_out_its_chunk() {
    let mut body = Body::new(Bytes::new());
    assert!(!body.is_end_stream());
    assert_eq!(body.size_hint(), SizeHint { lower: 0, upper: Some(0) });
    match body.next_frame() {
        Frame::Data(chunk) => assert_eq!(chunk.remaining(), 0),
        _ => panic!("the chunk without bytes is due"),
    }
    assert!(matches!(body.next_frame(), Frame::End));
}

#[test]
fn chunk_is_consumed_from_the_front() {
    let mut chunk = BodyChunk::Buf(Bytes::from_static(b"hello world"));
    assert_eq!(chunk.remaining(), 11);
    assert_eq!(chunk.chunk(), b"hello world");
    chunk.advance(6);
    assert_eq!(chunk.remaining(), 5);
    assert_eq!(chunk.chunk(), b"world");
    chunk.advance(0);
    assert_eq!(chunk.chunk(), b"world");
    chunk.advance(5);
    assert_eq!(chunk.remaining(), 0);
    assert_eq!(chunk.chunk(), b"");
    assert!(matches!(chunk, BodyChunk::Buf(_)));

    let mut chunk = BodyChunk::Bytes(Bytes::from(vec![9, 8, 7]));
    chunk.advance(1);
    assert_eq!(chunk.chunk(), [8, 7]);
    assert!(matches!(chunk, BodyChunk::Bytes(_)));
}

#[test]
fn stream_decodes_in_chunks_of_limited_size() {
    let plain = plain_text(5000);
    for (encoding, stored) in [
        (Encoding::Gzip, gzip_of(&plain)),
        (Encoding::Deflate, deflate_of(&plain)),
        (Encoding::Br, brotli_of(&plain)),
    ] {
        let mut body = stream(encoding, stored);
        assert!(!body.is_end_stream());
        assert_eq!(body.size_hint(), SizeHint { lower: 0, upper: None });
        let mut decoded = Vec::new();
        let mut chunks = 0;
        loop {
            match body.next_frame() {
                Frame::Data(chunk) => {
                    assert!(matches!(chunk, BodyChunk::Bytes(_)));
                    assert!(chunk.remaining() >= 1);
                    assert!(chunk.remaining() <= CHUNK_SIZE);
                    decoded.extend_from_slice(chunk.chunk());
                    chunks += 1;
                }
                Frame::End => break,
                Frame::Fault(error) => panic!("well-formed data is malformed: {error:?}"),
            }
        }
        assert_eq!(decoded, plain);
        assert!(chunks >= 10);
        assert!(matches!(body.next_frame(), Frame::End));
        assert!(matches!(body.next_frame(), Frame::End));
        assert!(!body.is_end_stream());
    }
}

#[test]
fn stream_of_no_plain_bytes_ends_at_once() {
    for (encoding, stored) in [
        (Encoding::Gzip, gzip_of(b"")),
        (Encoding::Deflate, deflate_of(b"")),
        (Encoding::Br, brotli_of(b"")),
    ] {
        let mut body = stream(encoding, stored);
        assert!(matches!(body.next_frame(), Frame::End));
        assert!(matches!(body.next_frame(), Frame::End));
    }
}

#[test]
fn malformed_payload_is_a_fault_and_then_the_end() {
    for encoding in [Encoding::Gzip, Encoding::Deflate, Encoding::Br] {
        let mut body = stream(encoding, vec![0xff; 100]);
        match body.next_frame() {
            Frame::Fault(error) => assert_eq!(error, DecodeError { encoding }),
            _ => panic!("bytes that are not {encoding:?} data were decoded"),
        }
        assert!(matches!(body.next_frame(), Frame::End));
        assert!(matches!(body.next_frame(), Frame::End));
    }
}

#[test]
fn truncated_payload_is_a_fault_after_what_could_be_decoded() {
    let plain = plain_text(20_000);
    for (encoding, mut stored) in [
        (Encoding::Gzip, gzip_of(&plain)),
        (Encoding::Deflate, deflate_of(&plain)),
        (Encoding::Br, brotli_of(&plain)),
    ] {
        stored.truncate(stored.len() / 2);
        let mut body = stream(encoding, stored);
        let mut decoded = Vec::new();
        let fault = loop {
            match body.next_frame() {
                Frame::Data(chunk) => decoded.extend_from_slice(chunk.chunk()),
                Frame::End => panic!("half of the {encoding:?} data was taken for all of it"),
                Frame::Fault(error) => break error,
            }
        };
        assert_eq!(fault.encoding, encoding);
        assert!(decoded.len() < plain.len());
        assert_eq!(decoded, &plain[..decoded.len()]);
        assert!(matches!(body.next_frame(), Frame::End));
    }
}

#[test]
fn cancelled_body_is_done() {
    let mut body = stream(Encoding::Gzip, gzip_of(&plain_text(5000)));
    assert!(matches!(body.next_frame(), Frame::Data(_)));
    body.cancel();
    assert!(matches!(body.next_frame(), Frame::End));

    let mut body = Body::new(Bytes::from_static(b"abc"));
    body.cancel();
    assert!(body.is_end_stream());
    assert!(matches!(body.next_frame(), Frame::End));

    let mut body = Body::from_static(b"abc");
    body.cancel();
    assert!(matches!(body.next_frame(), Frame::End));

    let mut body = Body::Empty;
    body.cancel();
    assert!(matches!(body.next_frame(), Frame::End));
}

#[test]
fn worker_sends_chunks_and_closes_at_the_end() {
    assert_eq!(QUEUE_CAPACITY, 1);
    let plain = plain_text(2000);
    let mut body = stream(Encoding::Deflate, deflate_of(&plain));
    let mut queue = Vec::new();
    loop {
        match body.feed(true) {
            Feed::Send(Frame::Data(chunk)) => queue.extend_from_slice(chunk.chunk()),
            Feed::Send(_) => panic!("only chunks are due"),
            Feed::Close => break,
        }
    }
    assert_eq!(queue, plain);
    assert!(matches!(body.feed(true), Feed::Close));
}

#[test]
fn worker_stops_when_the_consumer_is_gone() {
    let mut body = stream(Encoding::Gzip, gzip_of(&plain_text(5000)));
    assert!(matches!(body.feed(true), Feed::Send(Frame::Data(_))));
    assert!(matches!(body.feed(false), Feed::Close));
    assert!(matches!(body.feed(true), Feed::Close));
    assert!(matches!(body.next_frame(), Frame::End));
}

#[test]
fn worker_sends_a_fault_and_closes() {
    let mut body = stream(Encoding::Br, vec![0xff; 64]);
    match body.feed(true) {
        Feed::Send(Frame::Fault(error)) => assert_eq!(error.encoding, Encoding::Br),
        _ => panic!("a fault is due"),
    }
    assert!(matches!(body.feed(true), Feed::Close));
}

#[test]
fn decoder_reads_chunk_by_chunk() {
    let plain = plain_text(1300);
    let mut decoder = Decoder::new(Encoding::Gzip, Bytes::from(gzip_of(&plain)));
    let mut decoded = Vec::new();
    loop {
        match decoder.read_chunk() {
            DecodeStep::Chunk(chunk) => {
                assert!(!chunk.is_empty() && chunk.len() <= 512);
                decoded.extend_from_slice(&chunk);
            }
            DecodeStep::End => break,
            DecodeStep::Fault(error) => panic!("well-formed data is malformed: {error:?}"),
        }
    }
    assert_eq!(decoded, plain);
}

#[test]
fn read_of_no_bytes_is_the_end() {
    let step = DecodeStep::from_read(Encoding::Gzip, Ok(0), vec![1, 2, 3]);
    assert!(matches!(step, DecodeStep::End));
    let step = DecodeStep::from_read(Encoding::Gzip, Ok(0), vec![]);
    assert!(matches!(step, DecodeStep::End));
}

#[test]
fn read_of_some_bytes_is_a_chunk_from_the_front() {
    match DecodeStep::from_read(Encoding::Br, Ok(2), vec![1, 2, 3]) {
        DecodeStep::Chunk(chunk) => assert_eq!(&chunk[..], [1, 2]),
        _ => panic!("a chunk is due"),
    }
    match DecodeStep::from_read(Encoding::Br, Ok(3), vec![1, 2, 3]) {
        DecodeStep::Chunk(chunk) => assert_eq!(&chunk[..], [1, 2, 3]),
        _ => panic!("a chunk is due"),
    }
}

#[test]
fn failed_read_is_a_fault() {
    let error = std::io::Error::new(std::io::ErrorKind::InvalidData, "corrupt stream");
    match DecodeStep::from_read(Encoding::Deflate, Err(error), vec![1, 2, 3]) {
        DecodeStep::Fault(fault) => assert_eq!(fault, DecodeError { encoding: Encoding::Deflate }),
        _ => panic!("a fault is due"),
    }
    match DecodeStep::from_read(Encoding::Gzip, Ok(4), vec![1, 2, 3]) {
        DecodeStep::Fault(fault) => assert_eq!(fault.encoding, Encoding::Gzip),
        _ => panic!("a fault is due"),
    }
}

#[test]
fn broken_payload_never_ends_as_if_complete() {
    let plain = plain_text(3000);
    for (encoding, mut stored) in [
        (Encoding::Gzip, gzip_of(&plain)),
        (Encoding::Deflate, deflate_of(&plain)),
        (Encoding::Br, brotli_of(&plain)),
    ] {
        let at = stored.len() / 2;
        stored[at] ^= 0x55;
        stored.truncate(stored.len() - 4);
        let mut body = stream(encoding, stored);
        let mut frames = 0;
        let last = loop {
            frames += 1;
            assert!(frames < 1000);
            match body.next_frame() {
                Frame::Data(_) => {}
                last => break last,
            }
        };
        match last {
            Frame::Fault(error) => assert_eq!(error.encoding, encoding),
            _ => panic!("broken {encoding:?} data ended as if it were complete"),
        }
    }
}

#[test]
fn bytes_behind_brotli_data_fail_only_after_the_end() {
    let plain = plain_text(700);
    let mut stored = brotli_of(&plain);
    stored.extend_from_slice(b"bytes that are no brotli data");

    // The body is done at the end of the data and reads no further.
    let mut body = stream(Encoding::Br, stored.clone());
    let mut decoded = Vec::new();
    loop {
        match body.next_frame() {
            Frame::Data(chunk) => decoded.extend_from_slice(chunk.chunk()),
            Frame::End => break,
            Frame::Fault(error) => panic!("the data is malformed before its end: {error:?}"),
        }
    }
    assert_eq!(decoded, plain);
    assert!(matches!(body.next_frame(), Frame::End));

    // A decoder that is read past the end of the data may give either.
    let mut decoder = Decoder::new(Encoding::Br, Bytes::from(stored));
    let mut decoded = Vec::new();
    loop {
        match decoder.read_chunk() {
            DecodeStep::Chunk(chunk) => decoded.extend_from_slice(&chunk),
            DecodeStep::End => break,
            DecodeStep::Fault(error) => panic!("the data is malformed before its end: {error:?}"),
        }
    }
    assert_eq!(decoded, plain);
    match decoder.read_chunk() {
        DecodeStep::End => {}
        DecodeStep::Fault(error) => assert_eq!(error.encoding, Encoding::Br),
        DecodeStep::Chunk(_) => panic!("a chunk came after the end of the data"),
    }
}
