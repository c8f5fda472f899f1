//! The body of a response: no bytes, one chunk that is handed out once, or
//! the chunks that a decoder yields.

use crate::buffer::{bytes_advance, bytes_as_slice, bytes_view};
use crate::encoding::Encoding;
use crate::inflate::{decoded, DecodeError, DecodeStep, Decoder, CHUNK_SIZE};
use bytes::Bytes;
use vstd::prelude::*;
use vstd::std_specs::convert::FromSpecImpl;

verus! {

/// A response body.
pub enum Body {
    /// No bytes.
    Empty,
    /// A stored payload, handed out whole in one chunk.
    Buf { inner: Option<Bytes> },
    /// Bytes that are not a stored payload, handed out whole in one chunk.
    Bytes { inner: Option<Bytes> },
    /// The chunks that `decoder` yields, until it has yielded its last.
    Stream { decoder: Decoder, finished: bool },
}

/// What a body holds.
pub enum BodyView {
    Empty,
    /// The bytes still to be handed out, if they have not been taken.
    Buf { inner: Option<Seq<u8>> },
    /// The bytes still to be handed out, if they have not been taken.
    Bytes { inner: Option<Seq<u8>> },
    /// A decoder for `encoding` over the stored bytes `source`: the decoded
    /// bytes drawn from it so far, the decoded bytes that it has still to
    /// hand out, whether those end in a fault, and whether it has yielded its
    /// last. Of one that has yielded its last nothing is to come: it has
    /// nothing `pending` and is not `broken`.
    Stream {
        encoding: Encoding,
        source: Seq<u8>,
        drawn: Seq<u8>,
        pending: Seq<u8>,
        broken: bool,
        finished: bool,
    },
}

/// The view of the one-chunk variants' slot.
pub open spec fn slot_view(inner: Option<Bytes>) -> Option<Seq<u8>> {
    match inner {
        Some(bytes) => Some(bytes_view(bytes)),
        None => None,
    }
}

impl View for Body {
    type V = BodyView;

    open spec fn view(&self) -> BodyView {
        match *self {
            Body::Empty => BodyView::Empty,
            Body::Buf { inner } => BodyView::Buf { inner: slot_view(inner) },
            Body::Bytes { inner } => BodyView::Bytes { inner: slot_view(inner) },
            Body::Stream { decoder, finished } => BodyView::Stream {
                encoding: decoder.encoding(),
                source: decoder.source(),
                drawn: decoder.drawn(),
                pending: if finished {
                    Seq::empty()
                } else {
                    decoder.pending()
                },
                broken: !finished && decoder.broken(),
                finished,
            },
        }
    }
}

impl BodyView {
    /// Whether nothing is left to be pulled, so that every further pull tells
    /// that the body is done.
    pub open spec fn exhausted(self) -> bool {
        match self {
            BodyView::Empty => true,
            BodyView::Buf { inner } => inner is None,
            BodyView::Bytes { inner } => inner is None,
            BodyView::Stream { finished, .. } => finished,
        }
    }

    /// The body once its chunk has been taken or its decoder has yielded its
    /// last.
    pub open spec fn spent(self) -> BodyView {
        match self {
            BodyView::Empty => BodyView::Empty,
            BodyView::Buf { .. } => BodyView::Buf { inner: None },
            BodyView::Bytes { .. } => BodyView::Bytes { inner: None },
            BodyView::Stream { encoding, source, drawn, .. } => BodyView::Stream {
                encoding,
                source,
                drawn,
                pending: Seq::empty(),
                broken: false,
                finished: true,
            },
        }
    }

    /// Whether a pull on this body may give `frame` and leave `after`.
    ///
    /// A body that is done tells so and stays as it is. A body of one chunk
    /// hands out its bytes and is spent. A stream hands out the next of its
    /// pending bytes, at least one and at most `CHUNK_SIZE`. It is spent at
    /// the end of the data, which comes only when nothing is pending and the
    /// data is not broken, or with a fault of its encoding, which comes only
    /// when the data is broken.
    pub open spec fn pull(self, frame: Frame, after: BodyView) -> bool {
        match self {
            BodyView::Buf { inner: Some(bytes) } => {
                &&& frame matches Frame::Data(BodyChunk::Buf(chunk))
                &&& bytes_view(chunk) == bytes
                &&& after == self.spent()
            },
            BodyView::Bytes { inner: Some(bytes) } => {
                &&& frame matches Frame::Data(BodyChunk::Bytes(chunk))
                &&& bytes_view(chunk) == bytes
                &&& after == self.spent()
            },
            BodyView::Stream { encoding, source, drawn, pending, broken, finished: false } => {
                match frame {
                    Frame::Data(chunk) => {
                        &&& chunk is Bytes
                        &&& 0 < chunk@.len() <= CHUNK_SIZE
                        &&& chunk@.len() <= pending.len()
                        &&& chunk@ == pending.take(chunk@.len() as int)
                        &&& after == (BodyView::Stream {
                            encoding,
                            source,
                            drawn: drawn + chunk@,
                            pending: pending.skip(chunk@.len() as int),
                            broken,
                            finished: false,
                        })
                    },
                    Frame::End => pending.len() == 0 && !broken && after == self.spent(),
                    Frame::Fault(error) => {
                        &&& error.encoding == encoding
                        &&& broken
                        &&& after == self.spent()
                    },
                }
            },
            _ => frame is End && after == self,
        }
    }

    /// Whether a stream is what decoding its source gives: the bytes drawn
    /// from it and the bytes it has still to hand out are, one behind the
    /// other, the decoded form of the source, and it is broken where the
    /// source is. This is so of the stream of a new decoder, and a pull that
    /// hands out a chunk keeps it so.
    pub open spec fn faithful(self) -> bool {
        match self {
            BodyView::Stream { encoding, source, drawn, pending, broken, finished: false } => {
                &&& drawn + pending == decoded(encoding, source).0
                &&& broken == decoded(encoding, source).1
            },
            _ => true,
        }
    }
}

/// One chunk of a body.
#[derive(Debug)]
pub enum BodyChunk {
    Buf(Bytes),
    Bytes(Bytes),
}

impl View for BodyChunk {
    type V = Seq<u8>;

    /// The bytes of the chunk that have not been consumed.
    open spec fn view(&self) -> Seq<u8> {
        match *self {
            BodyChunk::Buf(inner) => bytes_view(inner),
            BodyChunk::Bytes(inner) => bytes_view(inner),
        }
    }
}

impl BodyChunk {
    /// The number of bytes that have not been consumed.
    pub fn remaining(&self) -> (n: usize)
        ensures
            n == self@.len(),
    {
        match self {
            BodyChunk::Buf(inner) => inner.len(),
            BodyChunk::Bytes(inner) => inner.len(),
        }
    }

    /// The bytes that have not been consumed.
    pub fn chunk(&self) -> (bytes: &[u8])
        ensures
            bytes@ == self@,
    {
        match self {
            BodyChunk::Buf(inner) => bytes_as_slice(inner),
            BodyChunk::Bytes(inner) => bytes_as_slice(inner),
        }
    }

    /// Consumes the first `cnt` bytes, of which there must be that many.
    pub fn advance(&mut self, cnt: usize)
        requires
            cnt <= old(self)@.len(),
        ensures
            final(self)@ == old(self)@.skip(cnt as int),
            *old(self) is Buf <==> *final(self) is Buf,
    {
        match self {
            BodyChunk::Buf(inner) => bytes_advance(inner, cnt),
            BodyChunk::Bytes(inner) => bytes_advance(inner, cnt),
        }
    }
}

/// What one pull on a body gave.
#[derive(Debug)]
pub enum Frame {
    /// The next chunk.
    Data(BodyChunk),
    /// The body is done.
    End,
    /// The body ends here, short of its bytes: the stored payload is
    /// malformed.
    Fault(DecodeError),
}

/// What the worker that moves the frames of a body onto a queue does next.
#[derive(Debug)]
pub enum Feed {
    /// It puts the frame on the queue, waiting for room if there is none.
    Send(Frame),
    /// It closes the queue and ends.
    Close,
}

/// The number of frames that the queue between a worker and the consumer of
/// its body has room for.
pub const QUEUE_CAPACITY: usize = 1;

/// What a body tells of its length before it is pulled.
#[derive(Debug, PartialEq, Eq, Clone, Copy, Structural)]
pub struct SizeHint {
    /// The body holds at least this many bytes.
    pub lower: u64,
    /// The body holds at most this many bytes, where that is known.
    pub upper: Option<u64>,
}

impl SizeHint {
    /// The hint of a body that holds exactly `len` bytes.
    pub open spec fn exact(len: int) -> SizeHint {
        SizeHint { lower: len as u64, upper: Some(len as u64) }
    }

    /// The hint of a body of which nothing is known.
    pub open spec fn unknown() -> SizeHint {
        SizeHint { lower: 0, upper: None }
    }
}

impl From<Bytes> for Body {
    fn from(bytes: Bytes) -> (body: Self) {
        Body::Bytes { inner: Some(bytes) }
    }
}

impl FromSpecImpl<Bytes> for Body {
    open spec fn obeys_from_spec() -> bool {
        true
    }

    open spec fn from_spec(bytes: Bytes) -> Self {
        Body::Bytes { inner: Some(bytes) }
    }
}

impl From<Decoder> for Body {
    fn from(decoder: Decoder) -> (body: Self) {
        Body::Stream { decoder, finished: false }
    }
}

impl FromSpecImpl<Decoder> for Body {
    open spec fn obeys_from_spec() -> bool {
        true
    }

    open spec fn from_spec(decoder: Decoder) -> Self {
        Body::Stream { decoder, finished: false }
    }
}

impl Body {
    /// The body that hands out the stored payload `buf`.
    pub fn new(buf: Bytes) -> (body: Self)
        ensures
            body@ == (BodyView::Buf { inner: Some(bytes_view(buf)) }),
    {
        Body::Buf { inner: Some(buf) }
    }

    /// The body that hands out `bytes`.
    pub fn from_static(bytes: &'static [u8]) -> (body: Self)
        ensures
            body@ == (BodyView::Bytes { inner: Some(bytes@) }),
    {
        Body::from(Bytes::from_static(bytes))
    }

    /// Pulls the next chunk. A body of one chunk hands it out at the first
    /// pull. A stream hands out what its decoder yields and is done when the
    /// decoder has reached the end of the data or has found it malformed.
    /// Once a body is done, every pull tells so and changes nothing.
    pub fn next_frame(&mut self) -> (frame: Frame)
        ensures
            old(self)@.pull(frame, final(self)@),
    {
        match self {
            Body::Empty => Frame::End,
            Body::Buf { inner } => match inner.take() {
                None => Frame::End,
                Some(buf) => Frame::Data(BodyChunk::Buf(buf)),
            },
            Body::Bytes { inner } => match inner.take() {
                None => Frame::End,
                Some(buf) => Frame::Data(BodyChunk::Bytes(buf)),
            },
            Body::Stream { decoder, finished } => {
                if *finished {
                    Frame::End
                } else {
                    match decoder.read_chunk() {
                        DecodeStep::Chunk(bytes) => Frame::Data(BodyChunk::Bytes(bytes)),
                        DecodeStep::End => {
                            *finished = true;
                            Frame::End
                        },
                        DecodeStep::Fault(error) => {
                            *finished = true;
                            Frame::Fault(error)
                        },
                    }
                }
            },
        }
    }

    /// One turn of the worker that moves the frames of this body onto a
    /// queue. `delivered` tells whether the queue took what the turn before
    /// sent, and is `true` at the first turn.
    ///
    /// When the queue did not take a frame, its consumer is gone: the body
    /// is spent without another pull, and the worker closes. Else the body is
    /// pulled. A chunk is sent, and so is a fault. The worker closes once the
    /// body is done: of a stream, when nothing is pending and its data is not
    /// broken, or after its fault has been sent.
    pub fn feed(&mut self, delivered: bool) -> (action: Feed)
        ensures
            !delivered ==> action is Close && final(self)@ == old(self)@.spent(),
            delivered ==> match action {
                Feed::Send(frame) => !(frame is End) && old(self)@.pull(frame, final(self)@),
                Feed::Close => old(self)@.pull(Frame::End, final(self)@),
            },
    {
        if !delivered {
            self.cancel();
            return Feed::Close;
        }
        match self.next_frame() {
            Frame::End => Feed::Close,
            frame => Feed::Send(frame),
        }
    }

    /// Gives up what is left of the body: every pull from now on tells that
    /// the body is done.
    pub fn cancel(&mut self)
        ensures
            final(self)@ == old(self)@.spent(),
    {
        match self {
            Body::Empty => {},
            Body::Buf { inner } => {
                *inner = None;
            },
            Body::Bytes { inner } => {
                *inner = None;
            },
            Body::Stream { finished, .. } => {
                *finished = true;
            },
        }
    }

    /// Whether the body is known to be done without a pull. Of a stream this
    /// is never known.
    pub fn is_end_stream(&self) -> (done: bool)
        ensures
            done == (self@.exhausted() && !(self@ is Stream)),
    {
        match self {
            Body::Empty => true,
            Body::Buf { inner } => inner.is_none(),
            Body::Bytes { inner } => inner.is_none(),
            Body::Stream { .. } => false,
        }
    }

    /// The length of what is still to be handed out: exact for a body of one
    /// chunk, unknown for a stream.
    pub fn size_hint(&self) -> (hint: SizeHint)
        ensures
            hint == match self@ {
                BodyView::Empty => SizeHint::exact(0),
                BodyView::Buf { inner: Some(bytes) } => SizeHint::exact(bytes.len() as int),
                BodyView::Buf { inner: None } => SizeHint::exact(0),
                BodyView::Bytes { inner: Some(bytes) } => SizeHint::exact(bytes.len() as int),
                BodyView::Bytes { inner: None } => SizeHint::exact(0),
                BodyView::Stream { .. } => SizeHint::unknown(),
            },
    {
        match self {
            Body::Empty => SizeHint { lower: 0, upper: Some(0) },
            Body::Buf { inner: Some(inner) } => {
                let len = inner.len() as u64;
                SizeHint { lower: len, upper: Some(len) }
            },
            Body::Buf { inner: None } => SizeHint { lower: 0, upper: Some(0) },
            Body::Bytes { inner: Some(inner) } => {
                let len = inner.len() as u64;
                SizeHint { lower: len, upper: Some(len) }
            },
            Body::Bytes { inner: None } => SizeHint { lower: 0, upper: Some(0) },
            Body::Stream { .. } => SizeHint { lower: 0, upper: None },
        }
    }
}

/// A body that is done stays done: every further pull tells that it is done
/// and changes nothing.
pub proof fn law_done_stays_done(before: BodyView, frame: Frame, after: BodyView)
    requires
        before.exhausted(),
        before.pull(frame, after),
    ensures
        frame is End,
        after == before,
{
}

/// A spent body is done, and a fault is the last frame of a stream.
pub proof fn law_spent_is_done(before: BodyView, frame: Frame, after: BodyView)
    requires
        before.pull(frame, after),
    ensures
        before.spent().exhausted(),
        frame is Fault ==> after.exhausted(),
        frame is End ==> after.exhausted(),
{
}

/// A stream whose data is broken never tells the end of the data before its
/// fault: a pull gives a chunk of what is pending or the fault. The fault is
/// the last frame that is sent, and after it the body is done.
pub proof fn law_fault_is_told(before: BodyView, frame: Frame, after: BodyView)
    requires
        before matches BodyView::Stream { broken: true, finished: false, .. },
        before.pull(frame, after),
    ensures
        !(frame is End),
        frame is Fault ==> after.exhausted(),
        frame is Data ==> after matches BodyView::Stream { broken: true, finished: false, .. },
{
}

/// A stream hands out the decoded form of its source, byte for byte. A pull
/// keeps a faithful stream faithful. When a faithful stream tells the end of
/// the data, the bytes drawn from it are all that decoding the source gives,
/// and the source is not broken.
pub proof fn law_stream_is_the_decoded_source(before: BodyView, frame: Frame, after: BodyView)
    requires
        before.pull(frame, after),
    ensures
        before.faithful() ==> after.faithful(),
        before.faithful() && frame is End ==> (before matches BodyView::Stream {
            encoding,
            source,
            drawn,
            finished: false,
            ..
        } ==> drawn == decoded(encoding, source).0 && !decoded(encoding, source).1),
{
    if before.faithful() {
        if let BodyView::Stream { encoding, source, drawn, pending, broken, finished: false } =
            before {
            match frame {
                Frame::Data(chunk) => {
                    let n = chunk@.len() as int;
                    assert(drawn + chunk@ + pending.skip(n) =~= drawn + pending);
                },
                Frame::End => {
                    assert(drawn + pending =~= drawn);
                },
                Frame::Fault(_) => {},
            }
        }
    }
}

/// The bytes of the chunks among `frames`, one behind the other.
pub open spec fn handed_out(frames: Seq<Frame>) -> Seq<u8>
    decreases frames.len(),
{
    if frames.len() == 0 {
        Seq::empty()
    } else {
        handed_out(frames.drop_last()) + match frames.last() {
            Frame::Data(chunk) => chunk@,
            _ => Seq::empty(),
        }
    }
}

/// Whether pulls on a body may give `frames` one after another, where
/// `states` are the body before the first pull and after each.
pub open spec fn run(states: Seq<BodyView>, frames: Seq<Frame>) -> bool {
    &&& states.len() == frames.len() + 1
    &&& forall|i: int|
        0 <= i < frames.len() ==> states[i].pull(#[trigger] frames[i], states[i + 1])
}

proof fn lemma_run_of_chunks(states: Seq<BodyView>, frames: Seq<Frame>, k: int)
    requires
        run(states, frames),
        0 <= k <= frames.len(),
        forall|i: int| 0 <= i < k ==> #[trigger] frames[i] is Data,
        states[0] matches BodyView::Stream { drawn, finished: false, .. } && drawn.len() == 0,
        states[0].faithful(),
    ensures
        states[k].faithful(),
        states[k] matches BodyView::Stream { encoding, source, drawn, finished: false, .. } && (
        states[0] matches BodyView::Stream { encoding: encoding0, source: source0, .. }
            && encoding == encoding0 && source == source0 && drawn == handed_out(frames.take(k))),
    decreases k,
{
    if k == 0 {
        assert(frames.take(0) =~= Seq::<Frame>::empty());
        assert(states[0]->Stream_drawn =~= Seq::<u8>::empty());
    } else {
        lemma_run_of_chunks(states, frames, k - 1);
        let frame = frames[k - 1];
        assert(states[k - 1].pull(frame, states[k]));
        law_stream_is_the_decoded_source(states[k - 1], frame, states[k]);
        assert(frames.take(k).drop_last() =~= frames.take(k - 1));
        assert(frames.take(k).last() == frame);
    }
}

/// What a stream hands out up to the end of the data is the decoded form of
/// its source. When the pulls on a faithful stream from which nothing has
/// been drawn give chunks and then the end of the data, the bytes of the
/// chunks, one behind the other, are all that decoding the source gives, and
/// the source is not broken.
pub proof fn law_stream_hands_out_the_decoded_source(states: Seq<BodyView>, frames: Seq<Frame>)
    requires
        run(states, frames),
        frames.len() > 0,
        frames.last() is End,
        forall|i: int| 0 <= i < frames.len() - 1 ==> #[trigger] frames[i] is Data,
        states[0] matches BodyView::Stream { drawn, finished: false, .. } && drawn.len() == 0,
    ensures
        states[0].faithful() ==> (states[0] matches BodyView::Stream { encoding, source, .. }
            ==> handed_out(frames) == decoded(encoding, source).0 && !decoded(
            encoding,
            source,
        ).1),
{
    if states[0].faithful() {
        let k = frames.len() - 1;
        lemma_run_of_chunks(states, frames, k);
        assert(states[k].pull(frames[k], states[k + 1]));
        law_stream_is_the_decoded_source(states[k], frames[k], states[k + 1]);
        assert(frames.drop_last() =~= frames.take(k));
        assert(handed_out(frames) =~= handed_out(frames.take(k)));
    }
}

/// A body of one chunk hands out one chunk at most: the pull after the one
/// that gave a chunk tells that the body is done.
pub proof fn law_one_chunk(
    before: BodyView,
    first: Frame,
    between: BodyView,
    second: Frame,
    after: BodyView,
)
    requires
        before is Buf || before is Bytes,
        before.pull(first, between),
        between.pull(second, after),
    ensures
        second is End,
        after == between,
{
}

} // verus!
