//! Frames on the byte channel.
//!
//! A payload travels as its COBS encoding, in which the byte zero does not
//! occur, followed by one zero byte, the terminator. A receiver that lost its
//! place finds it again at the next terminator. The encoding itself is the
//! `cobs` crate's; cutting the incoming bytes into frames, whatever the size
//! of the pieces they arrive in, and bounding what is accepted is done here.

use vstd::prelude::*;

use crate::error::{Error, FramingError};

verus! {

/// The byte that ends a frame and occurs nowhere else in it.
pub const TERMINATOR: u8 = 0;

/// The largest payload that is accepted from the channel.
pub const MAX_FRAME_SIZE: usize = 1024;

/// The largest encoding, without its terminator, that a payload of
/// [`MAX_FRAME_SIZE`] bytes can have: one byte of overhead for every 254.
pub const MAX_ENCODED_SIZE: usize = 1029;

/// The bytes that `cobs::encode_vec` returns for `payload`.
pub uninterp spec fn cobs_encoding(payload: Seq<u8>) -> Seq<u8>;

/// What `cobs::decode_vec` returns for `frame`.
pub uninterp spec fn cobs_decoding(frame: Seq<u8>) -> Result<Seq<u8>, FramingError>;

/// A payload's frame: its encoding and the terminator.
pub open spec fn frame_encoding(payload: Seq<u8>) -> Seq<u8> {
    cobs_encoding(payload).push(TERMINATOR)
}

/// No byte of `bytes` is the terminator.
pub open spec fn zero_free(bytes: Seq<u8>) -> bool {
    forall|i: int| 0 <= i < bytes.len() ==> bytes[i] != TERMINATOR
}

/// `frame` is some bytes other than the terminator, at least one, and then
/// the terminator.
pub open spec fn well_framed(frame: Seq<u8>) -> bool {
    &&& frame.len() >= 2
    &&& frame.last() == TERMINATOR
    &&& zero_free(frame.drop_last())
}

/// A decoding result with the payload as a sequence.
pub open spec fn decoded_view(decoded: Result<Vec<u8>, FramingError>) -> Result<
    Seq<u8>,
    FramingError,
> {
    match decoded {
        Ok(payload) => Ok(payload@),
        Err(e) => Err(e),
    }
}

/// A decoding that succeeded with `payload`.
pub open spec fn ok_payload(payload: Seq<u8>) -> Result<Seq<u8>, FramingError> {
    Ok(payload)
}

/// Calls `cobs::encode_vec`. Believed of it: the result is a function of the
/// source alone; it holds at least one byte and no zero byte; and it is
/// longer than the source by at most one byte for every 254 bytes, and one.
#[verifier::external_body]
fn cobs_encode(source: &[u8]) -> (encoded: Vec<u8>)
    ensures
        encoded@ == cobs_encoding(source@),
        encoded@.len() >= 1,
        zero_free(encoded@),
        encoded@.len() <= source@.len() + source@.len() / 254 + 1,
{
    cobs::encode_vec(source)
}

/// Calls `cobs::decode_vec`. Believed of it: the result is a function of the
/// frame alone, and a frame made of a payload's encoding and the terminator
/// decodes to that payload.
#[verifier::external_body]
fn cobs_decode(frame: &[u8]) -> (decoded: Result<Vec<u8>, FramingError>)
    ensures
        decoded_view(decoded) == cobs_decoding(frame@),
        forall|payload: Seq<u8>|
            frame@ == #[trigger] cobs_encoding(payload).push(TERMINATOR) ==> decoded_view(decoded)
                == ok_payload(payload),
{
    match cobs::decode_vec(frame) {
        Ok(payload) => Ok(payload),
        Err(cobs::DecodeError::EmptyFrame) => Err(FramingError::EmptyFrame),
        Err(cobs::DecodeError::InvalidFrame { decoded_bytes }) => Err(
            FramingError::InvalidFrame { decoded_bytes },
        ),
        Err(cobs::DecodeError::TargetBufTooSmall) => Err(FramingError::TargetBufTooSmall),
    }
}

/// A request as it goes onto the channel: encoded and terminated.
#[derive(Debug, Clone, PartialEq, Eq)]
pub struct EncodedRequest {
    cobs_encoded: Vec<u8>,
}

impl View for EncodedRequest {
    type V = Seq<u8>;

    closed spec fn view(&self) -> Seq<u8> {
        self.cobs_encoded@
    }
}

impl EncodedRequest {
    /// Frames `data`. The terminator ends the frame and occurs nowhere else
    /// in it, whatever `data` holds.
    pub fn encode(data: &[u8]) -> (request: EncodedRequest)
        ensures
            request@ == frame_encoding(data@),
            well_framed(request@),
            request@.len() <= data@.len() + data@.len() / 254 + 2,
    {
        let mut cobs_encoded = cobs_encode(data);
        cobs_encoded.push(TERMINATOR);
        proof {
            assert(cobs_encoded@.drop_last() == cobs_encoding(data@));
        }
        EncodedRequest { cobs_encoded }
    }

    /// The bytes to write to the channel.
    pub fn as_bytes(&self) -> (bytes: &[u8])
        ensures
            bytes@ == self@,
    {
        self.cobs_encoded.as_slice()
    }
}

/// A response's payload, unframed.
#[derive(Debug, Clone, PartialEq, Eq)]
pub struct Response {
    pub cobs_decoded: Vec<u8>,
}

impl View for Response {
    type V = Seq<u8>;

    open spec fn view(&self) -> Seq<u8> {
        self.cobs_decoded@
    }
}

/// What becomes of a decoded frame in a receive buffer of [`MAX_FRAME_SIZE`]
/// bytes: a frame that has yielded more bytes than the buffer holds is too
/// large, whether or not it ends well; anything else stands.
pub open spec fn accepted(decoded: Result<Seq<u8>, FramingError>) -> Result<
    Seq<u8>,
    FramingError,
> {
    match decoded {
        Ok(payload) => if payload.len() <= MAX_FRAME_SIZE {
            Ok(payload)
        } else {
            Err(FramingError::TargetBufTooSmall)
        },
        Err(FramingError::InvalidFrame { decoded_bytes }) => if decoded_bytes <= MAX_FRAME_SIZE {
            Err(FramingError::InvalidFrame { decoded_bytes })
        } else {
            Err(FramingError::TargetBufTooSmall)
        },
        Err(e) => Err(e),
    }
}

/// What the receiver reports for a frame that has ended, given its decoding.
pub open spec fn frame_outcome(decoded: Result<Seq<u8>, FramingError>) -> Result<
    Option<Seq<u8>>,
    Error,
> {
    match accepted(decoded) {
        Ok(payload) => Ok(Some(payload)),
        Err(e) => Err(Error::Cobs(e)),
    }
}

/// What an idle receiver reports when it is handed, in one piece, the frame
/// of `payload`, which is `frame_len` bytes long: the payload, if payload
/// and frame are of admissible size, and else that it is too large. Nothing
/// is ever cut to fit.
pub open spec fn whole_frame_outcome(payload: Seq<u8>, frame_len: nat) -> Result<
    Option<Seq<u8>>,
    Error,
> {
    if payload.len() <= MAX_FRAME_SIZE && frame_len <= MAX_ENCODED_SIZE + 1 {
        Ok(Some(payload))
    } else {
        Err(Error::Cobs(FramingError::TargetBufTooSmall))
    }
}

/// A `push` result with the payload as a sequence.
pub open spec fn pushed_view(pushed: Result<Option<Response>, Error>) -> Result<
    Option<Seq<u8>>,
    Error,
> {
    match pushed {
        Ok(Some(response)) => Ok(Some(response@)),
        Ok(None) => Ok(None),
        Err(e) => Err(e),
    }
}

impl Response {
    pub fn new(data: Vec<u8>) -> (response: Response)
        ensures
            response.cobs_decoded == data,
    {
        Response { cobs_decoded: data }
    }

    /// Admits a decoded frame to the receive buffer, or refuses it: see
    /// [`accepted`]. A payload is never cut short to make it fit.
    pub fn received(decoded: Result<Vec<u8>, FramingError>) -> (response: Result<Response, Error>)
        ensures
            match accepted(decoded_view(decoded)) {
                Ok(payload) => response matches Ok(r) && r@ == payload,
                Err(e) => response matches Err(Error::Cobs(f)) && f == e,
            },
    {
        match decoded {
            Ok(payload) => {
                if payload.len() <= MAX_FRAME_SIZE {
                    Ok(Response::new(payload))
                } else {
                    Err(Error::Cobs(FramingError::TargetBufTooSmall))
                }
            },
            Err(FramingError::InvalidFrame { decoded_bytes }) => {
                if decoded_bytes <= MAX_FRAME_SIZE {
                    Err(Error::Cobs(FramingError::InvalidFrame { decoded_bytes }))
                } else {
                    Err(Error::Cobs(FramingError::TargetBufTooSmall))
                }
            },
            Err(e) => Err(Error::Cobs(e)),
        }
    }
}

/// What a run of bytes from the channel amounts to for a receiver that holds
/// `pending`, the bytes of an unfinished frame.
pub enum Scan {
    /// No frame has ended yet; the receiver now holds these bytes.
    Pending(Seq<u8>),
    /// A frame has ended: these are its bytes, without the terminator.
    Complete(Seq<u8>),
    /// The frame outgrew [`MAX_ENCODED_SIZE`] before it ended.
    Overflow,
}

/// Reads `chunk` byte by byte. A terminator that follows no other byte is
/// passed over; one that follows `pending` ends the frame, and what comes
/// after it in `chunk` is not looked at.
pub open spec fn scan(pending: Seq<u8>, chunk: Seq<u8>) -> Scan
    decreases chunk.len(),
{
    if chunk.len() == 0 {
        Scan::Pending(pending)
    } else if chunk[0] == TERMINATOR {
        if pending.len() == 0 {
            scan(pending, chunk.skip(1))
        } else {
            Scan::Complete(pending)
        }
    } else if pending.len() >= MAX_ENCODED_SIZE {
        Scan::Overflow
    } else {
        scan(pending.push(chunk[0]), chunk.skip(1))
    }
}

/// Reading on from where a first run of bytes left the receiver is reading
/// both runs as one: where the channel cuts the bytes makes no difference.
pub proof fn lemma_scan_split(pending: Seq<u8>, first: Seq<u8>, second: Seq<u8>)
    ensures
        scan(pending, first + second) == match scan(pending, first) {
            Scan::Pending(held) => scan(held, second),
            ended => ended,
        },
    decreases first.len(),
{
    if first.len() == 0 {
        assert(first + second == second);
    } else {
        assert((first + second).skip(1) == first.skip(1) + second);
        assert((first + second)[0] == first[0]);
        if first[0] == TERMINATOR {
            if pending.len() == 0 {
                lemma_scan_split(pending, first.skip(1), second);
            }
        } else if pending.len() < MAX_ENCODED_SIZE {
            lemma_scan_split(pending.push(first[0]), first.skip(1), second);
        }
    }
}

/// Bytes without a terminator are held back, as far as there is room.
pub proof fn lemma_scan_holds(pending: Seq<u8>, chunk: Seq<u8>)
    requires
        zero_free(chunk),
        pending.len() + chunk.len() <= MAX_ENCODED_SIZE,
    ensures
        scan(pending, chunk) == Scan::Pending(pending + chunk),
    decreases chunk.len(),
{
    if chunk.len() == 0 {
        assert(pending + chunk == pending);
    } else {
        lemma_scan_holds(pending.push(chunk[0]), chunk.skip(1));
        assert(pending.push(chunk[0]) + chunk.skip(1) == pending + chunk);
    }
}

/// Bytes without a terminator that outgrow the room overflow, whatever
/// follows them.
pub proof fn lemma_scan_overflows(pending: Seq<u8>, chunk: Seq<u8>, rest: Seq<u8>)
    requires
        zero_free(chunk),
        pending.len() <= MAX_ENCODED_SIZE,
        pending.len() + chunk.len() > MAX_ENCODED_SIZE,
    ensures
        scan(pending, chunk + rest) == Scan::Overflow,
    decreases chunk.len(),
{
    assert((chunk + rest)[0] == chunk[0]);
    if pending.len() < MAX_ENCODED_SIZE {
        assert((chunk + rest).skip(1) == chunk.skip(1) + rest);
        lemma_scan_overflows(pending.push(chunk[0]), chunk.skip(1), rest);
    }
}

/// An idle receiver that is handed one whole frame of more than admissible
/// length overflows.
pub proof fn lemma_scan_long_frame(frame: Seq<u8>)
    requires
        well_framed(frame),
        frame.len() > MAX_ENCODED_SIZE + 1,
    ensures
        scan(Seq::<u8>::empty(), frame) == Scan::Overflow,
{
    assert(frame == frame.drop_last() + seq![TERMINATOR]);
    lemma_scan_overflows(Seq::<u8>::empty(), frame.drop_last(), seq![TERMINATOR]);
}

/// An idle receiver that is handed one whole frame of admissible length
/// finds exactly that frame.
pub proof fn lemma_scan_whole_frame(frame: Seq<u8>)
    requires
        well_framed(frame),
        frame.len() <= MAX_ENCODED_SIZE + 1,
    ensures
        scan(Seq::<u8>::empty(), frame) == Scan::Complete(frame.drop_last()),
{
    let body = frame.drop_last();
    let end = seq![TERMINATOR];
    assert(frame == body + end);
    lemma_scan_split(Seq::<u8>::empty(), body, end);
    lemma_scan_holds(Seq::<u8>::empty(), body);
    assert(Seq::<u8>::empty() + body == body);
    assert(end.skip(1).len() == 0);
}

/// The receiving end of the channel: it is fed the bytes as they arrive and
/// says when a frame is complete.
#[derive(Debug)]
pub struct FrameDecoder {
    pending: Vec<u8>,
}

impl View for FrameDecoder {
    type V = Seq<u8>;

    /// The bytes of the unfinished frame.
    closed spec fn view(&self) -> Seq<u8> {
        self.pending@
    }
}

impl FrameDecoder {
    /// The decoder holds a bounded run of bytes, none of them the terminator.
    #[verifier::type_invariant]
    spec fn inv(self) -> bool {
        &&& self.pending@.len() <= MAX_ENCODED_SIZE
        &&& zero_free(self.pending@)
    }

    /// A decoder that has seen nothing.
    pub fn new() -> (decoder: FrameDecoder)
        ensures
            decoder@.len() == 0,
    {
        FrameDecoder { pending: Vec::new() }
    }

    /// Takes the next bytes read from the channel, however few or many.
    ///
    /// `Ok(None)`: no frame has ended, read on. `Ok(Some(..))`: a frame has
    /// ended and this is its payload. `Err(..)`: a frame has ended and is
    /// not a valid encoding, or it holds more than the receive buffer does.
    /// After a frame or an error the decoder is empty again.
    ///
    /// Which of these it is follows from [`scan`]. A frame that has ended is
    /// decoded, and the decoding is admitted or refused as [`frame_outcome`]
    /// has it. Where the frame is the encoding of a payload, in however many
    /// pieces it came, the payload is what comes out if it fits the receive
    /// buffer, and the complaint that it is too large if it does not. The
    /// last clause says the same of a frame that is handed to an idle
    /// decoder in one piece, as [`EncodedRequest::encode`] makes it.
    pub fn push(&mut self, chunk: &[u8]) -> (pushed: Result<Option<Response>, Error>)
        ensures
            match scan(old(self)@, chunk@) {
                Scan::Pending(pending) => pushed matches Ok(None) && final(self)@ == pending,
                Scan::Complete(raw) => {
                    &&& final(self)@.len() == 0
                    &&& pushed_view(pushed) == frame_outcome(cobs_decoding(raw.push(TERMINATOR)))
                    &&& forall|payload: Seq<u8>|
                        raw == #[trigger] cobs_encoding(payload) ==> pushed_view(pushed)
                            == frame_outcome(ok_payload(payload))
                },
                Scan::Overflow => {
                    &&& final(self)@.len() == 0
                    &&& pushed matches Err(Error::Cobs(FramingError::TargetBufTooSmall))
                },
            },
            forall|payload: Seq<u8>|
                old(self)@.len() == 0 && chunk@ == #[trigger] frame_encoding(payload)
                    && well_framed(chunk@) ==> pushed_view(pushed) == whole_frame_outcome(
                    payload,
                    chunk@.len(),
                ),
    {
        let ghost whole = old(self)@.len() == 0 && well_framed(chunk@);
        proof {
            use_type_invariant(&*self);
            if whole {
                assert(old(self)@ == Seq::<u8>::empty());
                if chunk@.len() <= MAX_ENCODED_SIZE + 1 {
                    lemma_scan_whole_frame(chunk@);
                } else {
                    lemma_scan_long_frame(chunk@);
                }
            }
        }
        // The bytes held are worked on outside the decoder, which is empty
        // meanwhile, and go back into it if no frame ends.
        let mut pending: Vec<u8> = Vec::new();
        core::mem::swap(&mut pending, &mut self.pending);
        let mut i: usize = 0;
        assert(chunk@.skip(0) == chunk@);
        while i < chunk.len()
            invariant
                i <= chunk.len(),
                self@.len() == 0,
                pending@.len() <= MAX_ENCODED_SIZE,
                zero_free(pending@),
                whole == (old(self)@.len() == 0 && well_framed(chunk@)),
                whole ==> scan(old(self)@, chunk@) == (if chunk@.len() <= MAX_ENCODED_SIZE + 1 {
                    Scan::Complete(chunk@.drop_last())
                } else {
                    Scan::Overflow
                }),
                scan(old(self)@, chunk@) == scan(pending@, chunk@.skip(i as int)),
            decreases chunk.len() - i,
        {
            let byte: u8 = chunk[i];
            assert(chunk@.skip(i as int).skip(1) == chunk@.skip(i + 1));
            assert(chunk@.skip(i as int)[0] == byte);
            if byte == TERMINATOR {
                if pending.len() > 0 {
                    let ghost raw = pending@;
                    pending.push(TERMINATOR);
                    let decoded = cobs_decode(pending.as_slice());
                    assert(scan(old(self)@, chunk@) == Scan::Complete(raw));
                    let pushed = match Response::received(decoded) {
                        Ok(response) => Ok(Some(response)),
                        Err(e) => Err(e),
                    };
                    assert forall|payload: Seq<u8>|
                        whole && chunk@ == #[trigger] frame_encoding(payload) implies pushed_view(
                        pushed,
                    ) == whole_frame_outcome(payload, chunk@.len()) by {
                        assert(chunk@.drop_last() == cobs_encoding(payload));
                        assert(raw.push(TERMINATOR) == cobs_encoding(payload).push(TERMINATOR));
                    }
                    return pushed;
                }
            } else if pending.len() >= MAX_ENCODED_SIZE {
                assert(scan(old(self)@, chunk@) == Scan::Overflow);
                return Err(Error::Cobs(FramingError::TargetBufTooSmall));
            } else {
                pending.push(byte);
            }
            i += 1;
        }
        assert(chunk@.skip(i as int).len() == 0);
        self.pending = pending;
        Ok(None)
    }
}

} // verus!
