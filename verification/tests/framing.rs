use buspirate_hal::framing::{MAX_ENCODED_SIZE, MAX_FRAME_SIZE};
use buspirate_hal::{EncodedRequest, Error, FrameDecoder, FramingError, Response};

fn decode_whole(frame: &[u8]) -> Result<Option<Response>, Error> {
    FrameDecoder::new().push(frame)
}

fn round_trip(payload: &[u8]) {
    let frame = EncodedRequest::encode(payload);
    let decoded = decode_whole(frame.as_bytes());
    assert_eq!(decoded, Ok(Some(Response::new(payload.to_vec()))));
}

#[test]
fn encode_gives_the_known_encoding() {
    let frame = EncodedRequest::encode(&[0x11, 0x22, 0x00, 0x33]);
    assert_eq!(frame.as_bytes(), &[0x03, 0x11, 0x22, 0x02, 0x33, 0x00]);
}

#[test]
fn encode_of_nothing_is_one_code_byte_and_the_terminator() {
    let frame = EncodedRequest::encode(&[]);
    assert_eq!(frame.as_bytes(), &[0x01, 0x00]);
}

#[test]
fn encode_keeps_the_terminator_out_of_the_frame() {
    let payload = [0x00, 0x01, 0x00, 0x00, 0x02, 0x00];
    let frame = EncodedRequest::encode(&payload);
    let bytes = frame.as_bytes();
    assert_eq!(bytes[bytes.len() - 1], 0);
    assert!(bytes[..bytes.len() - 1].iter().all(|b| *b != 0));
}

#[test]
fn round_trip_of_plain_bytes() {
    round_trip(&[1, 2, 3, 4, 5]);
}

#[test]
fn round_trip_of_bytes_with_terminators() {
    round_trip(&[0, 0, 7, 0, 9, 0]);
}

#[test]
fn round_trip_of_nothing() {
    round_trip(&[]);
}

#[test]
fn round_trip_of_a_full_run() {
    let payload: Vec<u8> = (0..254).map(|i| (i % 255) as u8 + 1).collect();
    round_trip(&payload);
    let longer: Vec<u8> = (0..600).map(|i| (i % 255) as u8 + 1).collect();
    round_trip(&longer);
}

#[test]
fn round_trip_of_the_largest_payload() {
    let payload: Vec<u8> = (0..MAX_FRAME_SIZE).map(|i| (i % 251) as u8).collect();
    round_trip(&payload);
    let nonzero = vec![0xAA_u8; MAX_FRAME_SIZE];
    let frame = EncodedRequest::encode(&nonzero);
    assert_eq!(frame.as_bytes().len(), MAX_ENCODED_SIZE + 1);
    round_trip(&nonzero);
}

#[test]
fn a_payload_over_the_limit_is_refused_not_cut() {
    let payload = vec![0x55_u8; MAX_FRAME_SIZE + 1];
    let frame = EncodedRequest::encode(&payload);
    assert_eq!(
        decode_whole(frame.as_bytes()),
        Err(Error::Cobs(FramingError::TargetBufTooSmall))
    );
    let zeros = vec![0_u8; MAX_FRAME_SIZE + 1];
    let frame = EncodedRequest::encode(&zeros);
    assert_eq!(
        decode_whole(frame.as_bytes()),
        Err(Error::Cobs(FramingError::TargetBufTooSmall))
    );
}

#[test]
fn bytes_without_end_overflow() {
    let mut decoder = FrameDecoder::new();
    assert_eq!(decoder.push(&vec![1_u8; MAX_ENCODED_SIZE]), Ok(None));
    assert_eq!(
        decoder.push(&[1]),
        Err(Error::Cobs(FramingError::TargetBufTooSmall))
    );
    // the decoder starts afresh
    let frame = EncodedRequest::encode(&[9]);
    assert_eq!(
        decoder.push(frame.as_bytes()),
        Ok(Some(Response::new(vec![9])))
    );
}

#[test]
fn a_frame_arrives_in_pieces() {
    let payload = [3, 0, 1, 4, 0, 1, 5, 9];
    let frame = EncodedRequest::encode(&payload);
    let bytes = frame.as_bytes();
    let mut decoder = FrameDecoder::new();
    for byte in &bytes[..bytes.len() - 1] {
        assert_eq!(decoder.push(&[*byte]), Ok(None));
    }
    assert_eq!(
        decoder.push(&bytes[bytes.len() - 1..]),
        Ok(Some(Response::new(payload.to_vec())))
    );
}

#[test]
fn an_empty_read_changes_nothing() {
    let frame = EncodedRequest::encode(&[1, 2]);
    let bytes = frame.as_bytes();
    let mut decoder = FrameDecoder::new();
    assert_eq!(decoder.push(&bytes[..2]), Ok(None));
    assert_eq!(decoder.push(&[]), Ok(None));
    assert_eq!(
        decoder.push(&bytes[2..]),
        Ok(Some(Response::new(vec![1, 2])))
    );
}

#[test]
fn terminators_before_a_frame_are_passed_over() {
    let frame = EncodedRequest::encode(&[7, 8]);
    let mut bytes = vec![0, 0, 0];
    bytes.extend_from_slice(frame.as_bytes());
    assert_eq!(decode_whole(&bytes), Ok(Some(Response::new(vec![7, 8]))));
    assert_eq!(decode_whole(&[0, 0]), Ok(None));
}

#[test]
fn bytes_after_the_terminator_are_not_looked_at() {
    let frame = EncodedRequest::encode(&[7, 8]);
    let mut bytes = frame.as_bytes().to_vec();
    bytes.extend_from_slice(&[5, 1, 0]);
    let mut decoder = FrameDecoder::new();
    assert_eq!(decoder.push(&bytes), Ok(Some(Response::new(vec![7, 8]))));
    let next = EncodedRequest::encode(&[1]);
    assert_eq!(
        decoder.push(next.as_bytes()),
        Ok(Some(Response::new(vec![1])))
    );
}

#[test]
fn a_frame_that_ends_early_is_invalid() {
    assert_eq!(
        decode_whole(&[0x05, 0x01, 0x00]),
        Err(Error::Cobs(FramingError::InvalidFrame { decoded_bytes: 1 }))
    );
}

#[test]
fn received_admits_what_fits() {
    assert_eq!(
        Response::received(Ok(vec![1, 2, 3])),
        Ok(Response::new(vec![1, 2, 3]))
    );
    assert_eq!(
        Response::received(Ok(vec![0; MAX_FRAME_SIZE])),
        Ok(Response::new(vec![0; MAX_FRAME_SIZE]))
    );
    assert_eq!(Response::received(Ok(vec![])), Ok(Response::new(vec![])));
}

#[test]
fn received_refuses_what_does_not_fit() {
    assert_eq!(
        Response::received(Ok(vec![0; MAX_FRAME_SIZE + 1])),
        Err(Error::Cobs(FramingError::TargetBufTooSmall))
    );
    assert_eq!(
        Response::received(Err(FramingError::InvalidFrame {
            decoded_bytes: MAX_FRAME_SIZE + 1
        })),
        Err(Error::Cobs(FramingError::TargetBufTooSmall))
    );
}

#[test]
fn received_hands_decoding_errors_on() {
    assert_eq!(
        Response::received(Err(FramingError::InvalidFrame { decoded_bytes: 4 })),
        Err(Error::Cobs(FramingError::InvalidFrame { decoded_bytes: 4 }))
    );
    assert_eq!(
        Response::received(Err(FramingError::EmptyFrame)),
        Err(Error::Cobs(FramingError::EmptyFrame))
    );
    assert_eq!(
        Response::received(Err(FramingError::TargetBufTooSmall)),
        Err(Error::Cobs(FramingError::TargetBufTooSmall))
    );
}

#[test]
fn framing_error_converts_into_error() {
    assert_eq!(
        Error::from(FramingError::EmptyFrame),
        Error::Cobs(FramingError::EmptyFrame)
    );
}
