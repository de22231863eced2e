use buspirate_hal::bpio::{
    ConfigurationResponse, DataRequest, DataResponse, ErrorResponse, I2cRequest, RequestPacket,
    RequestPacketContents, ResponsePacket,
};
use buspirate_hal::i2c::{i2c_read_address, i2c_write_address, I2cTransaction, Operation};
use buspirate_hal::modes::I2c;
use buspirate_hal::transaction::{receive_into, receive_written, Action};
use buspirate_hal::{open, BusPirate, Error};

fn confirmed() -> ResponsePacket {
    ResponsePacket::ConfigurationResponse(ConfigurationResponse { error: None })
}

fn i2c() -> BusPirate<I2c> {
    let (change, _) = open();
    let bp = change.complete(confirmed()).ok().unwrap();
    let (change, _) = bp.enter_i2c_mode(400_000, false, None);
    change.complete(confirmed()).ok().unwrap()
}

fn request_of(packet: RequestPacket<'static>) -> DataRequest {
    assert_eq!(packet.version_major, 2);
    assert_eq!(packet.version_minor, 0);
    match packet.contents {
        RequestPacketContents::DataRequest(request) => request,
        RequestPacketContents::ConfigurationRequest(_) => panic!("a configuration request"),
    }
}

fn sent(action: Action) -> DataRequest {
    match action {
        Action::Send(packet) => request_of(packet),
        other => panic!("{:?}", other),
    }
}

fn answer(data_read: Option<Vec<u8>>) -> Result<ResponsePacket, Error> {
    Ok(ResponsePacket::DataResponse(DataResponse {
        error: None,
        data_read,
    }))
}

fn advance(transaction: &mut I2cTransaction, answer: Result<ResponsePacket, Error>) -> Action {
    assert!(!transaction.is_finished());
    assert!(transaction.accepts(&answer));
    transaction.advance(answer)
}

fn stop_only() -> DataRequest {
    DataRequest {
        start: false,
        start_alt: false,
        stop: true,
        bytes_to_write: None,
        bytes_to_read: None,
    }
}

#[test]
fn address_bytes() {
    assert_eq!(i2c_write_address(0x50), 0xA0);
    assert_eq!(i2c_read_address(0x50), 0xA1);
    assert_eq!(i2c_write_address(0x00), 0x00);
    assert_eq!(i2c_read_address(0x00), 0x01);
    assert_eq!(i2c_write_address(0x7F), 0xFE);
    assert_eq!(i2c_read_address(0x7F), 0xFF);
    assert_eq!(i2c_write_address(0xD0), 0xA0);
    assert_eq!(i2c_read_address(0xD0), 0xA1);
}

#[test]
fn write_then_read_is_one_request() {
    let mut bp = i2c();
    assert_eq!(
        request_of(bp.write_read(0x50, &[0x01], 4)),
        DataRequest {
            start: true,
            start_alt: false,
            stop: true,
            bytes_to_write: Some(vec![0xA0, 0x01]),
            bytes_to_read: Some(4),
        }
    );
}

#[test]
fn write_is_one_request() {
    let mut bp = i2c();
    assert_eq!(
        request_of(bp.write(0x50, &[0x10, 0x20])),
        DataRequest {
            start: true,
            start_alt: false,
            stop: true,
            bytes_to_write: Some(vec![0xA0, 0x10, 0x20]),
            bytes_to_read: None,
        }
    );
    assert_eq!(
        request_of(bp.write(0x50, &[])),
        DataRequest {
            start: true,
            start_alt: false,
            stop: true,
            bytes_to_write: Some(vec![0xA0]),
            bytes_to_read: None,
        }
    );
}

#[test]
fn read_is_one_request() {
    let mut bp = i2c();
    assert_eq!(
        request_of(bp.read(0x50, 16)),
        DataRequest {
            start: true,
            start_alt: false,
            stop: true,
            bytes_to_write: Some(vec![0xA1]),
            bytes_to_read: Some(16),
        }
    );
}

#[test]
fn a_read_count_keeps_its_low_sixteen_bits() {
    let mut bp = i2c();
    assert_eq!(request_of(bp.read(0x50, 65_535)).bytes_to_read, Some(65_535));
    assert_eq!(request_of(bp.read(0x50, 65_536)).bytes_to_read, Some(0));
    assert_eq!(request_of(bp.read(0x50, 65_536 + 7)).bytes_to_read, Some(7));
}

#[test]
fn stop_releases_the_bus() {
    let mut bp = i2c();
    assert_eq!(request_of(bp.i2c_stop()), stop_only());
}

#[test]
fn the_address_comes_before_the_payload() {
    assert_eq!(
        I2cRequest::add_i2c_write_vector(Some(0xA0), Some(&[1, 2, 3])),
        Some(vec![0xA0, 1, 2, 3])
    );
    assert_eq!(
        I2cRequest::add_i2c_write_vector(Some(0xA0), None),
        Some(vec![0xA0])
    );
    assert_eq!(
        I2cRequest::add_i2c_write_vector(Some(0xA0), Some(&[])),
        Some(vec![0xA0])
    );
    assert_eq!(
        I2cRequest::add_i2c_write_vector(None, Some(&[1, 2])),
        Some(vec![1, 2])
    );
    assert_eq!(I2cRequest::add_i2c_write_vector(None, Some(&[])), None);
    assert_eq!(I2cRequest::add_i2c_write_vector(None, None), None);
}

#[test]
fn an_i2c_request_becomes_a_data_request() {
    let request = I2cRequest {
        start: true,
        stop: false,
        address: Some(0x42),
        bytes_to_write: Some(&[9, 8]),
        bytes_to_read: Some(3),
    };
    assert_eq!(
        request_of(request.build_packet()),
        DataRequest {
            start: true,
            start_alt: false,
            stop: false,
            bytes_to_write: Some(vec![0x42, 9, 8]),
            bytes_to_read: Some(3),
        }
    );
}

#[test]
fn starts_are_left_out_between_operations_of_one_direction() {
    let mut bp = i2c();
    let operations = vec![
        Operation::Write(vec![1]),
        Operation::Write(vec![2]),
        Operation::Read(vec![0; 2]),
        Operation::Read(vec![0; 1]),
        Operation::Write(vec![3]),
    ];
    let (mut transaction, first) = bp.transaction(0x50, operations);
    let mut requests = vec![sent(first)];
    requests.push(sent(advance(&mut transaction, answer(None))));
    requests.push(sent(advance(&mut transaction, answer(None))));
    requests.push(sent(advance(&mut transaction, answer(Some(vec![7, 8])))));
    requests.push(sent(advance(&mut transaction, answer(Some(vec![9])))));
    let starts: Vec<bool> = requests.iter().map(|r| r.start).collect();
    assert_eq!(starts, vec![true, false, true, false, true]);
    assert!(requests.iter().all(|r| !r.stop && !r.start_alt));
    assert_eq!(
        requests,
        vec![
            DataRequest {
                start: true,
                start_alt: false,
                stop: false,
                bytes_to_write: Some(vec![0xA0, 1]),
                bytes_to_read: Some(0),
            },
            DataRequest {
                start: false,
                start_alt: false,
                stop: false,
                bytes_to_write: Some(vec![2]),
                bytes_to_read: Some(0),
            },
            DataRequest {
                start: true,
                start_alt: false,
                stop: false,
                bytes_to_write: Some(vec![0xA1]),
                bytes_to_read: Some(2),
            },
            DataRequest {
                start: false,
                start_alt: false,
                stop: false,
                bytes_to_write: None,
                bytes_to_read: Some(1),
            },
            DataRequest {
                start: true,
                start_alt: false,
                stop: false,
                bytes_to_write: Some(vec![0xA0, 3]),
                bytes_to_read: Some(0),
            },
        ]
    );
    // after the last operation: the stop, and then the end
    assert_eq!(sent(advance(&mut transaction, answer(None))), stop_only());
    assert_eq!(advance(&mut transaction, answer(None)), Action::Done(Ok(())));
    assert!(transaction.is_finished());
    assert_eq!(
        transaction.operations(),
        &vec![
            Operation::Write(vec![1]),
            Operation::Write(vec![2]),
            Operation::Read(vec![7, 8]),
            Operation::Read(vec![9]),
            Operation::Write(vec![3]),
        ]
    );
    assert_eq!(transaction.into_operations().len(), 5);
}

#[test]
fn a_transaction_without_operations_only_stops() {
    let mut bp = i2c();
    let (mut transaction, first) = bp.transaction(0x50, vec![]);
    assert_eq!(sent(first), stop_only());
    assert_eq!(advance(&mut transaction, answer(None)), Action::Done(Ok(())));
}

#[test]
fn a_failure_ends_the_transaction_without_a_stop() {
    let mut bp = i2c();
    let operations = vec![Operation::Write(vec![1]), Operation::Read(vec![0; 2])];
    let (mut transaction, _) = bp.transaction(0x50, operations);
    let nack = Ok(ResponsePacket::DataResponse(DataResponse {
        error: Some("NACK".to_string()),
        data_read: None,
    }));
    assert_eq!(
        advance(&mut transaction, nack),
        Action::Done(Err(Error::BpioErrorMessage("NACK".to_string())))
    );
    assert!(transaction.is_finished());
}

#[test]
fn a_channel_error_ends_the_transaction() {
    let mut bp = i2c();
    let (mut transaction, _) = bp.transaction(0x50, vec![Operation::Write(vec![1])]);
    assert_eq!(
        advance(&mut transaction, Err(Error::Io("timed out".to_string()))),
        Action::Done(Err(Error::Io("timed out".to_string())))
    );
}

#[test]
fn a_read_without_data_fails() {
    let mut bp = i2c();
    let (mut transaction, _) = bp.transaction(0x50, vec![Operation::Read(vec![0; 2])]);
    assert_eq!(
        advance(&mut transaction, answer(None)),
        Action::Done(Err(Error::NoDataReceived))
    );
    assert_eq!(transaction.operations(), &vec![Operation::Read(vec![0; 2])]);
}

#[test]
fn a_read_of_nothing_needs_no_data() {
    let mut bp = i2c();
    let (mut transaction, _) = bp.transaction(0x50, vec![Operation::Read(vec![])]);
    assert_eq!(sent(advance(&mut transaction, answer(None))), stop_only());
}

#[test]
fn a_wrong_kind_of_answer_is_a_mismatch() {
    let mut bp = i2c();
    let (mut transaction, _) = bp.transaction(0x50, vec![Operation::Write(vec![1])]);
    assert_eq!(
        advance(&mut transaction, Ok(confirmed())),
        Action::Done(Err(Error::UnexpectedResponseType("ConfigurationResponse")))
    );
}

#[test]
fn an_error_at_the_stop_is_reported() {
    let mut bp = i2c();
    let (mut transaction, _) = bp.transaction(0x50, vec![]);
    let error = Ok(ResponsePacket::ErrorResponse(ErrorResponse {
        error: Some("bus stuck".to_string()),
    }));
    assert_eq!(
        advance(&mut transaction, error),
        Action::Done(Err(Error::BpioErrorMessage("bus stuck".to_string())))
    );
}

#[test]
fn a_read_too_long_for_a_request_is_refused() {
    let mut bp = i2c();
    let (transaction, first) = bp.transaction(0x50, vec![Operation::Read(vec![0; 65_536])]);
    assert_eq!(first, Action::Done(Err(Error::Other)));
    assert!(transaction.is_finished());
    let operations = vec![Operation::Write(vec![1]), Operation::Read(vec![0; 65_536])];
    let (mut transaction, first) = bp.transaction(0x50, operations);
    assert!(sent(first).start);
    assert_eq!(
        advance(&mut transaction, answer(None)),
        Action::Done(Err(Error::Other))
    );
    let (_, first) = bp.transaction(0x50, vec![Operation::Read(vec![0; 65_535])]);
    assert_eq!(sent(first).bytes_to_read, Some(65_535));
}

#[test]
fn bytes_of_the_wrong_number_are_not_accepted() {
    let mut bp = i2c();
    let (transaction, _) = bp.transaction(0x50, vec![Operation::Read(vec![0; 2])]);
    assert!(!transaction.accepts(&answer(Some(vec![1, 2, 3]))));
    assert!(transaction.accepts(&answer(Some(vec![1, 2]))));
    assert!(transaction.accepts(&answer(Some(vec![]))));
    assert!(transaction.accepts(&answer(None)));
    assert!(transaction.accepts(&Err(Error::Other)));
}

#[test]
fn the_answer_to_a_single_read_fills_the_buffer() {
    let mut buffer = [0_u8; 3];
    let packet = ResponsePacket::DataResponse(DataResponse {
        error: None,
        data_read: Some(vec![4, 5, 6]),
    });
    assert_eq!(receive_into(packet, &mut buffer), Ok(()));
    assert_eq!(buffer, [4, 5, 6]);
}

#[test]
fn the_answer_to_a_single_write_is_judged() {
    let ok = ResponsePacket::DataResponse(DataResponse {
        error: None,
        data_read: None,
    });
    assert_eq!(receive_written(ok), Ok(()));
    let nack = ResponsePacket::DataResponse(DataResponse {
        error: Some("NACK".to_string()),
        data_read: None,
    });
    assert_eq!(
        receive_written(nack),
        Err(Error::BpioErrorMessage("NACK".to_string()))
    );
    assert_eq!(
        receive_written(confirmed()),
        Err(Error::UnexpectedResponseType("ConfigurationResponse"))
    );
}
