use buspirate_hal::bpio::request::{read_length, to_vec};
use buspirate_hal::bpio::{
    build_data_request_packet, ConfigurationResponse, DataRequest, DataResponse, RequestPacket,
    RequestPacketContents, ResponsePacket,
};
use buspirate_hal::modes::Spi;
use buspirate_hal::spi::{Operation, SpiTransaction};
use buspirate_hal::transaction::{copy, fits, receive_into, stop_request, Action};
use buspirate_hal::{
    open, BusPirate, ChipSelectPolarity, ClockPhase, ClockPolarity, Error,
};

fn confirmed() -> ResponsePacket {
    ResponsePacket::ConfigurationResponse(ConfigurationResponse { error: None })
}

fn spi() -> BusPirate<Spi> {
    let (change, _) = open();
    let bp = change.complete(confirmed()).ok().unwrap();
    let (change, _) = bp.enter_spi_mode(
        1_000_000,
        8,
        ClockPolarity::ActiveLow,
        ClockPhase::LeadingEdge,
        ChipSelectPolarity::ActiveLow,
        None,
    );
    change.complete(confirmed()).ok().unwrap()
}

fn request_of(packet: RequestPacket<'static>) -> DataRequest {
    match packet.contents {
        RequestPacketContents::DataRequest(request) => request,
        RequestPacketContents::ConfigurationRequest(_) => panic!("a configuration request"),
    }
}

fn sent(action: Action) -> DataRequest {
    match action {
        Action::Send(packet) => request_of(packet),
        other => panic!("{:?}", other),
    }
}

fn answer(data_read: Option<Vec<u8>>) -> Result<ResponsePacket, Error> {
    Ok(ResponsePacket::DataResponse(DataResponse {
        error: None,
        data_read,
    }))
}

fn advance(transaction: &mut SpiTransaction, answer: Result<ResponsePacket, Error>) -> Action {
    assert!(!transaction.is_finished());
    assert!(transaction.accepts(&answer));
    transaction.advance(answer)
}

fn stop_only() -> DataRequest {
    DataRequest {
        start: false,
        start_alt: false,
        stop: true,
        bytes_to_write: None,
        bytes_to_read: None,
    }
}

#[test]
fn a_transfer_with_an_empty_read_buffer() {
    let mut bp = spi();
    let mut read: [u8; 0] = [];
    let request = request_of(bp.transfer(read.len(), &[0xDE, 0xAD]));
    assert_eq!(
        request,
        DataRequest {
            start: false,
            start_alt: true,
            stop: true,
            bytes_to_write: Some(vec![0xDE, 0xAD]),
            bytes_to_read: Some(0),
        }
    );
    let packet = ResponsePacket::DataResponse(DataResponse {
        error: None,
        data_read: None,
    });
    assert_eq!(receive_into(packet, &mut read), Ok(()));
    let empty = ResponsePacket::DataResponse(DataResponse {
        error: None,
        data_read: Some(vec![]),
    });
    assert_eq!(receive_into(empty, &mut read), Ok(()));
}

#[test]
fn single_calls_select_and_release_in_one_request() {
    let mut bp = spi();
    assert_eq!(
        request_of(bp.read(3)),
        DataRequest {
            start: true,
            start_alt: false,
            stop: true,
            bytes_to_write: None,
            bytes_to_read: Some(3),
        }
    );
    assert_eq!(
        request_of(bp.write(&[1, 2])),
        DataRequest {
            start: true,
            start_alt: false,
            stop: true,
            bytes_to_write: Some(vec![1, 2]),
            bytes_to_read: None,
        }
    );
    assert_eq!(
        request_of(bp.write(&[])),
        DataRequest {
            start: true,
            start_alt: false,
            stop: true,
            bytes_to_write: Some(vec![]),
            bytes_to_read: None,
        }
    );
    assert_eq!(
        request_of(bp.transfer(2, &[5, 6, 7])),
        DataRequest {
            start: false,
            start_alt: true,
            stop: true,
            bytes_to_write: Some(vec![5, 6, 7]),
            bytes_to_read: Some(2),
        }
    );
    assert_eq!(
        request_of(bp.transfer_in_place(&[8, 9])),
        DataRequest {
            start: false,
            start_alt: true,
            stop: true,
            bytes_to_write: Some(vec![8, 9]),
            bytes_to_read: Some(2),
        }
    );
}

#[test]
fn flush_has_nothing_to_do() {
    let mut bp = spi();
    assert_eq!(bp.flush(), Ok(()));
}

#[test]
fn a_failure_in_the_middle_releases_the_chip_once() {
    let mut bp = spi();
    let operations = vec![
        Operation::Write(vec![1]),
        Operation::Read(vec![0; 2]),
        Operation::Write(vec![3]),
    ];
    let (mut transaction, first) = bp.transaction(operations);
    let first = sent(first);
    assert!(first.start && !first.stop);
    let second = sent(advance(&mut transaction, answer(None)));
    assert!(!second.start && !second.stop);
    let failure = Ok(ResponsePacket::DataResponse(DataResponse {
        error: Some("short read".to_string()),
        data_read: None,
    }));
    // the release, and nothing else
    assert_eq!(sent(advance(&mut transaction, failure)), stop_only());
    // whatever comes of the release, the first error is the result
    let cleanup_failure = Err(Error::Io("gone".to_string()));
    assert_eq!(
        advance(&mut transaction, cleanup_failure),
        Action::Done(Err(Error::BpioErrorMessage("short read".to_string())))
    );
    assert!(transaction.is_finished());
    assert_eq!(
        transaction.into_operations(),
        vec![
            Operation::Write(vec![1]),
            Operation::Read(vec![0; 2]),
            Operation::Write(vec![3]),
        ]
    );
}

#[test]
fn a_failure_of_the_channel_releases_the_chip_too() {
    let mut bp = spi();
    let (mut transaction, _) = bp.transaction(vec![Operation::Write(vec![1])]);
    assert_eq!(
        sent(advance(&mut transaction, Err(Error::Io("timed out".to_string())))),
        stop_only()
    );
    assert_eq!(
        advance(&mut transaction, answer(None)),
        Action::Done(Err(Error::Io("timed out".to_string())))
    );
}

#[test]
fn missing_data_fails_the_operation() {
    let mut bp = spi();
    let (mut transaction, _) = bp.transaction(vec![Operation::Read(vec![0; 4])]);
    assert_eq!(sent(advance(&mut transaction, answer(None))), stop_only());
    assert_eq!(
        advance(&mut transaction, answer(None)),
        Action::Done(Err(Error::NoDataReceived))
    );
}

#[test]
fn the_chip_is_selected_first_and_released_last() {
    let mut bp = spi();
    let operations = vec![
        Operation::Write(vec![0x9F]),
        Operation::Read(vec![0; 3]),
        Operation::Transfer(vec![0; 2], vec![0xAA, 0xBB]),
        Operation::TransferInPlace(vec![1, 2]),
    ];
    let (mut transaction, first) = bp.transaction(operations);
    assert_eq!(
        sent(first),
        DataRequest {
            start: true,
            start_alt: false,
            stop: false,
            bytes_to_write: Some(vec![0x9F]),
            bytes_to_read: None,
        }
    );
    assert_eq!(
        sent(advance(&mut transaction, answer(None))),
        DataRequest {
            start: false,
            start_alt: false,
            stop: false,
            bytes_to_write: None,
            bytes_to_read: Some(3),
        }
    );
    assert_eq!(
        sent(advance(&mut transaction, answer(Some(vec![0xEF, 0x40, 0x16])))),
        DataRequest {
            start: false,
            start_alt: true,
            stop: false,
            bytes_to_write: Some(vec![0xAA, 0xBB]),
            bytes_to_read: Some(2),
        }
    );
    assert_eq!(
        sent(advance(&mut transaction, answer(Some(vec![0x11, 0x22])))),
        DataRequest {
            start: false,
            start_alt: true,
            stop: true,
            bytes_to_write: Some(vec![1, 2]),
            bytes_to_read: Some(2),
        }
    );
    assert_eq!(
        advance(&mut transaction, answer(Some(vec![0x33, 0x44]))),
        Action::Done(Ok(()))
    );
    assert!(transaction.is_finished());
    assert_eq!(
        transaction.operations(),
        &vec![
            Operation::Write(vec![0x9F]),
            Operation::Read(vec![0xEF, 0x40, 0x16]),
            Operation::Transfer(vec![0x11, 0x22], vec![0xAA, 0xBB]),
            Operation::TransferInPlace(vec![0x33, 0x44]),
        ]
    );
}

#[test]
fn a_single_operation_selects_and_releases() {
    let mut bp = spi();
    let (mut transaction, first) = bp.transaction(vec![Operation::Write(vec![1])]);
    let first = sent(first);
    assert!(first.start && first.stop);
    assert_eq!(advance(&mut transaction, answer(None)), Action::Done(Ok(())));
}

#[test]
fn a_transaction_without_operations_is_over_at_once() {
    let mut bp = spi();
    let (transaction, first) = bp.transaction(vec![]);
    assert_eq!(first, Action::Done(Ok(())));
    assert!(transaction.is_finished());
}

#[test]
fn a_delay_sends_nothing() {
    let mut bp = spi();
    let operations = vec![
        Operation::Write(vec![1]),
        Operation::DelayNs(1_500),
        Operation::Write(vec![2]),
    ];
    let (mut transaction, first) = bp.transaction(operations);
    let first = sent(first);
    assert!(first.start && !first.stop);
    assert_eq!(advance(&mut transaction, answer(None)), Action::Delay(1_500));
    let last = sent(transaction.resume());
    assert!(!last.start && last.stop);
    assert_eq!(last.bytes_to_write, Some(vec![2]));
    assert_eq!(advance(&mut transaction, answer(None)), Action::Done(Ok(())));
}

#[test]
fn a_delay_at_the_end_is_followed_by_the_release() {
    let mut bp = spi();
    let operations = vec![Operation::Write(vec![1]), Operation::DelayNs(10)];
    let (mut transaction, first) = bp.transaction(operations);
    let first = sent(first);
    assert!(first.start && !first.stop);
    assert_eq!(advance(&mut transaction, answer(None)), Action::Delay(10));
    assert_eq!(sent(transaction.resume()), stop_only());
    assert_eq!(advance(&mut transaction, answer(None)), Action::Done(Ok(())));
}

#[test]
fn an_error_at_the_closing_release_is_reported() {
    let mut bp = spi();
    let operations = vec![Operation::Write(vec![1]), Operation::DelayNs(10)];
    let (mut transaction, _) = bp.transaction(operations);
    advance(&mut transaction, answer(None));
    transaction.resume();
    assert_eq!(
        advance(&mut transaction, Err(Error::Io("gone".to_string()))),
        Action::Done(Err(Error::Io("gone".to_string())))
    );
}

#[test]
fn delays_alone_send_nothing_at_all() {
    let mut bp = spi();
    let operations = vec![Operation::DelayNs(5), Operation::DelayNs(6)];
    let (mut transaction, first) = bp.transaction(operations);
    assert_eq!(first, Action::Delay(5));
    assert_eq!(transaction.resume(), Action::Delay(6));
    assert_eq!(transaction.resume(), Action::Done(Ok(())));
}

#[test]
fn a_delay_at_the_beginning_comes_before_the_select() {
    let mut bp = spi();
    let operations = vec![Operation::DelayNs(5), Operation::Read(vec![0])];
    let (mut transaction, first) = bp.transaction(operations);
    assert_eq!(first, Action::Delay(5));
    let request = sent(transaction.resume());
    assert!(request.start && request.stop);
    assert_eq!(
        advance(&mut transaction, answer(Some(vec![0x5A]))),
        Action::Done(Ok(()))
    );
    assert_eq!(
        transaction.operations(),
        &vec![Operation::DelayNs(5), Operation::Read(vec![0x5A])]
    );
}

#[test]
fn a_transfer_first_selects_with_the_alternative_start() {
    let mut bp = spi();
    let operations = vec![
        Operation::Transfer(vec![0], vec![1]),
        Operation::Write(vec![2]),
    ];
    let (mut transaction, first) = bp.transaction(operations);
    let first = sent(first);
    assert!(!first.start && first.start_alt && !first.stop);
    let second = sent(advance(&mut transaction, answer(Some(vec![9]))));
    assert!(!second.start && !second.start_alt && second.stop);
}

#[test]
fn copy_takes_what_came() {
    let mut buffer = [0_u8; 3];
    assert_eq!(copy(Some(vec![1, 2, 3]), &mut buffer), Ok(()));
    assert_eq!(buffer, [1, 2, 3]);
}

#[test]
fn copy_without_data() {
    let mut buffer = [7_u8; 2];
    assert_eq!(copy(None, &mut buffer), Err(Error::NoDataReceived));
    assert_eq!(buffer, [7, 7]);
    let mut nothing: [u8; 0] = [];
    assert_eq!(copy(None, &mut nothing), Ok(()));
}

#[test]
fn fits_compares_the_number_of_bytes() {
    assert!(fits(&answer(Some(vec![1, 2])), 2));
    assert!(!fits(&answer(Some(vec![1, 2])), 3));
    assert!(!fits(&answer(Some(vec![1])), 0));
    assert!(fits(&answer(Some(vec![])), 3));
    assert!(fits(&answer(None), 3));
    assert!(fits(&Err(Error::Other), 3));
    assert!(fits(&Ok(confirmed()), 3));
    let failed = Ok(ResponsePacket::DataResponse(DataResponse {
        error: Some("x".to_string()),
        data_read: Some(vec![1]),
    }));
    assert!(fits(&failed, 3));
}

#[test]
fn read_counts() {
    assert_eq!(read_length(0), 0);
    assert_eq!(read_length(1024), 1024);
    assert_eq!(read_length(65_535), 65_535);
    assert_eq!(read_length(65_536), 0);
    assert_eq!(read_length(65_537), 1);
}

#[test]
fn helpers_for_bytes_and_packets() {
    assert_eq!(to_vec(&[1, 2, 3]), vec![1, 2, 3]);
    assert_eq!(to_vec(&[]), Vec::<u8>::new());
    assert_eq!(stop_request(), stop_only());
    let packet = build_data_request_packet(stop_only());
    assert_eq!(packet.version_major, 2);
    assert_eq!(packet.version_minor, 0);
    assert_eq!(request_of(packet), stop_only());
    assert_eq!(request_of(stop_only().build_packet()), stop_only());
}
