//! Response packets and the errors they may carry.

use vstd::prelude::*;

use crate::error::{Error, ErrorView};

verus! {

/// The kinds of contents that a response packet can have.
#[derive(Debug, Clone, Copy, PartialEq, Eq, Structural)]
pub enum ResponsePacketContents {
    /// The packet has no contents.
    NONE,
    ErrorResponse,
    StatusResponse,
    ConfigurationResponse,
    DataResponse,
}

impl ResponsePacketContents {
    /// The kind's name as the schema spells it.
    pub open spec fn spec_variant_name(self) -> Seq<char> {
        match self {
            ResponsePacketContents::NONE => "NONE"@,
            ResponsePacketContents::ErrorResponse => "ErrorResponse"@,
            ResponsePacketContents::StatusResponse => "StatusResponse"@,
            ResponsePacketContents::ConfigurationResponse => "ConfigurationResponse"@,
            ResponsePacketContents::DataResponse => "DataResponse"@,
        }
    }

    pub fn variant_name(self) -> (name: &'static str)
        ensures
            name@ == self.spec_variant_name(),
    {
        match self {
            ResponsePacketContents::NONE => "NONE",
            ResponsePacketContents::ErrorResponse => "ErrorResponse",
            ResponsePacketContents::StatusResponse => "StatusResponse",
            ResponsePacketContents::ConfigurationResponse => "ConfigurationResponse",
            ResponsePacketContents::DataResponse => "DataResponse",
        }
    }
}

/// The adapter could make nothing of the request.
#[derive(Debug, Clone, PartialEq, Eq)]
pub struct ErrorResponse {
    pub error: Option<String>,
}

/// The answer to a configuration request.
#[derive(Debug, Clone, PartialEq, Eq)]
pub struct ConfigurationResponse {
    /// Set where the adapter could not do what was asked.
    pub error: Option<String>,
}

/// The answer to a data request.
#[derive(Debug, Clone, PartialEq, Eq)]
pub struct DataResponse {
    /// Set where the bus operation failed.
    pub error: Option<String>,
    /// The bytes read from the bus, if any were asked for.
    pub data_read: Option<Vec<u8>>,
}

/// A response packet: exactly one kind of contents, or none.
#[derive(Debug, Clone, PartialEq, Eq)]
pub enum ResponsePacket {
    /// The packet has no contents.
    NONE,
    ErrorResponse(ErrorResponse),
    /// The adapter's status report. The driver asks for none and reads none.
    StatusResponse,
    ConfigurationResponse(ConfigurationResponse),
    DataResponse(DataResponse),
}

/// An optional text as an optional sequence of characters.
pub open spec fn text_view(text: Option<String>) -> Option<Seq<char>> {
    match text {
        Some(s) => Some(s@),
        None => None,
    }
}

/// Optional bytes as an optional sequence.
pub open spec fn bytes_view(bytes: Option<Vec<u8>>) -> Option<Seq<u8>> {
    match bytes {
        Some(b) => Some(b@),
        None => None,
    }
}

/// A [`DataResponse`] with its text and bytes as sequences.
pub struct DataResponseView {
    pub error: Option<Seq<char>>,
    pub data_read: Option<Seq<u8>>,
}

impl View for DataResponse {
    type V = DataResponseView;

    open spec fn view(&self) -> DataResponseView {
        DataResponseView { error: text_view(self.error), data_read: bytes_view(self.data_read) }
    }
}

/// A [`ResponsePacket`] with its texts and bytes as sequences.
pub enum ResponsePacketView {
    NONE,
    ErrorResponse { error: Option<Seq<char>> },
    StatusResponse,
    ConfigurationResponse { error: Option<Seq<char>> },
    DataResponse(DataResponseView),
}

impl View for ResponsePacket {
    type V = ResponsePacketView;

    open spec fn view(&self) -> ResponsePacketView {
        match *self {
            ResponsePacket::NONE => ResponsePacketView::NONE,
            ResponsePacket::ErrorResponse(e) => ResponsePacketView::ErrorResponse {
                error: text_view(e.error),
            },
            ResponsePacket::StatusResponse => ResponsePacketView::StatusResponse,
            ResponsePacket::ConfigurationResponse(c) => ResponsePacketView::ConfigurationResponse {
                error: text_view(c.error),
            },
            ResponsePacket::DataResponse(d) => ResponsePacketView::DataResponse(d@),
        }
    }
}

impl ResponsePacketView {
    /// The kind of contents that the packet has.
    pub open spec fn contents_type(self) -> ResponsePacketContents {
        match self {
            ResponsePacketView::NONE => ResponsePacketContents::NONE,
            ResponsePacketView::ErrorResponse { .. } => ResponsePacketContents::ErrorResponse,
            ResponsePacketView::StatusResponse => ResponsePacketContents::StatusResponse,
            ResponsePacketView::ConfigurationResponse { .. } =>
                ResponsePacketContents::ConfigurationResponse,
            ResponsePacketView::DataResponse(_) => ResponsePacketContents::DataResponse,
        }
    }

    /// The error text that the packet's contents carry, if they carry one. An
    /// error response always carries one: where the adapter left it out, it
    /// is the empty text.
    pub open spec fn error(self) -> Option<Seq<char>> {
        match self {
            ResponsePacketView::NONE => None,
            ResponsePacketView::ErrorResponse { error } => match error {
                Some(message) => Some(message),
                None => Some(Seq::<char>::empty()),
            },
            ResponsePacketView::StatusResponse => None,
            ResponsePacketView::ConfigurationResponse { error } => error,
            ResponsePacketView::DataResponse(d) => d.error,
        }
    }

    /// Why the packet does not serve as a response of the kind `expected`,
    /// or `None` where it does.
    ///
    /// A packet of the expected kind serves unless it carries an error text.
    /// An error response never serves: the adapter's message is the error.
    /// A packet of any other kind is a mismatch, reported with its kind's
    /// name.
    pub open spec fn fault(self, expected: ResponsePacketContents) -> Option<ErrorView> {
        if self.contents_type() == expected || self is ErrorResponse {
            match self.error() {
                Some(message) => Some(ErrorView::BpioErrorMessage(message)),
                None => None,
            }
        } else {
            Some(ErrorView::UnexpectedResponseType(self.contents_type().spec_variant_name()))
        }
    }
}

impl ResponsePacket {
    pub fn contents_type(&self) -> (kind: ResponsePacketContents)
        ensures
            kind == self@.contents_type(),
    {
        match self {
            ResponsePacket::NONE => ResponsePacketContents::NONE,
            ResponsePacket::ErrorResponse(_) => ResponsePacketContents::ErrorResponse,
            ResponsePacket::StatusResponse => ResponsePacketContents::StatusResponse,
            ResponsePacket::ConfigurationResponse(_) => {
                ResponsePacketContents::ConfigurationResponse
            },
            ResponsePacket::DataResponse(_) => ResponsePacketContents::DataResponse,
        }
    }
}

/// The error for an adapter's error response.
pub fn error_response(value: ErrorResponse) -> (error: Error)
    ensures
        error@ == (ErrorView::BpioErrorMessage(
            match value.error {
                Some(message) => message@,
                None => Seq::<char>::empty(),
            },
        )),
{
    match value.error {
        Some(message) => Error::BpioErrorMessage(message),
        None => Error::BpioErrorMessage(String::new()),
    }
}

/// The error for a response of a kind that was not asked for.
pub fn unexpected_response(kind: ResponsePacketContents) -> (error: Error)
    ensures
        error@ == ErrorView::UnexpectedResponseType(kind.spec_variant_name()),
{
    Error::UnexpectedResponseType(kind.variant_name())
}

/// Takes a packet for the answer to a data request.
///
/// Succeeds with the packet's contents exactly where the packet is a data
/// response without an error text; else the error is
/// `packet@.fault(DataResponse)`.
pub fn check_data_response(packet: ResponsePacket) -> (checked: Result<DataResponse, Error>)
    ensures
        match packet@.fault(ResponsePacketContents::DataResponse) {
            None => checked matches Ok(d) && packet == ResponsePacket::DataResponse(d),
            Some(fault) => checked matches Err(e) && e@ == fault,
        },
{
    match packet {
        ResponsePacket::DataResponse(v) => {
            match v.error {
                Some(message) => Err(Error::BpioErrorMessage(message)),
                None => Ok(DataResponse { error: None, data_read: v.data_read }),
            }
        },
        ResponsePacket::ErrorResponse(e) => Err(error_response(e)),
        other => Err(unexpected_response(other.contents_type())),
    }
}

/// Takes a packet for the answer to a configuration request.
///
/// Succeeds with the packet's contents exactly where the packet is a
/// configuration response without an error text; else the error is
/// `packet@.fault(ConfigurationResponse)`.
pub fn check_configuration_response(packet: ResponsePacket) -> (checked: Result<
    ConfigurationResponse,
    Error,
>)
    ensures
        match packet@.fault(ResponsePacketContents::ConfigurationResponse) {
            None => checked matches Ok(c) && packet == ResponsePacket::ConfigurationResponse(c),
            Some(fault) => checked matches Err(e) && e@ == fault,
        },
{
    match packet {
        ResponsePacket::ConfigurationResponse(v) => {
            match v.error {
                Some(message) => Err(Error::BpioErrorMessage(message)),
                None => Ok(ConfigurationResponse { error: None }),
            }
        },
        ResponsePacket::ErrorResponse(e) => Err(error_response(e)),
        other => Err(unexpected_response(other.contents_type())),
    }
}

/// The bytes that a data response brings: none where the adapter sent none,
/// and none where it sent an empty run.
pub open spec fn received_data(packet: ResponsePacketView) -> Option<Seq<u8>> {
    match packet {
        ResponsePacketView::DataResponse(d) => match d.data_read {
            Some(bytes) => if bytes.len() > 0 {
                Some(bytes)
            } else {
                None
            },
            None => None,
        },
        _ => None,
    }
}

/// The outcome of a data request, given the adapter's answer: the bytes read,
/// if any, or the error that the answer amounts to.
pub fn receive_data_response(packet: ResponsePacket) -> (received: Result<Option<Vec<u8>>, Error>)
    ensures
        match packet@.fault(ResponsePacketContents::DataResponse) {
            None => received matches Ok(data) && bytes_view(data) == received_data(packet@),
            Some(fault) => received matches Err(e) && e@ == fault,
        },
{
    let data_response = check_data_response(packet)?;
    match data_response.data_read {
        Some(bytes) => if bytes.len() > 0 {
            Ok(Some(bytes))
        } else {
            Ok(None)
        },
        None => Ok(None),
    }
}

/// The outcome of a configuration request, given the adapter's answer.
pub fn receive_configuration_response(packet: ResponsePacket) -> (received: Result<(), Error>)
    ensures
        match packet@.fault(ResponsePacketContents::ConfigurationResponse) {
            None => received is Ok,
            Some(fault) => received matches Err(e) && e@ == fault,
        },
{
    match check_configuration_response(packet) {
        Ok(_) => Ok(()),
        Err(e) => Err(e),
    }
}

} // verus!
