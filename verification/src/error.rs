//! Everything that can go wrong between the caller and the adapter.

use vstd::prelude::*;

verus! {

/// Why a received frame could not be unframed.
#[derive(Debug, Clone, Copy, PartialEq, Eq, Structural)]
pub enum FramingError {
    /// There was nothing between two terminators.
    EmptyFrame,
    /// The terminator came where the frame's own structure did not allow it,
    /// after `decoded_bytes` bytes of payload.
    InvalidFrame { decoded_bytes: usize },
    /// The payload is larger than the receive buffer.
    TargetBufTooSmall,
}

/// The driver's errors. None is fatal: the caller may issue the next call,
/// after re-entering the mode where that is needed.
#[derive(Debug, Clone, PartialEq, Eq)]
pub enum Error {
    /// The serial port could not be opened.
    SerialPort(String),
    /// The channel failed while a frame was written or read; a read that
    /// timed out is reported here too.
    Io(String),
    /// A received payload did not follow the packet schema.
    Flatbuffer(String),
    /// A received frame could not be unframed.
    Cobs(FramingError),
    /// The adapter answered with an error message.
    BpioErrorMessage(String),
    /// The adapter answered with a packet of another kind than the request
    /// calls for; the kind's name is attached.
    UnexpectedResponseType(&'static str),
    /// A read asked for data and the adapter returned none.
    NoDataReceived,
    /// A request that the protocol cannot express.
    Other,
}

/// An [`Error`] with its texts as sequences of characters.
pub enum ErrorView {
    SerialPort(Seq<char>),
    Io(Seq<char>),
    Flatbuffer(Seq<char>),
    Cobs(FramingError),
    BpioErrorMessage(Seq<char>),
    UnexpectedResponseType(Seq<char>),
    NoDataReceived,
    Other,
}

impl View for Error {
    type V = ErrorView;

    open spec fn view(&self) -> ErrorView {
        match *self {
            Error::SerialPort(s) => ErrorView::SerialPort(s@),
            Error::Io(s) => ErrorView::Io(s@),
            Error::Flatbuffer(s) => ErrorView::Flatbuffer(s@),
            Error::Cobs(e) => ErrorView::Cobs(e),
            Error::BpioErrorMessage(s) => ErrorView::BpioErrorMessage(s@),
            Error::UnexpectedResponseType(s) => ErrorView::UnexpectedResponseType(s@),
            Error::NoDataReceived => ErrorView::NoDataReceived,
            Error::Other => ErrorView::Other,
        }
    }
}

impl From<FramingError> for Error {
    fn from(value: FramingError) -> (error: Error) {
        Error::Cobs(value)
    }
}

impl vstd::std_specs::convert::FromSpecImpl<FramingError> for Error {
    open spec fn obeys_from_spec() -> bool {
        true
    }

    open spec fn from_spec(value: FramingError) -> Error {
        Error::Cobs(value)
    }
}

} // verus!
