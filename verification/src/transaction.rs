//! How a bus operation that takes several exchanges is run.
//!
//! The driver does no I/O of its own. An operation that needs the channel
//! hands out an [`Action`], the caller carries it out, and the operation is
//! handed what came of it; this repeats until the action is
//! [`Action::Done`]. One request is outstanding at a time.

use vstd::prelude::*;

use crate::bpio::request::{DataRequest, RequestPacket, RequestPacketView};
use crate::bpio::response::{
    bytes_view, receive_data_response, received_data, ResponsePacket, ResponsePacketContents,
    ResponsePacketView,
};
use crate::error::{Error, ErrorView};

verus! {

/// What the caller is to do next.
#[derive(Debug, PartialEq, Eq)]
pub enum Action {
    /// Send this request and come back with the response, or with the error
    /// that kept it from arriving.
    Send(RequestPacket<'static>),
    /// Wait for this many nanoseconds and come back.
    Delay(u32),
    /// The operation is over, with this result.
    Done(Result<(), Error>),
}

/// An [`Action`] with sequences for vectors and texts.
pub enum ActionView {
    Send(RequestPacketView<'static>),
    Delay(u32),
    Done(Result<(), ErrorView>),
}

impl View for Action {
    type V = ActionView;

    open spec fn view(&self) -> ActionView {
        match *self {
            Action::Send(packet) => ActionView::Send(packet@),
            Action::Delay(ns) => ActionView::Delay(ns),
            Action::Done(Ok(())) => ActionView::Done(Ok(())),
            Action::Done(Err(e)) => ActionView::Done(Err(e@)),
        }
    }
}

/// What came of sending a request, with sequences for vectors and texts.
pub open spec fn answer_view(answer: Result<ResponsePacket, Error>) -> Result<
    ResponsePacketView,
    ErrorView,
> {
    match answer {
        Ok(packet) => Ok(packet@),
        Err(e) => Err(e@),
    }
}

/// What a read leaves in a buffer that held `buffer`: the bytes that came;
/// or, where none came, the buffer as it was if it is empty, and else the
/// complaint that data is missing.
pub open spec fn copied(received: Option<Seq<u8>>, buffer: Seq<u8>) -> Result<
    Seq<u8>,
    ErrorView,
> {
    match received {
        Some(data) => Ok(data),
        None => if buffer.len() == 0 {
            Ok(buffer)
        } else {
            Err(ErrorView::NoDataReceived)
        },
    }
}

/// The bytes read or the error, for an answer to a data request.
pub open spec fn data_outcome(answer: Result<ResponsePacketView, ErrorView>) -> Result<
    Option<Seq<u8>>,
    ErrorView,
> {
    match answer {
        Err(e) => Err(e),
        Ok(packet) => match packet.fault(ResponsePacketContents::DataResponse) {
            Some(fault) => Err(fault),
            None => Ok(received_data(packet)),
        },
    }
}

/// Puts the bytes that a read brought into the caller's buffer.
///
/// With bytes, the buffer takes them. With none, nothing is copied, and the
/// call fails unless the buffer is empty, that is, unless none were
/// expected. Bytes must fill the buffer exactly.
pub fn copy(received: Option<Vec<u8>>, buf: &mut [u8]) -> (done: Result<(), Error>)
    requires
        received matches Some(data) ==> data@.len() == old(buf)@.len(),
    ensures
        match copied(bytes_view(received), old(buf)@) {
            Ok(filled) => done is Ok && final(buf)@ == filled,
            Err(e) => done matches Err(error) && error@ == e && final(buf)@ == old(buf)@,
        },
{
    if let Some(data) = received {
        let mut i: usize = 0;
        while i < data.len()
            invariant
                i <= data.len(),
                data@.len() == buf@.len(),
                forall|j: int| 0 <= j < i ==> buf@[j] == data@[j],
            decreases data.len() - i,
        {
            buf[i] = data[i];
            i += 1;
        }
        assert(buf@ =~= data@);
        Ok(())
    } else if buf.len() == 0 {
        Ok(())
    } else {
        Err(Error::NoDataReceived)
    }
}

/// Whether the bytes that `answer` brings, if it brings any, are `length`
/// many.
pub fn fits(answer: &Result<ResponsePacket, Error>, length: usize) -> (fit: bool)
    ensures
        fit == (data_outcome(answer_view(*answer)) matches Ok(Some(data))
            ==> data.len() == length),
{
    match answer {
        Ok(ResponsePacket::DataResponse(response)) => match (&response.error, &response.data_read) {
            (None, Some(data)) => data.len() == 0 || data.len() == length,
            _ => true,
        },
        _ => true,
    }
}

/// The request that does nothing but stop.
pub fn stop_request() -> (request: DataRequest)
    ensures
        request@ == DataRequest::stop_only(),
{
    DataRequest {
        start: false,
        start_alt: false,
        stop: true,
        bytes_to_write: None,
        bytes_to_read: None,
    }
}

/// Takes the answer to a request that only wrote: well, unless the answer
/// is an error.
pub fn receive_written(packet: ResponsePacket) -> (written: Result<(), Error>)
    ensures
        match data_outcome(Ok(packet@)) {
            Ok(_) => written is Ok,
            Err(e) => written matches Err(error) && error@ == e,
        },
{
    match receive_data_response(packet) {
        Ok(_) => Ok(()),
        Err(e) => Err(e),
    }
}

/// Takes the answer to a request that read, and puts what was read into the
/// caller's buffer: see [`copied`]. Bytes that come must fill the buffer
/// exactly.
pub fn receive_into(packet: ResponsePacket, buf: &mut [u8]) -> (read: Result<(), Error>)
    requires
        data_outcome(Ok(packet@)) matches Ok(Some(data)) ==> data.len() == old(buf)@.len(),
    ensures
        match data_outcome(Ok(packet@)) {
            Ok(received) => match copied(received, old(buf)@) {
                Ok(filled) => read is Ok && final(buf)@ == filled,
                Err(e) => read matches Err(error) && error@ == e && final(buf)@ == old(buf)@,
            },
            Err(e) => read matches Err(error) && error@ == e && final(buf)@ == old(buf)@,
        },
{
    match receive_data_response(packet) {
        Ok(received) => copy(received, buf),
        Err(e) => Err(e),
    }
}

} // verus!
