//! The SPI engine: bus operations as data requests under chip-select
//! discipline.
//!
//! The chip is selected by a request's start flag and released by its stop
//! flag. A call that stands alone selects and releases in its one request.
//! A transaction selects with its first request, holds the line through the
//! requests between, and releases with its last; if an operation fails on
//! the way, one request that does nothing but release is sent before the
//! failure is reported, so that the line is never left selected.

use vstd::prelude::*;

use crate::bpio::request::{
    build_data_request_packet, data_request_packet, read_length, spec_read_length, to_vec,
    DataRequest, DataRequestView, RequestPacket,
};
use crate::bpio::response::{ResponsePacket, ResponsePacketView};
use crate::buspirate::BusPirate;
use crate::error::{Error, ErrorView};
use crate::modes::Spi;
use crate::transaction::{
    answer_view, copied, data_outcome, fits, stop_request, Action, ActionView,
};

verus! {

/// One operation of a transaction.
#[derive(Debug, Clone, PartialEq, Eq)]
pub enum Operation {
    /// Read as many bytes as the buffer holds, into the buffer.
    Read(Vec<u8>),
    /// Write these bytes.
    Write(Vec<u8>),
    /// Write the second while reading into the first.
    Transfer(Vec<u8>, Vec<u8>),
    /// Write these bytes while reading into their place.
    TransferInPlace(Vec<u8>),
    /// Wait for this many nanoseconds. Nothing goes over the channel.
    DelayNs(u32),
}

/// An [`Operation`] with its bytes as sequences.
pub enum OperationView {
    Read(Seq<u8>),
    Write(Seq<u8>),
    Transfer(Seq<u8>, Seq<u8>),
    TransferInPlace(Seq<u8>),
    DelayNs(u32),
}

impl View for Operation {
    type V = OperationView;

    open spec fn view(&self) -> OperationView {
        match *self {
            Operation::Read(buffer) => OperationView::Read(buffer@),
            Operation::Write(bytes) => OperationView::Write(bytes@),
            Operation::Transfer(read, write) => OperationView::Transfer(read@, write@),
            Operation::TransferInPlace(words) => OperationView::TransferInPlace(words@),
            Operation::DelayNs(ns) => OperationView::DelayNs(ns),
        }
    }
}

/// The operations of a vector, each by its view.
pub open spec fn operations_view(operations: Seq<Operation>) -> Seq<OperationView> {
    operations.map_values(|op: Operation| op@)
}

/// A read: chip select, the read, release.
pub open spec fn read_request(length: usize) -> DataRequestView {
    DataRequestView {
        start: true,
        start_alt: false,
        stop: true,
        bytes_to_write: None,
        bytes_to_read: Some(spec_read_length(length)),
    }
}

/// A write: chip select, the bytes, release.
pub open spec fn write_request(words: Seq<u8>) -> DataRequestView {
    DataRequestView {
        start: true,
        start_alt: false,
        stop: true,
        bytes_to_write: Some(words),
        bytes_to_read: None,
    }
}

/// A full-duplex transfer: the alternative start in place of the plain one,
/// which selects the chip and reads while the bytes are written, then
/// release.
pub open spec fn transfer_request(length: usize, write: Seq<u8>) -> DataRequestView {
    DataRequestView {
        start: false,
        start_alt: true,
        stop: true,
        bytes_to_write: Some(write),
        bytes_to_read: Some(spec_read_length(length)),
    }
}

impl BusPirate<Spi> {
    /// A read of `length` bytes, as one request.
    /// [`crate::transaction::receive_into`] takes the answer into the
    /// caller's buffer.
    pub fn read(&mut self, length: usize) -> (packet: RequestPacket<'static>)
        ensures
            packet@ == data_request_packet(read_request(length)),
    {
        build_data_request_packet(
            DataRequest {
                start: true,
                start_alt: false,
                stop: true,
                bytes_to_write: None,
                bytes_to_read: Some(read_length(length)),
            },
        )
    }

    /// A write, as one request. [`crate::transaction::receive_written`]
    /// judges the answer.
    pub fn write(&mut self, words: &[u8]) -> (packet: RequestPacket<'static>)
        ensures
            packet@ == data_request_packet(write_request(words@)),
    {
        build_data_request_packet(
            DataRequest {
                start: true,
                start_alt: false,
                stop: true,
                bytes_to_write: Some(to_vec(words)),
                bytes_to_read: None,
            },
        )
    }

    /// A transfer that writes `write` while it reads `length` bytes, as one
    /// request. [`crate::transaction::receive_into`] takes the answer into
    /// the caller's read buffer; for an empty read buffer nothing is
    /// copied.
    pub fn transfer(&mut self, length: usize, write: &[u8]) -> (packet: RequestPacket<'static>)
        ensures
            packet@ == data_request_packet(transfer_request(length, write@)),
    {
        build_data_request_packet(
            DataRequest {
                start: false,
                start_alt: true,
                stop: true,
                bytes_to_write: Some(to_vec(write)),
                bytes_to_read: Some(read_length(length)),
            },
        )
    }

    /// A transfer that writes `words` and reads as many bytes into their
    /// place, as one request. [`crate::transaction::receive_into`] takes the
    /// answer into the caller's buffer.
    pub fn transfer_in_place(&mut self, words: &[u8]) -> (packet: RequestPacket<'static>)
        ensures
            packet@ == data_request_packet(transfer_request(words.len(), words@)),
    {
        build_data_request_packet(
            DataRequest {
                start: false,
                start_alt: true,
                stop: true,
                bytes_to_write: Some(to_vec(words)),
                bytes_to_read: Some(read_length(words.len())),
            },
        )
    }

    /// Nothing to do: every exchange is complete when its answer is in, so
    /// nothing is ever left to flush.
    pub fn flush(&mut self) -> (flushed: Result<(), Error>)
        ensures
            flushed is Ok,
    {
        Ok(())
    }
}

/// Whether an operation goes over the channel. A delay does not.
pub open spec fn on_wire(operation: OperationView) -> bool {
    !(operation is DelayNs)
}

/// Whether the chip is selected when the operation at `index` is reached:
/// whether an operation before it went over the channel.
pub open spec fn selected_before(operations: Seq<OperationView>, index: int) -> bool
    decreases index,
{
    if index <= 0 {
        false
    } else {
        selected_before(operations, index - 1) || on_wire(operations[index - 1])
    }
}

/// The data request for the operation at `index`, which is no delay.
///
/// The plain start goes with the first request of the transaction and with
/// no later one: the chip stays selected. A full-duplex operation carries
/// the alternative start in place of the plain one, wherever it stands. The
/// stop goes with the last operation.
pub open spec fn request_for(operations: Seq<OperationView>, index: int) -> DataRequestView {
    let first = !selected_before(operations, index);
    let stop = index == operations.len() - 1;
    match operations[index] {
        OperationView::Read(buffer) => DataRequestView {
            start: first,
            start_alt: false,
            stop,
            bytes_to_write: None,
            bytes_to_read: Some(spec_read_length(buffer.len() as usize)),
        },
        OperationView::Write(bytes) => DataRequestView {
            start: first,
            start_alt: false,
            stop,
            bytes_to_write: Some(bytes),
            bytes_to_read: None,
        },
        OperationView::Transfer(read, write) => DataRequestView {
            start: false,
            start_alt: true,
            stop,
            bytes_to_write: Some(write),
            bytes_to_read: Some(spec_read_length(read.len() as usize)),
        },
        OperationView::TransferInPlace(words) => DataRequestView {
            start: false,
            start_alt: true,
            stop,
            bytes_to_write: Some(words),
            bytes_to_read: Some(spec_read_length(words.len() as usize)),
        },
        OperationView::DelayNs(_) => DataRequest::stop_only(),
    }
}

/// Where a transaction stands.
#[derive(Debug, Clone, Copy, PartialEq, Eq, Structural)]
pub enum Phase {
    /// The request for the operation at the cursor is out.
    Transferring,
    /// The delay at the cursor is being waited out.
    Delaying,
    /// An operation has failed and the request that releases the chip is
    /// out.
    Releasing,
    /// The operations are done, the last of them a delay, and the request
    /// that releases the chip is out.
    Closing,
    /// The transaction is over.
    Finished,
}

/// A transaction in progress.
#[derive(Debug)]
pub struct SpiTransaction {
    operations: Vec<Operation>,
    cursor: usize,
    selected: bool,
    phase: Phase,
    failure: Option<Error>,
}

/// An [`SpiTransaction`] laid open.
pub struct SpiTransactionView {
    /// The operations; the buffers of the reads that are done hold what was
    /// read.
    pub operations: Seq<OperationView>,
    /// The number of operations that are done.
    pub cursor: int,
    pub phase: Phase,
    /// The error of the operation that failed, kept while the chip is being
    /// released.
    pub failure: Option<ErrorView>,
}

impl View for SpiTransaction {
    type V = SpiTransactionView;

    closed spec fn view(&self) -> SpiTransactionView {
        SpiTransactionView {
            operations: operations_view(self.operations@),
            cursor: self.cursor as int,
            phase: self.phase,
            failure: match self.failure {
                Some(e) => Some(e@),
                None => None,
            },
        }
    }
}

/// What happens when the transaction reaches the operation at `index`, or,
/// with `index` past the last operation, its end.
///
/// A delay is waited out; any other operation goes out as its request. At
/// the end the chip has been released by the last operation's request,
/// unless that operation was a delay: then, if the chip was ever selected,
/// one request goes out that does nothing but release it.
pub open spec fn issue(operations: Seq<OperationView>, index: int) -> (Phase, ActionView) {
    if index >= operations.len() {
        if operations.len() > 0 && operations.last() is DelayNs && selected_before(
            operations,
            operations.len() as int,
        ) {
            (Phase::Closing, ActionView::Send(data_request_packet(DataRequest::stop_only())))
        } else {
            (Phase::Finished, ActionView::Done(Ok(())))
        }
    } else {
        match operations[index] {
            OperationView::DelayNs(ns) => (Phase::Delaying, ActionView::Delay(ns)),
            _ => (
                Phase::Transferring,
                ActionView::Send(data_request_packet(request_for(operations, index))),
            ),
        }
    }
}

/// What becomes of an operation when bytes, or none, have come for it: an
/// operation that reads takes them into its buffer, as [`copied`] has it; one
/// that does not read stays as it is.
pub open spec fn filled(operation: OperationView, received: Option<Seq<u8>>) -> Result<
    OperationView,
    ErrorView,
> {
    match operation {
        OperationView::Read(buffer) => match copied(received, buffer) {
            Ok(bytes) => Ok(OperationView::Read(bytes)),
            Err(e) => Err(e),
        },
        OperationView::Transfer(read, write) => match copied(received, read) {
            Ok(bytes) => Ok(OperationView::Transfer(bytes, write)),
            Err(e) => Err(e),
        },
        OperationView::TransferInPlace(words) => match copied(received, words) {
            Ok(bytes) => Ok(OperationView::TransferInPlace(bytes)),
            Err(e) => Err(e),
        },
        _ => Ok(operation),
    }
}

/// What becomes of an operation when the answer to its request is in: the
/// operation as it then stands, or the error that fails the transaction.
pub open spec fn settled(
    operation: OperationView,
    answer: Result<ResponsePacketView, ErrorView>,
) -> Result<OperationView, ErrorView> {
    match data_outcome(answer) {
        Err(e) => Err(e),
        Ok(received) => filled(operation, received),
    }
}

/// The buffer that an operation reads into, if it reads.
pub open spec fn read_buffer(operation: OperationView) -> Option<Seq<u8>> {
    match operation {
        OperationView::Read(buffer) => Some(buffer),
        OperationView::Transfer(read, _) => Some(read),
        OperationView::TransferInPlace(words) => Some(words),
        _ => None,
    }
}

impl SpiTransactionView {
    /// The transaction is in one piece.
    pub open spec fn wf(self) -> bool {
        &&& 0 <= self.cursor <= self.operations.len()
        &&& self.phase == Phase::Transferring ==> self.cursor < self.operations.len() && on_wire(
            self.operations[self.cursor],
        )
        &&& self.phase == Phase::Delaying ==> self.cursor < self.operations.len()
            && !on_wire(self.operations[self.cursor])
        &&& self.phase == Phase::Closing ==> self.cursor == self.operations.len()
        &&& self.phase == Phase::Releasing <==> self.failure is Some
    }

    /// Whether an answer is awaited; if not, a delay is, or nothing.
    pub open spec fn awaits_answer(self) -> bool {
        self.phase == Phase::Transferring || self.phase == Phase::Releasing || self.phase
            == Phase::Closing
    }

    /// Bytes that come for an operation that reads are as many as its buffer
    /// holds.
    pub open spec fn accepts(self, answer: Result<ResponsePacketView, ErrorView>) -> bool {
        let awaited = read_buffer(self.operations[self.cursor]);
        self.phase == Phase::Transferring ==> (awaited matches Some(buffer) ==> (data_outcome(
            answer,
        ) matches Ok(Some(data)) ==> data.len() == buffer.len()))
    }

    /// The transaction after `answer` has come in, and what to do next.
    ///
    /// While operations are under way, an answer that settles the current
    /// one moves the transaction on. One that does not makes the
    /// transaction send the request that only releases the chip, and keep
    /// the error; whatever comes back for that request, the transaction
    /// ends with the error that was kept. The answer to a closing release
    /// ends the transaction, well or with the answer's error.
    pub open spec fn advance(self, answer: Result<ResponsePacketView, ErrorView>) -> (
        SpiTransactionView,
        ActionView,
    ) {
        match self.phase {
            Phase::Transferring => match settled(self.operations[self.cursor], answer) {
                Err(e) => (
                    SpiTransactionView { phase: Phase::Releasing, failure: Some(e), ..self },
                    ActionView::Send(data_request_packet(DataRequest::stop_only())),
                ),
                Ok(operation) => {
                    let operations = self.operations.update(self.cursor, operation);
                    let next = issue(operations, self.cursor + 1);
                    (
                        SpiTransactionView {
                            operations,
                            cursor: self.cursor + 1,
                            phase: next.0,
                            ..self
                        },
                        next.1,
                    )
                },
            },
            Phase::Releasing => (
                SpiTransactionView { phase: Phase::Finished, failure: None, ..self },
                ActionView::Done(Err(self.failure->Some_0)),
            ),
            Phase::Closing => (
                SpiTransactionView { phase: Phase::Finished, ..self },
                ActionView::Done(
                    match data_outcome(answer) {
                        Ok(_) => Ok(()),
                        Err(e) => Err(e),
                    },
                ),
            ),
            _ => (self, ActionView::Done(Ok(()))),
        }
    }

    /// The transaction after the delay at the cursor has been waited out,
    /// and what to do next.
    pub open spec fn resume(self) -> (SpiTransactionView, ActionView) {
        let next = issue(self.operations, self.cursor + 1);
        (SpiTransactionView { cursor: self.cursor + 1, phase: next.0, ..self }, next.1)
    }
}

/// Whether the chip is selected depends on the kinds of the operations
/// before, not on what their buffers hold.
pub proof fn lemma_selected_before_update(
    operations: Seq<OperationView>,
    index: int,
    at: int,
    operation: OperationView,
)
    requires
        0 <= at < operations.len(),
        0 <= index <= operations.len(),
        on_wire(operation) == on_wire(operations[at]),
    ensures
        selected_before(operations.update(at, operation), index) == selected_before(
            operations,
            index,
        ),
    decreases index,
{
    if index > 0 {
        lemma_selected_before_update(operations, index - 1, at, operation);
    }
}

/// Once an operation has gone over the channel, the chip is selected for
/// all that follow.
pub proof fn lemma_selected_stays(operations: Seq<OperationView>, first: int, later: int)
    requires
        0 <= first < later,
        on_wire(operations[first]),
    ensures
        selected_before(operations, later),
    decreases later,
{
    if later > first + 1 {
        lemma_selected_stays(operations, first, later - 1);
    }
}

/// The chip is selected once: of the requests of a transaction, only the
/// first can carry the plain start.
pub proof fn lemma_one_start(operations: Seq<OperationView>, first: int, later: int)
    requires
        0 <= first < later < operations.len(),
        on_wire(operations[first]),
    ensures
        !request_for(operations, later).start,
{
    lemma_selected_stays(operations, first, later);
}

/// The chip is held to the end: no request but the one for the last
/// operation carries the stop.
pub proof fn lemma_stop_comes_last(operations: Seq<OperationView>, index: int)
    requires
        0 <= index < operations.len(),
        on_wire(operations[index]),
    ensures
        request_for(operations, index).stop <==> index == operations.len() - 1,
{
}

/// When an operation fails, one request follows, which does nothing but
/// release the chip; and whatever comes of that request, the transaction
/// then ends with the error of the operation that failed. The operations
/// stay as they stood.
pub proof fn lemma_failure_releases_chip(
    transaction: SpiTransactionView,
    answer: Result<ResponsePacketView, ErrorView>,
    cleanup: Result<ResponsePacketView, ErrorView>,
)
    requires
        transaction.wf(),
        transaction.phase == Phase::Transferring,
        settled(transaction.operations[transaction.cursor], answer) is Err,
    ensures
        ({
            let failure = settled(transaction.operations[transaction.cursor], answer)->Err_0;
            let released = transaction.advance(answer);
            let ended = released.0.advance(cleanup);
            &&& released.0.wf()
            &&& released.0.awaits_answer()
            &&& released.0.accepts(cleanup)
            &&& released.1 == ActionView::Send(data_request_packet(DataRequest::stop_only()))
            &&& released.0.operations == transaction.operations
            &&& ended.1 == ActionView::Done(Err(failure))
            &&& ended.0.phase == Phase::Finished
            &&& ended.0.operations == transaction.operations
        }),
{
}

/// An answer that is an error, or that lacks the bytes that were to be
/// read, fails the operation it is for, with that error or with the
/// complaint that data is missing.
pub proof fn lemma_what_fails(
    operation: OperationView,
    answer: Result<ResponsePacketView, ErrorView>,
)
    ensures
        data_outcome(answer) matches Err(e) ==> settled(operation, answer) is Err && settled(
            operation,
            answer,
        )->Err_0 == e,
        data_outcome(answer) matches Ok(None) ==> (read_buffer(operation) matches Some(buffer)
            ==> (buffer.len() > 0 ==> settled(operation, answer) is Err && settled(
            operation,
            answer,
        )->Err_0 == ErrorView::NoDataReceived)),
{
}

impl BusPirate<Spi> {
    /// Begins a transaction: the transaction, and the first thing to do for
    /// it. A transaction without operations is over before it begins.
    pub fn transaction(&mut self, operations: Vec<Operation>) -> (begun: (SpiTransaction, Action))
        ensures
            begun.0.wf(),
            begun.0@.operations == operations_view(operations@),
            begun.0@.cursor == 0,
            begun.0@.failure is None,
            begun.0@.phase == issue(operations_view(operations@), 0).0,
            begun.1@ == issue(operations_view(operations@), 0).1,
    {
        let mut transaction = SpiTransaction {
            operations,
            cursor: 0,
            selected: false,
            phase: Phase::Finished,
            failure: None,
        };
        let action = transaction.issue();
        (transaction, action)
    }
}

impl SpiTransaction {
    /// The transaction is in one piece.
    pub closed spec fn wf(&self) -> bool {
        &&& self@.wf()
        &&& self.selected == selected_before(self@.operations, self@.cursor)
    }

    /// Sends out what is due at the cursor.
    fn issue(&mut self) -> (action: Action)
        requires
            old(self).cursor <= old(self).operations.len(),
            old(self).selected == selected_before(old(self)@.operations, old(self)@.cursor),
            old(self).failure is None,
        ensures
            final(self)@ == (SpiTransactionView {
                phase: issue(old(self)@.operations, old(self)@.cursor).0,
                ..old(self)@
            }),
            action@ == issue(old(self)@.operations, old(self)@.cursor).1,
            final(self).wf(),
    {
        let index: usize = self.cursor;
        let count: usize = self.operations.len();
        if index >= count {
            let closing = count > 0 && self.selected && match &self.operations[count - 1] {
                Operation::DelayNs(_) => true,
                _ => false,
            };
            if closing {
                self.phase = Phase::Closing;
                return Action::Send(build_data_request_packet(stop_request()));
            } else {
                self.phase = Phase::Finished;
                return Action::Done(Ok(()));
            }
        }
        let first = !self.selected;
        let stop = index == count - 1;
        let request = match &self.operations[index] {
            Operation::Read(buffer) => DataRequest {
                start: first,
                start_alt: false,
                stop,
                bytes_to_write: None,
                bytes_to_read: Some(read_length(buffer.len())),
            },
            Operation::Write(bytes) => DataRequest {
                start: first,
                start_alt: false,
                stop,
                bytes_to_write: Some(to_vec(bytes.as_slice())),
                bytes_to_read: None,
            },
            Operation::Transfer(read, write) => DataRequest {
                start: false,
                start_alt: true,
                stop,
                bytes_to_write: Some(to_vec(write.as_slice())),
                bytes_to_read: Some(read_length(read.len())),
            },
            Operation::TransferInPlace(words) => DataRequest {
                start: false,
                start_alt: true,
                stop,
                bytes_to_write: Some(to_vec(words.as_slice())),
                bytes_to_read: Some(read_length(words.len())),
            },
            Operation::DelayNs(ns) => {
                let ns: u32 = *ns;
                self.phase = Phase::Delaying;
                return Action::Delay(ns);
            },
        };
        self.phase = Phase::Transferring;
        Action::Send(build_data_request_packet(request))
    }

    /// Puts what came for the operation at `index` into its buffer.
    fn fill(&mut self, index: usize, received: Option<Vec<u8>>) -> (done: Result<(), Error>)
        requires
            index < old(self).operations.len(),
        ensures
            final(self).operations.len() == old(self).operations.len(),
            final(self).cursor == old(self).cursor,
            final(self).selected == old(self).selected,
            final(self).phase == old(self).phase,
            final(self).failure == old(self).failure,
            match filled(old(self)@.operations[index as int], crate::bpio::response::bytes_view(
                received,
            )) {
                Ok(operation) => done is Ok && final(self)@.operations == old(
                    self,
                )@.operations.update(index as int, operation),
                Err(e) => done matches Err(error) && error@ == e && final(self)@.operations
                    == old(self)@.operations,
            },
    {
        let ghost before = operations_view(self.operations@);
        let replacement = match &self.operations[index] {
            Operation::Read(buffer) => match received {
                Some(data) => Some(Operation::Read(data)),
                None => if buffer.len() == 0 {
                    None
                } else {
                    return Err(Error::NoDataReceived);
                },
            },
            Operation::Transfer(read, write) => match received {
                Some(data) => Some(Operation::Transfer(data, to_vec(write.as_slice()))),
                None => if read.len() == 0 {
                    None
                } else {
                    return Err(Error::NoDataReceived);
                },
            },
            Operation::TransferInPlace(words) => match received {
                Some(data) => Some(Operation::TransferInPlace(data)),
                None => if words.len() == 0 {
                    None
                } else {
                    return Err(Error::NoDataReceived);
                },
            },
            _ => None,
        };
        if let Some(operation) = replacement {
            self.operations.set(index, operation);
        }
        assert(operations_view(self.operations@) =~= before.update(
            index as int,
            filled(before[index as int], crate::bpio::response::bytes_view(received))->Ok_0,
        ));
        Ok(())
    }

    /// Whether the transaction is over.
    pub fn is_finished(&self) -> (finished: bool)
        ensures
            finished == (self@.phase == Phase::Finished),
    {
        matches!(self.phase, Phase::Finished)
    }

    /// The operations as they stand: the buffers of the reads that are done
    /// hold what was read.
    pub fn operations(&self) -> (operations: &Vec<Operation>)
        ensures
            operations_view(operations@) == self@.operations,
    {
        &self.operations
    }

    /// Ends the transaction and hands the operations back.
    pub fn into_operations(self) -> (operations: Vec<Operation>)
        ensures
            operations_view(operations@) == self@.operations,
    {
        self.operations
    }

    /// Whether `answer` can be taken: bytes that come for an operation that
    /// reads must be as many as its buffer holds.
    pub fn accepts(&self, answer: &Result<ResponsePacket, Error>) -> (accepted: bool)
        requires
            self.wf(),
        ensures
            accepted == self@.accepts(answer_view(*answer)),
    {
        match self.phase {
            Phase::Transferring => match &self.operations[self.cursor] {
                Operation::Read(buffer) => fits(answer, buffer.len()),
                Operation::Transfer(read, _) => fits(answer, read.len()),
                Operation::TransferInPlace(words) => fits(answer, words.len()),
                _ => true,
            },
            _ => true,
        }
    }

    /// Takes the answer to the request that is out, and says what to do
    /// next: see [`SpiTransactionView::advance`].
    pub fn advance(&mut self, answer: Result<ResponsePacket, Error>) -> (action: Action)
        requires
            old(self).wf(),
            old(self)@.awaits_answer(),
            old(self)@.accepts(answer_view(answer)),
        ensures
            final(self).wf(),
            final(self)@ == old(self)@.advance(answer_view(answer)).0,
            action@ == old(self)@.advance(answer_view(answer)).1,
    {
        let received = match answer {
            Ok(packet) => crate::bpio::response::receive_data_response(packet),
            Err(e) => Err(e),
        };
        match self.phase {
            Phase::Transferring => {
                let index: usize = self.cursor;
                let ghost before = self@.operations;
                let done = match received {
                    Ok(received) => self.fill(index, received),
                    Err(e) => Err(e),
                };
                match done {
                    Ok(()) => {
                        proof {
                            let settled = settled(before[index as int], answer_view(answer));
                            let operation = settled->Ok_0;
                            lemma_selected_before_update(
                                before,
                                index as int,
                                index as int,
                                operation,
                            );
                            assert(on_wire(operation));
                        }
                        self.selected = true;
                        self.cursor = index + 1;
                        self.issue()
                    },
                    Err(e) => {
                        self.failure = Some(e);
                        self.phase = Phase::Releasing;
                        Action::Send(build_data_request_packet(stop_request()))
                    },
                }
            },
            Phase::Releasing => {
                let failure = self.failure.take();
                self.phase = Phase::Finished;
                match failure {
                    Some(e) => Action::Done(Err(e)),
                    None => Action::Done(Ok(())),
                }
            },
            Phase::Closing => {
                self.phase = Phase::Finished;
                match received {
                    Ok(_) => Action::Done(Ok(())),
                    Err(e) => Action::Done(Err(e)),
                }
            },
            _ => Action::Done(Ok(())),
        }
    }

    /// Goes on after the delay at the cursor has been waited out, and says
    /// what to do next: see [`SpiTransactionView::resume`].
    pub fn resume(&mut self) -> (action: Action)
        requires
            old(self).wf(),
            old(self)@.phase == Phase::Delaying,
        ensures
            final(self).wf(),
            final(self)@ == old(self)@.resume().0,
            action@ == old(self)@.resume().1,
    {
        assert(self.cursor < self.operations.len());
        proof {
            let operations = self@.operations;
            assert(selected_before(operations, self.cursor + 1) == (selected_before(
                operations,
                self.cursor as int,
            ) || on_wire(operations[self.cursor as int])));
        }
        self.cursor = self.cursor + 1;
        self.issue()
    }
}

} // verus!
