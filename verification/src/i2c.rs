//! The I2C engine: bus operations on an addressed peripheral as the fewest
//! data requests that carry them out.

use vstd::prelude::*;

use crate::bpio::request::{
    build_data_request_packet, data_request_packet, read_length, spec_read_length, write_vector,
    DataRequest, DataRequestView, I2cRequest, RequestPacket,
};
use crate::bpio::response::{receive_data_response, ResponsePacket, ResponsePacketView};
use crate::buspirate::BusPirate;
use crate::error::{Error, ErrorView};
use crate::modes::I2c;
use crate::transaction::{
    answer_view, copied, data_outcome, fits, stop_request, Action, ActionView,
};

verus! {

/// The address byte that opens a write to the peripheral at the 7-bit
/// `address`: the address above a cleared low bit.
pub open spec fn spec_write_address(address: u8) -> u8 {
    address << 1
}

/// The address byte that opens a read from the peripheral at the 7-bit
/// `address`: the address above a set low bit.
pub open spec fn spec_read_address(address: u8) -> u8 {
    (address << 1) | 1
}

/// The address byte for reading. Of an `address` of more than seven bits the
/// top bit is lost.
pub fn i2c_read_address(address: u8) -> (byte: u8)
    ensures
        byte == spec_read_address(address),
        address < 0x80 ==> byte == 2 * address + 1,
{
    assert(address < 0x80 ==> ((address << 1) | 1) == 2 * address + 1) by (bit_vector);
    (address << 1) | 1
}

/// The address byte for writing. Of an `address` of more than seven bits the
/// top bit is lost.
pub fn i2c_write_address(address: u8) -> (byte: u8)
    ensures
        byte == spec_write_address(address),
        address < 0x80 ==> byte == 2 * address,
{
    assert(address < 0x80 ==> (address << 1) == 2 * address) by (bit_vector);
    address << 1
}

/// One operation of a transaction.
#[derive(Debug, Clone, PartialEq, Eq)]
pub enum Operation {
    /// Read as many bytes as the buffer holds, into the buffer.
    Read(Vec<u8>),
    /// Write these bytes.
    Write(Vec<u8>),
}

/// An [`Operation`] with its bytes as a sequence.
pub enum OperationView {
    Read(Seq<u8>),
    Write(Seq<u8>),
}

impl View for Operation {
    type V = OperationView;

    open spec fn view(&self) -> OperationView {
        match *self {
            Operation::Read(buffer) => OperationView::Read(buffer@),
            Operation::Write(bytes) => OperationView::Write(bytes@),
        }
    }
}

/// The operations of a vector, each by its view.
pub open spec fn operations_view(operations: Seq<Operation>) -> Seq<OperationView> {
    operations.map_values(|op: Operation| op@)
}

/// A start condition is needed before the first operation and wherever the
/// direction turns. Operations of one direction in a row share the start,
/// and the address that goes with it.
pub open spec fn needs_start(operations: Seq<OperationView>, index: int) -> bool {
    index == 0 || (operations[index] is Read) != (operations[index - 1] is Read)
}

/// The data request for the operation at `index`.
///
/// It begins with a start where one is needed and never ends with a stop,
/// which waits for the end of the transaction. The address byte, for the
/// operation's direction, goes out exactly where the start does, ahead of
/// the payload. A read asks for as many bytes as its buffer holds; a write
/// asks for none.
pub open spec fn request_for(
    address: u8,
    operations: Seq<OperationView>,
    index: int,
) -> DataRequestView {
    let start = needs_start(operations, index);
    match operations[index] {
        OperationView::Read(buffer) => DataRequestView {
            start,
            start_alt: false,
            stop: false,
            bytes_to_write: write_vector(
                if start {
                    Some(spec_read_address(address))
                } else {
                    None
                },
                None,
            ),
            bytes_to_read: Some(buffer.len() as u16),
        },
        OperationView::Write(bytes) => DataRequestView {
            start,
            start_alt: false,
            stop: false,
            bytes_to_write: write_vector(
                if start {
                    Some(spec_write_address(address))
                } else {
                    None
                },
                Some(bytes),
            ),
            bytes_to_read: Some(0),
        },
    }
}

/// Where a transaction stands.
#[derive(Debug, Clone, Copy, PartialEq, Eq, Structural)]
pub enum Phase {
    /// The request for the operation at the cursor is out.
    Transferring,
    /// All operations are done and the closing stop is out.
    Stopping,
    /// The transaction is over.
    Finished,
}

/// A transaction in progress.
#[derive(Debug)]
pub struct I2cTransaction {
    address: u8,
    operations: Vec<Operation>,
    cursor: usize,
    phase: Phase,
}

/// An [`I2cTransaction`] laid open.
pub struct I2cTransactionView {
    /// The peripheral's 7-bit address.
    pub address: u8,
    /// The operations; the buffers of the reads that are done hold what was
    /// read.
    pub operations: Seq<OperationView>,
    /// The number of operations that are done.
    pub cursor: int,
    pub phase: Phase,
}

impl View for I2cTransaction {
    type V = I2cTransactionView;

    closed spec fn view(&self) -> I2cTransactionView {
        I2cTransactionView {
            address: self.address,
            operations: operations_view(self.operations@),
            cursor: self.cursor as int,
            phase: self.phase,
        }
    }
}

/// What happens when the transaction reaches the operation at `index`, or,
/// with `index` past the last operation, its end.
///
/// At the end one request goes out that does nothing but stop, and so
/// releases the bus. A read of more bytes than a request can ask for ends
/// the transaction there and then. Any other operation goes out as its
/// request.
pub open spec fn issue(address: u8, operations: Seq<OperationView>, index: int) -> (
    Phase,
    ActionView,
) {
    if index >= operations.len() {
        (Phase::Stopping, ActionView::Send(data_request_packet(DataRequest::stop_only())))
    } else if operations[index] matches OperationView::Read(buffer) && buffer.len() > u16::MAX {
        (Phase::Finished, ActionView::Done(Err(ErrorView::Other)))
    } else {
        (
            Phase::Transferring,
            ActionView::Send(data_request_packet(request_for(address, operations, index))),
        )
    }
}

/// What becomes of an operation when the answer to its request is in: the
/// operation as it then stands, or the error that ends the transaction.
pub open spec fn settled(
    operation: OperationView,
    answer: Result<ResponsePacketView, ErrorView>,
) -> Result<OperationView, ErrorView> {
    match data_outcome(answer) {
        Err(e) => Err(e),
        Ok(received) => match operation {
            OperationView::Write(_) => Ok(operation),
            OperationView::Read(buffer) => match copied(received, buffer) {
                Ok(filled) => Ok(OperationView::Read(filled)),
                Err(e) => Err(e),
            },
        },
    }
}

impl I2cTransactionView {
    /// The transaction is in one piece.
    pub open spec fn wf(self) -> bool {
        &&& 0 <= self.cursor <= self.operations.len()
        &&& self.phase == Phase::Transferring ==> self.cursor < self.operations.len()
        &&& self.phase == Phase::Stopping ==> self.cursor == self.operations.len()
    }

    /// Bytes that come for a read are as many as the buffer holds.
    pub open spec fn accepts(self, answer: Result<ResponsePacketView, ErrorView>) -> bool {
        let awaited = self.operations[self.cursor];
        self.phase == Phase::Transferring ==> (awaited matches OperationView::Read(buffer) ==> (
        data_outcome(answer) matches Ok(Some(data)) ==> data.len() == buffer.len()))
    }

    /// The transaction after `answer` has come in, and what to do next.
    ///
    /// While operations are under way, an answer that settles the current
    /// one moves the transaction to the next, or to the closing stop. An
    /// answer that does not ends the transaction with its error at once: no
    /// stop is sent to recover. The answer to the closing stop ends the
    /// transaction, well or with the answer's error.
    pub open spec fn advance(self, answer: Result<ResponsePacketView, ErrorView>) -> (
        I2cTransactionView,
        ActionView,
    ) {
        match self.phase {
            Phase::Transferring => match settled(self.operations[self.cursor], answer) {
                Err(e) => (
                    I2cTransactionView { phase: Phase::Finished, ..self },
                    ActionView::Done(Err(e)),
                ),
                Ok(operation) => {
                    let operations = self.operations.update(self.cursor, operation);
                    let next = issue(self.address, operations, self.cursor + 1);
                    (
                        I2cTransactionView {
                            operations,
                            cursor: self.cursor + 1,
                            phase: next.0,
                            ..self
                        },
                        next.1,
                    )
                },
            },
            Phase::Stopping => (
                I2cTransactionView { phase: Phase::Finished, ..self },
                ActionView::Done(
                    match data_outcome(answer) {
                        Ok(_) => Ok(()),
                        Err(e) => Err(e),
                    },
                ),
            ),
            Phase::Finished => (self, ActionView::Done(Ok(()))),
        }
    }
}

/// The address goes out with the start and only with it, ahead of the
/// payload; and no request of a transaction's operations carries the stop.
pub proof fn lemma_address_goes_with_start(
    address: u8,
    operations: Seq<OperationView>,
    index: int,
)
    requires
        0 <= index < operations.len(),
    ensures
        ({
            let request = request_for(address, operations, index);
            let payload = match operations[index] {
                OperationView::Write(bytes) => bytes,
                OperationView::Read(_) => Seq::<u8>::empty(),
            };
            let byte = if operations[index] is Read {
                spec_read_address(address)
            } else {
                spec_write_address(address)
            };
            &&& !request.stop
            &&& request.start == needs_start(operations, index)
            &&& request.start ==> request.bytes_to_write == Some(seq![byte] + payload)
            &&& !request.start ==> request.bytes_to_write == (if payload.len() == 0 {
                None
            } else {
                Some(payload)
            })
        }),
{
    let payload = match operations[index] {
        OperationView::Write(bytes) => bytes,
        OperationView::Read(_) => Seq::<u8>::empty(),
    };
    assert(Seq::<u8>::empty() + payload == payload);
}

/// When an operation fails, the transaction ends with its error there and
/// then: nothing more is sent, not even a stop. The operations stay as they
/// stood.
pub proof fn lemma_failure_ends_transaction(
    transaction: I2cTransactionView,
    answer: Result<ResponsePacketView, ErrorView>,
)
    requires
        transaction.wf(),
        transaction.phase == Phase::Transferring,
        settled(transaction.operations[transaction.cursor], answer) is Err,
    ensures
        ({
            let failure = settled(transaction.operations[transaction.cursor], answer)->Err_0;
            let ended = transaction.advance(answer);
            &&& ended.1 == ActionView::Done(Err(failure))
            &&& ended.0.phase == Phase::Finished
            &&& ended.0.operations == transaction.operations
        }),
{
}

/// A transaction whose operations all succeed ends with one request that
/// does nothing but stop.
pub proof fn lemma_stop_ends_transaction(
    transaction: I2cTransactionView,
    answer: Result<ResponsePacketView, ErrorView>,
)
    requires
        transaction.wf(),
        transaction.phase == Phase::Transferring,
        transaction.cursor == transaction.operations.len() - 1,
        settled(transaction.operations[transaction.cursor], answer) is Ok,
    ensures
        transaction.advance(answer).1 == ActionView::Send(
            data_request_packet(DataRequest::stop_only()),
        ),
        transaction.advance(answer).0.phase == Phase::Stopping,
{
}

impl Operation {
    /// Whether the operation reads.
    pub fn is_read(&self) -> (read: bool)
        ensures
            read == (self@ is Read),
    {
        match self {
            Operation::Read(_) => true,
            Operation::Write(_) => false,
        }
    }
}

impl BusPirate<I2c> {
    /// The request that releases the bus.
    pub fn i2c_stop(&mut self) -> (packet: RequestPacket<'static>)
        ensures
            packet@ == data_request_packet(DataRequest::stop_only()),
    {
        build_data_request_packet(stop_request())
    }

    /// A write as one request: start, the address byte for writing, the
    /// bytes, stop. [`crate::transaction::receive_written`] judges the answer.
    pub fn write(&mut self, address: u8, write: &[u8]) -> (packet: RequestPacket<'static>)
        ensures
            packet@ == data_request_packet(
                DataRequestView {
                    start: true,
                    start_alt: false,
                    stop: true,
                    bytes_to_write: Some(seq![spec_write_address(address)] + write@),
                    bytes_to_read: None,
                },
            ),
    {
        let request = I2cRequest {
            start: true,
            stop: true,
            address: Some(i2c_write_address(address)),
            bytes_to_write: Some(write),
            bytes_to_read: None,
        };
        request.build_packet()
    }

    /// A read of `length` bytes as one request: start, the address byte for
    /// reading, the read, stop. [`crate::transaction::receive_into`] takes the
    /// answer into the caller's buffer.
    pub fn read(&mut self, address: u8, length: usize) -> (packet: RequestPacket<'static>)
        ensures
            packet@ == data_request_packet(
                DataRequestView {
                    start: true,
                    start_alt: false,
                    stop: true,
                    bytes_to_write: Some(seq![spec_read_address(address)]),
                    bytes_to_read: Some(spec_read_length(length)),
                },
            ),
    {
        let request = I2cRequest {
            start: true,
            stop: true,
            address: Some(i2c_read_address(address)),
            bytes_to_write: None,
            bytes_to_read: Some(read_length(length)),
        };
        let packet = request.build_packet();
        assert(seq![spec_read_address(address)] + Seq::<u8>::empty() == seq![
            spec_read_address(address),
        ]);
        packet
    }

    /// A write followed by a read of `length` bytes as one request: start,
    /// the address byte for writing, the bytes, the read, stop. The address
    /// goes out once. [`crate::transaction::receive_into`] takes the answer into the
    /// caller's buffer.
    pub fn write_read(&mut self, address: u8, write: &[u8], length: usize) -> (packet:
        RequestPacket<'static>)
        ensures
            packet@ == data_request_packet(
                DataRequestView {
                    start: true,
                    start_alt: false,
                    stop: true,
                    bytes_to_write: Some(seq![spec_write_address(address)] + write@),
                    bytes_to_read: Some(spec_read_length(length)),
                },
            ),
    {
        let request = I2cRequest {
            start: true,
            stop: true,
            address: Some(i2c_write_address(address)),
            bytes_to_write: Some(write),
            bytes_to_read: Some(read_length(length)),
        };
        request.build_packet()
    }

    /// Begins a transaction with the peripheral at `address`: the
    /// transaction, and the first thing to do for it.
    pub fn transaction(&mut self, address: u8, operations: Vec<Operation>) -> (begun: (
        I2cTransaction,
        Action,
    ))
        ensures
            begun.0@.wf(),
            begun.0@.address == address,
            begun.0@.operations == operations_view(operations@),
            begun.0@.cursor == 0,
            begun.0@.phase == issue(address, operations_view(operations@), 0).0,
            begun.1@ == issue(address, operations_view(operations@), 0).1,
    {
        let mut transaction = I2cTransaction {
            address,
            operations,
            cursor: 0,
            phase: Phase::Finished,
        };
        let action = transaction.issue();
        (transaction, action)
    }
}

impl I2cTransaction {
    /// Sends out what is due at the cursor.
    fn issue(&mut self) -> (action: Action)
        requires
            old(self).cursor <= old(self).operations.len(),
        ensures
            final(self)@ == (I2cTransactionView {
                phase: issue(old(self)@.address, old(self)@.operations, old(self)@.cursor).0,
                ..old(self)@
            }),
            action@ == issue(old(self)@.address, old(self)@.operations, old(self)@.cursor).1,
            final(self)@.wf(),
    {
        let index: usize = self.cursor;
        if index >= self.operations.len() {
            self.phase = Phase::Stopping;
            return Action::Send(build_data_request_packet(stop_request()));
        }
        let ghost operations = operations_view(self.operations@);
        let start = index == 0 || self.operations[index].is_read() != self.operations[index
            - 1].is_read();
        assert(start == needs_start(operations, index as int));
        let request = match &self.operations[index] {
            Operation::Read(buffer) => {
                if buffer.len() > u16::MAX as usize {
                    self.phase = Phase::Finished;
                    return Action::Done(Err(Error::Other));
                }
                I2cRequest {
                    start,
                    stop: false,
                    address: if start {
                        Some(i2c_read_address(self.address))
                    } else {
                        None
                    },
                    bytes_to_write: None,
                    bytes_to_read: Some(buffer.len() as u16),
                }.build_packet()
            },
            Operation::Write(bytes) => {
                I2cRequest {
                    start,
                    stop: false,
                    address: if start {
                        Some(i2c_write_address(self.address))
                    } else {
                        None
                    },
                    bytes_to_write: Some(bytes.as_slice()),
                    bytes_to_read: Some(0),
                }.build_packet()
            },
        };
        self.phase = Phase::Transferring;
        Action::Send(request)
    }

    /// Whether the transaction is over.
    pub fn is_finished(&self) -> (finished: bool)
        ensures
            finished == (self@.phase == Phase::Finished),
    {
        matches!(self.phase, Phase::Finished)
    }

    /// The operations as they stand: the buffers of the reads that are done
    /// hold what was read.
    pub fn operations(&self) -> (operations: &Vec<Operation>)
        ensures
            operations_view(operations@) == self@.operations,
    {
        &self.operations
    }

    /// Whether `answer` can be taken: bytes that come for a read must be as
    /// many as its buffer holds.
    pub fn accepts(&self, answer: &Result<ResponsePacket, Error>) -> (accepted: bool)
        requires
            self@.wf(),
        ensures
            accepted == self@.accepts(answer_view(*answer)),
    {
        match self.phase {
            Phase::Transferring => match &self.operations[self.cursor] {
                Operation::Read(buffer) => fits(answer, buffer.len()),
                Operation::Write(_) => true,
            },
            _ => true,
        }
    }

    /// Takes the answer to the request that is out, and says what to do
    /// next: see [`I2cTransactionView::advance`].
    pub fn advance(&mut self, answer: Result<ResponsePacket, Error>) -> (action: Action)
        requires
            old(self)@.wf(),
            old(self)@.phase != Phase::Finished,
            old(self)@.accepts(answer_view(answer)),
        ensures
            final(self)@.wf(),
            final(self)@ == old(self)@.advance(answer_view(answer)).0,
            action@ == old(self)@.advance(answer_view(answer)).1,
    {
        let received = match answer {
            Ok(packet) => receive_data_response(packet),
            Err(e) => Err(e),
        };
        match self.phase {
            Phase::Transferring => {
                let index: usize = self.cursor;
                let ghost before = operations_view(self.operations@);
                let received = match received {
                    Ok(received) => received,
                    Err(e) => {
                        self.phase = Phase::Finished;
                        return Action::Done(Err(e));
                    },
                };
                let empty = match &self.operations[index] {
                    Operation::Read(buffer) => Some(buffer.len() == 0),
                    Operation::Write(_) => None,
                };
                if let Some(empty) = empty {
                    match received {
                        Some(data) => {
                            self.operations.set(index, Operation::Read(data));
                        },
                        None => {
                            if !empty {
                                self.phase = Phase::Finished;
                                return Action::Done(Err(Error::NoDataReceived));
                            }
                        },
                    }
                }
                assert(index < self.operations.len());
                assert(operations_view(self.operations@) =~= before.update(
                    index as int,
                    settled(before[index as int], answer_view(answer))->Ok_0,
                ));
                self.cursor = index + 1;
                self.issue()
            },
            Phase::Stopping => {
                self.phase = Phase::Finished;
                match received {
                    Ok(_) => Action::Done(Ok(())),
                    Err(e) => Action::Done(Err(e)),
                }
            },
            Phase::Finished => Action::Done(Ok(())),
        }
    }

    /// Ends the transaction and hands the operations back.
    pub fn into_operations(self) -> (operations: Vec<Operation>)
        ensures
            operations_view(operations@) == self@.operations,
    {
        self.operations
    }
}

} // verus!
