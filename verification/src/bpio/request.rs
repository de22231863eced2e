//! Request packets: what the driver asks of the adapter.

use vstd::prelude::*;

use crate::bpio::config::{Configuration, ConfigurationField, FullConfiguration, ModeConfiguration};
use crate::modes::Modes;

verus! {

/// Major version of the packet interface that the driver speaks.
pub const VERSION_MAJOR: u8 = 2;

/// Minor version of the packet interface that the driver speaks.
pub const VERSION_MINOR: u8 = 0;

/// A request to move data on the bus.
#[derive(Debug, Clone, PartialEq, Eq)]
pub struct DataRequest {
    /// Begin with the bus's start condition: an I2C start, an SPI chip
    /// select.
    pub start: bool,
    /// Begin with the alternative start: on SPI, select the chip and read
    /// while writing.
    pub start_alt: bool,
    /// End with the bus's stop condition.
    pub stop: bool,
    /// The bytes to write, if any are to be written.
    pub bytes_to_write: Option<Vec<u8>>,
    /// The number of bytes to read. Leaving it out asks for none.
    pub bytes_to_read: Option<u16>,
}

/// A [`DataRequest`] with its bytes as a sequence.
pub struct DataRequestView {
    pub start: bool,
    pub start_alt: bool,
    pub stop: bool,
    pub bytes_to_write: Option<Seq<u8>>,
    pub bytes_to_read: Option<u16>,
}

impl View for DataRequest {
    type V = DataRequestView;

    open spec fn view(&self) -> DataRequestView {
        DataRequestView {
            start: self.start,
            start_alt: self.start_alt,
            stop: self.stop,
            bytes_to_write: match self.bytes_to_write {
                Some(bytes) => Some(bytes@),
                None => None,
            },
            bytes_to_read: self.bytes_to_read,
        }
    }
}

/// The contents of a request packet: exactly one kind of request.
#[derive(Debug, Clone, PartialEq, Eq)]
pub enum RequestPacketContents<'a> {
    /// The fields of a configuration request. A field that is not listed is
    /// not in the packet.
    ConfigurationRequest(Vec<ConfigurationField<'a>>),
    DataRequest(DataRequest),
}

/// A request packet.
#[derive(Debug, Clone, PartialEq, Eq)]
pub struct RequestPacket<'a> {
    pub version_major: u8,
    pub version_minor: u8,
    pub contents: RequestPacketContents<'a>,
}

/// [`RequestPacketContents`] with sequences for vectors.
pub enum RequestPacketContentsView<'a> {
    ConfigurationRequest(Seq<ConfigurationField<'a>>),
    DataRequest(DataRequestView),
}

/// A [`RequestPacket`] with sequences for vectors.
pub struct RequestPacketView<'a> {
    pub version_major: u8,
    pub version_minor: u8,
    pub contents: RequestPacketContentsView<'a>,
}

impl<'a> View for RequestPacket<'a> {
    type V = RequestPacketView<'a>;

    open spec fn view(&self) -> RequestPacketView<'a> {
        RequestPacketView {
            version_major: self.version_major,
            version_minor: self.version_minor,
            contents: match self.contents {
                RequestPacketContents::ConfigurationRequest(fields) =>
                    RequestPacketContentsView::ConfigurationRequest(fields@),
                RequestPacketContents::DataRequest(request) =>
                    RequestPacketContentsView::DataRequest(request@),
            },
        }
    }
}

/// The packet of this interface version that holds a data request.
pub open spec fn data_request_packet(request: DataRequestView) -> RequestPacketView<'static> {
    RequestPacketView {
        version_major: VERSION_MAJOR,
        version_minor: VERSION_MINOR,
        contents: RequestPacketContentsView::DataRequest(request),
    }
}

/// The packet of this interface version that holds a configuration request
/// with the given fields.
pub open spec fn configuration_request_packet<'a>(
    fields: Seq<ConfigurationField<'a>>,
) -> RequestPacketView<'a> {
    RequestPacketView {
        version_major: VERSION_MAJOR,
        version_minor: VERSION_MINOR,
        contents: RequestPacketContentsView::ConfigurationRequest(fields),
    }
}

/// Wraps a data request in a packet.
pub fn build_data_request_packet(data_request: DataRequest) -> (packet: RequestPacket<'static>)
    ensures
        packet@ == data_request_packet(data_request@),
{
    RequestPacket {
        version_major: VERSION_MAJOR,
        version_minor: VERSION_MINOR,
        contents: RequestPacketContents::DataRequest(data_request),
    }
}

impl DataRequest {
    /// The request that only ends what an earlier one began: it releases the
    /// bus, or the chip select, and moves no data.
    pub open spec fn stop_only() -> DataRequestView {
        DataRequestView {
            start: false,
            start_alt: false,
            stop: true,
            bytes_to_write: None,
            bytes_to_read: None,
        }
    }

    /// The request in its packet.
    pub fn build_packet(self) -> (packet: RequestPacket<'static>)
        ensures
            packet@ == data_request_packet(self@),
    {
        build_data_request_packet(self)
    }
}

/// The low sixteen bits of a buffer's length: what the request's read count
/// can hold of it.
pub open spec fn spec_read_length(length: usize) -> u16 {
    (length % 0x1_0000) as u16
}

/// The read count for a buffer of `length` bytes. A length of 65536 or more
/// does not fit and is cut to its low sixteen bits.
pub fn read_length(length: usize) -> (count: u16)
    ensures
        count == spec_read_length(length),
        length <= u16::MAX ==> count == length,
{
    assert(length as u16 == (length % 0x1_0000) as u16) by (bit_vector);
    #[verifier::truncate]
    (length as u16)
}

/// The bytes of `source` as a vector of their own.
pub fn to_vec(source: &[u8]) -> (bytes: Vec<u8>)
    ensures
        bytes@ == source@,
{
    let mut bytes: Vec<u8> = Vec::new();
    append(&mut bytes, source);
    bytes
}

/// Adds the bytes of `source` at the end of `bytes`.
pub fn append(bytes: &mut Vec<u8>, source: &[u8])
    ensures
        final(bytes)@ == old(bytes)@ + source@,
{
    let mut i: usize = 0;
    while i < source.len()
        invariant
            i <= source.len(),
            bytes@ == old(bytes)@ + source@.take(i as int),
        decreases source.len() - i,
    {
        bytes.push(source[i]);
        assert(source@.take(i + 1) == source@.take(i as int).push(source@[i as int]));
        i += 1;
    }
    assert(source@.take(i as int) == source@);
}

/// A data request to an I2C peripheral, before address and payload are put
/// together.
#[derive(Debug, Clone, Copy, PartialEq, Eq)]
pub struct I2cRequest<'a> {
    pub start: bool,
    pub stop: bool,
    /// The address byte to send, with its read/write bit.
    pub address: Option<u8>,
    pub bytes_to_write: Option<&'a [u8]>,
    pub bytes_to_read: Option<u16>,
}

/// Optional borrowed bytes as an optional sequence.
pub open spec fn slice_view(bytes: Option<&[u8]>) -> Option<Seq<u8>> {
    match bytes {
        Some(b) => Some(b@),
        None => None,
    }
}

/// The bytes that go out for an address and a payload: the address, where
/// there is one, and after it the payload, where there is one. With neither,
/// or with an empty payload alone, nothing goes out.
pub open spec fn write_vector(address: Option<u8>, data: Option<Seq<u8>>) -> Option<Seq<u8>> {
    let head = match address {
        Some(a) => seq![a],
        None => Seq::<u8>::empty(),
    };
    let tail = match data {
        Some(d) => d,
        None => Seq::<u8>::empty(),
    };
    if head.len() + tail.len() == 0 {
        None
    } else {
        Some(head + tail)
    }
}

impl<'a> I2cRequest<'a> {
    /// The data request that goes out for this one.
    pub open spec fn data_request(self) -> DataRequestView {
        DataRequestView {
            start: self.start,
            start_alt: false,
            stop: self.stop,
            bytes_to_write: write_vector(self.address, slice_view(self.bytes_to_write)),
            bytes_to_read: self.bytes_to_read,
        }
    }

    /// Puts address and payload together: see [`write_vector`]. Where there
    /// is an address it is the first byte, and the payload follows it
    /// unchanged.
    pub fn add_i2c_write_vector(address: Option<u8>, data: Option<&[u8]>) -> (bytes: Option<
        Vec<u8>,
    >)
        ensures
            crate::bpio::response::bytes_view(bytes) == write_vector(address, slice_view(data)),
            address matches Some(a) ==> bytes matches Some(v) && v@[0] == a && v@.skip(1) == (
            match data {
                Some(d) => d@,
                None => Seq::<u8>::empty(),
            }),
    {
        let mut bytes: Vec<u8> = Vec::new();
        if let Some(address) = address {
            bytes.push(address);
        }
        let ghost head = bytes@;
        if let Some(data) = data {
            append(&mut bytes, data);
        }
        proof {
            let tail = match data {
                Some(d) => d@,
                None => Seq::<u8>::empty(),
            };
            assert(bytes@ == head + tail);
            if address is Some {
                assert(bytes@.skip(1) == tail);
            }
        }
        if bytes.len() == 0 {
            None
        } else {
            Some(bytes)
        }
    }

    /// The request in its packet.
    pub fn build_packet(&self) -> (packet: RequestPacket<'static>)
        ensures
            packet@ == data_request_packet(self.data_request()),
    {
        let write_vector = Self::add_i2c_write_vector(self.address, self.bytes_to_write);
        build_data_request_packet(
            DataRequest {
                start: self.start,
                start_alt: false,
                stop: self.stop,
                bytes_to_write: write_vector,
                bytes_to_read: self.bytes_to_read,
            },
        )
    }
}

impl<'a> FullConfiguration<'a> {
    /// The request in its packet.
    pub fn build_packet(&self) -> (packet: RequestPacket<'a>)
        ensures
            packet@ == configuration_request_packet(self.fields()),
    {
        RequestPacket {
            version_major: VERSION_MAJOR,
            version_minor: VERSION_MINOR,
            contents: RequestPacketContents::ConfigurationRequest(self.apply()),
        }
    }
}

/// The request for settings that leave the mode as it is.
pub fn configuration_request<'a>(config: Configuration<'a>) -> (packet: RequestPacket<'a>)
    ensures
        packet@ == configuration_request_packet(
            (FullConfiguration { config, mode: None }).fields(),
        ),
{
    full_configuration_request(config, None)
}

/// The request for general settings and, where `mode` is given, a change of
/// mode.
pub fn full_configuration_request<'a>(
    config: Configuration<'a>,
    mode: Option<(Modes, ModeConfiguration)>,
) -> (packet: RequestPacket<'a>)
    ensures
        packet@ == configuration_request_packet((FullConfiguration { config, mode }).fields()),
{
    let full_config = FullConfiguration { config, mode };
    full_config.build_packet()
}

/// The general settings that ride on a change of mode: those given, or none.
pub open spec fn extra_or_empty<'a>(extra_config: Option<Configuration<'a>>) -> Configuration<
    'a,
> {
    match extra_config {
        Some(config) => config,
        None => Configuration::<'a>::all_unset(),
    }
}

/// The request that puts the adapter into `mode` with the settings
/// `mode_config`. The packet names the mode and carries its settings, and
/// after them the populated settings of `extra_config`, if there is one.
pub fn change_mode<'a>(
    mode: Modes,
    mode_config: ModeConfiguration,
    extra_config: Option<Configuration<'a>>,
) -> (packet: RequestPacket<'a>)
    ensures
        packet@ == configuration_request_packet(
            (FullConfiguration {
                config: extra_or_empty(extra_config),
                mode: Some((mode, mode_config)),
            }).fields(),
        ),
{
    let config = match extra_config {
        Some(config) => config,
        None => Configuration::empty(),
    };
    full_configuration_request(config, Some((mode, mode_config)))
}

} // verus!
