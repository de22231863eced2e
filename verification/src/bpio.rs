//! The adapter's packet protocol: what a request holds, and what to make of
//! a response.
//!
//! Packets are held here as their logical fields. Turning the fields into
//! the bytes of a payload and back is the work of the schema's serialisation,
//! which stands outside this crate.

pub mod builder;
pub mod config;
pub mod request;
pub mod response;

pub use builder::{ConfigurationBuilder, ModeConfigurationBuilder, PsuConfigBuilder};
pub use config::{
    BitOrder, Configuration, ConfigurationField, FullConfiguration, IoConfig, IoDirection,
    LogicLevel, ModeConfiguration, ModeField, PsuConfig,
};
pub use request::{
    build_data_request_packet, change_mode, configuration_request, full_configuration_request,
    DataRequest, I2cRequest, RequestPacket, RequestPacketContents, VERSION_MAJOR, VERSION_MINOR,
};
pub use response::{
    check_configuration_response, check_data_response, receive_configuration_response,
    receive_data_response, ConfigurationResponse, DataResponse, ErrorResponse, ResponsePacket,
    ResponsePacketContents,
};
