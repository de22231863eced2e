//! The connection's mode capability.
//!
//! A [`BusPirate<M>`] stands for the fact that the adapter is in mode `M`.
//! The operations of a mode are methods of the capability for that mode and
//! of no other, so a request for the wrong mode cannot be written down. A
//! change of mode consumes the capability; the one for the new mode comes
//! into being when the adapter has confirmed the change, and not before.

use std::marker::PhantomData;
use vstd::prelude::*;

use crate::bpio::config::{Configuration, FullConfiguration, ModeConfiguration};
use crate::bpio::request::{
    change_mode, configuration_request, configuration_request_packet, extra_or_empty,
    RequestPacket,
};
use crate::bpio::response::{
    receive_configuration_response, ResponsePacket, ResponsePacketContents, ResponsePacketView,
};
use crate::error::Error;
use crate::modes::{ActiveMode, HiZ, I2c, Modes, Spi};
use crate::util::{ChipSelectPolarity, ClockPhase, ClockPolarity};

verus! {

/// The capability of a connection whose adapter is in mode `M`.
pub struct BusPirate<M: ActiveMode> {
    _mode: PhantomData<M>,
}

/// A change into mode `M` that has been asked for and not yet confirmed.
/// While it is pending the connection has no capability at all.
pub struct ModeChange<M: ActiveMode> {
    _mode: PhantomData<M>,
}

/// What a connection holds of the adapter's mode.
pub enum Holding {
    /// The capability for this mode: the adapter is in it.
    Capability(Modes),
    /// A change into this mode has been asked for and not yet answered.
    Pending(Modes),
    /// A change was refused. What mode the adapter is in is not known.
    Nothing,
}

/// What can happen to a connection's hold on the mode.
pub enum ModeEvent {
    /// A change into this mode was asked for.
    Requested(Modes),
    /// The adapter answered.
    Answered(ResponsePacketView),
}

/// To ask for a change of mode costs the capability that is held.
pub open spec fn requested(held: Holding, target: Modes) -> Holding {
    match held {
        Holding::Capability(_) => Holding::Pending(target),
        _ => held,
    }
}

/// The answer to a pending change issues the capability for the new mode if
/// it is a configuration response without an error text, and leaves the
/// connection with nothing if not. There is no other way to a capability.
pub open spec fn answered(held: Holding, response: ResponsePacketView) -> Holding {
    match held {
        Holding::Pending(target) => if response.fault(
            ResponsePacketContents::ConfigurationResponse,
        ) is None {
            Holding::Capability(target)
        } else {
            Holding::Nothing
        },
        _ => held,
    }
}

/// What is held after an event.
pub open spec fn after(held: Holding, event: ModeEvent) -> Holding {
    match event {
        ModeEvent::Requested(target) => requested(held, target),
        ModeEvent::Answered(response) => answered(held, response),
    }
}

/// What is held after a run of events.
pub open spec fn after_all(held: Holding, events: Seq<ModeEvent>) -> Holding
    decreases events.len(),
{
    if events.len() == 0 {
        held
    } else {
        after(after_all(held, events.drop_last()), events.last())
    }
}

/// However a connection gets on, it comes to hold the capability for a mode
/// that it did not hold at first only by a change into that mode which the
/// adapter confirmed: with any other capability, the operations of that
/// mode are out of reach until then.
pub proof fn lemma_capability_needs_confirmed_change(
    held: Holding,
    events: Seq<ModeEvent>,
    mode: Modes,
)
    requires
        held != Holding::Capability(mode),
        after_all(held, events) == Holding::Capability(mode),
    ensures
        exists|i: int|
            0 <= i < events.len() && #[trigger] after_all(held, events.take(i))
                == Holding::Pending(mode) && (events[i] matches ModeEvent::Answered(response)
                && response.fault(ResponsePacketContents::ConfigurationResponse) is None),
    decreases events.len(),
{
    let before = events.drop_last();
    let last: int = events.len() - 1;
    assert(events.len() > 0);
    assert(before == events.take(last));
    if after_all(held, before) == Holding::Capability(mode) {
        lemma_capability_needs_confirmed_change(held, before, mode);
        let i = choose|i: int|
            0 <= i < before.len() && #[trigger] after_all(held, before.take(i))
                == Holding::Pending(mode) && (before[i] matches ModeEvent::Answered(response)
                && response.fault(ResponsePacketContents::ConfigurationResponse) is None);
        assert(before.take(i) == events.take(i));
        assert(before[i] == events[i]);
    } else {
        assert(after_all(held, events.take(last)) == Holding::Pending(mode));
    }
}

/// What a connection holds once a change has been answered.
pub open spec fn held_after<M: ActiveMode>(changed: Result<BusPirate<M>, Error>) -> Holding {
    match changed {
        Ok(capability) => capability.holding(),
        Err(_) => Holding::Nothing,
    }
}

/// Begins a connection: the request that puts the adapter into its idle,
/// high-impedance mode, and the pending change that the answer completes.
pub fn open() -> (opening: (ModeChange<HiZ>, RequestPacket<'static>))
    ensures
        opening.0.holding() == Holding::Pending(Modes::HiZ),
        opening.1@ == mode_request(Modes::HiZ, ModeConfiguration::all_unset(), None),
{
    let mode_config = ModeConfiguration::empty();
    (ModeChange { _mode: PhantomData }, change_mode(Modes::HiZ, mode_config, None))
}

/// The request that changes the mode: it names the mode, carries the mode's
/// settings, and after them the populated general settings, if any are
/// given.
pub open spec fn mode_request<'a>(
    mode: Modes,
    mode_config: ModeConfiguration,
    extra_config: Option<Configuration<'a>>,
) -> crate::bpio::request::RequestPacketView<'a> {
    configuration_request_packet(
        (FullConfiguration {
            config: extra_or_empty(extra_config),
            mode: Some((mode, mode_config)),
        }).fields(),
    )
}

impl<M: ActiveMode> ModeChange<M> {
    /// A pending change holds no capability, only the prospect of one.
    pub open spec fn holding(&self) -> Holding {
        Holding::Pending(M::mode())
    }

    /// Takes the adapter's answer to the request. The capability for the
    /// new mode is issued exactly where the answer is a configuration
    /// response without an error text; otherwise the error is returned and
    /// the connection holds no capability.
    pub fn complete(self, response: ResponsePacket) -> (changed: Result<BusPirate<M>, Error>)
        ensures
            match response@.fault(ResponsePacketContents::ConfigurationResponse) {
                None => changed is Ok,
                Some(fault) => changed matches Err(e) && e@ == fault,
            },
            held_after(changed) == answered(self.holding(), response@),
    {
        match receive_configuration_response(response) {
            Ok(()) => Ok(BusPirate { _mode: PhantomData }),
            Err(e) => Err(e),
        }
    }
}

impl<M: ActiveMode> BusPirate<M> {
    /// The mode that the capability is for.
    pub open spec fn mode(&self) -> Modes {
        M::mode()
    }

    /// A capability is the hold on its own mode.
    pub open spec fn holding(&self) -> Holding {
        Holding::Capability(M::mode())
    }

    /// The request that applies general settings and leaves the mode as it
    /// is. [`receive_configuration_response`] judges the answer.
    pub fn configure<'a>(&mut self, request: Configuration<'a>) -> (packet: RequestPacket<'a>)
        ensures
            packet@ == configuration_request_packet(
                (FullConfiguration { config: request, mode: None }).fields(),
            ),
    {
        configuration_request(request)
    }

    fn set_mode<'a>(
        &self,
        mode: Modes,
        mode_config: ModeConfiguration,
        extra_config: Option<Configuration<'a>>,
    ) -> (packet: RequestPacket<'a>)
        ensures
            packet@ == mode_request(mode, mode_config, extra_config),
    {
        change_mode(mode, mode_config, extra_config)
    }

    /// Asks for I2C mode, at a clock speed in hertz and with or without
    /// clock stretching.
    pub fn enter_i2c_mode<'a>(
        self,
        speed: u32,
        clock_stretching: bool,
        extra_config: Option<Configuration<'a>>,
    ) -> (change: (ModeChange<I2c>, RequestPacket<'a>))
        ensures
            change.0.holding() == requested(self.holding(), Modes::I2c),
            change.1@ == mode_request(
                Modes::I2c,
                ModeConfiguration::i2c(speed, clock_stretching),
                extra_config,
            ),
    {
        let mut mode_config = ModeConfiguration::empty();
        mode_config.speed = Some(speed);
        mode_config.clock_stretch = Some(clock_stretching);
        let packet = self.set_mode(Modes::I2c, mode_config, extra_config);
        (ModeChange { _mode: PhantomData }, packet)
    }

    /// Asks for SPI mode, at a clock speed in hertz, with a word size and
    /// the line conventions of the peripheral.
    pub fn enter_spi_mode<'a>(
        self,
        speed: u32,
        data_bits: u8,
        clock_polarity: ClockPolarity,
        clock_phase: ClockPhase,
        chip_select_polarity: ChipSelectPolarity,
        extra_config: Option<Configuration<'a>>,
    ) -> (change: (ModeChange<Spi>, RequestPacket<'a>))
        ensures
            change.0.holding() == requested(self.holding(), Modes::Spi),
            change.1@ == mode_request(
                Modes::Spi,
                ModeConfiguration::spi(
                    speed,
                    data_bits,
                    clock_polarity,
                    clock_phase,
                    chip_select_polarity,
                ),
                extra_config,
            ),
    {
        let mut mode_config = ModeConfiguration::empty();
        mode_config.speed = Some(speed);
        mode_config.data_bits = Some(data_bits);
        mode_config.clock_polarity = Some(clock_polarity.for_bpio());
        mode_config.clock_phase = Some(clock_phase.for_bpio());
        mode_config.chip_select_idle = Some(chip_select_polarity.for_bpio());
        let packet = self.set_mode(Modes::Spi, mode_config, extra_config);
        (ModeChange { _mode: PhantomData }, packet)
    }

    /// The request that runs the adapter's self-test: a configuration
    /// request with that one field.
    pub fn selftest(&mut self) -> (packet: RequestPacket<'static>)
        ensures
            packet@ == configuration_request_packet(
                seq![crate::bpio::config::ConfigurationField::HardwareSelftest(true)],
            ),
    {
        let mut config_request = Configuration::empty();
        config_request.hardware_selftest = Some(true);
        self.configure(config_request)
    }
}

impl ModeConfiguration {
    /// The settings that I2C mode is entered with.
    pub open spec fn i2c(speed: u32, clock_stretching: bool) -> ModeConfiguration {
        ModeConfiguration {
            speed: Some(speed),
            clock_stretch: Some(clock_stretching),
            ..ModeConfiguration::all_unset()
        }
    }

    /// The settings that SPI mode is entered with. The adapter is told the
    /// idle levels of the clock and chip-select lines: high for an
    /// active-low line.
    pub open spec fn spi(
        speed: u32,
        data_bits: u8,
        clock_polarity: ClockPolarity,
        clock_phase: ClockPhase,
        chip_select_polarity: ChipSelectPolarity,
    ) -> ModeConfiguration {
        ModeConfiguration {
            speed: Some(speed),
            data_bits: Some(data_bits),
            clock_polarity: Some(clock_polarity == ClockPolarity::ActiveLow),
            clock_phase: Some(clock_phase == ClockPhase::TrailingEdge),
            chip_select_idle: Some(chip_select_polarity == ChipSelectPolarity::ActiveLow),
            ..ModeConfiguration::all_unset()
        }
    }
}

} // verus!
