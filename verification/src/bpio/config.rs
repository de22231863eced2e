//! What a configuration request can ask for.
//!
//! Every setting is optional, and a request carries the settings that are
//! populated and no others: what is left out stays as it is on the adapter.
//! The functions named `apply` turn a bundle of settings into that minimal
//! list of fields, in the schema's order.

use vstd::prelude::*;

use crate::modes::Modes;

verus! {

/// Which bit of a word goes first on the bus.
#[derive(Debug, Clone, Copy, PartialEq, Eq, Structural)]
pub enum BitOrder {
    Msb,
    Lsb,
}

/// What a pin of the adapter's IO header does.
#[derive(Debug, Clone, Copy, PartialEq, Eq, Structural)]
pub enum IoDirection {
    Output,
    Input,
}

impl IoDirection {
    #[must_use]
    pub fn is_output(&self) -> (output: bool)
        ensures
            output <==> *self == IoDirection::Output,
    {
        matches!(self, IoDirection::Output)
    }
}

/// The level of an output pin.
#[derive(Debug, Clone, Copy, PartialEq, Eq, Structural)]
pub enum LogicLevel {
    High,
    Low,
}

impl LogicLevel {
    #[must_use]
    pub fn is_high(&self) -> (high: bool)
        ensures
            high <==> *self == LogicLevel::High,
    {
        matches!(self, LogicLevel::High)
    }
}

/// One field of the mode configuration that a request carries.
#[derive(Debug, Clone, Copy, PartialEq, Eq)]
pub enum ModeField {
    Speed(u32),
    DataBits(u8),
    Parity(bool),
    StopBits(u8),
    FlowControl(bool),
    SignalInversion(bool),
    ClockStretch(bool),
    ClockPolarity(bool),
    ClockPhase(bool),
    ChipSelectIdle(bool),
    Submode(u8),
    TxModulation(u32),
    RxSensor(u8),
}

/// The settings of a bus mode.
#[derive(Debug, Clone, Copy, PartialEq, Eq)]
pub struct ModeConfiguration {
    /// Clock speed in hertz, or the baud rate.
    pub speed: Option<u32>,
    /// Bits per word.
    pub data_bits: Option<u8>,
    /// Whether a parity bit is sent.
    pub parity: Option<bool>,
    /// Number of stop bits.
    pub stop_bits: Option<u8>,
    /// Whether hardware flow control is on.
    pub flow_control: Option<bool>,
    /// Whether the signal levels are inverted.
    pub signal_inversion: Option<bool>,
    /// Whether an I2C peripheral may stretch the clock.
    pub clock_stretch: Option<bool>,
    /// The SPI clock's idle level: `true` for high.
    pub clock_polarity: Option<bool>,
    /// The SPI clock edge that samples: `true` for the trailing edge.
    pub clock_phase: Option<bool>,
    /// The chip-select line's idle level: `true` for high.
    pub chip_select_idle: Option<bool>,
    /// A mode's variant, where it has several.
    pub submode: Option<u8>,
    /// Carrier frequency of an infrared transmitter.
    pub tx_modulation: Option<u32>,
    /// The infrared receiver to listen on.
    pub rx_sensor: Option<u8>,
}

/// `fields`, and after them `field(v)` where `value` is `Some(v)`.
pub open spec fn with<T, F>(fields: Seq<F>, value: Option<T>, field: spec_fn(T) -> F) -> Seq<F> {
    match value {
        Some(v) => fields.push(field(v)),
        None => fields,
    }
}

impl ModeConfiguration {
    /// The populated settings as fields, in the schema's order.
    pub open spec fn fields(self) -> Seq<ModeField> {
        let fields = Seq::<ModeField>::empty();
        let fields = with(fields, self.speed, |v: u32| ModeField::Speed(v));
        let fields = with(fields, self.data_bits, |v: u8| ModeField::DataBits(v));
        let fields = with(fields, self.parity, |v: bool| ModeField::Parity(v));
        let fields = with(fields, self.stop_bits, |v: u8| ModeField::StopBits(v));
        let fields = with(fields, self.flow_control, |v: bool| ModeField::FlowControl(v));
        let fields = with(fields, self.signal_inversion, |v: bool| ModeField::SignalInversion(v));
        let fields = with(fields, self.clock_stretch, |v: bool| ModeField::ClockStretch(v));
        let fields = with(fields, self.clock_polarity, |v: bool| ModeField::ClockPolarity(v));
        let fields = with(fields, self.clock_phase, |v: bool| ModeField::ClockPhase(v));
        let fields = with(fields, self.chip_select_idle, |v: bool| ModeField::ChipSelectIdle(v));
        let fields = with(fields, self.submode, |v: u8| ModeField::Submode(v));
        let fields = with(fields, self.tx_modulation, |v: u32| ModeField::TxModulation(v));
        let fields = with(fields, self.rx_sensor, |v: u8| ModeField::RxSensor(v));
        fields
    }

    /// The settings with nothing populated.
    pub open spec fn all_unset() -> ModeConfiguration {
        ModeConfiguration {
            speed: None,
            data_bits: None,
            parity: None,
            stop_bits: None,
            flow_control: None,
            signal_inversion: None,
            clock_stretch: None,
            clock_polarity: None,
            clock_phase: None,
            chip_select_idle: None,
            submode: None,
            tx_modulation: None,
            rx_sensor: None,
        }
    }

    /// No setting is populated.
    pub fn empty() -> (configuration: ModeConfiguration)
        ensures
            configuration == ModeConfiguration::all_unset(),
            configuration.fields() == Seq::<ModeField>::empty(),
    {
        ModeConfiguration {
            speed: None,
            data_bits: None,
            parity: None,
            stop_bits: None,
            flow_control: None,
            signal_inversion: None,
            clock_stretch: None,
            clock_polarity: None,
            clock_phase: None,
            chip_select_idle: None,
            submode: None,
            tx_modulation: None,
            rx_sensor: None,
        }
    }

    /// The fields that a request carries for these settings: one for each
    /// populated setting, none for the others.
    pub fn apply(&self) -> (fields: Vec<ModeField>)
        ensures
            fields@ == self.fields(),
    {
        let mut fields: Vec<ModeField> = Vec::new();
        let ghost mut listed: Seq<ModeField> = Seq::empty();
        if let Some(speed) = self.speed {
            fields.push(ModeField::Speed(speed));
        }
        proof {
            listed = with(listed, self.speed, |v: u32| ModeField::Speed(v));
        }
        assert(fields@ == listed);
        if let Some(data_bits) = self.data_bits {
            fields.push(ModeField::DataBits(data_bits));
        }
        proof {
            listed = with(listed, self.data_bits, |v: u8| ModeField::DataBits(v));
        }
        assert(fields@ == listed);
        if let Some(parity) = self.parity {
            fields.push(ModeField::Parity(parity));
        }
        proof {
            listed = with(listed, self.parity, |v: bool| ModeField::Parity(v));
        }
        assert(fields@ == listed);
        if let Some(stop_bits) = self.stop_bits {
            fields.push(ModeField::StopBits(stop_bits));
        }
        proof {
            listed = with(listed, self.stop_bits, |v: u8| ModeField::StopBits(v));
        }
        assert(fields@ == listed);
        if let Some(flow_control) = self.flow_control {
            fields.push(ModeField::FlowControl(flow_control));
        }
        proof {
            listed = with(listed, self.flow_control, |v: bool| ModeField::FlowControl(v));
        }
        assert(fields@ == listed);
        if let Some(signal_inversion) = self.signal_inversion {
            fields.push(ModeField::SignalInversion(signal_inversion));
        }
        proof {
            listed = with(listed, self.signal_inversion, |v: bool| ModeField::SignalInversion(v));
        }
        assert(fields@ == listed);
        if let Some(clock_stretch) = self.clock_stretch {
            fields.push(ModeField::ClockStretch(clock_stretch));
        }
        proof {
            listed = with(listed, self.clock_stretch, |v: bool| ModeField::ClockStretch(v));
        }
        assert(fields@ == listed);
        if let Some(clock_polarity) = self.clock_polarity {
            fields.push(ModeField::ClockPolarity(clock_polarity));
        }
        proof {
            listed = with(listed, self.clock_polarity, |v: bool| ModeField::ClockPolarity(v));
        }
        assert(fields@ == listed);
        if let Some(clock_phase) = self.clock_phase {
            fields.push(ModeField::ClockPhase(clock_phase));
        }
        proof {
            listed = with(listed, self.clock_phase, |v: bool| ModeField::ClockPhase(v));
        }
        assert(fields@ == listed);
        if let Some(chip_select_idle) = self.chip_select_idle {
            fields.push(ModeField::ChipSelectIdle(chip_select_idle));
        }
        proof {
            listed = with(listed, self.chip_select_idle, |v: bool| ModeField::ChipSelectIdle(v));
        }
        assert(fields@ == listed);
        if let Some(submode) = self.submode {
            fields.push(ModeField::Submode(submode));
        }
        proof {
            listed = with(listed, self.submode, |v: u8| ModeField::Submode(v));
        }
        assert(fields@ == listed);
        if let Some(tx_modulation) = self.tx_modulation {
            fields.push(ModeField::TxModulation(tx_modulation));
        }
        proof {
            listed = with(listed, self.tx_modulation, |v: u32| ModeField::TxModulation(v));
        }
        assert(fields@ == listed);
        if let Some(rx_sensor) = self.rx_sensor {
            fields.push(ModeField::RxSensor(rx_sensor));
        }
        proof {
            listed = with(listed, self.rx_sensor, |v: u8| ModeField::RxSensor(v));
        }
        assert(fields@ == listed);
        fields
    }
}

/// One field of a configuration request.
#[derive(Debug, Clone, Copy, PartialEq, Eq)]
pub enum ConfigurationField<'a> {
    /// The mode to switch to; the request carries its name.
    Mode(Modes),
    /// The settings of that mode, a table of their own in the request.
    ModeConfiguration(ModeConfiguration),
    ModeBitorderMsb(bool),
    ModeBitorderLsb(bool),
    PsuEnable(bool),
    PsuDisable(bool),
    PsuSetMv(u32),
    PsuSetMa(u16),
    PullupEnable(bool),
    PullupDisable(bool),
    IoDirectionMask(u8),
    IoDirection(u8),
    IoValueMask(u8),
    IoValue(u8),
    LedResume(bool),
    LedColor(&'a [u32]),
    PrintString(&'a str),
    HardwareBootloader(bool),
    HardwareReset(bool),
    HardwareSelftest(bool),
}

/// What to do with the adapter's power supply.
#[derive(Debug, Clone, Copy, PartialEq, Eq)]
pub struct PsuConfig {
    /// Switch the supply on or off.
    pub enable: Option<bool>,
    /// The output voltage, in millivolts.
    pub millivolts: Option<u32>,
    /// The current limit, in milliamperes.
    pub milliamps: Option<u16>,
}

impl PsuConfig {
    /// `fields`, and after them the fields for the populated settings. The
    /// schema has one flag to switch the supply on and another to switch it
    /// off; either is sent as `true`.
    pub open spec fn fields_after<'a>(self, fields: Seq<ConfigurationField<'a>>) -> Seq<
        ConfigurationField<'a>,
    > {
        let fields = with(
            fields,
            self.enable,
            |on: bool|
                if on {
                    ConfigurationField::PsuEnable(true)
                } else {
                    ConfigurationField::PsuDisable(true)
                },
        );
        let fields = with(fields, self.millivolts, |v: u32| ConfigurationField::PsuSetMv(v));
        let fields = with(fields, self.milliamps, |v: u16| ConfigurationField::PsuSetMa(v));
        fields
    }

    /// The settings with nothing populated.
    pub open spec fn all_unset() -> PsuConfig {
        PsuConfig { enable: None, millivolts: None, milliamps: None }
    }

    /// No setting is populated.
    pub fn empty() -> (psu: PsuConfig)
        ensures
            psu == PsuConfig::all_unset(),
    {
        PsuConfig { enable: None, millivolts: None, milliamps: None }
    }

    /// The supply switched on, at a voltage and with a current limit.
    pub fn enable(millivolts: u32, milliamps: u16) -> (psu: PsuConfig)
        ensures
            psu == (PsuConfig {
                enable: Some(true),
                millivolts: Some(millivolts),
                milliamps: Some(milliamps),
            }),
    {
        PsuConfig { enable: Some(true), millivolts: Some(millivolts), milliamps: Some(milliamps) }
    }

    /// The supply switched off.
    pub fn disable() -> (psu: PsuConfig)
        ensures
            psu == (PsuConfig { enable: Some(false), millivolts: None, milliamps: None }),
    {
        PsuConfig { enable: Some(false), millivolts: None, milliamps: None }
    }

    /// Adds the fields for the populated settings to a request's fields.
    pub fn apply<'a>(&self, cfg: &mut Vec<ConfigurationField<'a>>)
        ensures
            final(cfg)@ == self.fields_after(old(cfg)@),
    {
        if let Some(enable_psu) = self.enable {
            if enable_psu {
                cfg.push(ConfigurationField::PsuEnable(true));
            } else {
                cfg.push(ConfigurationField::PsuDisable(true));
            }
        }
        if let Some(mv) = self.millivolts {
            cfg.push(ConfigurationField::PsuSetMv(mv));
        }
        if let Some(ma) = self.milliamps {
            cfg.push(ConfigurationField::PsuSetMa(ma));
        }
    }
}

/// `byte` with bit number `bit` set to `value`.
pub open spec fn with_bit(byte: u8, bit: u8, value: bool) -> u8 {
    if value {
        byte | (1u8 << bit)
    } else {
        byte & !(1u8 << bit)
    }
}

/// Whether bit number `bit` of `byte` is set.
pub open spec fn bit_of(byte: u8, bit: u8) -> bool {
    byte & (1u8 << bit) != 0
}

/// Setting one bit of a byte sets that bit and leaves the others.
pub proof fn lemma_with_bit(byte: u8, bit: u8, value: bool, other: u8)
    by (bit_vector)
    requires
        bit < 8,
        other < 8,
    ensures
        bit_of(with_bit(byte, bit, value), other) == (if other == bit {
            value
        } else {
            bit_of(byte, other)
        }),
{
}

/// Calls `BitField::set_bit` of the `bit_field` crate on a byte: bit number
/// `bit` becomes `value`, the other bits stay. It panics on a bit number
/// that a byte does not have.
#[verifier::external_body]
fn set_bit(byte: &mut u8, bit: usize, value: bool)
    requires
        bit < 8,
    ensures
        *final(byte) == with_bit(*old(byte), bit as u8, value),
{
    bit_field::BitField::set_bit(byte, bit, value);
}

/// What to do with the eight pins of the adapter's IO header. A pin is
/// touched only where its bit in the mask is set.
#[derive(Debug, Clone, Copy, PartialEq, Eq)]
pub struct IoConfig {
    /// The pins whose direction is set.
    pub direction_mask: u8,
    /// For those pins: a set bit makes the pin an output.
    pub direction: u8,
    /// The pins whose level is set.
    pub value_mask: u8,
    /// For those pins: a set bit drives the pin high.
    pub value: u8,
}

impl IoConfig {
    /// The direction that is asked of `pin`, if one is.
    pub open spec fn direction_of(self, pin: u8) -> Option<IoDirection> {
        if bit_of(self.direction_mask, pin) {
            Some(
                if bit_of(self.direction, pin) {
                    IoDirection::Output
                } else {
                    IoDirection::Input
                },
            )
        } else {
            None
        }
    }

    /// The level that is asked of `pin`, if one is.
    pub open spec fn level_of(self, pin: u8) -> Option<LogicLevel> {
        if bit_of(self.value_mask, pin) {
            Some(
                if bit_of(self.value, pin) {
                    LogicLevel::High
                } else {
                    LogicLevel::Low
                },
            )
        } else {
            None
        }
    }

    /// `fields`, and after them the four fields of the pin settings.
    pub open spec fn fields_after<'a>(self, fields: Seq<ConfigurationField<'a>>) -> Seq<
        ConfigurationField<'a>,
    > {
        fields.push(ConfigurationField::IoDirectionMask(self.direction_mask)).push(
            ConfigurationField::IoDirection(self.direction),
        ).push(ConfigurationField::IoValueMask(self.value_mask)).push(
            ConfigurationField::IoValue(self.value),
        )
    }

    /// No pin is touched.
    pub fn new() -> (io: IoConfig)
        ensures
            io == (IoConfig { direction_mask: 0, direction: 0, value_mask: 0, value: 0 }),
            forall|pin: u8| pin < 8 ==> #[trigger] io.direction_of(pin) is None,
            forall|pin: u8| pin < 8 ==> #[trigger] io.level_of(pin) is None,
    {
        assert forall|pin: u8| pin < 8 implies !bit_of(0u8, pin) by {
            assert(0u8 & (1u8 << pin) == 0) by (bit_vector);
        }
        IoConfig { direction_mask: 0, direction: 0, value_mask: 0, value: 0 }
    }

    /// Asks for `pin` to become an input or an output. The other pins'
    /// directions and all levels stay as they were asked.
    pub fn set_direction(&mut self, pin: usize, direction: IoDirection)
        requires
            pin < 8,
        ensures
            final(self).direction_mask == with_bit(old(self).direction_mask, pin as u8, true),
            final(self).direction == with_bit(
                old(self).direction,
                pin as u8,
                direction == IoDirection::Output,
            ),
            final(self).value_mask == old(self).value_mask,
            final(self).value == old(self).value,
            final(self).direction_of(pin as u8) == Some(direction),
            forall|other: u8|
                other < 8 && other != pin ==> #[trigger] final(self).direction_of(other) == old(
                    self,
                ).direction_of(other),
            forall|other: u8| #[trigger] final(self).level_of(other) == old(self).level_of(other),
    {
        set_bit(&mut self.direction_mask, pin, true);
        set_bit(&mut self.direction, pin, direction.is_output());
        proof {
            assert forall|other: u8| other < 8 implies bit_of(self.direction_mask, other) == (
            other == pin || bit_of(old(self).direction_mask, other)) && bit_of(
                self.direction,
                other,
            ) == (if other == pin {
                direction == IoDirection::Output
            } else {
                bit_of(old(self).direction, other)
            }) by {
                lemma_with_bit(old(self).direction_mask, pin as u8, true, other);
                lemma_with_bit(
                    old(self).direction,
                    pin as u8,
                    direction == IoDirection::Output,
                    other,
                );
            }
        }
    }

    /// Asks for `pin` to be driven high or low. The other pins' levels and
    /// all directions stay as they were asked.
    pub fn set_level(&mut self, pin: usize, level: LogicLevel)
        requires
            pin < 8,
        ensures
            final(self).value_mask == with_bit(old(self).value_mask, pin as u8, true),
            final(self).value == with_bit(old(self).value, pin as u8, level == LogicLevel::High),
            final(self).direction_mask == old(self).direction_mask,
            final(self).direction == old(self).direction,
            final(self).level_of(pin as u8) == Some(level),
            forall|other: u8|
                other < 8 && other != pin ==> #[trigger] final(self).level_of(other) == old(
                    self,
                ).level_of(other),
            forall|other: u8|
                #[trigger] final(self).direction_of(other) == old(self).direction_of(other),
    {
        set_bit(&mut self.value_mask, pin, true);
        set_bit(&mut self.value, pin, level.is_high());
        proof {
            assert forall|other: u8| other < 8 implies bit_of(self.value_mask, other) == (other
                == pin || bit_of(old(self).value_mask, other)) && bit_of(self.value, other) == (
            if other == pin {
                level == LogicLevel::High
            } else {
                bit_of(old(self).value, other)
            }) by {
                lemma_with_bit(old(self).value_mask, pin as u8, true, other);
                lemma_with_bit(old(self).value, pin as u8, level == LogicLevel::High, other);
            }
        }
    }

    /// Adds the four fields of the pin settings to a request's fields.
    pub fn apply<'a>(&self, cfg: &mut Vec<ConfigurationField<'a>>)
        ensures
            final(cfg)@ == self.fields_after(old(cfg)@),
    {
        cfg.push(ConfigurationField::IoDirectionMask(self.direction_mask));
        cfg.push(ConfigurationField::IoDirection(self.direction));
        cfg.push(ConfigurationField::IoValueMask(self.value_mask));
        cfg.push(ConfigurationField::IoValue(self.value));
    }
}

/// Settings of the adapter that belong to no particular mode. They may ride
/// on any configuration request, with a change of mode or without one.
#[derive(Debug, Clone, Copy, PartialEq, Eq)]
pub struct Configuration<'a> {
    /// The bit order of the mode's words.
    pub mode_bit_order: Option<BitOrder>,
    /// The power supply.
    pub psu: Option<PsuConfig>,
    /// Switch the pull-up resistors on or off.
    pub pullup: Option<bool>,
    /// The pins of the IO header.
    pub io: Option<IoConfig>,
    /// Let the LEDs go back to their own pattern.
    pub led_resume: Option<bool>,
    /// A colour for each LED.
    pub led_color: Option<&'a [u32]>,
    /// A text to show on the adapter's terminal.
    pub print_string: Option<&'a str>,
    /// Restart the adapter into its bootloader.
    pub hardware_bootloader: Option<bool>,
    /// Restart the adapter.
    pub hardware_reset: Option<bool>,
    /// Run the adapter's self-test.
    pub hardware_selftest: Option<bool>,
}

impl<'a> Configuration<'a> {
    /// `fields`, and after them the fields for the populated settings, in
    /// the schema's order. The bit order and the pull-ups have a flag for
    /// either choice; the chosen one is sent as `true`.
    pub open spec fn fields_after(self, fields: Seq<ConfigurationField<'a>>) -> Seq<
        ConfigurationField<'a>,
    > {
        let fields = with(
            fields,
            self.mode_bit_order,
            |order: BitOrder|
                match order {
                    BitOrder::Msb => ConfigurationField::ModeBitorderMsb(true),
                    BitOrder::Lsb => ConfigurationField::ModeBitorderLsb(true),
                },
        );
        let fields = match self.psu {
            Some(psu) => psu.fields_after(fields),
            None => fields,
        };
        let fields = with(
            fields,
            self.pullup,
            |on: bool|
                if on {
                    ConfigurationField::PullupEnable(true)
                } else {
                    ConfigurationField::PullupDisable(true)
                },
        );
        let fields = match self.io {
            Some(io) => io.fields_after(fields),
            None => fields,
        };
        let fields = with(fields, self.led_resume, |v: bool| ConfigurationField::LedResume(v));
        let fields = with(fields, self.led_color, |v: &'a [u32]| ConfigurationField::LedColor(v));
        let fields = with(
            fields,
            self.print_string,
            |v: &'a str| ConfigurationField::PrintString(v),
        );
        let fields = with(
            fields,
            self.hardware_bootloader,
            |v: bool| ConfigurationField::HardwareBootloader(v),
        );
        let fields = with(
            fields,
            self.hardware_reset,
            |v: bool| ConfigurationField::HardwareReset(v),
        );
        let fields = with(
            fields,
            self.hardware_selftest,
            |v: bool| ConfigurationField::HardwareSelftest(v),
        );
        fields
    }

    /// The settings with nothing populated.
    pub open spec fn all_unset() -> Configuration<'a> {
        Configuration {
            mode_bit_order: None,
            psu: None,
            pullup: None,
            io: None,
            led_resume: None,
            led_color: None,
            print_string: None,
            hardware_bootloader: None,
            hardware_reset: None,
            hardware_selftest: None,
        }
    }

    /// No setting is populated.
    pub fn empty() -> (configuration: Configuration<'a>)
        ensures
            configuration == Configuration::<'a>::all_unset(),
    {
        Configuration {
            mode_bit_order: None,
            psu: None,
            pullup: None,
            io: None,
            led_resume: None,
            led_color: None,
            print_string: None,
            hardware_bootloader: None,
            hardware_reset: None,
            hardware_selftest: None,
        }
    }

    /// Adds the fields for the populated settings to a request's fields.
    pub fn apply(&self, cfg: &mut Vec<ConfigurationField<'a>>)
        ensures
            final(cfg)@ == self.fields_after(old(cfg)@),
    {
        if let Some(bit_order) = self.mode_bit_order {
            match bit_order {
                BitOrder::Msb => cfg.push(ConfigurationField::ModeBitorderMsb(true)),
                BitOrder::Lsb => cfg.push(ConfigurationField::ModeBitorderLsb(true)),
            }
        }
        if let Some(psu) = self.psu {
            psu.apply(cfg);
        }
        if let Some(turn_pullup_on) = self.pullup {
            if turn_pullup_on {
                cfg.push(ConfigurationField::PullupEnable(true));
            } else {
                cfg.push(ConfigurationField::PullupDisable(true));
            }
        }
        if let Some(io_config) = self.io {
            io_config.apply(cfg);
        }
        if let Some(led_resume) = self.led_resume {
            cfg.push(ConfigurationField::LedResume(led_resume));
        }
        if let Some(led_color) = self.led_color {
            cfg.push(ConfigurationField::LedColor(led_color));
        }
        if let Some(print_string) = self.print_string {
            cfg.push(ConfigurationField::PrintString(print_string));
        }
        if let Some(hardware_bootloader) = self.hardware_bootloader {
            cfg.push(ConfigurationField::HardwareBootloader(hardware_bootloader));
        }
        if let Some(hardware_reset) = self.hardware_reset {
            cfg.push(ConfigurationField::HardwareReset(hardware_reset));
        }
        if let Some(hardware_selftest) = self.hardware_selftest {
            cfg.push(ConfigurationField::HardwareSelftest(hardware_selftest));
        }
    }
}

/// A whole configuration request: the general settings and, where the mode
/// is to change, the mode and its settings.
#[derive(Debug, Clone, Copy, PartialEq, Eq)]
pub struct FullConfiguration<'a> {
    pub config: Configuration<'a>,
    pub mode: Option<(Modes, ModeConfiguration)>,
}

impl<'a> FullConfiguration<'a> {
    /// The request's fields: the mode and its settings first, where there is
    /// a mode, and then the populated general settings.
    pub open spec fn fields(self) -> Seq<ConfigurationField<'a>> {
        let fields = Seq::<ConfigurationField<'a>>::empty();
        let fields = match self.mode {
            Some((mode, mode_config)) => fields.push(ConfigurationField::Mode(mode)).push(
                ConfigurationField::ModeConfiguration(mode_config),
            ),
            None => fields,
        };
        self.config.fields_after(fields)
    }

    /// The fields that the request carries: those that are populated, and no
    /// others.
    pub fn apply(&self) -> (fields: Vec<ConfigurationField<'a>>)
        ensures
            fields@ == self.fields(),
    {
        let mut fields: Vec<ConfigurationField<'a>> = Vec::new();
        if let Some((mode, mode_config)) = self.mode {
            fields.push(ConfigurationField::Mode(mode));
            fields.push(ConfigurationField::ModeConfiguration(mode_config));
        }
        self.config.apply(&mut fields);
        fields
    }
}

impl<'a> FullConfiguration<'a> {
    /// Whether `field` says what one of the populated settings says.
    pub open spec fn populated(self, field: ConfigurationField<'a>) -> bool {
        match field {
            ConfigurationField::Mode(mode) => self.mode matches Some(m) && m.0 == mode,
            ConfigurationField::ModeConfiguration(mode_config) => self.mode matches Some(m) && m.1
                == mode_config,
            ConfigurationField::ModeBitorderMsb(v) => v && self.config.mode_bit_order == Some(
                BitOrder::Msb,
            ),
            ConfigurationField::ModeBitorderLsb(v) => v && self.config.mode_bit_order == Some(
                BitOrder::Lsb,
            ),
            ConfigurationField::PsuEnable(v) => v && (self.config.psu matches Some(psu)
                && psu.enable == Some(true)),
            ConfigurationField::PsuDisable(v) => v && (self.config.psu matches Some(psu)
                && psu.enable == Some(false)),
            ConfigurationField::PsuSetMv(mv) => self.config.psu matches Some(psu) && psu.millivolts
                == Some(mv),
            ConfigurationField::PsuSetMa(ma) => self.config.psu matches Some(psu) && psu.milliamps
                == Some(ma),
            ConfigurationField::PullupEnable(v) => v && self.config.pullup == Some(true),
            ConfigurationField::PullupDisable(v) => v && self.config.pullup == Some(false),
            ConfigurationField::IoDirectionMask(mask) => self.config.io matches Some(io)
                && io.direction_mask == mask,
            ConfigurationField::IoDirection(direction) => self.config.io matches Some(io)
                && io.direction == direction,
            ConfigurationField::IoValueMask(mask) => self.config.io matches Some(io)
                && io.value_mask == mask,
            ConfigurationField::IoValue(value) => self.config.io matches Some(io) && io.value
                == value,
            ConfigurationField::LedResume(v) => self.config.led_resume == Some(v),
            ConfigurationField::LedColor(colors) => self.config.led_color == Some(colors),
            ConfigurationField::PrintString(text) => self.config.print_string == Some(text),
            ConfigurationField::HardwareBootloader(v) => self.config.hardware_bootloader == Some(
                v,
            ),
            ConfigurationField::HardwareReset(v) => self.config.hardware_reset == Some(v),
            ConfigurationField::HardwareSelftest(v) => self.config.hardware_selftest == Some(v),
        }
    }
}

/// Every field of `fields` says what a populated setting of `request` says.
pub open spec fn all_populated<'a>(
    request: FullConfiguration<'a>,
    fields: Seq<ConfigurationField<'a>>,
) -> bool {
    forall|i: int| 0 <= i < fields.len() ==> request.populated(#[trigger] fields[i])
}

proof fn lemma_with_populated<'a, T>(
    request: FullConfiguration<'a>,
    fields: Seq<ConfigurationField<'a>>,
    value: Option<T>,
    field: spec_fn(T) -> ConfigurationField<'a>,
)
    requires
        all_populated(request, fields),
        value matches Some(v) ==> request.populated(field(v)),
    ensures
        all_populated(request, with(fields, value, field)),
{
}

/// A request is a sparse update: every field that it carries says what a
/// populated setting says. A setting that is left out sends nothing.
pub proof fn lemma_only_populated_fields_are_sent<'a>(request: FullConfiguration<'a>)
    ensures
        all_populated(request, request.fields()),
{
    let config = request.config;
    let f0 = Seq::<ConfigurationField<'a>>::empty();
    let f1 = match request.mode {
        Some((mode, mode_config)) => f0.push(ConfigurationField::Mode(mode)).push(
            ConfigurationField::ModeConfiguration(mode_config),
        ),
        None => f0,
    };
    assert(all_populated(request, f1));
    let order = |order: BitOrder|
        match order {
            BitOrder::Msb => ConfigurationField::ModeBitorderMsb(true),
            BitOrder::Lsb => ConfigurationField::ModeBitorderLsb(true),
        };
    let f2 = with(f1, config.mode_bit_order, order);
    lemma_with_populated(request, f1, config.mode_bit_order, order);
    let f3 = match config.psu {
        Some(psu) => {
            let switch = |on: bool|
                if on {
                    ConfigurationField::PsuEnable(true)
                } else {
                    ConfigurationField::PsuDisable(true)
                };
            let millivolts = |v: u32| ConfigurationField::PsuSetMv(v);
            let milliamps = |v: u16| ConfigurationField::PsuSetMa(v);
            let switched = with(f2, psu.enable, switch);
            lemma_with_populated(request, f2, psu.enable, switch);
            let set = with(switched, psu.millivolts, millivolts);
            lemma_with_populated(request, switched, psu.millivolts, millivolts);
            let limited = with(set, psu.milliamps, milliamps);
            lemma_with_populated(request, set, psu.milliamps, milliamps);
            assert(limited == psu.fields_after(f2));
            limited
        },
        None => f2,
    };
    assert(all_populated(request, f3));
    let pullup = |on: bool|
        if on {
            ConfigurationField::PullupEnable(true)
        } else {
            ConfigurationField::PullupDisable(true)
        };
    let f4 = with(f3, config.pullup, pullup);
    lemma_with_populated(request, f3, config.pullup, pullup);
    let f5 = match config.io {
        Some(io) => io.fields_after(f4),
        None => f4,
    };
    assert(all_populated(request, f5));
    let led_resume = |v: bool| ConfigurationField::LedResume(v);
    let f6 = with(f5, config.led_resume, led_resume);
    lemma_with_populated(request, f5, config.led_resume, led_resume);
    let led_color = |v: &'a [u32]| ConfigurationField::LedColor(v);
    let f7 = with(f6, config.led_color, led_color);
    lemma_with_populated(request, f6, config.led_color, led_color);
    let print_string = |v: &'a str| ConfigurationField::PrintString(v);
    let f8 = with(f7, config.print_string, print_string);
    lemma_with_populated(request, f7, config.print_string, print_string);
    let bootloader = |v: bool| ConfigurationField::HardwareBootloader(v);
    let f9 = with(f8, config.hardware_bootloader, bootloader);
    lemma_with_populated(request, f8, config.hardware_bootloader, bootloader);
    let reset = |v: bool| ConfigurationField::HardwareReset(v);
    let f10 = with(f9, config.hardware_reset, reset);
    lemma_with_populated(request, f9, config.hardware_reset, reset);
    let selftest = |v: bool| ConfigurationField::HardwareSelftest(v);
    let f11 = with(f10, config.hardware_selftest, selftest);
    lemma_with_populated(request, f10, config.hardware_selftest, selftest);
    assert(f11 == request.fields());
}

/// A request with nothing populated carries no field at all.
pub proof fn lemma_nothing_populated_sends_nothing<'a>(request: FullConfiguration<'a>)
    requires
        request.mode is None,
        request.config == Configuration::<'a>::all_unset(),
    ensures
        request.fields().len() == 0,
{
}

} // verus!
