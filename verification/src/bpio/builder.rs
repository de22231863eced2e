//! Settings made step by step: begin with `builder()`, name the settings
//! that are to be populated, and end with `build()`.

use vstd::prelude::*;

use crate::bpio::config::{BitOrder, Configuration, IoConfig, ModeConfiguration, PsuConfig};

verus! {

/// [`Configuration`] in the making.
#[derive(Debug, Clone, Copy)]
pub struct ConfigurationBuilder<'a> {
    configuration: Configuration<'a>,
}

impl<'a> View for ConfigurationBuilder<'a> {
    type V = Configuration<'a>;

    /// The settings as they have been made so far.
    closed spec fn view(&self) -> Configuration<'a> {
        self.configuration
    }
}

impl<'a> Configuration<'a> {
    /// Begins with nothing populated.
    pub fn builder() -> (builder: ConfigurationBuilder<'a>)
        ensures
            builder@ == Configuration::all_unset(),
    {
        ConfigurationBuilder { configuration: Configuration::empty() }
    }
}

impl<'a> ConfigurationBuilder<'a> {
    pub fn mode_bit_order(self, value: BitOrder) -> (builder: ConfigurationBuilder<'a>)
        ensures
            builder@ == (Configuration { mode_bit_order: Some(value), ..self@ }),
    {
        let mut builder = self;
        builder.configuration.mode_bit_order = Some(value);
        builder
    }

    pub fn psu(self, value: PsuConfig) -> (builder: ConfigurationBuilder<'a>)
        ensures
            builder@ == (Configuration { psu: Some(value), ..self@ }),
    {
        let mut builder = self;
        builder.configuration.psu = Some(value);
        builder
    }

    pub fn pullup(self, value: bool) -> (builder: ConfigurationBuilder<'a>)
        ensures
            builder@ == (Configuration { pullup: Some(value), ..self@ }),
    {
        let mut builder = self;
        builder.configuration.pullup = Some(value);
        builder
    }

    pub fn io(self, value: IoConfig) -> (builder: ConfigurationBuilder<'a>)
        ensures
            builder@ == (Configuration { io: Some(value), ..self@ }),
    {
        let mut builder = self;
        builder.configuration.io = Some(value);
        builder
    }

    pub fn led_resume(self, value: bool) -> (builder: ConfigurationBuilder<'a>)
        ensures
            builder@ == (Configuration { led_resume: Some(value), ..self@ }),
    {
        let mut builder = self;
        builder.configuration.led_resume = Some(value);
        builder
    }

    pub fn led_color(self, value: &'a [u32]) -> (builder: ConfigurationBuilder<'a>)
        ensures
            builder@ == (Configuration { led_color: Some(value), ..self@ }),
    {
        let mut builder = self;
        builder.configuration.led_color = Some(value);
        builder
    }

    pub fn print_string(self, value: &'a str) -> (builder: ConfigurationBuilder<'a>)
        ensures
            builder@ == (Configuration { print_string: Some(value), ..self@ }),
    {
        let mut builder = self;
        builder.configuration.print_string = Some(value);
        builder
    }

    pub fn hardware_bootloader(self, value: bool) -> (builder: ConfigurationBuilder<'a>)
        ensures
            builder@ == (Configuration { hardware_bootloader: Some(value), ..self@ }),
    {
        let mut builder = self;
        builder.configuration.hardware_bootloader = Some(value);
        builder
    }

    pub fn hardware_reset(self, value: bool) -> (builder: ConfigurationBuilder<'a>)
        ensures
            builder@ == (Configuration { hardware_reset: Some(value), ..self@ }),
    {
        let mut builder = self;
        builder.configuration.hardware_reset = Some(value);
        builder
    }

    pub fn hardware_selftest(self, value: bool) -> (builder: ConfigurationBuilder<'a>)
        ensures
            builder@ == (Configuration { hardware_selftest: Some(value), ..self@ }),
    {
        let mut builder = self;
        builder.configuration.hardware_selftest = Some(value);
        builder
    }

    /// The settings as they have been made.
    pub fn build(self) -> (built: Configuration<'a>)
        ensures
            built == self@,
    {
        self.configuration
    }
}

/// [`ModeConfiguration`] in the making.
#[derive(Debug, Clone, Copy)]
pub struct ModeConfigurationBuilder {
    configuration: ModeConfiguration,
}

impl View for ModeConfigurationBuilder {
    type V = ModeConfiguration;

    /// The settings as they have been made so far.
    closed spec fn view(&self) -> ModeConfiguration {
        self.configuration
    }
}

impl ModeConfiguration {
    /// Begins with nothing populated.
    pub fn builder() -> (builder: ModeConfigurationBuilder)
        ensures
            builder@ == ModeConfiguration::all_unset(),
    {
        ModeConfigurationBuilder { configuration: ModeConfiguration::empty() }
    }
}

impl ModeConfigurationBuilder {
    pub fn speed(self, value: u32) -> (builder: ModeConfigurationBuilder)
        ensures
            builder@ == (ModeConfiguration { speed: Some(value), ..self@ }),
    {
        let mut builder = self;
        builder.configuration.speed = Some(value);
        builder
    }

    pub fn data_bits(self, value: u8) -> (builder: ModeConfigurationBuilder)
        ensures
            builder@ == (ModeConfiguration { data_bits: Some(value), ..self@ }),
    {
        let mut builder = self;
        builder.configuration.data_bits = Some(value);
        builder
    }

    pub fn parity(self, value: bool) -> (builder: ModeConfigurationBuilder)
        ensures
            builder@ == (ModeConfiguration { parity: Some(value), ..self@ }),
    {
        let mut builder = self;
        builder.configuration.parity = Some(value);
        builder
    }

    pub fn stop_bits(self, value: u8) -> (builder: ModeConfigurationBuilder)
        ensures
            builder@ == (ModeConfiguration { stop_bits: Some(value), ..self@ }),
    {
        let mut builder = self;
        builder.configuration.stop_bits = Some(value);
        builder
    }

    pub fn flow_control(self, value: bool) -> (builder: ModeConfigurationBuilder)
        ensures
            builder@ == (ModeConfiguration { flow_control: Some(value), ..self@ }),
    {
        let mut builder = self;
        builder.configuration.flow_control = Some(value);
        builder
    }

    pub fn signal_inversion(self, value: bool) -> (builder: ModeConfigurationBuilder)
        ensures
            builder@ == (ModeConfiguration { signal_inversion: Some(value), ..self@ }),
    {
        let mut builder = self;
        builder.configuration.signal_inversion = Some(value);
        builder
    }

    pub fn clock_stretch(self, value: bool) -> (builder: ModeConfigurationBuilder)
        ensures
            builder@ == (ModeConfiguration { clock_stretch: Some(value), ..self@ }),
    {
        let mut builder = self;
        builder.configuration.clock_stretch = Some(value);
        builder
    }

    pub fn clock_polarity(self, value: bool) -> (builder: ModeConfigurationBuilder)
        ensures
            builder@ == (ModeConfiguration { clock_polarity: Some(value), ..self@ }),
    {
        let mut builder = self;
        builder.configuration.clock_polarity = Some(value);
        builder
    }

    pub fn clock_phase(self, value: bool) -> (builder: ModeConfigurationBuilder)
        ensures
            builder@ == (ModeConfiguration { clock_phase: Some(value), ..self@ }),
    {
        let mut builder = self;
        builder.configuration.clock_phase = Some(value);
        builder
    }

    pub fn chip_select_idle(self, value: bool) -> (builder: ModeConfigurationBuilder)
        ensures
            builder@ == (ModeConfiguration { chip_select_idle: Some(value), ..self@ }),
    {
        let mut builder = self;
        builder.configuration.chip_select_idle = Some(value);
        builder
    }

    pub fn submode(self, value: u8) -> (builder: ModeConfigurationBuilder)
        ensures
            builder@ == (ModeConfiguration { submode: Some(value), ..self@ }),
    {
        let mut builder = self;
        builder.configuration.submode = Some(value);
        builder
    }

    pub fn tx_modulation(self, value: u32) -> (builder: ModeConfigurationBuilder)
        ensures
            builder@ == (ModeConfiguration { tx_modulation: Some(value), ..self@ }),
    {
        let mut builder = self;
        builder.configuration.tx_modulation = Some(value);
        builder
    }

    pub fn rx_sensor(self, value: u8) -> (builder: ModeConfigurationBuilder)
        ensures
            builder@ == (ModeConfiguration { rx_sensor: Some(value), ..self@ }),
    {
        let mut builder = self;
        builder.configuration.rx_sensor = Some(value);
        builder
    }

    /// The settings as they have been made.
    pub fn build(self) -> (built: ModeConfiguration)
        ensures
            built == self@,
    {
        self.configuration
    }
}

/// [`PsuConfig`] in the making.
#[derive(Debug, Clone, Copy)]
pub struct PsuConfigBuilder {
    psu: PsuConfig,
}

impl View for PsuConfigBuilder {
    type V = PsuConfig;

    /// The settings as they have been made so far.
    closed spec fn view(&self) -> PsuConfig {
        self.psu
    }
}

impl PsuConfig {
    /// Begins with nothing populated.
    pub fn builder() -> (builder: PsuConfigBuilder)
        ensures
            builder@ == PsuConfig::all_unset(),
    {
        PsuConfigBuilder { psu: PsuConfig::empty() }
    }
}

impl PsuConfigBuilder {
    pub fn enable(self, value: bool) -> (builder: PsuConfigBuilder)
        ensures
            builder@ == (PsuConfig { enable: Some(value), ..self@ }),
    {
        let mut builder = self;
        builder.psu.enable = Some(value);
        builder
    }

    pub fn millivolts(self, value: u32) -> (builder: PsuConfigBuilder)
        ensures
            builder@ == (PsuConfig { millivolts: Some(value), ..self@ }),
    {
        let mut builder = self;
        builder.psu.millivolts = Some(value);
        builder
    }

    pub fn milliamps(self, value: u16) -> (builder: PsuConfigBuilder)
        ensures
            builder@ == (PsuConfig { milliamps: Some(value), ..self@ }),
    {
        let mut builder = self;
        builder.psu.milliamps = Some(value);
        builder
    }

    /// The settings as they have been made.
    pub fn build(self) -> (built: PsuConfig)
        ensures
            built == self@,
    {
        self.psu
    }
}

} // verus!
