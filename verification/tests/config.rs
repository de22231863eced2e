use buspirate_hal::bpio::{
    change_mode, configuration_request, full_configuration_request, ConfigurationField,
    FullConfiguration, ModeField, RequestPacket, RequestPacketContents, VERSION_MAJOR,
    VERSION_MINOR,
};
use buspirate_hal::modes::Modes;
use buspirate_hal::{
    BitOrder, ChipSelectPolarity, ClockPhase, ClockPolarity, Configuration, IoConfig, IoDirection,
    LogicLevel, ModeConfiguration, PsuConfig,
};

fn fields_of<'a>(packet: RequestPacket<'a>) -> Vec<ConfigurationField<'a>> {
    match packet.contents {
        RequestPacketContents::ConfigurationRequest(fields) => fields,
        RequestPacketContents::DataRequest(_) => panic!("a data request"),
    }
}

#[test]
fn only_led_resume_is_sent_when_only_it_is_set() {
    let mut config = Configuration::empty();
    config.led_resume = Some(true);
    let packet = configuration_request(config);
    assert_eq!(packet.version_major, 2);
    assert_eq!(packet.version_minor, 0);
    assert_eq!(fields_of(packet), vec![ConfigurationField::LedResume(true)]);
}

#[test]
fn an_empty_configuration_sends_no_field() {
    let packet = configuration_request(Configuration::empty());
    assert_eq!(fields_of(packet), vec![]);
    assert_eq!(ModeConfiguration::empty().apply(), vec![]);
}

#[test]
fn the_interface_version_is_two_point_zero() {
    assert_eq!(VERSION_MAJOR, 2);
    assert_eq!(VERSION_MINOR, 0);
}

#[test]
fn every_setting_is_sent_in_schema_order() {
    let colors = [0x00FF00_u32, 0x0000FF];
    let mut io = IoConfig::new();
    io.set_direction(1, IoDirection::Output);
    io.set_level(1, LogicLevel::High);
    let config = Configuration {
        mode_bit_order: Some(BitOrder::Lsb),
        psu: Some(PsuConfig::enable(3300, 300)),
        pullup: Some(true),
        io: Some(io),
        led_resume: Some(false),
        led_color: Some(&colors),
        print_string: Some("hello"),
        hardware_bootloader: Some(false),
        hardware_reset: Some(true),
        hardware_selftest: Some(false),
    };
    let mode_config = ModeConfiguration {
        speed: Some(400_000),
        ..ModeConfiguration::empty()
    };
    let packet = full_configuration_request(config, Some((Modes::I2c, mode_config)));
    assert_eq!(
        fields_of(packet),
        vec![
            ConfigurationField::Mode(Modes::I2c),
            ConfigurationField::ModeConfiguration(mode_config),
            ConfigurationField::ModeBitorderLsb(true),
            ConfigurationField::PsuEnable(true),
            ConfigurationField::PsuSetMv(3300),
            ConfigurationField::PsuSetMa(300),
            ConfigurationField::PullupEnable(true),
            ConfigurationField::IoDirectionMask(0b10),
            ConfigurationField::IoDirection(0b10),
            ConfigurationField::IoValueMask(0b10),
            ConfigurationField::IoValue(0b10),
            ConfigurationField::LedResume(false),
            ConfigurationField::LedColor(&colors),
            ConfigurationField::PrintString("hello"),
            ConfigurationField::HardwareBootloader(false),
            ConfigurationField::HardwareReset(true),
            ConfigurationField::HardwareSelftest(false),
        ]
    );
}

#[test]
fn full_configuration_apply_and_packet_agree() {
    let mut config = Configuration::empty();
    config.pullup = Some(false);
    config.mode_bit_order = Some(BitOrder::Msb);
    let full = FullConfiguration { config, mode: None };
    let expected = vec![
        ConfigurationField::ModeBitorderMsb(true),
        ConfigurationField::PullupDisable(true),
    ];
    assert_eq!(full.apply(), expected);
    assert_eq!(fields_of(full.build_packet()), expected);
}

#[test]
fn psu_enable_and_disable() {
    assert_eq!(
        PsuConfig::enable(5000, 150),
        PsuConfig {
            enable: Some(true),
            millivolts: Some(5000),
            milliamps: Some(150)
        }
    );
    assert_eq!(
        PsuConfig::disable(),
        PsuConfig {
            enable: Some(false),
            millivolts: None,
            milliamps: None
        }
    );
    let mut fields = vec![ConfigurationField::LedResume(true)];
    PsuConfig::disable().apply(&mut fields);
    assert_eq!(
        fields,
        vec![
            ConfigurationField::LedResume(true),
            ConfigurationField::PsuDisable(true)
        ]
    );
    let mut fields = Vec::new();
    PsuConfig {
        enable: None,
        millivolts: Some(1800),
        milliamps: None,
    }
    .apply(&mut fields);
    assert_eq!(fields, vec![ConfigurationField::PsuSetMv(1800)]);
}

#[test]
fn io_pins_are_set_bit_by_bit() {
    let mut io = IoConfig::new();
    assert_eq!(
        io,
        IoConfig {
            direction_mask: 0,
            direction: 0,
            value_mask: 0,
            value: 0
        }
    );
    io.set_direction(3, IoDirection::Output);
    io.set_direction(0, IoDirection::Input);
    io.set_level(7, LogicLevel::High);
    io.set_level(2, LogicLevel::Low);
    assert_eq!(io.direction_mask, 0b0000_1001);
    assert_eq!(io.direction, 0b0000_1000);
    assert_eq!(io.value_mask, 0b1000_0100);
    assert_eq!(io.value, 0b1000_0000);
    io.set_direction(3, IoDirection::Input);
    io.set_level(7, LogicLevel::Low);
    assert_eq!(io.direction_mask, 0b0000_1001);
    assert_eq!(io.direction, 0);
    assert_eq!(io.value_mask, 0b1000_0100);
    assert_eq!(io.value, 0);
}

#[test]
fn io_fields_are_always_four() {
    let mut fields = Vec::new();
    IoConfig::new().apply(&mut fields);
    assert_eq!(
        fields,
        vec![
            ConfigurationField::IoDirectionMask(0),
            ConfigurationField::IoDirection(0),
            ConfigurationField::IoValueMask(0),
            ConfigurationField::IoValue(0),
        ]
    );
}

#[test]
fn direction_and_level_predicates() {
    assert!(IoDirection::Output.is_output());
    assert!(!IoDirection::Input.is_output());
    assert!(LogicLevel::High.is_high());
    assert!(!LogicLevel::Low.is_high());
}

#[test]
fn mode_settings_are_sent_in_schema_order() {
    let all = ModeConfiguration {
        speed: Some(1),
        data_bits: Some(2),
        parity: Some(true),
        stop_bits: Some(3),
        flow_control: Some(false),
        signal_inversion: Some(true),
        clock_stretch: Some(false),
        clock_polarity: Some(true),
        clock_phase: Some(false),
        chip_select_idle: Some(true),
        submode: Some(4),
        tx_modulation: Some(5),
        rx_sensor: Some(6),
    };
    assert_eq!(
        all.apply(),
        vec![
            ModeField::Speed(1),
            ModeField::DataBits(2),
            ModeField::Parity(true),
            ModeField::StopBits(3),
            ModeField::FlowControl(false),
            ModeField::SignalInversion(true),
            ModeField::ClockStretch(false),
            ModeField::ClockPolarity(true),
            ModeField::ClockPhase(false),
            ModeField::ChipSelectIdle(true),
            ModeField::Submode(4),
            ModeField::TxModulation(5),
            ModeField::RxSensor(6),
        ]
    );
    let some = ModeConfiguration {
        data_bits: Some(8),
        rx_sensor: Some(1),
        ..ModeConfiguration::empty()
    };
    assert_eq!(
        some.apply(),
        vec![ModeField::DataBits(8), ModeField::RxSensor(1)]
    );
}

#[test]
fn change_of_mode_names_the_mode_first() {
    let mode_config = ModeConfiguration {
        speed: Some(100_000),
        clock_stretch: Some(true),
        ..ModeConfiguration::empty()
    };
    let packet = change_mode(Modes::I2c, mode_config, None);
    assert_eq!(
        fields_of(packet),
        vec![
            ConfigurationField::Mode(Modes::I2c),
            ConfigurationField::ModeConfiguration(mode_config),
        ]
    );
    let mut extra = Configuration::empty();
    extra.psu = Some(PsuConfig::enable(3300, 300));
    let packet = change_mode(Modes::Spi, ModeConfiguration::empty(), Some(extra));
    assert_eq!(
        fields_of(packet),
        vec![
            ConfigurationField::Mode(Modes::Spi),
            ConfigurationField::ModeConfiguration(ModeConfiguration::empty()),
            ConfigurationField::PsuEnable(true),
            ConfigurationField::PsuSetMv(3300),
            ConfigurationField::PsuSetMa(300),
        ]
    );
}

#[test]
fn line_conventions_as_the_adapter_takes_them() {
    assert!(ChipSelectPolarity::ActiveLow.for_bpio());
    assert!(!ChipSelectPolarity::ActiveHigh.for_bpio());
    assert!(ClockPolarity::ActiveLow.for_bpio());
    assert!(!ClockPolarity::ActiveHigh.for_bpio());
    assert!(!ClockPhase::LeadingEdge.for_bpio());
    assert!(ClockPhase::TrailingEdge.for_bpio());
}
