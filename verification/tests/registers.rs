//! Register codecs: reset defaults encode to the device's documented reset
//! words, decoding inverts encoding, and undeclared discriminants inside a
//! register word surface as decode faults.

use dc_load_control_loop_rs::calibration::{GainRegister, OffsetRegister};
use dc_load_control_loop_rs::channel_config::{ChannelRegister, SetupConfigRegister};
use dc_load_control_loop_rs::enums::{
    Channel, ClockSource, Crc, DataRegisterLength, Delay, EnhancedFilterRate, FilterOrder, Input,
    Mode, OutputCoding, OutputDataRate, ReferenceSource, Setup, SyncErrorPinMode,
};
use dc_load_control_loop_rs::error::DecodeError;
use dc_load_control_loop_rs::filter::{
    DefaultFilterConfigRegister, DirectSinc3MapFilterConfigRegister, FilterConfig0Register,
    FilterConfig1Register, FilterConfig2Register, FilterConfig3Register,
};
use dc_load_control_loop_rs::register::{
    AdcModeRegister, DataAndStatusRegister, DataRegister, GPIOConfigRegister, IdRegister,
    InterfaceModeRegister, Register, RegisterCheck, RegisterRW, StatusRegister, WritableRegister,
};

#[test]
fn register_rw_flags() {
    assert_eq!(RegisterRW::Read.flag(), 0x40);
    assert_eq!(RegisterRW::Write.flag(), 0x00);
}

#[test]
fn status_decodes_flags_and_channel() {
    let r = StatusRegister::from_buffer(&[0x53]).unwrap();
    assert!(!r.ready);
    assert!(r.adc_error);
    assert!(!r.crc_error);
    assert!(r.register_error);
    assert_eq!(r.channel, Channel::Ch3);
    // Reserved bits 3:2 are ignored on decode.
    let r = StatusRegister::from_buffer(&[0x0c]).unwrap();
    assert_eq!(
        r,
        StatusRegister {
            ready: false,
            adc_error: false,
            crc_error: false,
            register_error: false,
            channel: Channel::Ch0,
        }
    );
}

#[test]
fn adc_mode_default_encodes_reset_word() {
    assert_eq!(AdcModeRegister::new().to_buffer(), [0x80, 0x00]);
}

#[test]
fn adc_mode_round_trip() {
    let r = AdcModeRegister {
        ref_enable: false,
        hide_delay: true,
        sing_cyc: true,
        delay: Delay::OneMillisecond,
        mode: Mode::SystemGainCalibration,
        clksel: ClockSource::ExternalCrystal,
    };
    let buf = r.to_buffer();
    assert_eq!(buf, [0x67, 0x7c]);
    assert_eq!(AdcModeRegister::from_buffer(&buf), Ok(r));
}

#[test]
fn adc_mode_rejects_undeclared_mode() {
    // Mode bits 6:4 hold 0b101, which no operating mode declares.
    assert_eq!(
        AdcModeRegister::from_buffer(&[0x00, 0x50]),
        Err(DecodeError::InvalidMode)
    );
}

#[test]
fn interface_mode_default_encodes_reset_word() {
    assert_eq!(InterfaceModeRegister::new().to_buffer(), [0x00, 0x00]);
}

#[test]
fn interface_mode_round_trip() {
    let r = InterfaceModeRegister {
        alt_sync: true,
        iostrength: true,
        dout_reset: true,
        cont_read: true,
        data_stat: true,
        reg_check: true,
        crc_en: Crc::Enable,
        wl16: DataRegisterLength::SixteenBits,
    };
    let buf = r.to_buffer();
    assert_eq!(buf, [0x19, 0xe9]);
    assert_eq!(InterfaceModeRegister::from_buffer(&buf), Ok(r));
}

#[test]
fn interface_mode_rejects_undeclared_crc() {
    // CRC bits 3:2 hold 0b11, which no CRC mode declares.
    assert_eq!(
        InterfaceModeRegister::from_buffer(&[0x00, 0x0c]),
        Err(DecodeError::InvalidCrc)
    );
}

#[test]
fn register_check_decodes_24_bits() {
    let r = RegisterCheck::from_buffer(&[0x12, 0x34, 0x56]).unwrap();
    assert_eq!(r.reg_check, 0x123456);
}

#[test]
fn data_decodes_24_bits() {
    let r = DataRegister::from_buffer(&[0xab, 0xcd, 0xef]).unwrap();
    assert_eq!(r.data, 0xabcdef);
}

#[test]
fn data_and_status_splits_word_and_status_byte() {
    let r = DataAndStatusRegister::from_buffer(&[0x12, 0x34, 0x56, 0x80]).unwrap();
    assert_eq!(r.data, 0x123456);
    assert_eq!(r.status, 0x80);
}

#[test]
fn gpio_config_default_encodes_reset_word() {
    assert_eq!(GPIOConfigRegister::new().to_buffer(), [0x08, 0x00]);
}

#[test]
fn gpio_config_round_trip() {
    let r = GPIOConfigRegister {
        mux_io: true,
        sync_en: false,
        err_en: SyncErrorPinMode::ErrDataOutput,
        err_dat: true,
        gpio1_input_enable: true,
        gpio0_input_enable: false,
        gpio1_output_enable: false,
        gpio0_output_enable: true,
        gpio1_data: false,
        gpio0_data: true,
    };
    let buf = r.to_buffer();
    assert_eq!(buf, [0x17, 0x25]);
    assert_eq!(GPIOConfigRegister::from_buffer(&buf), Ok(r));
}

#[test]
fn channel_default_encodes_reset_word() {
    assert_eq!(ChannelRegister::new().to_buffer(), [0x80, 0x00]);
}

#[test]
fn channel_round_trip() {
    let r = ChannelRegister {
        ch_en: true,
        setup_sel: Setup::Setup3,
        ainpos: Input::TemperatureSensorPos,
        ainneg: Input::NegativeReferenceVoltage,
    };
    let buf = r.to_buffer();
    assert_eq!(buf, [0xb2, 0x36]);
    assert_eq!(ChannelRegister::from_buffer(&buf), Ok(r));
}

#[test]
fn channel_rejects_undeclared_input() {
    // The positive input field holds 0x05, which no input declares.
    assert_eq!(
        ChannelRegister::from_buffer(&[0x00, 0xa0]),
        Err(DecodeError::InvalidInput)
    );
}

#[test]
fn setup_config_default_encodes_reset_word() {
    assert_eq!(SetupConfigRegister::new().to_buffer(), [0x13, 0x10]);
}

#[test]
fn setup_config_round_trip() {
    let r = SetupConfigRegister {
        bi_unipolar: OutputCoding::Unipolar,
        refbuf_pos_enabled: true,
        refbuf_neg_enabled: true,
        ainbuf_pos_enabled: false,
        ainbuf_neg_enabled: false,
        burnout_en: true,
        ref_sel: ReferenceSource::Avdd1AvssDiff,
    };
    let buf = r.to_buffer();
    assert_eq!(buf, [0x0c, 0xa0]);
    assert_eq!(SetupConfigRegister::from_buffer(&buf), Ok(r));
}

#[test]
fn setup_config_rejects_undeclared_reference() {
    // The reference selection bits 5:4 hold 0b11.
    assert_eq!(
        SetupConfigRegister::from_buffer(&[0x00, 0x30]),
        Err(DecodeError::InvalidReferenceSource)
    );
}

#[test]
fn default_filter_config_default_encodes_reset_word() {
    assert_eq!(DefaultFilterConfigRegister::new().to_buffer(), [0x05, 0x00]);
}

#[test]
fn default_filter_config_round_trip() {
    let r = DefaultFilterConfigRegister {
        sinc3_map: false,
        enhfilten: true,
        enhfilt: EnhancedFilterRate::Sps27,
        order: FilterOrder::Sinc3,
        odr: OutputDataRate::Sps5,
    };
    let buf = r.to_buffer();
    assert_eq!(buf, [0x0a, 0x74]);
    assert_eq!(DefaultFilterConfigRegister::from_buffer(&buf), Ok(r));
}

#[test]
fn default_filter_config_rejects_undeclared_fields() {
    // An all-zero word already faults: the enhanced filter rate 0b000 is
    // not a declared discriminant.
    assert_eq!(
        DefaultFilterConfigRegister::from_buffer(&[0x00, 0x00]),
        Err(DecodeError::InvalidEnhancedFilterRate)
    );
    // With a valid rate, an undeclared filter order faults.
    assert_eq!(
        DefaultFilterConfigRegister::from_buffer(&[0x05, 0x20]),
        Err(DecodeError::InvalidFilterOrder)
    );
    // With a valid rate and order, an undeclared output data rate faults.
    assert_eq!(
        DefaultFilterConfigRegister::from_buffer(&[0x05, 0x1f]),
        Err(DecodeError::InvalidOutputDataRate)
    );
}

#[test]
fn direct_sinc3_map_default_encodes_reset_word() {
    assert_eq!(
        DirectSinc3MapFilterConfigRegister::new().to_buffer(),
        [0x80, 0x00]
    );
}

#[test]
fn direct_sinc3_map_round_trip() {
    let r = DirectSinc3MapFilterConfigRegister {
        sinc3_map: true,
        decimation_rate: 0x7fff,
    };
    let buf = r.to_buffer();
    assert_eq!(buf, [0xff, 0xff]);
    assert_eq!(DirectSinc3MapFilterConfigRegister::from_buffer(&buf), Ok(r));
}

#[test]
fn filter_config_constructors_match_their_layout_defaults() {
    assert_eq!(FilterConfig0Register::new_default(), DefaultFilterConfigRegister::new());
    assert_eq!(FilterConfig1Register::new_default(), DefaultFilterConfigRegister::new());
    assert_eq!(FilterConfig2Register::new_default(), DefaultFilterConfigRegister::new());
    assert_eq!(FilterConfig3Register::new_default(), DefaultFilterConfigRegister::new());
    assert_eq!(
        FilterConfig0Register::new_direct_sinc3_map(),
        DirectSinc3MapFilterConfigRegister::new()
    );
    assert_eq!(
        FilterConfig1Register::new_direct_sinc3_map(),
        DirectSinc3MapFilterConfigRegister::new()
    );
    assert_eq!(
        FilterConfig2Register::new_direct_sinc3_map(),
        DirectSinc3MapFilterConfigRegister::new()
    );
    assert_eq!(
        FilterConfig3Register::new_direct_sinc3_map(),
        DirectSinc3MapFilterConfigRegister::new()
    );
}

#[test]
fn offset_round_trip() {
    let r = OffsetRegister { offset: 0x123456 };
    let buf = r.to_buffer();
    assert_eq!(buf, [0x12, 0x34, 0x56]);
    assert_eq!(OffsetRegister::from_buffer(&buf), Ok(r));
}

#[test]
fn gain_default_encodes_reset_word() {
    assert_eq!(GainRegister::new().to_buffer(), [0x50, 0x00, 0x00]);
}

#[test]
fn gain_round_trip() {
    let r = GainRegister { gain: 0xfedcba };
    let buf = r.to_buffer();
    assert_eq!(buf, [0xfe, 0xdc, 0xba]);
    assert_eq!(GainRegister::from_buffer(&buf), Ok(r));
}

#[test]
fn id_default_holds_expected_identity() {
    assert_eq!(IdRegister::new().id, 0x0cd0);
}

#[test]
fn check_wf_guards_out_of_range_fields() {
    assert!(OffsetRegister::new().check_wf());
    assert!(!OffsetRegister { offset: 0x1000000 }.check_wf());
    assert!(GainRegister::new().check_wf());
    assert!(!GainRegister { gain: 0xff000000 }.check_wf());
    assert!(DirectSinc3MapFilterConfigRegister::new().check_wf());
    assert!(!DirectSinc3MapFilterConfigRegister {
        sinc3_map: true,
        decimation_rate: 0x8000,
    }
    .check_wf());
    assert!(!DirectSinc3MapFilterConfigRegister {
        sinc3_map: false,
        decimation_rate: 0,
    }
    .check_wf());
    assert!(DefaultFilterConfigRegister::new().check_wf());
    assert!(!DefaultFilterConfigRegister {
        sinc3_map: true,
        ..DefaultFilterConfigRegister::new()
    }
    .check_wf());
    assert!(AdcModeRegister::new().check_wf());
}
