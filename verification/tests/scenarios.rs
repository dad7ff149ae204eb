//! Concrete bus exchanges, decoded end to end.

use dc_load_control_loop_rs::calibration::OffsetRegister;
use dc_load_control_loop_rs::enums::{Channel, ClockSource, Delay, Mode};
use dc_load_control_loop_rs::filter::{decode_filter_config, FilterConfig};
use dc_load_control_loop_rs::register::{
    AdcModeRegister, IdRegister, Register, StatusRegister, WritableRegister,
};

#[test]
fn status_byte_0x80_is_ready_on_channel_0() {
    let r = StatusRegister::from_buffer(&[0x80]).unwrap();
    assert!(r.ready);
    assert!(!r.adc_error);
    assert!(!r.crc_error);
    assert!(!r.register_error);
    assert_eq!(r.channel, Channel::Ch0);
}

#[test]
fn adc_mode_bytes_0x8c_0x00_decode_under_the_declared_layout() {
    // Bit 15 is the reference enable; of the remaining set bits, bit 11
    // falls on reserved padding and bit 10 lands in the delay field
    // (bits 10:8), so the mode field (bits 6:4) reads zero.
    let r = AdcModeRegister::from_buffer(&[0x8c, 0x00]).unwrap();
    assert!(r.ref_enable);
    assert!(!r.hide_delay);
    assert!(!r.sing_cyc);
    assert_eq!(r.delay, Delay::OneHundredMicroseconds);
    assert_eq!(r.mode, Mode::ContinuousConversion);
    assert_eq!(r.clksel, ClockSource::Internal);
}

#[test]
fn adc_mode_internal_offset_calibration_word() {
    // Mode bits 6:4 holding 0b100 select the internal offset calibration.
    let r = AdcModeRegister::from_buffer(&[0x80, 0x40]).unwrap();
    assert!(r.ref_enable);
    assert_eq!(r.mode, Mode::InternalOffsetCalibration);
    assert_eq!(r.clksel, ClockSource::Internal);
    // And the value encodes back to the same bytes.
    assert_eq!(r.to_buffer(), [0x80, 0x40]);
}

#[test]
fn offset_default_encodes_to_0x80_0x00_0x00() {
    let r = OffsetRegister::new();
    assert_eq!(r.offset, 0x800000);
    assert_eq!(r.to_buffer(), [0x80, 0x00, 0x00]);
}

#[test]
fn id_read_of_0x0c_0xd0_matches_the_device_identity() {
    let r = IdRegister::from_buffer(&[0x0c, 0xd0]).unwrap();
    assert_eq!(r.id, 0x0cd0);
    assert_eq!(r.id, IdRegister::new().id);
}

#[test]
fn filter_word_with_bit_15_set_is_reinterpreted_as_direct_decimation() {
    // Under the standard layout these bytes would scatter over the
    // enhanced-filter, order and rate fields; the set selector bit makes
    // the 15-bit decimation rate authoritative instead.
    match decode_filter_config(&[0x8c, 0x35]).unwrap() {
        FilterConfig::DirectSinc3Map(d) => {
            assert!(d.sinc3_map);
            assert_eq!(d.decimation_rate, 0x0c35);
        },
        FilterConfig::Default(_) => panic!("selector bit was set"),
    }
}

#[test]
fn filter_word_with_bit_15_clear_stays_in_the_standard_layout() {
    match decode_filter_config(&[0x05, 0x00]).unwrap() {
        FilterConfig::Default(d) => {
            assert!(!d.sinc3_map);
            assert!(!d.enhfilten);
        },
        FilterConfig::DirectSinc3Map(_) => panic!("selector bit was clear"),
    }
}
