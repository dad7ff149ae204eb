//! The closed enumerations: declared discriminants convert in both
//! directions without loss, and every undeclared discriminant is refused
//! with the matching decode fault.

use dc_load_control_loop_rs::enums::{Channel, Delay, Mode, ClockSource, Crc, DataRegisterLength, SyncErrorPinMode, Setup, Input, OutputCoding, ReferenceSource, EnhancedFilterRate, FilterOrder, OutputDataRate};
use dc_load_control_loop_rs::error::DecodeError;

#[test]
fn channel_encodes_declared_discriminants() {
    assert_eq!(Channel::Ch0.into_bits(), 0x00);
    assert_eq!(Channel::Ch1.into_bits(), 0x01);
    assert_eq!(Channel::Ch2.into_bits(), 0x02);
    assert_eq!(Channel::Ch3.into_bits(), 0x03);
}

#[test]
fn channel_decodes_declared_discriminants() {
    assert_eq!(Channel::from_bits(0x00), Ok(Channel::Ch0));
    assert_eq!(Channel::from_bits(0x01), Ok(Channel::Ch1));
    assert_eq!(Channel::from_bits(0x02), Ok(Channel::Ch2));
    assert_eq!(Channel::from_bits(0x03), Ok(Channel::Ch3));
}

#[test]
fn channel_rejects_undeclared_discriminants() {
    assert_eq!(Channel::from_bits(0x04), Err(DecodeError::InvalidChannel));
    assert_eq!(Channel::from_bits(0xff), Err(DecodeError::InvalidChannel));
}

#[test]
fn delay_encodes_declared_discriminants() {
    assert_eq!(Delay::ZeroMicroseconds.into_bits(), 0x00);
    assert_eq!(Delay::FourMicroseconds.into_bits(), 0x01);
    assert_eq!(Delay::SixteenMicroseconds.into_bits(), 0x02);
    assert_eq!(Delay::FortyMicroseconds.into_bits(), 0x03);
    assert_eq!(Delay::OneHundredMicroseconds.into_bits(), 0x04);
    assert_eq!(Delay::TwoHundredMicroseconds.into_bits(), 0x05);
    assert_eq!(Delay::FiveHundredMicroseconds.into_bits(), 0x06);
    assert_eq!(Delay::OneMillisecond.into_bits(), 0x07);
}

#[test]
fn delay_decodes_declared_discriminants() {
    assert_eq!(Delay::from_bits(0x00), Ok(Delay::ZeroMicroseconds));
    assert_eq!(Delay::from_bits(0x01), Ok(Delay::FourMicroseconds));
    assert_eq!(Delay::from_bits(0x02), Ok(Delay::SixteenMicroseconds));
    assert_eq!(Delay::from_bits(0x03), Ok(Delay::FortyMicroseconds));
    assert_eq!(Delay::from_bits(0x04), Ok(Delay::OneHundredMicroseconds));
    assert_eq!(Delay::from_bits(0x05), Ok(Delay::TwoHundredMicroseconds));
    assert_eq!(Delay::from_bits(0x06), Ok(Delay::FiveHundredMicroseconds));
    assert_eq!(Delay::from_bits(0x07), Ok(Delay::OneMillisecond));
}

#[test]
fn delay_rejects_undeclared_discriminants() {
    assert_eq!(Delay::from_bits(0x08), Err(DecodeError::InvalidDelay));
}

#[test]
fn mode_encodes_declared_discriminants() {
    assert_eq!(Mode::ContinuousConversion.into_bits(), 0x00);
    assert_eq!(Mode::SingleConversion.into_bits(), 0x01);
    assert_eq!(Mode::Standby.into_bits(), 0x02);
    assert_eq!(Mode::PowerDown.into_bits(), 0x03);
    assert_eq!(Mode::InternalOffsetCalibration.into_bits(), 0x04);
    assert_eq!(Mode::SystemOffsetCalibration.into_bits(), 0x06);
    assert_eq!(Mode::SystemGainCalibration.into_bits(), 0x07);
}

#[test]
fn mode_decodes_declared_discriminants() {
    assert_eq!(Mode::from_bits(0x00), Ok(Mode::ContinuousConversion));
    assert_eq!(Mode::from_bits(0x01), Ok(Mode::SingleConversion));
    assert_eq!(Mode::from_bits(0x02), Ok(Mode::Standby));
    assert_eq!(Mode::from_bits(0x03), Ok(Mode::PowerDown));
    assert_eq!(Mode::from_bits(0x04), Ok(Mode::InternalOffsetCalibration));
    assert_eq!(Mode::from_bits(0x06), Ok(Mode::SystemOffsetCalibration));
    assert_eq!(Mode::from_bits(0x07), Ok(Mode::SystemGainCalibration));
}

#[test]
fn mode_rejects_undeclared_discriminants() {
    assert_eq!(Mode::from_bits(0x05), Err(DecodeError::InvalidMode));
    assert_eq!(Mode::from_bits(0x08), Err(DecodeError::InvalidMode));
}

#[test]
fn clock_source_encodes_declared_discriminants() {
    assert_eq!(ClockSource::Internal.into_bits(), 0x00);
    assert_eq!(ClockSource::InternalWithOutput.into_bits(), 0x01);
    assert_eq!(ClockSource::External.into_bits(), 0x02);
    assert_eq!(ClockSource::ExternalCrystal.into_bits(), 0x03);
}

#[test]
fn clock_source_decodes_declared_discriminants() {
    assert_eq!(ClockSource::from_bits(0x00), Ok(ClockSource::Internal));
    assert_eq!(ClockSource::from_bits(0x01), Ok(ClockSource::InternalWithOutput));
    assert_eq!(ClockSource::from_bits(0x02), Ok(ClockSource::External));
    assert_eq!(ClockSource::from_bits(0x03), Ok(ClockSource::ExternalCrystal));
}

#[test]
fn clock_source_rejects_undeclared_discriminants() {
    assert_eq!(ClockSource::from_bits(0x04), Err(DecodeError::InvalidClockSource));
}

#[test]
fn crc_encodes_declared_discriminants() {
    assert_eq!(Crc::Disabled.into_bits(), 0x00);
    assert_eq!(Crc::EnableWithXorOnRead.into_bits(), 0x01);
    assert_eq!(Crc::Enable.into_bits(), 0x02);
}

#[test]
fn crc_decodes_declared_discriminants() {
    assert_eq!(Crc::from_bits(0x00), Ok(Crc::Disabled));
    assert_eq!(Crc::from_bits(0x01), Ok(Crc::EnableWithXorOnRead));
    assert_eq!(Crc::from_bits(0x02), Ok(Crc::Enable));
}

#[test]
fn crc_rejects_undeclared_discriminants() {
    assert_eq!(Crc::from_bits(0x03), Err(DecodeError::InvalidCrc));
}

#[test]
fn data_register_length_encodes_declared_discriminants() {
    assert_eq!(DataRegisterLength::TwentyFourBits.into_bits(), 0x00);
    assert_eq!(DataRegisterLength::SixteenBits.into_bits(), 0x01);
}

#[test]
fn data_register_length_decodes_declared_discriminants() {
    assert_eq!(DataRegisterLength::from_bits(0x00), Ok(DataRegisterLength::TwentyFourBits));
    assert_eq!(DataRegisterLength::from_bits(0x01), Ok(DataRegisterLength::SixteenBits));
}

#[test]
fn data_register_length_rejects_undeclared_discriminants() {
    assert_eq!(DataRegisterLength::from_bits(0x02), Err(DecodeError::InvalidDataRegisterLength));
}

#[test]
fn sync_error_pin_mode_encodes_declared_discriminants() {
    assert_eq!(SyncErrorPinMode::Disabled.into_bits(), 0x00);
    assert_eq!(SyncErrorPinMode::ErrorInput.into_bits(), 0x01);
    assert_eq!(SyncErrorPinMode::OpenDrainErrorOutput.into_bits(), 0x02);
    assert_eq!(SyncErrorPinMode::ErrDataOutput.into_bits(), 0x03);
}

#[test]
fn sync_error_pin_mode_decodes_declared_discriminants() {
    assert_eq!(SyncErrorPinMode::from_bits(0x00), Ok(SyncErrorPinMode::Disabled));
    assert_eq!(SyncErrorPinMode::from_bits(0x01), Ok(SyncErrorPinMode::ErrorInput));
    assert_eq!(SyncErrorPinMode::from_bits(0x02), Ok(SyncErrorPinMode::OpenDrainErrorOutput));
    assert_eq!(SyncErrorPinMode::from_bits(0x03), Ok(SyncErrorPinMode::ErrDataOutput));
}

#[test]
fn sync_error_pin_mode_rejects_undeclared_discriminants() {
    assert_eq!(SyncErrorPinMode::from_bits(0x04), Err(DecodeError::InvalidSyncErrorPinMode));
}

#[test]
fn setup_encodes_declared_discriminants() {
    assert_eq!(Setup::Setup0.into_bits(), 0x00);
    assert_eq!(Setup::Setup1.into_bits(), 0x01);
    assert_eq!(Setup::Setup2.into_bits(), 0x02);
    assert_eq!(Setup::Setup3.into_bits(), 0x03);
}

#[test]
fn setup_decodes_declared_discriminants() {
    assert_eq!(Setup::from_bits(0x00), Ok(Setup::Setup0));
    assert_eq!(Setup::from_bits(0x01), Ok(Setup::Setup1));
    assert_eq!(Setup::from_bits(0x02), Ok(Setup::Setup2));
    assert_eq!(Setup::from_bits(0x03), Ok(Setup::Setup3));
}

#[test]
fn setup_rejects_undeclared_discriminants() {
    assert_eq!(Setup::from_bits(0x04), Err(DecodeError::InvalidSetup));
}

#[test]
fn input_encodes_declared_discriminants() {
    assert_eq!(Input::Analog0.into_bits(), 0x00);
    assert_eq!(Input::Analog1.into_bits(), 0x01);
    assert_eq!(Input::Analog2.into_bits(), 0x02);
    assert_eq!(Input::Analog3.into_bits(), 0x03);
    assert_eq!(Input::Analog4.into_bits(), 0x04);
    assert_eq!(Input::TemperatureSensorPos.into_bits(), 0x11);
    assert_eq!(Input::TemperatureSensorNeg.into_bits(), 0x12);
    assert_eq!(Input::Avdd1AvssDiffOver5Pos.into_bits(), 0x13);
    assert_eq!(Input::Avdd1AvssDiffOver5Neg.into_bits(), 0x14);
    assert_eq!(Input::PositiveReferenceVoltage.into_bits(), 0x15);
    assert_eq!(Input::NegativeReferenceVoltage.into_bits(), 0x16);
}

#[test]
fn input_decodes_declared_discriminants() {
    assert_eq!(Input::from_bits(0x00), Ok(Input::Analog0));
    assert_eq!(Input::from_bits(0x01), Ok(Input::Analog1));
    assert_eq!(Input::from_bits(0x02), Ok(Input::Analog2));
    assert_eq!(Input::from_bits(0x03), Ok(Input::Analog3));
    assert_eq!(Input::from_bits(0x04), Ok(Input::Analog4));
    assert_eq!(Input::from_bits(0x11), Ok(Input::TemperatureSensorPos));
    assert_eq!(Input::from_bits(0x12), Ok(Input::TemperatureSensorNeg));
    assert_eq!(Input::from_bits(0x13), Ok(Input::Avdd1AvssDiffOver5Pos));
    assert_eq!(Input::from_bits(0x14), Ok(Input::Avdd1AvssDiffOver5Neg));
    assert_eq!(Input::from_bits(0x15), Ok(Input::PositiveReferenceVoltage));
    assert_eq!(Input::from_bits(0x16), Ok(Input::NegativeReferenceVoltage));
}

#[test]
fn input_rejects_undeclared_discriminants() {
    assert_eq!(Input::from_bits(0x05), Err(DecodeError::InvalidInput));
    assert_eq!(Input::from_bits(0x10), Err(DecodeError::InvalidInput));
    assert_eq!(Input::from_bits(0x17), Err(DecodeError::InvalidInput));
    assert_eq!(Input::from_bits(0x1f), Err(DecodeError::InvalidInput));
}

#[test]
fn output_coding_encodes_declared_discriminants() {
    assert_eq!(OutputCoding::Unipolar.into_bits(), 0x00);
    assert_eq!(OutputCoding::Bipolar.into_bits(), 0x01);
}

#[test]
fn output_coding_decodes_declared_discriminants() {
    assert_eq!(OutputCoding::from_bits(0x00), Ok(OutputCoding::Unipolar));
    assert_eq!(OutputCoding::from_bits(0x01), Ok(OutputCoding::Bipolar));
}

#[test]
fn output_coding_rejects_undeclared_discriminants() {
    assert_eq!(OutputCoding::from_bits(0x02), Err(DecodeError::InvalidOutputCoding));
}

#[test]
fn reference_source_encodes_declared_discriminants() {
    assert_eq!(ReferenceSource::External.into_bits(), 0x00);
    assert_eq!(ReferenceSource::Internal.into_bits(), 0x01);
    assert_eq!(ReferenceSource::Avdd1AvssDiff.into_bits(), 0x02);
}

#[test]
fn reference_source_decodes_declared_discriminants() {
    assert_eq!(ReferenceSource::from_bits(0x00), Ok(ReferenceSource::External));
    assert_eq!(ReferenceSource::from_bits(0x01), Ok(ReferenceSource::Internal));
    assert_eq!(ReferenceSource::from_bits(0x02), Ok(ReferenceSource::Avdd1AvssDiff));
}

#[test]
fn reference_source_rejects_undeclared_discriminants() {
    assert_eq!(ReferenceSource::from_bits(0x03), Err(DecodeError::InvalidReferenceSource));
}

#[test]
fn enhanced_filter_rate_encodes_declared_discriminants() {
    assert_eq!(EnhancedFilterRate::Sps27.into_bits(), 0x02);
    assert_eq!(EnhancedFilterRate::Sps25.into_bits(), 0x03);
    assert_eq!(EnhancedFilterRate::Sps20.into_bits(), 0x05);
    assert_eq!(EnhancedFilterRate::Sps16p67.into_bits(), 0x06);
}

#[test]
fn enhanced_filter_rate_decodes_declared_discriminants() {
    assert_eq!(EnhancedFilterRate::from_bits(0x02), Ok(EnhancedFilterRate::Sps27));
    assert_eq!(EnhancedFilterRate::from_bits(0x03), Ok(EnhancedFilterRate::Sps25));
    assert_eq!(EnhancedFilterRate::from_bits(0x05), Ok(EnhancedFilterRate::Sps20));
    assert_eq!(EnhancedFilterRate::from_bits(0x06), Ok(EnhancedFilterRate::Sps16p67));
}

#[test]
fn enhanced_filter_rate_rejects_undeclared_discriminants() {
    assert_eq!(EnhancedFilterRate::from_bits(0x00), Err(DecodeError::InvalidEnhancedFilterRate));
    assert_eq!(EnhancedFilterRate::from_bits(0x01), Err(DecodeError::InvalidEnhancedFilterRate));
    assert_eq!(EnhancedFilterRate::from_bits(0x04), Err(DecodeError::InvalidEnhancedFilterRate));
    assert_eq!(EnhancedFilterRate::from_bits(0x07), Err(DecodeError::InvalidEnhancedFilterRate));
}

#[test]
fn filter_order_encodes_declared_discriminants() {
    assert_eq!(FilterOrder::Sinc5Sinc1.into_bits(), 0x00);
    assert_eq!(FilterOrder::Sinc3.into_bits(), 0x03);
}

#[test]
fn filter_order_decodes_declared_discriminants() {
    assert_eq!(FilterOrder::from_bits(0x00), Ok(FilterOrder::Sinc5Sinc1));
    assert_eq!(FilterOrder::from_bits(0x03), Ok(FilterOrder::Sinc3));
}

#[test]
fn filter_order_rejects_undeclared_discriminants() {
    assert_eq!(FilterOrder::from_bits(0x01), Err(DecodeError::InvalidFilterOrder));
    assert_eq!(FilterOrder::from_bits(0x02), Err(DecodeError::InvalidFilterOrder));
}

#[test]
fn output_data_rate_encodes_declared_discriminants() {
    assert_eq!(OutputDataRate::Sps250000.into_bits(), 0x00);
    assert_eq!(OutputDataRate::Sps125000.into_bits(), 0x01);
    assert_eq!(OutputDataRate::Sps62500.into_bits(), 0x02);
    assert_eq!(OutputDataRate::Sps50000.into_bits(), 0x03);
    assert_eq!(OutputDataRate::Sps31250.into_bits(), 0x04);
    assert_eq!(OutputDataRate::Sps25000.into_bits(), 0x05);
    assert_eq!(OutputDataRate::Sps15625.into_bits(), 0x06);
    assert_eq!(OutputDataRate::Sps10000.into_bits(), 0x07);
    assert_eq!(OutputDataRate::Sps5000.into_bits(), 0x08);
    assert_eq!(OutputDataRate::Sps2500.into_bits(), 0x09);
    assert_eq!(OutputDataRate::Sps1000.into_bits(), 0x0a);
    assert_eq!(OutputDataRate::Sps500.into_bits(), 0x0b);
    assert_eq!(OutputDataRate::Sps397p5.into_bits(), 0x0c);
    assert_eq!(OutputDataRate::Sps200.into_bits(), 0x0d);
    assert_eq!(OutputDataRate::Sps100.into_bits(), 0x0e);
    assert_eq!(OutputDataRate::Sps59p92.into_bits(), 0x0f);
    assert_eq!(OutputDataRate::Sps49p96.into_bits(), 0x10);
    assert_eq!(OutputDataRate::Sps20.into_bits(), 0x11);
    assert_eq!(OutputDataRate::Sps16p67.into_bits(), 0x12);
    assert_eq!(OutputDataRate::Sps10.into_bits(), 0x13);
    assert_eq!(OutputDataRate::Sps5.into_bits(), 0x14);
}

#[test]
fn output_data_rate_decodes_declared_discriminants() {
    assert_eq!(OutputDataRate::from_bits(0x00), Ok(OutputDataRate::Sps250000));
    assert_eq!(OutputDataRate::from_bits(0x01), Ok(OutputDataRate::Sps125000));
    assert_eq!(OutputDataRate::from_bits(0x02), Ok(OutputDataRate::Sps62500));
    assert_eq!(OutputDataRate::from_bits(0x03), Ok(OutputDataRate::Sps50000));
    assert_eq!(OutputDataRate::from_bits(0x04), Ok(OutputDataRate::Sps31250));
    assert_eq!(OutputDataRate::from_bits(0x05), Ok(OutputDataRate::Sps25000));
    assert_eq!(OutputDataRate::from_bits(0x06), Ok(OutputDataRate::Sps15625));
    assert_eq!(OutputDataRate::from_bits(0x07), Ok(OutputDataRate::Sps10000));
    assert_eq!(OutputDataRate::from_bits(0x08), Ok(OutputDataRate::Sps5000));
    assert_eq!(OutputDataRate::from_bits(0x09), Ok(OutputDataRate::Sps2500));
    assert_eq!(OutputDataRate::from_bits(0x0a), Ok(OutputDataRate::Sps1000));
    assert_eq!(OutputDataRate::from_bits(0x0b), Ok(OutputDataRate::Sps500));
    assert_eq!(OutputDataRate::from_bits(0x0c), Ok(OutputDataRate::Sps397p5));
    assert_eq!(OutputDataRate::from_bits(0x0d), Ok(OutputDataRate::Sps200));
    assert_eq!(OutputDataRate::from_bits(0x0e), Ok(OutputDataRate::Sps100));
    assert_eq!(OutputDataRate::from_bits(0x0f), Ok(OutputDataRate::Sps59p92));
    assert_eq!(OutputDataRate::from_bits(0x10), Ok(OutputDataRate::Sps49p96));
    assert_eq!(OutputDataRate::from_bits(0x11), Ok(OutputDataRate::Sps20));
    assert_eq!(OutputDataRate::from_bits(0x12), Ok(OutputDataRate::Sps16p67));
    assert_eq!(OutputDataRate::from_bits(0x13), Ok(OutputDataRate::Sps10));
    assert_eq!(OutputDataRate::from_bits(0x14), Ok(OutputDataRate::Sps5));
}

#[test]
fn output_data_rate_rejects_undeclared_discriminants() {
    assert_eq!(OutputDataRate::from_bits(0x15), Err(DecodeError::InvalidOutputDataRate));
    assert_eq!(OutputDataRate::from_bits(0x1f), Err(DecodeError::InvalidOutputDataRate));
}
