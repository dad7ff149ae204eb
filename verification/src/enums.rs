//! Closed enumerations: finite, chip-defined sets of integer discriminants.
//!
//! Each enumeration pairs a spec-level encoding (`spec_bits`) with a total
//! spec-level decoding (`spec_from_bits`) and executable mirrors of both.
//! Encoding a variant always yields its declared discriminant; decoding a
//! value outside the declared set is a [`DecodeError`], never a silent
//! coercion. The discriminant values are burned into the physical device and
//! must not be renumbered.

use vstd::prelude::*;
use crate::error::DecodeError;

verus! {

/// ADC channel selection, as reported by the status register and configured
/// in the channel registers. Occupies a 2-bit field.
#[derive(Clone, Copy, Debug, PartialEq, Eq, Structural)]
pub enum Channel {
    Ch0,
    Ch1,
    Ch2,
    Ch3,
}

impl Channel {
    /// The chip-defined discriminant of each variant.
    pub open spec fn spec_bits(self) -> u8 {
        match self {
            Channel::Ch0 => 0x00,
            Channel::Ch1 => 0x01,
            Channel::Ch2 => 0x02,
            Channel::Ch3 => 0x03,
        }
    }

    /// The declared discriminant set: every 2-bit value.
    pub open spec fn spec_valid(v: u8) -> bool {
        v < 0x04
    }

    /// Decoding as a total function on raw values.
    pub open spec fn spec_from_bits(v: u8) -> Result<Channel, DecodeError> {
        if v == 0x00 {
            Ok(Channel::Ch0)
        } else if v == 0x01 {
            Ok(Channel::Ch1)
        } else if v == 0x02 {
            Ok(Channel::Ch2)
        } else if v == 0x03 {
            Ok(Channel::Ch3)
        } else {
            Err(DecodeError::InvalidChannel)
        }
    }

    pub fn into_bits(self) -> (r: u8)
        ensures
            r == self.spec_bits(),
            r < 0x04,
    {
        match self {
            Channel::Ch0 => 0x00,
            Channel::Ch1 => 0x01,
            Channel::Ch2 => 0x02,
            Channel::Ch3 => 0x03,
        }
    }

    pub fn from_bits(v: u8) -> (r: Result<Channel, DecodeError>)
        ensures
            r == Self::spec_from_bits(v),
    {
        if v == 0x00 {
            Ok(Channel::Ch0)
        } else if v == 0x01 {
            Ok(Channel::Ch1)
        } else if v == 0x02 {
            Ok(Channel::Ch2)
        } else if v == 0x03 {
            Ok(Channel::Ch3)
        } else {
            Err(DecodeError::InvalidChannel)
        }
    }
}

/// A valid channel discriminant always converts back without loss.
pub proof fn lemma_channel_round_trip(c: Channel)
    ensures
        Channel::spec_from_bits(c.spec_bits()) == Ok::<Channel, DecodeError>(c),
        c.spec_bits() < 0x04,
{
}

/// Decoding fails exactly on the values outside the declared set.
pub proof fn lemma_channel_closure(v: u8)
    ensures
        Channel::spec_from_bits(v) is Err <==> !Channel::spec_valid(v),
{
}

/// Delay inserted before a conversion starts, letting external circuitry
/// settle. Occupies a 3-bit field of the ADC mode register.
#[derive(Clone, Copy, Debug, PartialEq, Eq, Structural)]
pub enum Delay {
    ZeroMicroseconds,
    FourMicroseconds,
    SixteenMicroseconds,
    FortyMicroseconds,
    OneHundredMicroseconds,
    TwoHundredMicroseconds,
    FiveHundredMicroseconds,
    OneMillisecond,
}

impl Delay {
    /// The chip-defined discriminant of each variant.
    pub open spec fn spec_bits(self) -> u8 {
        match self {
            Delay::ZeroMicroseconds => 0x00,
            Delay::FourMicroseconds => 0x01,
            Delay::SixteenMicroseconds => 0x02,
            Delay::FortyMicroseconds => 0x03,
            Delay::OneHundredMicroseconds => 0x04,
            Delay::TwoHundredMicroseconds => 0x05,
            Delay::FiveHundredMicroseconds => 0x06,
            Delay::OneMillisecond => 0x07,
        }
    }

    /// The declared discriminant set: every 3-bit value.
    pub open spec fn spec_valid(v: u8) -> bool {
        v < 0x08
    }

    /// Decoding as a total function on raw values.
    pub open spec fn spec_from_bits(v: u8) -> Result<Delay, DecodeError> {
        if v == 0x00 {
            Ok(Delay::ZeroMicroseconds)
        } else if v == 0x01 {
            Ok(Delay::FourMicroseconds)
        } else if v == 0x02 {
            Ok(Delay::SixteenMicroseconds)
        } else if v == 0x03 {
            Ok(Delay::FortyMicroseconds)
        } else if v == 0x04 {
            Ok(Delay::OneHundredMicroseconds)
        } else if v == 0x05 {
            Ok(Delay::TwoHundredMicroseconds)
        } else if v == 0x06 {
            Ok(Delay::FiveHundredMicroseconds)
        } else if v == 0x07 {
            Ok(Delay::OneMillisecond)
        } else {
            Err(DecodeError::InvalidDelay)
        }
    }

    pub fn into_bits(self) -> (r: u8)
        ensures
            r == self.spec_bits(),
            r < 0x08,
    {
        match self {
            Delay::ZeroMicroseconds => 0x00,
            Delay::FourMicroseconds => 0x01,
            Delay::SixteenMicroseconds => 0x02,
            Delay::FortyMicroseconds => 0x03,
            Delay::OneHundredMicroseconds => 0x04,
            Delay::TwoHundredMicroseconds => 0x05,
            Delay::FiveHundredMicroseconds => 0x06,
            Delay::OneMillisecond => 0x07,
        }
    }

    pub fn from_bits(v: u8) -> (r: Result<Delay, DecodeError>)
        ensures
            r == Self::spec_from_bits(v),
    {
        if v == 0x00 {
            Ok(Delay::ZeroMicroseconds)
        } else if v == 0x01 {
            Ok(Delay::FourMicroseconds)
        } else if v == 0x02 {
            Ok(Delay::SixteenMicroseconds)
        } else if v == 0x03 {
            Ok(Delay::FortyMicroseconds)
        } else if v == 0x04 {
            Ok(Delay::OneHundredMicroseconds)
        } else if v == 0x05 {
            Ok(Delay::TwoHundredMicroseconds)
        } else if v == 0x06 {
            Ok(Delay::FiveHundredMicroseconds)
        } else if v == 0x07 {
            Ok(Delay::OneMillisecond)
        } else {
            Err(DecodeError::InvalidDelay)
        }
    }
}

/// A valid delay discriminant always converts back without loss.
pub proof fn lemma_delay_round_trip(d: Delay)
    ensures
        Delay::spec_from_bits(d.spec_bits()) == Ok::<Delay, DecodeError>(d),
        d.spec_bits() < 0x08,
{
}

/// Decoding fails exactly on the values outside the declared set.
pub proof fn lemma_delay_closure(v: u8)
    ensures
        Delay::spec_from_bits(v) is Err <==> !Delay::spec_valid(v),
{
}

/// ADC operating mode: conversion modes, low-power states and calibration
/// operations. Occupies a 3-bit field; the value 0x05 is unassigned.
#[derive(Clone, Copy, Debug, PartialEq, Eq, Structural)]
pub enum Mode {
    ContinuousConversion,
    SingleConversion,
    Standby,
    PowerDown,
    InternalOffsetCalibration,
    SystemOffsetCalibration,
    SystemGainCalibration,
}

impl Mode {
    /// The chip-defined discriminant of each variant. The set is sparse:
    /// 0x05 is skipped by the device.
    pub open spec fn spec_bits(self) -> u8 {
        match self {
            Mode::ContinuousConversion => 0x00,
            Mode::SingleConversion => 0x01,
            Mode::Standby => 0x02,
            Mode::PowerDown => 0x03,
            Mode::InternalOffsetCalibration => 0x04,
            Mode::SystemOffsetCalibration => 0x06,
            Mode::SystemGainCalibration => 0x07,
        }
    }

    /// The declared discriminant set.
    pub open spec fn spec_valid(v: u8) -> bool {
        v < 0x08 && v != 0x05
    }

    /// Decoding as a total function on raw values.
    pub open spec fn spec_from_bits(v: u8) -> Result<Mode, DecodeError> {
        if v == 0x00 {
            Ok(Mode::ContinuousConversion)
        } else if v == 0x01 {
            Ok(Mode::SingleConversion)
        } else if v == 0x02 {
            Ok(Mode::Standby)
        } else if v == 0x03 {
            Ok(Mode::PowerDown)
        } else if v == 0x04 {
            Ok(Mode::InternalOffsetCalibration)
        } else if v == 0x06 {
            Ok(Mode::SystemOffsetCalibration)
        } else if v == 0x07 {
            Ok(Mode::SystemGainCalibration)
        } else {
            Err(DecodeError::InvalidMode)
        }
    }

    pub fn into_bits(self) -> (r: u8)
        ensures
            r == self.spec_bits(),
            r < 0x08,
    {
        match self {
            Mode::ContinuousConversion => 0x00,
            Mode::SingleConversion => 0x01,
            Mode::Standby => 0x02,
            Mode::PowerDown => 0x03,
            Mode::InternalOffsetCalibration => 0x04,
            Mode::SystemOffsetCalibration => 0x06,
            Mode::SystemGainCalibration => 0x07,
        }
    }

    pub fn from_bits(v: u8) -> (r: Result<Mode, DecodeError>)
        ensures
            r == Self::spec_from_bits(v),
    {
        if v == 0x00 {
            Ok(Mode::ContinuousConversion)
        } else if v == 0x01 {
            Ok(Mode::SingleConversion)
        } else if v == 0x02 {
            Ok(Mode::Standby)
        } else if v == 0x03 {
            Ok(Mode::PowerDown)
        } else if v == 0x04 {
            Ok(Mode::InternalOffsetCalibration)
        } else if v == 0x06 {
            Ok(Mode::SystemOffsetCalibration)
        } else if v == 0x07 {
            Ok(Mode::SystemGainCalibration)
        } else {
            Err(DecodeError::InvalidMode)
        }
    }
}

/// A valid mode discriminant always converts back without loss.
pub proof fn lemma_mode_round_trip(m: Mode)
    ensures
        Mode::spec_from_bits(m.spec_bits()) == Ok::<Mode, DecodeError>(m),
        m.spec_bits() < 0x08,
{
}

/// Decoding fails exactly on the values outside the declared set.
pub proof fn lemma_mode_closure(v: u8)
    ensures
        Mode::spec_from_bits(v) is Err <==> !Mode::spec_valid(v),
{
}

/// Master clock source selection. Occupies a 2-bit field of the ADC mode
/// register.
#[derive(Clone, Copy, Debug, PartialEq, Eq, Structural)]
pub enum ClockSource {
    Internal,
    InternalWithOutput,
    External,
    ExternalCrystal,
}

impl ClockSource {
    /// The chip-defined discriminant of each variant.
    pub open spec fn spec_bits(self) -> u8 {
        match self {
            ClockSource::Internal => 0x00,
            ClockSource::InternalWithOutput => 0x01,
            ClockSource::External => 0x02,
            ClockSource::ExternalCrystal => 0x03,
        }
    }

    /// The declared discriminant set: every 2-bit value.
    pub open spec fn spec_valid(v: u8) -> bool {
        v < 0x04
    }

    /// Decoding as a total function on raw values.
    pub open spec fn spec_from_bits(v: u8) -> Result<ClockSource, DecodeError> {
        if v == 0x00 {
            Ok(ClockSource::Internal)
        } else if v == 0x01 {
            Ok(ClockSource::InternalWithOutput)
        } else if v == 0x02 {
            Ok(ClockSource::External)
        } else if v == 0x03 {
            Ok(ClockSource::ExternalCrystal)
        } else {
            Err(DecodeError::InvalidClockSource)
        }
    }

    pub fn into_bits(self) -> (r: u8)
        ensures
            r == self.spec_bits(),
            r < 0x04,
    {
        match self {
            ClockSource::Internal => 0x00,
            ClockSource::InternalWithOutput => 0x01,
            ClockSource::External => 0x02,
            ClockSource::ExternalCrystal => 0x03,
        }
    }

    pub fn from_bits(v: u8) -> (r: Result<ClockSource, DecodeError>)
        ensures
            r == Self::spec_from_bits(v),
    {
        if v == 0x00 {
            Ok(ClockSource::Internal)
        } else if v == 0x01 {
            Ok(ClockSource::InternalWithOutput)
        } else if v == 0x02 {
            Ok(ClockSource::External)
        } else if v == 0x03 {
            Ok(ClockSource::ExternalCrystal)
        } else {
            Err(DecodeError::InvalidClockSource)
        }
    }
}

/// A valid clock-source discriminant always converts back without loss.
pub proof fn lemma_clock_source_round_trip(c: ClockSource)
    ensures
        ClockSource::spec_from_bits(c.spec_bits()) == Ok::<ClockSource, DecodeError>(c),
        c.spec_bits() < 0x04,
{
}

/// Decoding fails exactly on the values outside the declared set.
pub proof fn lemma_clock_source_closure(v: u8)
    ensures
        ClockSource::spec_from_bits(v) is Err <==> !ClockSource::spec_valid(v),
{
}

/// CRC mode for communication error checking, selected in the interface
/// mode register. Occupies a 2-bit field; the value 0x03 is unassigned.
#[derive(Clone, Copy, Debug, PartialEq, Eq, Structural)]
pub enum Crc {
    Disabled,
    EnableWithXorOnRead,
    Enable,
}

impl Crc {
    /// The chip-defined discriminant of each variant.
    /// The set is sparse: 0x03 is unassigned.
    pub open spec fn spec_bits(self) -> u8 {
        match self {
            Crc::Disabled => 0x00,
            Crc::EnableWithXorOnRead => 0x01,
            Crc::Enable => 0x02,
        }
    }

    /// The declared discriminant set.
    pub open spec fn spec_valid(v: u8) -> bool {
        v < 0x03
    }

    /// Decoding as a total function on raw values.
    pub open spec fn spec_from_bits(v: u8) -> Result<Crc, DecodeError> {
        if v == 0x00 {
            Ok(Crc::Disabled)
        } else if v == 0x01 {
            Ok(Crc::EnableWithXorOnRead)
        } else if v == 0x02 {
            Ok(Crc::Enable)
        } else {
            Err(DecodeError::InvalidCrc)
        }
    }

    pub fn into_bits(self) -> (r: u8)
        ensures
            r == self.spec_bits(),
            r < 0x04,
    {
        match self {
            Crc::Disabled => 0x00,
            Crc::EnableWithXorOnRead => 0x01,
            Crc::Enable => 0x02,
        }
    }

    pub fn from_bits(v: u8) -> (r: Result<Crc, DecodeError>)
        ensures
            r == Self::spec_from_bits(v),
    {
        if v == 0x00 {
            Ok(Crc::Disabled)
        } else if v == 0x01 {
            Ok(Crc::EnableWithXorOnRead)
        } else if v == 0x02 {
            Ok(Crc::Enable)
        } else {
            Err(DecodeError::InvalidCrc)
        }
    }
}

/// A valid discriminant always converts back without loss.
pub proof fn lemma_crc_round_trip(x: Crc)
    ensures
        Crc::spec_from_bits(x.spec_bits()) == Ok::<Crc, DecodeError>(x),
        x.spec_bits() < 0x04,
{
}

/// Decoding fails exactly on the values outside the declared set.
pub proof fn lemma_crc_closure(v: u8)
    ensures
        Crc::spec_from_bits(v) is Err <==> !Crc::spec_valid(v),
{
}

/// Number of bits held by the data register, selected in the interface
/// mode register. Occupies a 1-bit field.
#[derive(Clone, Copy, Debug, PartialEq, Eq, Structural)]
pub enum DataRegisterLength {
    TwentyFourBits,
    SixteenBits,
}

impl DataRegisterLength {
    /// The chip-defined discriminant of each variant.
    pub open spec fn spec_bits(self) -> u8 {
        match self {
            DataRegisterLength::TwentyFourBits => 0x00,
            DataRegisterLength::SixteenBits => 0x01,
        }
    }

    /// The declared discriminant set.
    pub open spec fn spec_valid(v: u8) -> bool {
        v < 0x02
    }

    /// Decoding as a total function on raw values.
    pub open spec fn spec_from_bits(v: u8) -> Result<DataRegisterLength, DecodeError> {
        if v == 0x00 {
            Ok(DataRegisterLength::TwentyFourBits)
        } else if v == 0x01 {
            Ok(DataRegisterLength::SixteenBits)
        } else {
            Err(DecodeError::InvalidDataRegisterLength)
        }
    }

    pub fn into_bits(self) -> (r: u8)
        ensures
            r == self.spec_bits(),
            r < 0x02,
    {
        match self {
            DataRegisterLength::TwentyFourBits => 0x00,
            DataRegisterLength::SixteenBits => 0x01,
        }
    }

    pub fn from_bits(v: u8) -> (r: Result<DataRegisterLength, DecodeError>)
        ensures
            r == Self::spec_from_bits(v),
    {
        if v == 0x00 {
            Ok(DataRegisterLength::TwentyFourBits)
        } else if v == 0x01 {
            Ok(DataRegisterLength::SixteenBits)
        } else {
            Err(DecodeError::InvalidDataRegisterLength)
        }
    }
}

/// A valid discriminant always converts back without loss.
pub proof fn lemma_data_register_length_round_trip(x: DataRegisterLength)
    ensures
        DataRegisterLength::spec_from_bits(x.spec_bits()) == Ok::<DataRegisterLength, DecodeError>(x),
        x.spec_bits() < 0x02,
{
}

/// Decoding fails exactly on the values outside the declared set.
pub proof fn lemma_data_register_length_closure(v: u8)
    ensures
        DataRegisterLength::spec_from_bits(v) is Err <==> !DataRegisterLength::spec_valid(v),
{
}

/// Function of the SYNC/ERROR pin, selected in the GPIO configuration
/// register. Occupies a 2-bit field.
#[derive(Clone, Copy, Debug, PartialEq, Eq, Structural)]
pub enum SyncErrorPinMode {
    Disabled,
    ErrorInput,
    OpenDrainErrorOutput,
    ErrDataOutput,
}

impl SyncErrorPinMode {
    /// The chip-defined discriminant of each variant.
    pub open spec fn spec_bits(self) -> u8 {
        match self {
            SyncErrorPinMode::Disabled => 0x00,
            SyncErrorPinMode::ErrorInput => 0x01,
            SyncErrorPinMode::OpenDrainErrorOutput => 0x02,
            SyncErrorPinMode::ErrDataOutput => 0x03,
        }
    }

    /// The declared discriminant set.
    pub open spec fn spec_valid(v: u8) -> bool {
        v < 0x04
    }

    /// Decoding as a total function on raw values.
    pub open spec fn spec_from_bits(v: u8) -> Result<SyncErrorPinMode, DecodeError> {
        if v == 0x00 {
            Ok(SyncErrorPinMode::Disabled)
        } else if v == 0x01 {
            Ok(SyncErrorPinMode::ErrorInput)
        } else if v == 0x02 {
            Ok(SyncErrorPinMode::OpenDrainErrorOutput)
        } else if v == 0x03 {
            Ok(SyncErrorPinMode::ErrDataOutput)
        } else {
            Err(DecodeError::InvalidSyncErrorPinMode)
        }
    }

    pub fn into_bits(self) -> (r: u8)
        ensures
            r == self.spec_bits(),
            r < 0x04,
    {
        match self {
            SyncErrorPinMode::Disabled => 0x00,
            SyncErrorPinMode::ErrorInput => 0x01,
            SyncErrorPinMode::OpenDrainErrorOutput => 0x02,
            SyncErrorPinMode::ErrDataOutput => 0x03,
        }
    }

    pub fn from_bits(v: u8) -> (r: Result<SyncErrorPinMode, DecodeError>)
        ensures
            r == Self::spec_from_bits(v),
    {
        if v == 0x00 {
            Ok(SyncErrorPinMode::Disabled)
        } else if v == 0x01 {
            Ok(SyncErrorPinMode::ErrorInput)
        } else if v == 0x02 {
            Ok(SyncErrorPinMode::OpenDrainErrorOutput)
        } else if v == 0x03 {
            Ok(SyncErrorPinMode::ErrDataOutput)
        } else {
            Err(DecodeError::InvalidSyncErrorPinMode)
        }
    }
}

/// A valid discriminant always converts back without loss.
pub proof fn lemma_sync_error_pin_mode_round_trip(x: SyncErrorPinMode)
    ensures
        SyncErrorPinMode::spec_from_bits(x.spec_bits()) == Ok::<SyncErrorPinMode, DecodeError>(x),
        x.spec_bits() < 0x04,
{
}

/// Decoding fails exactly on the values outside the declared set.
pub proof fn lemma_sync_error_pin_mode_closure(v: u8)
    ensures
        SyncErrorPinMode::spec_from_bits(v) is Err <==> !SyncErrorPinMode::spec_valid(v),
{
}

/// Setup configuration referenced by a channel register. Occupies a
/// 2-bit field.
#[derive(Clone, Copy, Debug, PartialEq, Eq, Structural)]
pub enum Setup {
    Setup0,
    Setup1,
    Setup2,
    Setup3,
}

impl Setup {
    /// The chip-defined discriminant of each variant.
    pub open spec fn spec_bits(self) -> u8 {
        match self {
            Setup::Setup0 => 0x00,
            Setup::Setup1 => 0x01,
            Setup::Setup2 => 0x02,
            Setup::Setup3 => 0x03,
        }
    }

    /// The declared discriminant set.
    pub open spec fn spec_valid(v: u8) -> bool {
        v < 0x04
    }

    /// Decoding as a total function on raw values.
    pub open spec fn spec_from_bits(v: u8) -> Result<Setup, DecodeError> {
        if v == 0x00 {
            Ok(Setup::Setup0)
        } else if v == 0x01 {
            Ok(Setup::Setup1)
        } else if v == 0x02 {
            Ok(Setup::Setup2)
        } else if v == 0x03 {
            Ok(Setup::Setup3)
        } else {
            Err(DecodeError::InvalidSetup)
        }
    }

    pub fn into_bits(self) -> (r: u8)
        ensures
            r == self.spec_bits(),
            r < 0x04,
    {
        match self {
            Setup::Setup0 => 0x00,
            Setup::Setup1 => 0x01,
            Setup::Setup2 => 0x02,
            Setup::Setup3 => 0x03,
        }
    }

    pub fn from_bits(v: u8) -> (r: Result<Setup, DecodeError>)
        ensures
            r == Self::spec_from_bits(v),
    {
        if v == 0x00 {
            Ok(Setup::Setup0)
        } else if v == 0x01 {
            Ok(Setup::Setup1)
        } else if v == 0x02 {
            Ok(Setup::Setup2)
        } else if v == 0x03 {
            Ok(Setup::Setup3)
        } else {
            Err(DecodeError::InvalidSetup)
        }
    }
}

/// A valid discriminant always converts back without loss.
pub proof fn lemma_setup_round_trip(x: Setup)
    ensures
        Setup::spec_from_bits(x.spec_bits()) == Ok::<Setup, DecodeError>(x),
        x.spec_bits() < 0x04,
{
}

/// Decoding fails exactly on the values outside the declared set.
pub proof fn lemma_setup_closure(v: u8)
    ensures
        Setup::spec_from_bits(v) is Err <==> !Setup::spec_valid(v),
{
}

/// Input multiplexer selection for the positive or negative side of a
/// channel. Occupies a 5-bit field; most 5-bit values are unassigned.
#[derive(Clone, Copy, Debug, PartialEq, Eq, Structural)]
pub enum Input {
    Analog0,
    Analog1,
    Analog2,
    Analog3,
    Analog4,
    TemperatureSensorPos,
    TemperatureSensorNeg,
    Avdd1AvssDiffOver5Pos,
    Avdd1AvssDiffOver5Neg,
    PositiveReferenceVoltage,
    NegativeReferenceVoltage,
}

impl Input {
    /// The chip-defined discriminant of each variant.
    /// The set is sparse: only 0x00 to 0x04 and 0x11 to 0x16 are assigned.
    pub open spec fn spec_bits(self) -> u8 {
        match self {
            Input::Analog0 => 0x00,
            Input::Analog1 => 0x01,
            Input::Analog2 => 0x02,
            Input::Analog3 => 0x03,
            Input::Analog4 => 0x04,
            Input::TemperatureSensorPos => 0x11,
            Input::TemperatureSensorNeg => 0x12,
            Input::Avdd1AvssDiffOver5Pos => 0x13,
            Input::Avdd1AvssDiffOver5Neg => 0x14,
            Input::PositiveReferenceVoltage => 0x15,
            Input::NegativeReferenceVoltage => 0x16,
        }
    }

    /// The declared discriminant set.
    pub open spec fn spec_valid(v: u8) -> bool {
        v < 0x05 || (0x11 <= v && v <= 0x16)
    }

    /// Decoding as a total function on raw values.
    pub open spec fn spec_from_bits(v: u8) -> Result<Input, DecodeError> {
        if v == 0x00 {
            Ok(Input::Analog0)
        } else if v == 0x01 {
            Ok(Input::Analog1)
        } else if v == 0x02 {
            Ok(Input::Analog2)
        } else if v == 0x03 {
            Ok(Input::Analog3)
        } else if v == 0x04 {
            Ok(Input::Analog4)
        } else if v == 0x11 {
            Ok(Input::TemperatureSensorPos)
        } else if v == 0x12 {
            Ok(Input::TemperatureSensorNeg)
        } else if v == 0x13 {
            Ok(Input::Avdd1AvssDiffOver5Pos)
        } else if v == 0x14 {
            Ok(Input::Avdd1AvssDiffOver5Neg)
        } else if v == 0x15 {
            Ok(Input::PositiveReferenceVoltage)
        } else if v == 0x16 {
            Ok(Input::NegativeReferenceVoltage)
        } else {
            Err(DecodeError::InvalidInput)
        }
    }

    pub fn into_bits(self) -> (r: u8)
        ensures
            r == self.spec_bits(),
            r < 0x20,
    {
        match self {
            Input::Analog0 => 0x00,
            Input::Analog1 => 0x01,
            Input::Analog2 => 0x02,
            Input::Analog3 => 0x03,
            Input::Analog4 => 0x04,
            Input::TemperatureSensorPos => 0x11,
            Input::TemperatureSensorNeg => 0x12,
            Input::Avdd1AvssDiffOver5Pos => 0x13,
            Input::Avdd1AvssDiffOver5Neg => 0x14,
            Input::PositiveReferenceVoltage => 0x15,
            Input::NegativeReferenceVoltage => 0x16,
        }
    }

    pub fn from_bits(v: u8) -> (r: Result<Input, DecodeError>)
        ensures
            r == Self::spec_from_bits(v),
    {
        if v == 0x00 {
            Ok(Input::Analog0)
        } else if v == 0x01 {
            Ok(Input::Analog1)
        } else if v == 0x02 {
            Ok(Input::Analog2)
        } else if v == 0x03 {
            Ok(Input::Analog3)
        } else if v == 0x04 {
            Ok(Input::Analog4)
        } else if v == 0x11 {
            Ok(Input::TemperatureSensorPos)
        } else if v == 0x12 {
            Ok(Input::TemperatureSensorNeg)
        } else if v == 0x13 {
            Ok(Input::Avdd1AvssDiffOver5Pos)
        } else if v == 0x14 {
            Ok(Input::Avdd1AvssDiffOver5Neg)
        } else if v == 0x15 {
            Ok(Input::PositiveReferenceVoltage)
        } else if v == 0x16 {
            Ok(Input::NegativeReferenceVoltage)
        } else {
            Err(DecodeError::InvalidInput)
        }
    }
}

/// A valid discriminant always converts back without loss.
pub proof fn lemma_input_round_trip(x: Input)
    ensures
        Input::spec_from_bits(x.spec_bits()) == Ok::<Input, DecodeError>(x),
        x.spec_bits() < 0x20,
{
}

/// Decoding fails exactly on the values outside the declared set.
pub proof fn lemma_input_closure(v: u8)
    ensures
        Input::spec_from_bits(v) is Err <==> !Input::spec_valid(v),
{
}

/// Unipolar or bipolar output coding, selected per setup. Occupies a
/// 1-bit field.
#[derive(Clone, Copy, Debug, PartialEq, Eq, Structural)]
pub enum OutputCoding {
    Unipolar,
    Bipolar,
}

impl OutputCoding {
    /// The chip-defined discriminant of each variant.
    pub open spec fn spec_bits(self) -> u8 {
        match self {
            OutputCoding::Unipolar => 0x00,
            OutputCoding::Bipolar => 0x01,
        }
    }

    /// The declared discriminant set.
    pub open spec fn spec_valid(v: u8) -> bool {
        v < 0x02
    }

    /// Decoding as a total function on raw values.
    pub open spec fn spec_from_bits(v: u8) -> Result<OutputCoding, DecodeError> {
        if v == 0x00 {
            Ok(OutputCoding::Unipolar)
        } else if v == 0x01 {
            Ok(OutputCoding::Bipolar)
        } else {
            Err(DecodeError::InvalidOutputCoding)
        }
    }

    pub fn into_bits(self) -> (r: u8)
        ensures
            r == self.spec_bits(),
            r < 0x02,
    {
        match self {
            OutputCoding::Unipolar => 0x00,
            OutputCoding::Bipolar => 0x01,
        }
    }

    pub fn from_bits(v: u8) -> (r: Result<OutputCoding, DecodeError>)
        ensures
            r == Self::spec_from_bits(v),
    {
        if v == 0x00 {
            Ok(OutputCoding::Unipolar)
        } else if v == 0x01 {
            Ok(OutputCoding::Bipolar)
        } else {
            Err(DecodeError::InvalidOutputCoding)
        }
    }
}

/// A valid discriminant always converts back without loss.
pub proof fn lemma_output_coding_round_trip(x: OutputCoding)
    ensures
        OutputCoding::spec_from_bits(x.spec_bits()) == Ok::<OutputCoding, DecodeError>(x),
        x.spec_bits() < 0x02,
{
}

/// Decoding fails exactly on the values outside the declared set.
pub proof fn lemma_output_coding_closure(v: u8)
    ensures
        OutputCoding::spec_from_bits(v) is Err <==> !OutputCoding::spec_valid(v),
{
}

/// Reference source for conversions, selected per setup. Occupies a
/// 2-bit field; the value 0x03 is unassigned.
#[derive(Clone, Copy, Debug, PartialEq, Eq, Structural)]
pub enum ReferenceSource {
    External,
    Internal,
    Avdd1AvssDiff,
}

impl ReferenceSource {
    /// The chip-defined discriminant of each variant.
    /// The set is sparse: 0x03 is unassigned.
    pub open spec fn spec_bits(self) -> u8 {
        match self {
            ReferenceSource::External => 0x00,
            ReferenceSource::Internal => 0x01,
            ReferenceSource::Avdd1AvssDiff => 0x02,
        }
    }

    /// The declared discriminant set.
    pub open spec fn spec_valid(v: u8) -> bool {
        v < 0x03
    }

    /// Decoding as a total function on raw values.
    pub open spec fn spec_from_bits(v: u8) -> Result<ReferenceSource, DecodeError> {
        if v == 0x00 {
            Ok(ReferenceSource::External)
        } else if v == 0x01 {
            Ok(ReferenceSource::Internal)
        } else if v == 0x02 {
            Ok(ReferenceSource::Avdd1AvssDiff)
        } else {
            Err(DecodeError::InvalidReferenceSource)
        }
    }

    pub fn into_bits(self) -> (r: u8)
        ensures
            r == self.spec_bits(),
            r < 0x04,
    {
        match self {
            ReferenceSource::External => 0x00,
            ReferenceSource::Internal => 0x01,
            ReferenceSource::Avdd1AvssDiff => 0x02,
        }
    }

    pub fn from_bits(v: u8) -> (r: Result<ReferenceSource, DecodeError>)
        ensures
            r == Self::spec_from_bits(v),
    {
        if v == 0x00 {
            Ok(ReferenceSource::External)
        } else if v == 0x01 {
            Ok(ReferenceSource::Internal)
        } else if v == 0x02 {
            Ok(ReferenceSource::Avdd1AvssDiff)
        } else {
            Err(DecodeError::InvalidReferenceSource)
        }
    }
}

/// A valid discriminant always converts back without loss.
pub proof fn lemma_reference_source_round_trip(x: ReferenceSource)
    ensures
        ReferenceSource::spec_from_bits(x.spec_bits()) == Ok::<ReferenceSource, DecodeError>(x),
        x.spec_bits() < 0x04,
{
}

/// Decoding fails exactly on the values outside the declared set.
pub proof fn lemma_reference_source_closure(v: u8)
    ensures
        ReferenceSource::spec_from_bits(v) is Err <==> !ReferenceSource::spec_valid(v),
{
}

/// Enhanced filter rate, selected in a filter configuration register.
/// Occupies a 3-bit field; only four of the eight values are assigned.
#[derive(Clone, Copy, Debug, PartialEq, Eq, Structural)]
pub enum EnhancedFilterRate {
    Sps27,
    Sps25,
    Sps20,
    Sps16p67,
}

impl EnhancedFilterRate {
    /// The chip-defined discriminant of each variant.
    /// The set is sparse: only 0x02, 0x03, 0x05 and 0x06 are assigned.
    pub open spec fn spec_bits(self) -> u8 {
        match self {
            EnhancedFilterRate::Sps27 => 0x02,
            EnhancedFilterRate::Sps25 => 0x03,
            EnhancedFilterRate::Sps20 => 0x05,
            EnhancedFilterRate::Sps16p67 => 0x06,
        }
    }

    /// The declared discriminant set.
    pub open spec fn spec_valid(v: u8) -> bool {
        v == 0x02 || v == 0x03 || v == 0x05 || v == 0x06
    }

    /// Decoding as a total function on raw values.
    pub open spec fn spec_from_bits(v: u8) -> Result<EnhancedFilterRate, DecodeError> {
        if v == 0x02 {
            Ok(EnhancedFilterRate::Sps27)
        } else if v == 0x03 {
            Ok(EnhancedFilterRate::Sps25)
        } else if v == 0x05 {
            Ok(EnhancedFilterRate::Sps20)
        } else if v == 0x06 {
            Ok(EnhancedFilterRate::Sps16p67)
        } else {
            Err(DecodeError::InvalidEnhancedFilterRate)
        }
    }

    pub fn into_bits(self) -> (r: u8)
        ensures
            r == self.spec_bits(),
            r < 0x08,
    {
        match self {
            EnhancedFilterRate::Sps27 => 0x02,
            EnhancedFilterRate::Sps25 => 0x03,
            EnhancedFilterRate::Sps20 => 0x05,
            EnhancedFilterRate::Sps16p67 => 0x06,
        }
    }

    pub fn from_bits(v: u8) -> (r: Result<EnhancedFilterRate, DecodeError>)
        ensures
            r == Self::spec_from_bits(v),
    {
        if v == 0x02 {
            Ok(EnhancedFilterRate::Sps27)
        } else if v == 0x03 {
            Ok(EnhancedFilterRate::Sps25)
        } else if v == 0x05 {
            Ok(EnhancedFilterRate::Sps20)
        } else if v == 0x06 {
            Ok(EnhancedFilterRate::Sps16p67)
        } else {
            Err(DecodeError::InvalidEnhancedFilterRate)
        }
    }
}

/// A valid discriminant always converts back without loss.
pub proof fn lemma_enhanced_filter_rate_round_trip(x: EnhancedFilterRate)
    ensures
        EnhancedFilterRate::spec_from_bits(x.spec_bits()) == Ok::<EnhancedFilterRate, DecodeError>(x),
        x.spec_bits() < 0x08,
{
}

/// Decoding fails exactly on the values outside the declared set.
pub proof fn lemma_enhanced_filter_rate_closure(v: u8)
    ensures
        EnhancedFilterRate::spec_from_bits(v) is Err <==> !EnhancedFilterRate::spec_valid(v),
{
}

/// Digital filter order, selected in a filter configuration register.
/// Occupies a 2-bit field; only 0x00 and 0x03 are assigned.
#[derive(Clone, Copy, Debug, PartialEq, Eq, Structural)]
pub enum FilterOrder {
    Sinc5Sinc1,
    Sinc3,
}

impl FilterOrder {
    /// The chip-defined discriminant of each variant.
    /// The set is sparse: only 0x00 and 0x03 are assigned.
    pub open spec fn spec_bits(self) -> u8 {
        match self {
            FilterOrder::Sinc5Sinc1 => 0x00,
            FilterOrder::Sinc3 => 0x03,
        }
    }

    /// The declared discriminant set.
    pub open spec fn spec_valid(v: u8) -> bool {
        v == 0x00 || v == 0x03
    }

    /// Decoding as a total function on raw values.
    pub open spec fn spec_from_bits(v: u8) -> Result<FilterOrder, DecodeError> {
        if v == 0x00 {
            Ok(FilterOrder::Sinc5Sinc1)
        } else if v == 0x03 {
            Ok(FilterOrder::Sinc3)
        } else {
            Err(DecodeError::InvalidFilterOrder)
        }
    }

    pub fn into_bits(self) -> (r: u8)
        ensures
            r == self.spec_bits(),
            r < 0x04,
    {
        match self {
            FilterOrder::Sinc5Sinc1 => 0x00,
            FilterOrder::Sinc3 => 0x03,
        }
    }

    pub fn from_bits(v: u8) -> (r: Result<FilterOrder, DecodeError>)
        ensures
            r == Self::spec_from_bits(v),
    {
        if v == 0x00 {
            Ok(FilterOrder::Sinc5Sinc1)
        } else if v == 0x03 {
            Ok(FilterOrder::Sinc3)
        } else {
            Err(DecodeError::InvalidFilterOrder)
        }
    }
}

/// A valid discriminant always converts back without loss.
pub proof fn lemma_filter_order_round_trip(x: FilterOrder)
    ensures
        FilterOrder::spec_from_bits(x.spec_bits()) == Ok::<FilterOrder, DecodeError>(x),
        x.spec_bits() < 0x04,
{
}

/// Decoding fails exactly on the values outside the declared set.
pub proof fn lemma_filter_order_closure(v: u8)
    ensures
        FilterOrder::spec_from_bits(v) is Err <==> !FilterOrder::spec_valid(v),
{
}

/// Output data rate for conversions, selected in a filter configuration
/// register. Occupies a 5-bit field; values above 0x14 are unassigned.
#[derive(Clone, Copy, Debug, PartialEq, Eq, Structural)]
pub enum OutputDataRate {
    Sps250000,
    Sps125000,
    Sps62500,
    Sps50000,
    Sps31250,
    Sps25000,
    Sps15625,
    Sps10000,
    Sps5000,
    Sps2500,
    Sps1000,
    Sps500,
    Sps397p5,
    Sps200,
    Sps100,
    Sps59p92,
    Sps49p96,
    Sps20,
    Sps16p67,
    Sps10,
    Sps5,
}

impl OutputDataRate {
    /// The chip-defined discriminant of each variant.
    /// The set is sparse: values above 0x14 are unassigned.
    pub open spec fn spec_bits(self) -> u8 {
        match self {
            OutputDataRate::Sps250000 => 0x00,
            OutputDataRate::Sps125000 => 0x01,
            OutputDataRate::Sps62500 => 0x02,
            OutputDataRate::Sps50000 => 0x03,
            OutputDataRate::Sps31250 => 0x04,
            OutputDataRate::Sps25000 => 0x05,
            OutputDataRate::Sps15625 => 0x06,
            OutputDataRate::Sps10000 => 0x07,
            OutputDataRate::Sps5000 => 0x08,
            OutputDataRate::Sps2500 => 0x09,
            OutputDataRate::Sps1000 => 0x0a,
            OutputDataRate::Sps500 => 0x0b,
            OutputDataRate::Sps397p5 => 0x0c,
            OutputDataRate::Sps200 => 0x0d,
            OutputDataRate::Sps100 => 0x0e,
            OutputDataRate::Sps59p92 => 0x0f,
            OutputDataRate::Sps49p96 => 0x10,
            OutputDataRate::Sps20 => 0x11,
            OutputDataRate::Sps16p67 => 0x12,
            OutputDataRate::Sps10 => 0x13,
            OutputDataRate::Sps5 => 0x14,
        }
    }

    /// The declared discriminant set.
    pub open spec fn spec_valid(v: u8) -> bool {
        v <= 0x14
    }

    /// Decoding as a total function on raw values.
    pub open spec fn spec_from_bits(v: u8) -> Result<OutputDataRate, DecodeError> {
        if v == 0x00 {
            Ok(OutputDataRate::Sps250000)
        } else if v == 0x01 {
            Ok(OutputDataRate::Sps125000)
        } else if v == 0x02 {
            Ok(OutputDataRate::Sps62500)
        } else if v == 0x03 {
            Ok(OutputDataRate::Sps50000)
        } else if v == 0x04 {
            Ok(OutputDataRate::Sps31250)
        } else if v == 0x05 {
            Ok(OutputDataRate::Sps25000)
        } else if v == 0x06 {
            Ok(OutputDataRate::Sps15625)
        } else if v == 0x07 {
            Ok(OutputDataRate::Sps10000)
        } else if v == 0x08 {
            Ok(OutputDataRate::Sps5000)
        } else if v == 0x09 {
            Ok(OutputDataRate::Sps2500)
        } else if v == 0x0a {
            Ok(OutputDataRate::Sps1000)
        } else if v == 0x0b {
            Ok(OutputDataRate::Sps500)
        } else if v == 0x0c {
            Ok(OutputDataRate::Sps397p5)
        } else if v == 0x0d {
            Ok(OutputDataRate::Sps200)
        } else if v == 0x0e {
            Ok(OutputDataRate::Sps100)
        } else if v == 0x0f {
            Ok(OutputDataRate::Sps59p92)
        } else if v == 0x10 {
            Ok(OutputDataRate::Sps49p96)
        } else if v == 0x11 {
            Ok(OutputDataRate::Sps20)
        } else if v == 0x12 {
            Ok(OutputDataRate::Sps16p67)
        } else if v == 0x13 {
            Ok(OutputDataRate::Sps10)
        } else if v == 0x14 {
            Ok(OutputDataRate::Sps5)
        } else {
            Err(DecodeError::InvalidOutputDataRate)
        }
    }

    pub fn into_bits(self) -> (r: u8)
        ensures
            r == self.spec_bits(),
            r < 0x20,
    {
        match self {
            OutputDataRate::Sps250000 => 0x00,
            OutputDataRate::Sps125000 => 0x01,
            OutputDataRate::Sps62500 => 0x02,
            OutputDataRate::Sps50000 => 0x03,
            OutputDataRate::Sps31250 => 0x04,
            OutputDataRate::Sps25000 => 0x05,
            OutputDataRate::Sps15625 => 0x06,
            OutputDataRate::Sps10000 => 0x07,
            OutputDataRate::Sps5000 => 0x08,
            OutputDataRate::Sps2500 => 0x09,
            OutputDataRate::Sps1000 => 0x0a,
            OutputDataRate::Sps500 => 0x0b,
            OutputDataRate::Sps397p5 => 0x0c,
            OutputDataRate::Sps200 => 0x0d,
            OutputDataRate::Sps100 => 0x0e,
            OutputDataRate::Sps59p92 => 0x0f,
            OutputDataRate::Sps49p96 => 0x10,
            OutputDataRate::Sps20 => 0x11,
            OutputDataRate::Sps16p67 => 0x12,
            OutputDataRate::Sps10 => 0x13,
            OutputDataRate::Sps5 => 0x14,
        }
    }

    pub fn from_bits(v: u8) -> (r: Result<OutputDataRate, DecodeError>)
        ensures
            r == Self::spec_from_bits(v),
    {
        if v == 0x00 {
            Ok(OutputDataRate::Sps250000)
        } else if v == 0x01 {
            Ok(OutputDataRate::Sps125000)
        } else if v == 0x02 {
            Ok(OutputDataRate::Sps62500)
        } else if v == 0x03 {
            Ok(OutputDataRate::Sps50000)
        } else if v == 0x04 {
            Ok(OutputDataRate::Sps31250)
        } else if v == 0x05 {
            Ok(OutputDataRate::Sps25000)
        } else if v == 0x06 {
            Ok(OutputDataRate::Sps15625)
        } else if v == 0x07 {
            Ok(OutputDataRate::Sps10000)
        } else if v == 0x08 {
            Ok(OutputDataRate::Sps5000)
        } else if v == 0x09 {
            Ok(OutputDataRate::Sps2500)
        } else if v == 0x0a {
            Ok(OutputDataRate::Sps1000)
        } else if v == 0x0b {
            Ok(OutputDataRate::Sps500)
        } else if v == 0x0c {
            Ok(OutputDataRate::Sps397p5)
        } else if v == 0x0d {
            Ok(OutputDataRate::Sps200)
        } else if v == 0x0e {
            Ok(OutputDataRate::Sps100)
        } else if v == 0x0f {
            Ok(OutputDataRate::Sps59p92)
        } else if v == 0x10 {
            Ok(OutputDataRate::Sps49p96)
        } else if v == 0x11 {
            Ok(OutputDataRate::Sps20)
        } else if v == 0x12 {
            Ok(OutputDataRate::Sps16p67)
        } else if v == 0x13 {
            Ok(OutputDataRate::Sps10)
        } else if v == 0x14 {
            Ok(OutputDataRate::Sps5)
        } else {
            Err(DecodeError::InvalidOutputDataRate)
        }
    }
}

/// A valid discriminant always converts back without loss.
pub proof fn lemma_output_data_rate_round_trip(x: OutputDataRate)
    ensures
        OutputDataRate::spec_from_bits(x.spec_bits()) == Ok::<OutputDataRate, DecodeError>(x),
        x.spec_bits() < 0x20,
{
}

/// Decoding fails exactly on the values outside the declared set.
pub proof fn lemma_output_data_rate_closure(v: u8)
    ensures
        OutputDataRate::spec_from_bits(v) is Err <==> !OutputDataRate::spec_valid(v),
{
}

} // verus!
