//! Typed register layouts and their codecs.
//!
//! Each register is a struct of named fields together with a bit-exact
//! packing into the register's word (`spec_bits`) and the inverse decoding
//! (`spec_from_bits`). Fields sit in the word most-significant field first,
//! exactly where the device defines them; reserved bits are zero on encode
//! and ignored on decode. Every writable register proves its round trip:
//! decoding an encoded value gives the value back.
//!
//! Out-of-range numeric fields are never truncated silently: encoding
//! requires a well-formed value (`spec_wf`), and `check_wf` hands callers
//! outside the proof boundary the same test at runtime.

use vstd::prelude::*;
use crate::catalog::{
    adc_mode_field_widths, data_and_status_field_widths, data_field_widths,
    gpio_config_field_widths, id_field_widths, interface_mode_field_widths,
    register_check_field_widths, status_field_widths,
};
use crate::codec::{
    from_u16, into_u16, into_u32, into_u32_full, lemma_u16_byte_order, lemma_u24_mask,
    pack_fields, spec_from_u16, spec_into_u16, spec_into_u24, spec_into_u32, width_sum,
};
use vstd::arithmetic::power2::pow2;
use crate::enums::{
    lemma_channel_round_trip, lemma_clock_source_round_trip, lemma_crc_round_trip,
    lemma_data_register_length_round_trip, lemma_delay_round_trip, lemma_mode_round_trip,
    lemma_sync_error_pin_mode_round_trip, Channel, ClockSource, Crc, DataRegisterLength, Delay,
    Mode, SyncErrorPinMode,
};
use crate::error::DecodeError;

verus! {

/// Direction of one bus transaction, as encoded in the command byte:
/// bit 6 set for a read, clear for a write.
#[derive(Clone, Copy, Debug, PartialEq, Eq, Structural)]
pub enum RegisterRW {
    Read,
    Write,
}

impl RegisterRW {
    /// The command-byte flag for this direction.
    pub open spec fn spec_flag(self) -> u8 {
        match self {
            RegisterRW::Read => 0x40,
            RegisterRW::Write => 0x00,
        }
    }

    pub fn flag(self) -> (r: u8)
        ensures
            r == self.spec_flag(),
    {
        match self {
            RegisterRW::Read => 0x40,
            RegisterRW::Write => 0x00,
        }
    }
}

/// The raw bit of a boolean field.
pub open spec fn spec_bool_bit(b: bool) -> u8 {
    if b {
        1
    } else {
        0
    }
}

/// The raw bit of a boolean field.
pub fn bool_bit(b: bool) -> (r: u8)
    ensures
        r == spec_bool_bit(b),
        r < 2,
{
    if b {
        1
    } else {
        0
    }
}

/// A register that can be read over the bus: its payload bytes decode to a
/// typed value, or to a fault if a closed-enumeration field holds an
/// undeclared discriminant.
///
/// A register value does not know its bus address: the catalog pairs each
/// layout with the address, or addresses, it lives at.
pub trait Register<const N: usize>: Sized {
    /// Decoding as a function of the payload bytes alone.
    spec fn spec_from_buffer(raw: Seq<u8>) -> Result<Self, DecodeError>;

    /// Decodes the `N` payload bytes of one bus read.
    fn from_buffer(raw: &[u8; N]) -> (r: Result<Self, DecodeError>)
        ensures
            r == Self::spec_from_buffer(raw@),
    ;
}

/// A register that can also be written: a well-formed value encodes to the
/// payload bytes of one bus write, and decoding those bytes gives the value
/// back.
pub trait WritableRegister<const N: usize>: Register<N> {
    /// Which values encode faithfully: every numeric field within its
    /// declared width, and read-only marker bits at their fixed value.
    spec fn spec_wf(self) -> bool;

    /// Encoding as a function of the value alone.
    spec fn spec_to_buffer(self) -> Seq<u8>;

    /// Encodes the value into the `N` payload bytes of one bus write.
    fn to_buffer(&self) -> (r: [u8; N])
        requires
            self.spec_wf(),
        ensures
            r@ == self.spec_to_buffer(),
    ;

    /// Runtime test of the encoding precondition, for callers outside the
    /// proof boundary.
    fn check_wf(&self) -> (r: bool)
        ensures
            r == self.spec_wf(),
    ;

    /// The round trip: decoding an encoded value gives the value back.
    proof fn lemma_round_trip(self)
        requires
            self.spec_wf(),
        ensures
            Self::spec_from_buffer(self.spec_to_buffer()) == Ok::<Self, DecodeError>(self),
    ;
}

// ---------------------------------------------------------------------------
// Status register: address 0x00, 1 byte, read-only.
// ---------------------------------------------------------------------------

/// Status register: conversion-ready and error flags, and the channel the
/// current data belongs to.
///
/// Bit 7 ready, bit 6 ADC error, bit 5 CRC error, bit 4 register error,
/// bits 3:2 reserved, bits 1:0 channel.
#[derive(Clone, Copy, Debug, PartialEq, Eq, Structural)]
pub struct StatusRegister {
    /// New conversion data is available.
    pub ready: bool,
    /// An error was detected in the ADC core.
    pub adc_error: bool,
    /// A CRC error was detected on a register read.
    pub crc_error: bool,
    /// A register parity error was detected.
    pub register_error: bool,
    /// The channel the current conversion data belongs to.
    pub channel: Channel,
}

impl StatusRegister {
    /// The device's reset value: ready set, no errors, channel 0.
    pub open spec fn spec_default() -> StatusRegister {
        StatusRegister {
            ready: true,
            adc_error: false,
            crc_error: false,
            register_error: false,
            channel: Channel::Ch0,
        }
    }

    /// Every field combination of this register is well formed.
    pub open spec fn wf(self) -> bool {
        true
    }

    /// The register's 8-bit word, fields packed most-significant first.
    pub open spec fn spec_bits(self) -> u8 {
        ((spec_bool_bit(self.ready) as u8) << 7) | ((spec_bool_bit(self.adc_error) as u8) << 6)
            | ((spec_bool_bit(self.crc_error) as u8) << 5) | ((spec_bool_bit(
            self.register_error,
        ) as u8) << 4) | self.channel.spec_bits()
    }

    /// Decoding of an 8-bit word. The channel field is total over its two
    /// bits, so decoding never faults.
    pub open spec fn spec_from_bits(v: u8) -> Result<StatusRegister, DecodeError> {
        match Channel::spec_from_bits(v & 0x03) {
            Err(e) => Err(e),
            Ok(channel) => Ok(
                StatusRegister {
                    ready: (v >> 7) & 1 == 1,
                    adc_error: (v >> 6) & 1 == 1,
                    crc_error: (v >> 5) & 1 == 1,
                    register_error: (v >> 4) & 1 == 1,
                    channel,
                },
            ),
        }
    }

    /// A value with every field at its device reset default.
    pub fn new() -> (r: StatusRegister)
        ensures
            r == StatusRegister::spec_default(),
    {
        StatusRegister {
            ready: true,
            adc_error: false,
            crc_error: false,
            register_error: false,
            channel: Channel::Ch0,
        }
    }

    /// Decodes the register's 8-bit word; never faults.
    pub fn from_bits(v: u8) -> (r: Result<StatusRegister, DecodeError>)
        ensures
            r == Self::spec_from_bits(v),
            r is Ok,
    {
        proof {
            assert(v & 0x03 < 0x04) by (bit_vector);
        }
        match Channel::from_bits(v & 0x03) {
            Err(e) => Err(e),
            Ok(channel) => Ok(
                StatusRegister {
                    ready: (v >> 7u8) & 1 == 1,
                    adc_error: (v >> 6u8) & 1 == 1,
                    crc_error: (v >> 5u8) & 1 == 1,
                    register_error: (v >> 4u8) & 1 == 1,
                    channel,
                },
            ),
        }
    }
}

impl Register<1> for StatusRegister {
    open spec fn spec_from_buffer(raw: Seq<u8>) -> Result<StatusRegister, DecodeError> {
        Self::spec_from_bits(raw[0])
    }

    fn from_buffer(raw: &[u8; 1]) -> (r: Result<StatusRegister, DecodeError>) {
        Self::from_bits(raw[0])
    }
}

/// Round trip of the status word: decoding a packed status register gives
/// every field back.
pub proof fn lemma_status_bits_round_trip(r: StatusRegister)
    ensures
        StatusRegister::spec_from_bits(r.spec_bits()) == Ok::<StatusRegister, DecodeError>(r),
{
    let v = r.spec_bits();
    let b0 = spec_bool_bit(r.ready);
    let b1 = spec_bool_bit(r.adc_error);
    let b2 = spec_bool_bit(r.crc_error);
    let b3 = spec_bool_bit(r.register_error);
    let f4 = r.channel.spec_bits();
    lemma_channel_round_trip(r.channel);
    assert({
        &&& ((v >> 7) & 1 == 1) == (b0 == 1)
        &&& ((v >> 6) & 1 == 1) == (b1 == 1)
        &&& ((v >> 5) & 1 == 1) == (b2 == 1)
        &&& ((v >> 4) & 1 == 1) == (b3 == 1)
        &&& (v & 0x03) == f4
    }) by (bit_vector)
        requires
            v == ((b0 as u8) << 7) | ((b1 as u8) << 6) | ((b2 as u8) << 5) | ((b3 as u8) << 4)
                | f4,
            b0 < 2,
            b1 < 2,
            b2 < 2,
            b3 < 2,
            f4 < 4,
    ;
}

// ---------------------------------------------------------------------------
// ADC mode register: address 0x01, 2 bytes, read/write.
// ---------------------------------------------------------------------------

/// ADC mode register: operating mode, reference, clock source and
/// conversion delay.
///
/// Bit 15 internal reference enable, bit 14 hide delay, bit 13 single
/// cycle, bits 12:11 reserved, bits 10:8 delay, bit 7 reserved, bits 6:4
/// mode, bits 3:2 clock source, bits 1:0 reserved.
#[derive(Clone, Copy, Debug, PartialEq, Eq, Structural)]
pub struct AdcModeRegister {
    /// Enable the internal reference.
    pub ref_enable: bool,
    /// Hide the delay between conversions.
    pub hide_delay: bool,
    /// Single cycle settling mode.
    pub sing_cyc: bool,
    /// Delay between conversions.
    pub delay: Delay,
    /// Operating mode.
    pub mode: Mode,
    /// Master clock source.
    pub clksel: ClockSource,
}

impl AdcModeRegister {
    /// The device's reset value: internal reference enabled, everything
    /// else at zero.
    pub open spec fn spec_default() -> AdcModeRegister {
        AdcModeRegister {
            ref_enable: true,
            hide_delay: false,
            sing_cyc: false,
            delay: Delay::ZeroMicroseconds,
            mode: Mode::ContinuousConversion,
            clksel: ClockSource::Internal,
        }
    }

    /// Every field combination of this register is well formed.
    pub open spec fn wf(self) -> bool {
        true
    }

    /// The register's 16-bit word, fields packed most-significant first.
    pub open spec fn spec_bits(self) -> u16 {
        ((spec_bool_bit(self.ref_enable) as u16) << 15) | ((spec_bool_bit(
            self.hide_delay,
        ) as u16) << 14) | ((spec_bool_bit(self.sing_cyc) as u16) << 13) | ((
        self.delay.spec_bits() as u16) << 8) | ((self.mode.spec_bits() as u16) << 4) | ((
        self.clksel.spec_bits() as u16) << 2)
    }

    /// Decoding of a 16-bit word; faults if the mode field holds its one
    /// undeclared discriminant.
    pub open spec fn spec_from_bits(v: u16) -> Result<AdcModeRegister, DecodeError> {
        match Delay::spec_from_bits(((v >> 8) & 0x07) as u8) {
            Err(e) => Err(e),
            Ok(delay) => match Mode::spec_from_bits(((v >> 4) & 0x07) as u8) {
                Err(e) => Err(e),
                Ok(mode) => match ClockSource::spec_from_bits(((v >> 2) & 0x03) as u8) {
                    Err(e) => Err(e),
                    Ok(clksel) => Ok(
                        AdcModeRegister {
                            ref_enable: (v >> 15) & 1 == 1,
                            hide_delay: (v >> 14) & 1 == 1,
                            sing_cyc: (v >> 13) & 1 == 1,
                            delay,
                            mode,
                            clksel,
                        },
                    ),
                },
            },
        }
    }

    /// A value with every field at its device reset default.
    pub fn new() -> (r: AdcModeRegister)
        ensures
            r == AdcModeRegister::spec_default(),
            r.wf(),
    {
        AdcModeRegister {
            ref_enable: true,
            hide_delay: false,
            sing_cyc: false,
            delay: Delay::ZeroMicroseconds,
            mode: Mode::ContinuousConversion,
            clksel: ClockSource::Internal,
        }
    }

    /// Packs the register into its 16-bit word.
    pub fn to_bits(&self) -> (r: u16)
        ensures
            r == self.spec_bits(),
    {
        ((bool_bit(self.ref_enable) as u16) << 15u16) | ((bool_bit(self.hide_delay) as u16)
            << 14u16) | ((bool_bit(self.sing_cyc) as u16) << 13u16) | ((
        self.delay.into_bits() as u16) << 8u16) | ((self.mode.into_bits() as u16) << 4u16) | ((
        self.clksel.into_bits() as u16) << 2u16)
    }

    /// Decodes the register's 16-bit word.
    pub fn from_bits(v: u16) -> (r: Result<AdcModeRegister, DecodeError>)
        ensures
            r == Self::spec_from_bits(v),
    {
        let delay = match Delay::from_bits(((v >> 8u16) & 0x07) as u8) {
            Ok(x) => x,
            Err(e) => {
                return Err(e);
            },
        };
        let mode = match Mode::from_bits(((v >> 4u16) & 0x07) as u8) {
            Ok(x) => x,
            Err(e) => {
                return Err(e);
            },
        };
        let clksel = match ClockSource::from_bits(((v >> 2u16) & 0x03) as u8) {
            Ok(x) => x,
            Err(e) => {
                return Err(e);
            },
        };
        Ok(
            AdcModeRegister {
                ref_enable: (v >> 15u16) & 1 == 1,
                hide_delay: (v >> 14u16) & 1 == 1,
                sing_cyc: (v >> 13u16) & 1 == 1,
                delay,
                mode,
                clksel,
            },
        )
    }
}

impl Register<2> for AdcModeRegister {
    open spec fn spec_from_buffer(raw: Seq<u8>) -> Result<AdcModeRegister, DecodeError> {
        Self::spec_from_bits(spec_into_u16(raw[0], raw[1]))
    }

    fn from_buffer(raw: &[u8; 2]) -> (r: Result<AdcModeRegister, DecodeError>) {
        Self::from_bits(into_u16(*raw))
    }
}

impl WritableRegister<2> for AdcModeRegister {
    open spec fn spec_wf(self) -> bool {
        self.wf()
    }

    open spec fn spec_to_buffer(self) -> Seq<u8> {
        spec_from_u16(self.spec_bits())
    }

    fn to_buffer(&self) -> (r: [u8; 2]) {
        from_u16(self.to_bits())
    }

    fn check_wf(&self) -> (r: bool) {
        true
    }

    proof fn lemma_round_trip(self) {
        lemma_adc_mode_bits_round_trip(self);
        crate::codec::lemma_u16_byte_order(self.spec_bits(), 0, 0);
    }
}

/// Round trip of the ADC mode word: decoding a packed ADC mode register
/// gives every field back.
pub proof fn lemma_adc_mode_bits_round_trip(r: AdcModeRegister)
    ensures
        AdcModeRegister::spec_from_bits(r.spec_bits()) == Ok::<AdcModeRegister, DecodeError>(r),
{
    let v = r.spec_bits();
    let b0 = spec_bool_bit(r.ref_enable);
    let b1 = spec_bool_bit(r.hide_delay);
    let b2 = spec_bool_bit(r.sing_cyc);
    let f3 = r.delay.spec_bits();
    let f4 = r.mode.spec_bits();
    let f5 = r.clksel.spec_bits();
    lemma_delay_round_trip(r.delay);
    lemma_mode_round_trip(r.mode);
    lemma_clock_source_round_trip(r.clksel);
    assert({
        &&& ((v >> 15) & 1 == 1) == (b0 == 1)
        &&& ((v >> 14) & 1 == 1) == (b1 == 1)
        &&& ((v >> 13) & 1 == 1) == (b2 == 1)
        &&& ((v >> 8) & 0x07) as u8 == f3
        &&& ((v >> 4) & 0x07) as u8 == f4
        &&& ((v >> 2) & 0x03) as u8 == f5
    }) by (bit_vector)
        requires
            v == ((b0 as u16) << 15) | ((b1 as u16) << 14) | ((b2 as u16) << 13) | ((f3 as u16)
                << 8) | ((f4 as u16) << 4) | ((f5 as u16) << 2),
            b0 < 2,
            b1 < 2,
            b2 < 2,
            f3 < 8,
            f4 < 8,
            f5 < 4,
    ;
}

// ---------------------------------------------------------------------------
// Interface mode register: address 0x02, 2 bytes, read/write.
// ---------------------------------------------------------------------------

/// Interface mode register: digital interface operation, CRC mode, data
/// word length and continuous read.
///
/// Bit 12 alternate sync, bit 11 output drive strength, bit 8 data output
/// reset, bit 7 continuous read, bit 6 data + status read, bit 5 register
/// check, bits 3:2 CRC mode, bit 0 data register length; the other bits
/// are reserved.
#[derive(Clone, Copy, Debug, PartialEq, Eq, Structural)]
pub struct InterfaceModeRegister {
    /// Alternate sync pin function.
    pub alt_sync: bool,
    /// Strong output driver strength.
    pub iostrength: bool,
    /// Reset DOUT/RDY.
    pub dout_reset: bool,
    /// Continuous read mode.
    pub cont_read: bool,
    /// Append the status byte to conversion data.
    pub data_stat: bool,
    /// Register check enable.
    pub reg_check: bool,
    /// CRC mode for communication error checking.
    pub crc_en: Crc,
    /// Data register length.
    pub wl16: DataRegisterLength,
}

impl InterfaceModeRegister {
    /// The device's reset value.
    pub open spec fn spec_default() -> InterfaceModeRegister {
        InterfaceModeRegister {
            alt_sync: false,
            iostrength: false,
            dout_reset: false,
            cont_read: false,
            data_stat: false,
            reg_check: false,
            crc_en: Crc::Disabled,
            wl16: DataRegisterLength::TwentyFourBits,
        }
    }

    /// Every field combination of this register is well formed.
    pub open spec fn wf(self) -> bool {
        true
    }

    /// The register's 16-bit word, fields packed most-significant first.
    pub open spec fn spec_bits(self) -> u16 {
        ((spec_bool_bit(self.alt_sync) as u16) << 12)
            | ((spec_bool_bit(self.iostrength) as u16) << 11)
            | ((spec_bool_bit(self.dout_reset) as u16) << 8)
            | ((spec_bool_bit(self.cont_read) as u16) << 7)
            | ((spec_bool_bit(self.data_stat) as u16) << 6)
            | ((spec_bool_bit(self.reg_check) as u16) << 5)
            | ((self.crc_en.spec_bits() as u16) << 2)
            | (self.wl16.spec_bits() as u16)
    }

    /// Decoding of the register word.
    pub open spec fn spec_from_bits(v: u16) -> Result<InterfaceModeRegister, DecodeError> {
        match Crc::spec_from_bits(((v >> 2) & 0x3) as u8) {
            Err(e) => Err(e),
            Ok(crc_en) => match DataRegisterLength::spec_from_bits((v & 0x1) as u8) {
                Err(e) => Err(e),
                Ok(wl16) => Ok(
                    InterfaceModeRegister {
                        alt_sync: (v >> 12) & 1 == 1,
                        iostrength: (v >> 11) & 1 == 1,
                        dout_reset: (v >> 8) & 1 == 1,
                        cont_read: (v >> 7) & 1 == 1,
                        data_stat: (v >> 6) & 1 == 1,
                        reg_check: (v >> 5) & 1 == 1,
                        crc_en,
                        wl16,
                    },
                ),
            },
        }
    }

    /// A value with every field at its device reset default.
    pub fn new() -> (r: InterfaceModeRegister)
        ensures
            r == InterfaceModeRegister::spec_default(),
            r.wf(),
    {
        InterfaceModeRegister {
            alt_sync: false,
            iostrength: false,
            dout_reset: false,
            cont_read: false,
            data_stat: false,
            reg_check: false,
            crc_en: Crc::Disabled,
            wl16: DataRegisterLength::TwentyFourBits,
        }
    }

    /// Packs the register into its 16-bit word.
    pub fn to_bits(&self) -> (r: u16)
        ensures
            r == self.spec_bits(),
    {
        ((bool_bit(self.alt_sync) as u16) << 12u16)
            | ((bool_bit(self.iostrength) as u16) << 11u16)
            | ((bool_bit(self.dout_reset) as u16) << 8u16)
            | ((bool_bit(self.cont_read) as u16) << 7u16)
            | ((bool_bit(self.data_stat) as u16) << 6u16)
            | ((bool_bit(self.reg_check) as u16) << 5u16)
            | ((self.crc_en.into_bits() as u16) << 2u16)
            | (self.wl16.into_bits() as u16)
    }

    /// Decodes the register's 16-bit word.
    pub fn from_bits(v: u16) -> (r: Result<InterfaceModeRegister, DecodeError>)
        ensures
            r == Self::spec_from_bits(v),
    {
        let crc_en = match Crc::from_bits(((v >> 2u16) & 0x3) as u8) {
            Ok(x) => x,
            Err(e) => {
                return Err(e);
            },
        };
        let wl16 = match DataRegisterLength::from_bits((v & 0x1) as u8) {
            Ok(x) => x,
            Err(e) => {
                return Err(e);
            },
        };
        Ok(
            InterfaceModeRegister {
                alt_sync: (v >> 12u16) & 1 == 1,
                iostrength: (v >> 11u16) & 1 == 1,
                dout_reset: (v >> 8u16) & 1 == 1,
                cont_read: (v >> 7u16) & 1 == 1,
                data_stat: (v >> 6u16) & 1 == 1,
                reg_check: (v >> 5u16) & 1 == 1,
                crc_en,
                wl16,
            },
        )
    }
}

impl Register<2> for InterfaceModeRegister {
    open spec fn spec_from_buffer(raw: Seq<u8>) -> Result<InterfaceModeRegister, DecodeError> {
        Self::spec_from_bits(spec_into_u16(raw[0], raw[1]))
    }

    fn from_buffer(raw: &[u8; 2]) -> (r: Result<InterfaceModeRegister, DecodeError>) {
        Self::from_bits(into_u16(*raw))
    }
}

/// Round trip of the register word: decoding a packed value gives every
/// field back.
pub proof fn lemma_interface_mode_bits_round_trip(r: InterfaceModeRegister)
    ensures
        InterfaceModeRegister::spec_from_bits(r.spec_bits()) == Ok::<InterfaceModeRegister,
             DecodeError>(r),
{
    let v = r.spec_bits();
    let x0 = spec_bool_bit(r.alt_sync);
    let x1 = spec_bool_bit(r.iostrength);
    let x2 = spec_bool_bit(r.dout_reset);
    let x3 = spec_bool_bit(r.cont_read);
    let x4 = spec_bool_bit(r.data_stat);
    let x5 = spec_bool_bit(r.reg_check);
    let x6 = r.crc_en.spec_bits();
    let x7 = r.wl16.spec_bits();
    lemma_crc_round_trip(r.crc_en);
    lemma_data_register_length_round_trip(r.wl16);
    assert({
        &&& (((v >> 12) & 1 == 1) == (x0 == 1))
        &&& (((v >> 11) & 1 == 1) == (x1 == 1))
        &&& (((v >> 8) & 1 == 1) == (x2 == 1))
        &&& (((v >> 7) & 1 == 1) == (x3 == 1))
        &&& (((v >> 6) & 1 == 1) == (x4 == 1))
        &&& (((v >> 5) & 1 == 1) == (x5 == 1))
        &&& (((v >> 2) & 0x3) as u8 == x6)
        &&& ((v & 0x1) as u8 == x7)
    }) by (bit_vector)
        requires
            v == ((x0 as u16) << 12) | ((x1 as u16) << 11) | ((x2 as u16) << 8)
                | ((x3 as u16) << 7) | ((x4 as u16) << 6) | ((x5 as u16) << 5)
                | ((x6 as u16) << 2) | (x7 as u16),
            x0 < 2,
            x1 < 2,
            x2 < 2,
            x3 < 2,
            x4 < 2,
            x5 < 2,
            x6 < 0x4,
            x7 < 0x2,
    ;
}

impl WritableRegister<2> for InterfaceModeRegister {
    open spec fn spec_wf(self) -> bool {
        self.wf()
    }

    open spec fn spec_to_buffer(self) -> Seq<u8> {
        spec_from_u16(self.spec_bits())
    }

    fn to_buffer(&self) -> (r: [u8; 2]) {
        from_u16(self.to_bits())
    }

    fn check_wf(&self) -> (r: bool) {
        true
    }

    proof fn lemma_round_trip(self) {
        lemma_interface_mode_bits_round_trip(self);
        lemma_u16_byte_order(self.spec_bits(), 0, 0);
    }
}

// ---------------------------------------------------------------------------
// Register check register: address 0x03, 3 bytes, read-only.
// ---------------------------------------------------------------------------

/// Register check register: the register-file integrity check value.
///
/// Bits 23:0 register check value.
#[derive(Clone, Copy, Debug, PartialEq, Eq, Structural)]
pub struct RegisterCheck {
    /// Register check value for integrity verification.
    pub reg_check: u32,
}

impl RegisterCheck {
    /// The device's reset value.
    pub open spec fn spec_default() -> RegisterCheck {
        RegisterCheck {
            reg_check: 0,
        }
    }

    /// Which values encode faithfully.
    pub open spec fn wf(self) -> bool {
        self.reg_check < 0x1000000
    }

    /// The register's 24-bit word, fields packed most-significant first.
    pub open spec fn spec_bits(self) -> u32 {
        self.reg_check
    }

    /// Decoding of the register word.
    pub open spec fn spec_from_bits(v: u32) -> Result<RegisterCheck, DecodeError> {
        Ok(
            RegisterCheck {
                reg_check: v & 0xffffff,
            },
        )
    }

    /// A value with every field at its device reset default.
    pub fn new() -> (r: RegisterCheck)
        ensures
            r == RegisterCheck::spec_default(),
            r.wf(),
    {
        RegisterCheck {
            reg_check: 0,
        }
    }

    /// Decodes the register's 24-bit word.
    pub fn from_bits(v: u32) -> (r: Result<RegisterCheck, DecodeError>)
        ensures
            r == Self::spec_from_bits(v),
            r is Ok,
    {
        Ok(
            RegisterCheck {
                reg_check: v & 0xffffff,
            },
        )
    }
}

impl Register<3> for RegisterCheck {
    open spec fn spec_from_buffer(raw: Seq<u8>) -> Result<RegisterCheck, DecodeError> {
        Self::spec_from_bits(spec_into_u24(raw[0], raw[1], raw[2]))
    }

    fn from_buffer(raw: &[u8; 3]) -> (r: Result<RegisterCheck, DecodeError>) {
        Self::from_bits(into_u32(*raw))
    }
}

/// Round trip of the register word: decoding a packed value gives every
/// field back.
pub proof fn lemma_register_check_bits_round_trip(r: RegisterCheck)
    requires
        r.wf(),
    ensures
        RegisterCheck::spec_from_bits(r.spec_bits()) == Ok::<RegisterCheck, DecodeError>(r),
{
    lemma_u24_mask(r.reg_check);
}

// ---------------------------------------------------------------------------
// Data register: address 0x04, 3 bytes, read-only.
// ---------------------------------------------------------------------------

/// Data register: the latest conversion result.
///
/// Bits 23:0 conversion result.
#[derive(Clone, Copy, Debug, PartialEq, Eq, Structural)]
pub struct DataRegister {
    /// Latest conversion result.
    pub data: u32,
}

impl DataRegister {
    /// The device's reset value.
    pub open spec fn spec_default() -> DataRegister {
        DataRegister {
            data: 0,
        }
    }

    /// Which values encode faithfully.
    pub open spec fn wf(self) -> bool {
        self.data < 0x1000000
    }

    /// The register's 24-bit word, fields packed most-significant first.
    pub open spec fn spec_bits(self) -> u32 {
        self.data
    }

    /// Decoding of the register word.
    pub open spec fn spec_from_bits(v: u32) -> Result<DataRegister, DecodeError> {
        Ok(
            DataRegister {
                data: v & 0xffffff,
            },
        )
    }

    /// A value with every field at its device reset default.
    pub fn new() -> (r: DataRegister)
        ensures
            r == DataRegister::spec_default(),
            r.wf(),
    {
        DataRegister {
            data: 0,
        }
    }

    /// Decodes the register's 24-bit word.
    pub fn from_bits(v: u32) -> (r: Result<DataRegister, DecodeError>)
        ensures
            r == Self::spec_from_bits(v),
            r is Ok,
    {
        Ok(
            DataRegister {
                data: v & 0xffffff,
            },
        )
    }
}

impl Register<3> for DataRegister {
    open spec fn spec_from_buffer(raw: Seq<u8>) -> Result<DataRegister, DecodeError> {
        Self::spec_from_bits(spec_into_u24(raw[0], raw[1], raw[2]))
    }

    fn from_buffer(raw: &[u8; 3]) -> (r: Result<DataRegister, DecodeError>) {
        Self::from_bits(into_u32(*raw))
    }
}

/// Round trip of the register word: decoding a packed value gives every
/// field back.
pub proof fn lemma_data_bits_round_trip(r: DataRegister)
    requires
        r.wf(),
    ensures
        DataRegister::spec_from_bits(r.spec_bits()) == Ok::<DataRegister, DecodeError>(r),
{
    lemma_u24_mask(r.data);
}

// ---------------------------------------------------------------------------
// Data and status register: address 0x04, 4 bytes, read-only.
// ---------------------------------------------------------------------------

/// Data and status register: the latest conversion result with the
/// status byte appended; the same address as the data register, selected
/// by the interface mode settings rather than by a catalog flag.
///
/// Bits 31:8 conversion result, bits 7:0 status byte.
#[derive(Clone, Copy, Debug, PartialEq, Eq, Structural)]
pub struct DataAndStatusRegister {
    /// Latest conversion result.
    pub data: u32,
    /// Status byte appended to the conversion result.
    pub status: u8,
}

impl DataAndStatusRegister {
    /// The device's reset value.
    pub open spec fn spec_default() -> DataAndStatusRegister {
        DataAndStatusRegister {
            data: 0,
            status: 0,
        }
    }

    /// Which values encode faithfully.
    pub open spec fn wf(self) -> bool {
        self.data < 0x1000000
    }

    /// The register's 32-bit word, fields packed most-significant first.
    pub open spec fn spec_bits(self) -> u32 {
        (self.data << 8) | (self.status as u32)
    }

    /// Decoding of the register word.
    pub open spec fn spec_from_bits(v: u32) -> Result<DataAndStatusRegister, DecodeError> {
        Ok(
            DataAndStatusRegister {
                data: (v >> 8) & 0xffffff,
                status: (v & 0xff) as u8,
            },
        )
    }

    /// A value with every field at its device reset default.
    pub fn new() -> (r: DataAndStatusRegister)
        ensures
            r == DataAndStatusRegister::spec_default(),
            r.wf(),
    {
        DataAndStatusRegister {
            data: 0,
            status: 0,
        }
    }

    /// Decodes the register's 32-bit word.
    pub fn from_bits(v: u32) -> (r: Result<DataAndStatusRegister, DecodeError>)
        ensures
            r == Self::spec_from_bits(v),
            r is Ok,
    {
        Ok(
            DataAndStatusRegister {
                data: (v >> 8u32) & 0xffffff,
                status: (v & 0xff) as u8,
            },
        )
    }
}

impl Register<4> for DataAndStatusRegister {
    open spec fn spec_from_buffer(raw: Seq<u8>) -> Result<DataAndStatusRegister, DecodeError> {
        Self::spec_from_bits(spec_into_u32(raw[0], raw[1], raw[2], raw[3]))
    }

    fn from_buffer(raw: &[u8; 4]) -> (r: Result<DataAndStatusRegister, DecodeError>) {
        Self::from_bits(into_u32_full(*raw))
    }
}

/// Round trip of the register word: decoding a packed value gives every
/// field back.
pub proof fn lemma_data_and_status_bits_round_trip(r: DataAndStatusRegister)
    requires
        r.wf(),
    ensures
        DataAndStatusRegister::spec_from_bits(r.spec_bits()) == Ok::<DataAndStatusRegister,
             DecodeError>(r),
{
    let v = r.spec_bits();
    let x0 = r.data;
    let x1 = r.status;
    assert({
        &&& ((v >> 8) & 0xffffff == x0)
        &&& ((v & 0xff) as u8 == x1)
    }) by (bit_vector)
        requires
            v == (x0 << 8) | (x1 as u32),
            x0 < 0x1000000,
    ;
}

// ---------------------------------------------------------------------------
// GPIO configuration register: address 0x06, 2 bytes, read/write.
// ---------------------------------------------------------------------------

/// GPIO configuration register: GPIO pin directions and data, and the
/// SYNC/ERROR pin function.
///
/// Bit 12 GPIO multiplexer enable, bit 11 SYNC enable, bits 10:9
/// SYNC/ERROR pin mode, bit 8 error data output, bits 5:2 GPIO input and
/// output enables, bits 1:0 GPIO data; the other bits are reserved.
#[derive(Clone, Copy, Debug, PartialEq, Eq, Structural)]
pub struct GPIOConfigRegister {
    /// GPIO multiplexer enable.
    pub mux_io: bool,
    /// SYNC function enable.
    pub sync_en: bool,
    /// SYNC/ERROR pin mode.
    pub err_en: SyncErrorPinMode,
    /// Error data output.
    pub err_dat: bool,
    /// Enable GPIO1 as input.
    pub gpio1_input_enable: bool,
    /// Enable GPIO0 as input.
    pub gpio0_input_enable: bool,
    /// Enable GPIO1 as output.
    pub gpio1_output_enable: bool,
    /// Enable GPIO0 as output.
    pub gpio0_output_enable: bool,
    /// GPIO1 data value.
    pub gpio1_data: bool,
    /// GPIO0 data value.
    pub gpio0_data: bool,
}

impl GPIOConfigRegister {
    /// The device's reset value.
    pub open spec fn spec_default() -> GPIOConfigRegister {
        GPIOConfigRegister {
            mux_io: false,
            sync_en: true,
            err_en: SyncErrorPinMode::Disabled,
            err_dat: false,
            gpio1_input_enable: false,
            gpio0_input_enable: false,
            gpio1_output_enable: false,
            gpio0_output_enable: false,
            gpio1_data: false,
            gpio0_data: false,
        }
    }

    /// Every field combination of this register is well formed.
    pub open spec fn wf(self) -> bool {
        true
    }

    /// The register's 16-bit word, fields packed most-significant first.
    pub open spec fn spec_bits(self) -> u16 {
        ((spec_bool_bit(self.mux_io) as u16) << 12)
            | ((spec_bool_bit(self.sync_en) as u16) << 11)
            | ((self.err_en.spec_bits() as u16) << 9)
            | ((spec_bool_bit(self.err_dat) as u16) << 8)
            | ((spec_bool_bit(self.gpio1_input_enable) as u16) << 5)
            | ((spec_bool_bit(self.gpio0_input_enable) as u16) << 4)
            | ((spec_bool_bit(self.gpio1_output_enable) as u16) << 3)
            | ((spec_bool_bit(self.gpio0_output_enable) as u16) << 2)
            | ((spec_bool_bit(self.gpio1_data) as u16) << 1)
            | (spec_bool_bit(self.gpio0_data) as u16)
    }

    /// Decoding of the register word.
    pub open spec fn spec_from_bits(v: u16) -> Result<GPIOConfigRegister, DecodeError> {
        match SyncErrorPinMode::spec_from_bits(((v >> 9) & 0x3) as u8) {
            Err(e) => Err(e),
            Ok(err_en) => Ok(
                GPIOConfigRegister {
                    mux_io: (v >> 12) & 1 == 1,
                    sync_en: (v >> 11) & 1 == 1,
                    err_en,
                    err_dat: (v >> 8) & 1 == 1,
                    gpio1_input_enable: (v >> 5) & 1 == 1,
                    gpio0_input_enable: (v >> 4) & 1 == 1,
                    gpio1_output_enable: (v >> 3) & 1 == 1,
                    gpio0_output_enable: (v >> 2) & 1 == 1,
                    gpio1_data: (v >> 1) & 1 == 1,
                    gpio0_data: v & 1 == 1,
                },
            ),
        }
    }

    /// A value with every field at its device reset default.
    pub fn new() -> (r: GPIOConfigRegister)
        ensures
            r == GPIOConfigRegister::spec_default(),
            r.wf(),
    {
        GPIOConfigRegister {
            mux_io: false,
            sync_en: true,
            err_en: SyncErrorPinMode::Disabled,
            err_dat: false,
            gpio1_input_enable: false,
            gpio0_input_enable: false,
            gpio1_output_enable: false,
            gpio0_output_enable: false,
            gpio1_data: false,
            gpio0_data: false,
        }
    }

    /// Packs the register into its 16-bit word.
    pub fn to_bits(&self) -> (r: u16)
        ensures
            r == self.spec_bits(),
    {
        ((bool_bit(self.mux_io) as u16) << 12u16)
            | ((bool_bit(self.sync_en) as u16) << 11u16)
            | ((self.err_en.into_bits() as u16) << 9u16)
            | ((bool_bit(self.err_dat) as u16) << 8u16)
            | ((bool_bit(self.gpio1_input_enable) as u16) << 5u16)
            | ((bool_bit(self.gpio0_input_enable) as u16) << 4u16)
            | ((bool_bit(self.gpio1_output_enable) as u16) << 3u16)
            | ((bool_bit(self.gpio0_output_enable) as u16) << 2u16)
            | ((bool_bit(self.gpio1_data) as u16) << 1u16)
            | (bool_bit(self.gpio0_data) as u16)
    }

    /// Decodes the register's 16-bit word.
    pub fn from_bits(v: u16) -> (r: Result<GPIOConfigRegister, DecodeError>)
        ensures
            r == Self::spec_from_bits(v),
            r is Ok,
    {
        proof {
            assert((((v >> 9u16) & 0x3) as u8) < 0x4) by (bit_vector);
        }
        let err_en = match SyncErrorPinMode::from_bits(((v >> 9u16) & 0x3) as u8) {
            Ok(x) => x,
            Err(e) => {
                return Err(e);
            },
        };
        Ok(
            GPIOConfigRegister {
                mux_io: (v >> 12u16) & 1 == 1,
                sync_en: (v >> 11u16) & 1 == 1,
                err_en,
                err_dat: (v >> 8u16) & 1 == 1,
                gpio1_input_enable: (v >> 5u16) & 1 == 1,
                gpio0_input_enable: (v >> 4u16) & 1 == 1,
                gpio1_output_enable: (v >> 3u16) & 1 == 1,
                gpio0_output_enable: (v >> 2u16) & 1 == 1,
                gpio1_data: (v >> 1u16) & 1 == 1,
                gpio0_data: v & 1 == 1,
            },
        )
    }
}

impl Register<2> for GPIOConfigRegister {
    open spec fn spec_from_buffer(raw: Seq<u8>) -> Result<GPIOConfigRegister, DecodeError> {
        Self::spec_from_bits(spec_into_u16(raw[0], raw[1]))
    }

    fn from_buffer(raw: &[u8; 2]) -> (r: Result<GPIOConfigRegister, DecodeError>) {
        Self::from_bits(into_u16(*raw))
    }
}

/// Round trip of the register word: decoding a packed value gives every
/// field back.
pub proof fn lemma_gpio_config_bits_round_trip(r: GPIOConfigRegister)
    ensures
        GPIOConfigRegister::spec_from_bits(r.spec_bits()) == Ok::<GPIOConfigRegister,
             DecodeError>(r),
{
    let v = r.spec_bits();
    let x0 = spec_bool_bit(r.mux_io);
    let x1 = spec_bool_bit(r.sync_en);
    let x2 = r.err_en.spec_bits();
    let x3 = spec_bool_bit(r.err_dat);
    let x4 = spec_bool_bit(r.gpio1_input_enable);
    let x5 = spec_bool_bit(r.gpio0_input_enable);
    let x6 = spec_bool_bit(r.gpio1_output_enable);
    let x7 = spec_bool_bit(r.gpio0_output_enable);
    let x8 = spec_bool_bit(r.gpio1_data);
    let x9 = spec_bool_bit(r.gpio0_data);
    lemma_sync_error_pin_mode_round_trip(r.err_en);
    assert({
        &&& (((v >> 12) & 1 == 1) == (x0 == 1))
        &&& (((v >> 11) & 1 == 1) == (x1 == 1))
        &&& (((v >> 9) & 0x3) as u8 == x2)
        &&& (((v >> 8) & 1 == 1) == (x3 == 1))
        &&& (((v >> 5) & 1 == 1) == (x4 == 1))
        &&& (((v >> 4) & 1 == 1) == (x5 == 1))
        &&& (((v >> 3) & 1 == 1) == (x6 == 1))
        &&& (((v >> 2) & 1 == 1) == (x7 == 1))
        &&& (((v >> 1) & 1 == 1) == (x8 == 1))
        &&& ((v & 1 == 1) == (x9 == 1))
    }) by (bit_vector)
        requires
            v == ((x0 as u16) << 12) | ((x1 as u16) << 11) | ((x2 as u16) << 9)
                | ((x3 as u16) << 8) | ((x4 as u16) << 5) | ((x5 as u16) << 4)
                | ((x6 as u16) << 3) | ((x7 as u16) << 2) | ((x8 as u16) << 1) | (x9 as u16),
            x0 < 2,
            x1 < 2,
            x2 < 0x4,
            x3 < 2,
            x4 < 2,
            x5 < 2,
            x6 < 2,
            x7 < 2,
            x8 < 2,
            x9 < 2,
    ;
}

impl WritableRegister<2> for GPIOConfigRegister {
    open spec fn spec_wf(self) -> bool {
        self.wf()
    }

    open spec fn spec_to_buffer(self) -> Seq<u8> {
        spec_from_u16(self.spec_bits())
    }

    fn to_buffer(&self) -> (r: [u8; 2]) {
        from_u16(self.to_bits())
    }

    fn check_wf(&self) -> (r: bool) {
        true
    }

    proof fn lemma_round_trip(self) {
        lemma_gpio_config_bits_round_trip(self);
        lemma_u16_byte_order(self.spec_bits(), 0, 0);
    }
}

// ---------------------------------------------------------------------------
// Id register: address 0x07, 2 bytes, read-only.
// ---------------------------------------------------------------------------

/// Id register: the fixed device identity.
///
/// Bits 15:0 device id; the device reports 0x0cd0.
#[derive(Clone, Copy, Debug, PartialEq, Eq, Structural)]
pub struct IdRegister {
    /// Device id; the expected value is 0x0cd0.
    pub id: u16,
}

impl IdRegister {
    /// The device's reset value.
    pub open spec fn spec_default() -> IdRegister {
        IdRegister {
            id: 0x0cd0,
        }
    }

    /// Every field combination of this register is well formed.
    pub open spec fn wf(self) -> bool {
        true
    }

    /// The register's 16-bit word, fields packed most-significant first.
    pub open spec fn spec_bits(self) -> u16 {
        self.id
    }

    /// Decoding of the register word.
    pub open spec fn spec_from_bits(v: u16) -> Result<IdRegister, DecodeError> {
        Ok(
            IdRegister {
                id: v,
            },
        )
    }

    /// A value with every field at its device reset default.
    pub fn new() -> (r: IdRegister)
        ensures
            r == IdRegister::spec_default(),
            r.wf(),
    {
        IdRegister {
            id: 0x0cd0,
        }
    }

    /// Decodes the register's 16-bit word.
    pub fn from_bits(v: u16) -> (r: Result<IdRegister, DecodeError>)
        ensures
            r == Self::spec_from_bits(v),
            r is Ok,
    {
        Ok(
            IdRegister {
                id: v,
            },
        )
    }
}

impl Register<2> for IdRegister {
    open spec fn spec_from_buffer(raw: Seq<u8>) -> Result<IdRegister, DecodeError> {
        Self::spec_from_bits(spec_into_u16(raw[0], raw[1]))
    }

    fn from_buffer(raw: &[u8; 2]) -> (r: Result<IdRegister, DecodeError>) {
        Self::from_bits(into_u16(*raw))
    }
}

/// Round trip of the register word: decoding a packed value gives every
/// field back.
pub proof fn lemma_id_bits_round_trip(r: IdRegister)
    ensures
        IdRegister::spec_from_bits(r.spec_bits()) == Ok::<IdRegister, DecodeError>(r),
{
}








/// The raw field values of a status word, in declaration
/// order, reserved padding included.
pub open spec fn status_field_values(r: StatusRegister) -> Seq<nat> {
    seq![spec_bool_bit(r.ready) as nat, spec_bool_bit(r.adc_error) as nat,
        spec_bool_bit(r.crc_error) as nat, spec_bool_bit(r.register_error) as nat, 0nat,
        r.channel.spec_bits() as nat]
}

/// The typed codec agrees with the field-packing model: the register word
/// is exactly the catalog layout's field values packed MSB-first.
pub proof fn lemma_status_packs_catalog_layout(r: StatusRegister)
    ensures
        r.spec_bits() == pack_fields(status_field_widths(), status_field_values(r)),
{
    let ws = status_field_widths();
    let vs = status_field_values(r);
    assert(vs =~= seq![spec_bool_bit(r.ready) as nat, spec_bool_bit(r.adc_error) as nat,
        spec_bool_bit(r.crc_error) as nat, spec_bool_bit(r.register_error) as nat, 0nat,
        r.channel.spec_bits() as nat]);
    let x0 = spec_bool_bit(r.ready);
    let x1 = spec_bool_bit(r.adc_error);
    let x2 = spec_bool_bit(r.crc_error);
    let x3 = spec_bool_bit(r.register_error);
    let x4 = r.channel.spec_bits();
    lemma_channel_round_trip(r.channel);
    vstd::arithmetic::power2::lemma2_to64();
    let ws1: Seq<u8> = seq![1u8, 1, 1, 2, 2];
    let vs1: Seq<nat> = seq![spec_bool_bit(r.adc_error) as nat,
        spec_bool_bit(r.crc_error) as nat, spec_bool_bit(r.register_error) as nat, 0nat,
        r.channel.spec_bits() as nat];
    assert(ws.drop_first() =~= ws1);
    assert(vs.drop_first() =~= vs1);
    let ws2: Seq<u8> = seq![1u8, 1, 2, 2];
    let vs2: Seq<nat> = seq![spec_bool_bit(r.crc_error) as nat,
        spec_bool_bit(r.register_error) as nat, 0nat, r.channel.spec_bits() as nat];
    assert(ws1.drop_first() =~= ws2);
    assert(vs1.drop_first() =~= vs2);
    let ws3: Seq<u8> = seq![1u8, 2, 2];
    let vs3: Seq<nat> = seq![spec_bool_bit(r.register_error) as nat, 0nat,
        r.channel.spec_bits() as nat];
    assert(ws2.drop_first() =~= ws3);
    assert(vs2.drop_first() =~= vs3);
    let ws4: Seq<u8> = seq![2u8, 2];
    let vs4: Seq<nat> = seq![0nat, r.channel.spec_bits() as nat];
    assert(ws3.drop_first() =~= ws4);
    assert(vs3.drop_first() =~= vs4);
    let ws5: Seq<u8> = seq![2u8];
    let vs5: Seq<nat> = seq![r.channel.spec_bits() as nat];
    assert(ws4.drop_first() =~= ws5);
    assert(vs4.drop_first() =~= vs5);
    let ws6: Seq<u8> = Seq::<u8>::empty();
    let vs6: Seq<nat> = Seq::<nat>::empty();
    assert(ws5.drop_first() =~= ws6);
    assert(vs5.drop_first() =~= vs6);
    assert(width_sum(ws6) == 0);
    assert(pack_fields(ws6, vs6) == 0);
    assert(ws5[0] == 2 && vs5[0] == r.channel.spec_bits() as nat);
    assert(width_sum(ws5) == 2);
    assert(pow2(width_sum(ws6)) == 0x1);
    assert(pack_fields(ws5, vs5) == vs5[0] * pow2(width_sum(ws6)) + pack_fields(ws6, vs6));
    assert(vs5[0] * 1 == vs5[0]);
    assert(pack_fields(ws5, vs5) == x4);
    assert(ws4[0] == 2 && vs4[0] == 0nat);
    assert(width_sum(ws4) == 4);
    assert(pow2(width_sum(ws5)) == 0x4);
    assert(pack_fields(ws4, vs4) == vs4[0] * pow2(width_sum(ws5)) + pack_fields(ws5, vs5));
    assert(pack_fields(ws4, vs4) == x4);
    assert(ws3[0] == 1 && vs3[0] == spec_bool_bit(r.register_error) as nat);
    assert(width_sum(ws3) == 5);
    assert(pow2(width_sum(ws4)) == 0x10);
    assert(pack_fields(ws3, vs3) == vs3[0] * pow2(width_sum(ws4)) + pack_fields(ws4, vs4));
    assert(pack_fields(ws3, vs3) == x3 * 0x10 + x4);
    assert(ws2[0] == 1 && vs2[0] == spec_bool_bit(r.crc_error) as nat);
    assert(width_sum(ws2) == 6);
    assert(pow2(width_sum(ws3)) == 0x20);
    assert(pack_fields(ws2, vs2) == vs2[0] * pow2(width_sum(ws3)) + pack_fields(ws3, vs3));
    assert(pack_fields(ws2, vs2) == x2 * 0x20 + x3 * 0x10 + x4);
    assert(ws1[0] == 1 && vs1[0] == spec_bool_bit(r.adc_error) as nat);
    assert(width_sum(ws1) == 7);
    assert(pow2(width_sum(ws2)) == 0x40);
    assert(pack_fields(ws1, vs1) == vs1[0] * pow2(width_sum(ws2)) + pack_fields(ws2, vs2));
    assert(pack_fields(ws1, vs1) == x1 * 0x40 + x2 * 0x20 + x3 * 0x10 + x4);
    assert(ws[0] == 1 && vs[0] == spec_bool_bit(r.ready) as nat);
    assert(width_sum(ws) == 8);
    assert(pow2(width_sum(ws1)) == 0x80);
    assert(pack_fields(ws, vs) == vs[0] * pow2(width_sum(ws1)) + pack_fields(ws1, vs1));
    assert(pack_fields(ws, vs) == x0 * 0x80 + x1 * 0x40 + x2 * 0x20 + x3 * 0x10 + x4);
    let v = r.spec_bits();
    assert(v == x0 * 0x80 + x1 * 0x40 + x2 * 0x20 + x3 * 0x10 + x4) by (bit_vector)
        requires
            v == ((x0 as u8) << 7) | ((x1 as u8) << 6) | ((x2 as u8) << 5) | ((x3 as u8) << 4)
                | (x4 as u8),
            x0 < 2,
            x1 < 2,
            x2 < 2,
            x3 < 2,
            x4 < 0x4,
    ;

}


/// Evaluates the packing model on the ADC mode layout for
/// arbitrary raw field values.
#[verifier::rlimit(100)]
#[verifier::spinoff_prover]
proof fn lemma_adc_mode_pack_eval(p0: u8, p1: u8, p2: u8, p3: u8, p4: u8, p5: u8)
    ensures
        pack_fields(seq![1u8, 1, 1, 2, 3, 1, 3, 2, 2], seq![p0 as nat, p1 as nat, p2 as nat,
            0nat, p3 as nat, 0nat, p4 as nat, p5 as nat,
            0nat]) == p0 * 0x8000 + p1 * 0x4000 + p2 * 0x2000 + p3 * 0x100 + p4 * 0x10 + p5 * 0x4,
{
    let hws: Seq<u8> = seq![1u8, 1, 1, 2, 3, 1, 3, 2, 2];
    let hvs: Seq<nat> = seq![p0 as nat, p1 as nat, p2 as nat, 0nat, p3 as nat, 0nat, p4 as nat,
        p5 as nat, 0nat];
    vstd::arithmetic::power2::lemma2_to64();
    let hws1: Seq<u8> = seq![1u8, 1, 2, 3, 1, 3, 2, 2];
    let hvs1: Seq<nat> = seq![p1 as nat, p2 as nat, 0nat, p3 as nat, 0nat, p4 as nat, p5 as nat,
        0nat];
    assert(hws.drop_first() =~= hws1);
    assert(hvs.drop_first() =~= hvs1);
    let hws2: Seq<u8> = seq![1u8, 2, 3, 1, 3, 2, 2];
    let hvs2: Seq<nat> = seq![p2 as nat, 0nat, p3 as nat, 0nat, p4 as nat, p5 as nat, 0nat];
    assert(hws1.drop_first() =~= hws2);
    assert(hvs1.drop_first() =~= hvs2);
    let hws3: Seq<u8> = seq![2u8, 3, 1, 3, 2, 2];
    let hvs3: Seq<nat> = seq![0nat, p3 as nat, 0nat, p4 as nat, p5 as nat, 0nat];
    assert(hws2.drop_first() =~= hws3);
    assert(hvs2.drop_first() =~= hvs3);
    let hws4: Seq<u8> = seq![3u8, 1, 3, 2, 2];
    let hvs4: Seq<nat> = seq![p3 as nat, 0nat, p4 as nat, p5 as nat, 0nat];
    assert(hws3.drop_first() =~= hws4);
    assert(hvs3.drop_first() =~= hvs4);
    let hws5: Seq<u8> = seq![1u8, 3, 2, 2];
    let hvs5: Seq<nat> = seq![0nat, p4 as nat, p5 as nat, 0nat];
    assert(hws4.drop_first() =~= hws5);
    assert(hvs4.drop_first() =~= hvs5);
    let hws6: Seq<u8> = seq![3u8, 2, 2];
    let hvs6: Seq<nat> = seq![p4 as nat, p5 as nat, 0nat];
    assert(hws5.drop_first() =~= hws6);
    assert(hvs5.drop_first() =~= hvs6);
    let hws7: Seq<u8> = seq![2u8, 2];
    let hvs7: Seq<nat> = seq![p5 as nat, 0nat];
    assert(hws6.drop_first() =~= hws7);
    assert(hvs6.drop_first() =~= hvs7);
    let hws8: Seq<u8> = seq![2u8];
    let hvs8: Seq<nat> = seq![0nat];
    assert(hws7.drop_first() =~= hws8);
    assert(hvs7.drop_first() =~= hvs8);
    let hws9: Seq<u8> = Seq::<u8>::empty();
    let hvs9: Seq<nat> = Seq::<nat>::empty();
    assert(hws8.drop_first() =~= hws9);
    assert(hvs8.drop_first() =~= hvs9);
    assert(width_sum(hws9) == 0);
    assert(pack_fields(hws9, hvs9) == 0);
    assert(hws8[0] == 2 && hvs8[0] == 0nat);
    assert(width_sum(hws8) == 2);
    assert(pow2(width_sum(hws9)) == 0x1);
    assert(pack_fields(hws8, hvs8) == hvs8[0] * pow2(width_sum(hws9)) + pack_fields(hws9, hvs9));
    assert(hvs8[0] * 1 == hvs8[0]);
    assert(pack_fields(hws8, hvs8) == 0);
    assert(hws7[0] == 2 && hvs7[0] == p5 as nat);
    assert(width_sum(hws7) == 4);
    assert(pow2(width_sum(hws8)) == 0x4);
    assert(pack_fields(hws7, hvs7) == hvs7[0] * pow2(width_sum(hws8)) + pack_fields(hws8, hvs8));
    assert(pack_fields(hws7, hvs7) == p5 * 0x4);
    assert(hws6[0] == 3 && hvs6[0] == p4 as nat);
    assert(width_sum(hws6) == 7);
    assert(pow2(width_sum(hws7)) == 0x10);
    assert(pack_fields(hws6, hvs6) == hvs6[0] * pow2(width_sum(hws7)) + pack_fields(hws7, hvs7));
    assert(pack_fields(hws6, hvs6) == p4 * 0x10 + p5 * 0x4);
    assert(hws5[0] == 1 && hvs5[0] == 0nat);
    assert(width_sum(hws5) == 8);
    assert(pow2(width_sum(hws6)) == 0x80);
    assert(pack_fields(hws5, hvs5) == hvs5[0] * pow2(width_sum(hws6)) + pack_fields(hws6, hvs6));
    assert(pack_fields(hws5, hvs5) == p4 * 0x10 + p5 * 0x4);
    assert(hws4[0] == 3 && hvs4[0] == p3 as nat);
    assert(width_sum(hws4) == 11);
    assert(pow2(width_sum(hws5)) == 0x100);
    assert(pack_fields(hws4, hvs4) == hvs4[0] * pow2(width_sum(hws5)) + pack_fields(hws5, hvs5));
    assert(pack_fields(hws4, hvs4) == p3 * 0x100 + p4 * 0x10 + p5 * 0x4);
    assert(hws3[0] == 2 && hvs3[0] == 0nat);
    assert(width_sum(hws3) == 13);
    assert(pow2(width_sum(hws4)) == 0x800);
    assert(pack_fields(hws3, hvs3) == hvs3[0] * pow2(width_sum(hws4)) + pack_fields(hws4, hvs4));
    assert(pack_fields(hws3, hvs3) == p3 * 0x100 + p4 * 0x10 + p5 * 0x4);
    assert(hws2[0] == 1 && hvs2[0] == p2 as nat);
    assert(width_sum(hws2) == 14);
    assert(pow2(width_sum(hws3)) == 0x2000);
    assert(pack_fields(hws2, hvs2) == hvs2[0] * pow2(width_sum(hws3)) + pack_fields(hws3, hvs3));
    assert(pack_fields(hws2, hvs2) == p2 * 0x2000 + p3 * 0x100 + p4 * 0x10 + p5 * 0x4);
    assert(hws1[0] == 1 && hvs1[0] == p1 as nat);
    assert(width_sum(hws1) == 15);
    assert(pow2(width_sum(hws2)) == 0x4000);
    assert(pack_fields(hws1, hvs1) == hvs1[0] * pow2(width_sum(hws2)) + pack_fields(hws2, hvs2));
    assert(pack_fields(hws1,
        hvs1) == p1 * 0x4000 + p2 * 0x2000 + p3 * 0x100 + p4 * 0x10 + p5 * 0x4);
    assert(hws[0] == 1 && hvs[0] == p0 as nat);
    assert(width_sum(hws) == 16);
    assert(pow2(width_sum(hws1)) == 0x8000);
    assert(pack_fields(hws, hvs) == hvs[0] * pow2(width_sum(hws1)) + pack_fields(hws1, hvs1));
    assert(pack_fields(hws,
        hvs) == p0 * 0x8000 + p1 * 0x4000 + p2 * 0x2000 + p3 * 0x100 + p4 * 0x10 + p5 * 0x4);
}

/// The raw field values of an ADC mode word, in declaration
/// order, reserved padding included.
pub open spec fn adc_mode_field_values(r: AdcModeRegister) -> Seq<nat> {
    seq![spec_bool_bit(r.ref_enable) as nat, spec_bool_bit(r.hide_delay) as nat,
        spec_bool_bit(r.sing_cyc) as nat, 0nat, r.delay.spec_bits() as nat, 0nat,
        r.mode.spec_bits() as nat, r.clksel.spec_bits() as nat, 0nat]
}

/// The typed codec agrees with the field-packing model: the register word
/// is exactly the catalog layout's field values packed MSB-first.
pub proof fn lemma_adc_mode_packs_catalog_layout(r: AdcModeRegister)
    ensures
        r.spec_bits() == pack_fields(adc_mode_field_widths(), adc_mode_field_values(r)),
{
    let ws = adc_mode_field_widths();
    let vs = adc_mode_field_values(r);
    let x0 = spec_bool_bit(r.ref_enable);
    let x1 = spec_bool_bit(r.hide_delay);
    let x2 = spec_bool_bit(r.sing_cyc);
    let x3 = r.delay.spec_bits();
    let x4 = r.mode.spec_bits();
    let x5 = r.clksel.spec_bits();
    lemma_delay_round_trip(r.delay);
    lemma_mode_round_trip(r.mode);
    lemma_clock_source_round_trip(r.clksel);
    assert(ws =~= seq![1u8, 1, 1, 2, 3, 1, 3, 2, 2]);
    assert(vs =~= seq![x0 as nat, x1 as nat, x2 as nat, 0nat, x3 as nat, 0nat, x4 as nat,
        x5 as nat, 0nat]);
    lemma_adc_mode_pack_eval(x0, x1, x2, x3, x4, x5);
    assert(pack_fields(ws,
        vs) == x0 * 0x8000 + x1 * 0x4000 + x2 * 0x2000 + x3 * 0x100 + x4 * 0x10 + x5 * 0x4);
    let v = r.spec_bits();
    assert(v == x0 * 0x8000 + x1 * 0x4000 + x2 * 0x2000 + x3 * 0x100 + x4 * 0x10 + x5 * 0x4) by (bit_vector)
        requires
            v == ((x0 as u16) << 15) | ((x1 as u16) << 14) | ((x2 as u16) << 13)
                | ((x3 as u16) << 8) | ((x4 as u16) << 4) | ((x5 as u16) << 2),
            x0 < 2,
            x1 < 2,
            x2 < 2,
            x3 < 0x8,
            x4 < 0x8,
            x5 < 0x4,
    ;

}


/// Evaluates the packing model on the interface mode layout for
/// arbitrary raw field values.
#[verifier::rlimit(100)]
#[verifier::spinoff_prover]
proof fn lemma_interface_mode_pack_eval(p0: u8, p1: u8, p2: u8, p3: u8, p4: u8, p5: u8, p6: u8,
    p7: u8)
    ensures
        pack_fields(seq![3u8, 1, 1, 2, 1, 1, 1, 1, 1, 2, 1, 1], seq![0nat, p0 as nat, p1 as nat,
            0nat, p2 as nat, p3 as nat, p4 as nat, p5 as nat, 0nat, p6 as nat, 0nat,
            p7 as nat]) == p0 * 0x1000 + p1 * 0x800 + p2 * 0x100 + p3 * 0x80 + p4 * 0x40
                + p5 * 0x20 + p6 * 0x4 + p7,
{
    let hws: Seq<u8> = seq![3u8, 1, 1, 2, 1, 1, 1, 1, 1, 2, 1, 1];
    let hvs: Seq<nat> = seq![0nat, p0 as nat, p1 as nat, 0nat, p2 as nat, p3 as nat, p4 as nat,
        p5 as nat, 0nat, p6 as nat, 0nat, p7 as nat];
    vstd::arithmetic::power2::lemma2_to64();
    let hws1: Seq<u8> = seq![1u8, 1, 2, 1, 1, 1, 1, 1, 2, 1, 1];
    let hvs1: Seq<nat> = seq![p0 as nat, p1 as nat, 0nat, p2 as nat, p3 as nat, p4 as nat,
        p5 as nat, 0nat, p6 as nat, 0nat, p7 as nat];
    assert(hws.drop_first() =~= hws1);
    assert(hvs.drop_first() =~= hvs1);
    let hws2: Seq<u8> = seq![1u8, 2, 1, 1, 1, 1, 1, 2, 1, 1];
    let hvs2: Seq<nat> = seq![p1 as nat, 0nat, p2 as nat, p3 as nat, p4 as nat, p5 as nat, 0nat,
        p6 as nat, 0nat, p7 as nat];
    assert(hws1.drop_first() =~= hws2);
    assert(hvs1.drop_first() =~= hvs2);
    let hws3: Seq<u8> = seq![2u8, 1, 1, 1, 1, 1, 2, 1, 1];
    let hvs3: Seq<nat> = seq![0nat, p2 as nat, p3 as nat, p4 as nat, p5 as nat, 0nat, p6 as nat,
        0nat, p7 as nat];
    assert(hws2.drop_first() =~= hws3);
    assert(hvs2.drop_first() =~= hvs3);
    let hws4: Seq<u8> = seq![1u8, 1, 1, 1, 1, 2, 1, 1];
    let hvs4: Seq<nat> = seq![p2 as nat, p3 as nat, p4 as nat, p5 as nat, 0nat, p6 as nat, 0nat,
        p7 as nat];
    assert(hws3.drop_first() =~= hws4);
    assert(hvs3.drop_first() =~= hvs4);
    let hws5: Seq<u8> = seq![1u8, 1, 1, 1, 2, 1, 1];
    let hvs5: Seq<nat> = seq![p3 as nat, p4 as nat, p5 as nat, 0nat, p6 as nat, 0nat, p7 as nat];
    assert(hws4.drop_first() =~= hws5);
    assert(hvs4.drop_first() =~= hvs5);
    let hws6: Seq<u8> = seq![1u8, 1, 1, 2, 1, 1];
    let hvs6: Seq<nat> = seq![p4 as nat, p5 as nat, 0nat, p6 as nat, 0nat, p7 as nat];
    assert(hws5.drop_first() =~= hws6);
    assert(hvs5.drop_first() =~= hvs6);
    let hws7: Seq<u8> = seq![1u8, 1, 2, 1, 1];
    let hvs7: Seq<nat> = seq![p5 as nat, 0nat, p6 as nat, 0nat, p7 as nat];
    assert(hws6.drop_first() =~= hws7);
    assert(hvs6.drop_first() =~= hvs7);
    let hws8: Seq<u8> = seq![1u8, 2, 1, 1];
    let hvs8: Seq<nat> = seq![0nat, p6 as nat, 0nat, p7 as nat];
    assert(hws7.drop_first() =~= hws8);
    assert(hvs7.drop_first() =~= hvs8);
    let hws9: Seq<u8> = seq![2u8, 1, 1];
    let hvs9: Seq<nat> = seq![p6 as nat, 0nat, p7 as nat];
    assert(hws8.drop_first() =~= hws9);
    assert(hvs8.drop_first() =~= hvs9);
    let hws10: Seq<u8> = seq![1u8, 1];
    let hvs10: Seq<nat> = seq![0nat, p7 as nat];
    assert(hws9.drop_first() =~= hws10);
    assert(hvs9.drop_first() =~= hvs10);
    let hws11: Seq<u8> = seq![1u8];
    let hvs11: Seq<nat> = seq![p7 as nat];
    assert(hws10.drop_first() =~= hws11);
    assert(hvs10.drop_first() =~= hvs11);
    let hws12: Seq<u8> = Seq::<u8>::empty();
    let hvs12: Seq<nat> = Seq::<nat>::empty();
    assert(hws11.drop_first() =~= hws12);
    assert(hvs11.drop_first() =~= hvs12);
    assert(width_sum(hws12) == 0);
    assert(pack_fields(hws12, hvs12) == 0);
    assert(hws11[0] == 1 && hvs11[0] == p7 as nat);
    assert(width_sum(hws11) == 1);
    assert(pow2(width_sum(hws12)) == 0x1);
    assert(pack_fields(hws11, hvs11) == hvs11[0] * pow2(width_sum(hws12)) + pack_fields(hws12,
        hvs12));
    assert(hvs11[0] * 1 == hvs11[0]);
    assert(pack_fields(hws11, hvs11) == p7);
    assert(hws10[0] == 1 && hvs10[0] == 0nat);
    assert(width_sum(hws10) == 2);
    assert(pow2(width_sum(hws11)) == 0x2);
    assert(pack_fields(hws10, hvs10) == hvs10[0] * pow2(width_sum(hws11)) + pack_fields(hws11,
        hvs11));
    assert(pack_fields(hws10, hvs10) == p7);
    assert(hws9[0] == 2 && hvs9[0] == p6 as nat);
    assert(width_sum(hws9) == 4);
    assert(pow2(width_sum(hws10)) == 0x4);
    assert(pack_fields(hws9, hvs9) == hvs9[0] * pow2(width_sum(hws10)) + pack_fields(hws10, hvs10));
    assert(pack_fields(hws9, hvs9) == p6 * 0x4 + p7);
    assert(hws8[0] == 1 && hvs8[0] == 0nat);
    assert(width_sum(hws8) == 5);
    assert(pow2(width_sum(hws9)) == 0x10);
    assert(pack_fields(hws8, hvs8) == hvs8[0] * pow2(width_sum(hws9)) + pack_fields(hws9, hvs9));
    assert(pack_fields(hws8, hvs8) == p6 * 0x4 + p7);
    assert(hws7[0] == 1 && hvs7[0] == p5 as nat);
    assert(width_sum(hws7) == 6);
    assert(pow2(width_sum(hws8)) == 0x20);
    assert(pack_fields(hws7, hvs7) == hvs7[0] * pow2(width_sum(hws8)) + pack_fields(hws8, hvs8));
    assert(pack_fields(hws7, hvs7) == p5 * 0x20 + p6 * 0x4 + p7);
    assert(hws6[0] == 1 && hvs6[0] == p4 as nat);
    assert(width_sum(hws6) == 7);
    assert(pow2(width_sum(hws7)) == 0x40);
    assert(pack_fields(hws6, hvs6) == hvs6[0] * pow2(width_sum(hws7)) + pack_fields(hws7, hvs7));
    assert(pack_fields(hws6, hvs6) == p4 * 0x40 + p5 * 0x20 + p6 * 0x4 + p7);
    assert(hws5[0] == 1 && hvs5[0] == p3 as nat);
    assert(width_sum(hws5) == 8);
    assert(pow2(width_sum(hws6)) == 0x80);
    assert(pack_fields(hws5, hvs5) == hvs5[0] * pow2(width_sum(hws6)) + pack_fields(hws6, hvs6));
    assert(pack_fields(hws5, hvs5) == p3 * 0x80 + p4 * 0x40 + p5 * 0x20 + p6 * 0x4 + p7);
    assert(hws4[0] == 1 && hvs4[0] == p2 as nat);
    assert(width_sum(hws4) == 9);
    assert(pow2(width_sum(hws5)) == 0x100);
    assert(pack_fields(hws4, hvs4) == hvs4[0] * pow2(width_sum(hws5)) + pack_fields(hws5, hvs5));
    assert(pack_fields(hws4,
        hvs4) == p2 * 0x100 + p3 * 0x80 + p4 * 0x40 + p5 * 0x20 + p6 * 0x4 + p7);
    assert(hws3[0] == 2 && hvs3[0] == 0nat);
    assert(width_sum(hws3) == 11);
    assert(pow2(width_sum(hws4)) == 0x200);
    assert(pack_fields(hws3, hvs3) == hvs3[0] * pow2(width_sum(hws4)) + pack_fields(hws4, hvs4));
    assert(pack_fields(hws3,
        hvs3) == p2 * 0x100 + p3 * 0x80 + p4 * 0x40 + p5 * 0x20 + p6 * 0x4 + p7);
    assert(hws2[0] == 1 && hvs2[0] == p1 as nat);
    assert(width_sum(hws2) == 12);
    assert(pow2(width_sum(hws3)) == 0x800);
    assert(pack_fields(hws2, hvs2) == hvs2[0] * pow2(width_sum(hws3)) + pack_fields(hws3, hvs3));
    assert(pack_fields(hws2,
        hvs2) == p1 * 0x800 + p2 * 0x100 + p3 * 0x80 + p4 * 0x40 + p5 * 0x20 + p6 * 0x4 + p7);
    assert(hws1[0] == 1 && hvs1[0] == p0 as nat);
    assert(width_sum(hws1) == 13);
    assert(pow2(width_sum(hws2)) == 0x1000);
    assert(pack_fields(hws1, hvs1) == hvs1[0] * pow2(width_sum(hws2)) + pack_fields(hws2, hvs2));
    assert(pack_fields(hws1,
        hvs1) == p0 * 0x1000 + p1 * 0x800 + p2 * 0x100 + p3 * 0x80 + p4 * 0x40 + p5 * 0x20
            + p6 * 0x4 + p7);
    assert(hws[0] == 3 && hvs[0] == 0nat);
    assert(width_sum(hws) == 16);
    assert(pow2(width_sum(hws1)) == 0x2000);
    assert(pack_fields(hws, hvs) == hvs[0] * pow2(width_sum(hws1)) + pack_fields(hws1, hvs1));
    assert(pack_fields(hws,
        hvs) == p0 * 0x1000 + p1 * 0x800 + p2 * 0x100 + p3 * 0x80 + p4 * 0x40 + p5 * 0x20
            + p6 * 0x4 + p7);
}

/// The raw field values of an interface mode word, in declaration
/// order, reserved padding included.
pub open spec fn interface_mode_field_values(r: InterfaceModeRegister) -> Seq<nat> {
    seq![0nat, spec_bool_bit(r.alt_sync) as nat, spec_bool_bit(r.iostrength) as nat, 0nat,
        spec_bool_bit(r.dout_reset) as nat, spec_bool_bit(r.cont_read) as nat,
        spec_bool_bit(r.data_stat) as nat, spec_bool_bit(r.reg_check) as nat, 0nat,
        r.crc_en.spec_bits() as nat, 0nat, r.wl16.spec_bits() as nat]
}

/// The typed codec agrees with the field-packing model: the register word
/// is exactly the catalog layout's field values packed MSB-first.
pub proof fn lemma_interface_mode_packs_catalog_layout(r: InterfaceModeRegister)
    ensures
        r.spec_bits() == pack_fields(interface_mode_field_widths(), interface_mode_field_values(r)),
{
    let ws = interface_mode_field_widths();
    let vs = interface_mode_field_values(r);
    let x0 = spec_bool_bit(r.alt_sync);
    let x1 = spec_bool_bit(r.iostrength);
    let x2 = spec_bool_bit(r.dout_reset);
    let x3 = spec_bool_bit(r.cont_read);
    let x4 = spec_bool_bit(r.data_stat);
    let x5 = spec_bool_bit(r.reg_check);
    let x6 = r.crc_en.spec_bits();
    let x7 = r.wl16.spec_bits();
    lemma_crc_round_trip(r.crc_en);
    lemma_data_register_length_round_trip(r.wl16);
    assert(ws =~= seq![3u8, 1, 1, 2, 1, 1, 1, 1, 1, 2, 1, 1]);
    assert(vs =~= seq![0nat, x0 as nat, x1 as nat, 0nat, x2 as nat, x3 as nat, x4 as nat,
        x5 as nat, 0nat, x6 as nat, 0nat, x7 as nat]);
    lemma_interface_mode_pack_eval(x0, x1, x2, x3, x4, x5, x6, x7);
    assert(pack_fields(ws,
        vs) == x0 * 0x1000 + x1 * 0x800 + x2 * 0x100 + x3 * 0x80 + x4 * 0x40 + x5 * 0x20
            + x6 * 0x4 + x7);
    let v = r.spec_bits();
    assert(v == x0 * 0x1000 + x1 * 0x800 + x2 * 0x100 + x3 * 0x80 + x4 * 0x40 + x5 * 0x20 + x6 * 0x4 + x7) by (bit_vector)
        requires
            v == ((x0 as u16) << 12) | ((x1 as u16) << 11) | ((x2 as u16) << 8)
                | ((x3 as u16) << 7) | ((x4 as u16) << 6) | ((x5 as u16) << 5)
                | ((x6 as u16) << 2) | (x7 as u16),
            x0 < 2,
            x1 < 2,
            x2 < 2,
            x3 < 2,
            x4 < 2,
            x5 < 2,
            x6 < 0x4,
            x7 < 0x2,
    ;

}


/// The raw field values of a register check word, in declaration
/// order, reserved padding included.
pub open spec fn register_check_field_values(r: RegisterCheck) -> Seq<nat> {
    seq![r.reg_check as nat]
}

/// The typed codec agrees with the field-packing model: the register word
/// is exactly the catalog layout's field values packed MSB-first.
pub proof fn lemma_register_check_packs_catalog_layout(r: RegisterCheck)
    requires
        r.wf(),
    ensures
        r.spec_bits() == pack_fields(register_check_field_widths(), register_check_field_values(r)),
{
    let ws = register_check_field_widths();
    let vs = register_check_field_values(r);
    assert(vs =~= seq![r.reg_check as nat]);
    let x0 = r.reg_check;
    vstd::arithmetic::power2::lemma2_to64();
    let ws1: Seq<u8> = Seq::<u8>::empty();
    let vs1: Seq<nat> = Seq::<nat>::empty();
    assert(ws.drop_first() =~= ws1);
    assert(vs.drop_first() =~= vs1);
    assert(width_sum(ws1) == 0);
    assert(pack_fields(ws1, vs1) == 0);
    assert(ws[0] == 24 && vs[0] == r.reg_check as nat);
    assert(width_sum(ws) == 24);
    assert(pow2(width_sum(ws1)) == 0x1);
    assert(pack_fields(ws, vs) == vs[0] * pow2(width_sum(ws1)) + pack_fields(ws1, vs1));
    assert(vs[0] * 1 == vs[0]);
    assert(pack_fields(ws, vs) == x0);
}


/// The raw field values of a data word, in declaration
/// order, reserved padding included.
pub open spec fn data_field_values(r: DataRegister) -> Seq<nat> {
    seq![r.data as nat]
}

/// The typed codec agrees with the field-packing model: the register word
/// is exactly the catalog layout's field values packed MSB-first.
pub proof fn lemma_data_packs_catalog_layout(r: DataRegister)
    requires
        r.wf(),
    ensures
        r.spec_bits() == pack_fields(data_field_widths(), data_field_values(r)),
{
    let ws = data_field_widths();
    let vs = data_field_values(r);
    assert(vs =~= seq![r.data as nat]);
    let x0 = r.data;
    vstd::arithmetic::power2::lemma2_to64();
    let ws1: Seq<u8> = Seq::<u8>::empty();
    let vs1: Seq<nat> = Seq::<nat>::empty();
    assert(ws.drop_first() =~= ws1);
    assert(vs.drop_first() =~= vs1);
    assert(width_sum(ws1) == 0);
    assert(pack_fields(ws1, vs1) == 0);
    assert(ws[0] == 24 && vs[0] == r.data as nat);
    assert(width_sum(ws) == 24);
    assert(pow2(width_sum(ws1)) == 0x1);
    assert(pack_fields(ws, vs) == vs[0] * pow2(width_sum(ws1)) + pack_fields(ws1, vs1));
    assert(vs[0] * 1 == vs[0]);
    assert(pack_fields(ws, vs) == x0);
}


/// The raw field values of a data and status word, in declaration
/// order, reserved padding included.
pub open spec fn data_and_status_field_values(r: DataAndStatusRegister) -> Seq<nat> {
    seq![r.data as nat, r.status as nat]
}

/// The typed codec agrees with the field-packing model: the register word
/// is exactly the catalog layout's field values packed MSB-first.
pub proof fn lemma_data_and_status_packs_catalog_layout(r: DataAndStatusRegister)
    requires
        r.wf(),
    ensures
        r.spec_bits() == pack_fields(data_and_status_field_widths(),
            data_and_status_field_values(r)),
{
    let ws = data_and_status_field_widths();
    let vs = data_and_status_field_values(r);
    assert(vs =~= seq![r.data as nat, r.status as nat]);
    let x0 = r.data;
    let x1 = r.status;
    vstd::arithmetic::power2::lemma2_to64();
    let ws1: Seq<u8> = seq![8u8];
    let vs1: Seq<nat> = seq![r.status as nat];
    assert(ws.drop_first() =~= ws1);
    assert(vs.drop_first() =~= vs1);
    let ws2: Seq<u8> = Seq::<u8>::empty();
    let vs2: Seq<nat> = Seq::<nat>::empty();
    assert(ws1.drop_first() =~= ws2);
    assert(vs1.drop_first() =~= vs2);
    assert(width_sum(ws2) == 0);
    assert(pack_fields(ws2, vs2) == 0);
    assert(ws1[0] == 8 && vs1[0] == r.status as nat);
    assert(width_sum(ws1) == 8);
    assert(pow2(width_sum(ws2)) == 0x1);
    assert(pack_fields(ws1, vs1) == vs1[0] * pow2(width_sum(ws2)) + pack_fields(ws2, vs2));
    assert(vs1[0] * 1 == vs1[0]);
    assert(pack_fields(ws1, vs1) == x1);
    assert(ws[0] == 24 && vs[0] == r.data as nat);
    assert(width_sum(ws) == 32);
    assert(pow2(width_sum(ws1)) == 0x100);
    assert(pack_fields(ws, vs) == vs[0] * pow2(width_sum(ws1)) + pack_fields(ws1, vs1));
    assert(pack_fields(ws, vs) == x0 * 0x100 + x1);
    let v = r.spec_bits();
    assert(v == x0 * 0x100 + x1) by (bit_vector)
        requires
            v == (x0 << 8) | (x1 as u32),
            x0 < 0x1000000,
    ;

}


/// Evaluates the packing model on the GPIO configuration layout for
/// arbitrary raw field values.
#[verifier::rlimit(100)]
#[verifier::spinoff_prover]
proof fn lemma_gpio_config_pack_eval(p0: u8, p1: u8, p2: u8, p3: u8, p4: u8, p5: u8, p6: u8,
    p7: u8, p8: u8, p9: u8)
    ensures
        pack_fields(seq![3u8, 1, 1, 2, 1, 2, 1, 1, 1, 1, 1, 1], seq![0nat, p0 as nat, p1 as nat,
            p2 as nat, p3 as nat, 0nat, p4 as nat, p5 as nat, p6 as nat, p7 as nat, p8 as nat,
            p9 as nat]) == p0 * 0x1000 + p1 * 0x800 + p2 * 0x200 + p3 * 0x100 + p4 * 0x20
                + p5 * 0x10 + p6 * 0x8 + p7 * 0x4 + p8 * 0x2 + p9,
{
    let hws: Seq<u8> = seq![3u8, 1, 1, 2, 1, 2, 1, 1, 1, 1, 1, 1];
    let hvs: Seq<nat> = seq![0nat, p0 as nat, p1 as nat, p2 as nat, p3 as nat, 0nat, p4 as nat,
        p5 as nat, p6 as nat, p7 as nat, p8 as nat, p9 as nat];
    vstd::arithmetic::power2::lemma2_to64();
    let hws1: Seq<u8> = seq![1u8, 1, 2, 1, 2, 1, 1, 1, 1, 1, 1];
    let hvs1: Seq<nat> = seq![p0 as nat, p1 as nat, p2 as nat, p3 as nat, 0nat, p4 as nat,
        p5 as nat, p6 as nat, p7 as nat, p8 as nat, p9 as nat];
    assert(hws.drop_first() =~= hws1);
    assert(hvs.drop_first() =~= hvs1);
    let hws2: Seq<u8> = seq![1u8, 2, 1, 2, 1, 1, 1, 1, 1, 1];
    let hvs2: Seq<nat> = seq![p1 as nat, p2 as nat, p3 as nat, 0nat, p4 as nat, p5 as nat,
        p6 as nat, p7 as nat, p8 as nat, p9 as nat];
    assert(hws1.drop_first() =~= hws2);
    assert(hvs1.drop_first() =~= hvs2);
    let hws3: Seq<u8> = seq![2u8, 1, 2, 1, 1, 1, 1, 1, 1];
    let hvs3: Seq<nat> = seq![p2 as nat, p3 as nat, 0nat, p4 as nat, p5 as nat, p6 as nat,
        p7 as nat, p8 as nat, p9 as nat];
    assert(hws2.drop_first() =~= hws3);
    assert(hvs2.drop_first() =~= hvs3);
    let hws4: Seq<u8> = seq![1u8, 2, 1, 1, 1, 1, 1, 1];
    let hvs4: Seq<nat> = seq![p3 as nat, 0nat, p4 as nat, p5 as nat, p6 as nat, p7 as nat,
        p8 as nat, p9 as nat];
    assert(hws3.drop_first() =~= hws4);
    assert(hvs3.drop_first() =~= hvs4);
    let hws5: Seq<u8> = seq![2u8, 1, 1, 1, 1, 1, 1];
    let hvs5: Seq<nat> = seq![0nat, p4 as nat, p5 as nat, p6 as nat, p7 as nat, p8 as nat,
        p9 as nat];
    assert(hws4.drop_first() =~= hws5);
    assert(hvs4.drop_first() =~= hvs5);
    let hws6: Seq<u8> = seq![1u8, 1, 1, 1, 1, 1];
    let hvs6: Seq<nat> = seq![p4 as nat, p5 as nat, p6 as nat, p7 as nat, p8 as nat, p9 as nat];
    assert(hws5.drop_first() =~= hws6);
    assert(hvs5.drop_first() =~= hvs6);
    let hws7: Seq<u8> = seq![1u8, 1, 1, 1, 1];
    let hvs7: Seq<nat> = seq![p5 as nat, p6 as nat, p7 as nat, p8 as nat, p9 as nat];
    assert(hws6.drop_first() =~= hws7);
    assert(hvs6.drop_first() =~= hvs7);
    let hws8: Seq<u8> = seq![1u8, 1, 1, 1];
    let hvs8: Seq<nat> = seq![p6 as nat, p7 as nat, p8 as nat, p9 as nat];
    assert(hws7.drop_first() =~= hws8);
    assert(hvs7.drop_first() =~= hvs8);
    let hws9: Seq<u8> = seq![1u8, 1, 1];
    let hvs9: Seq<nat> = seq![p7 as nat, p8 as nat, p9 as nat];
    assert(hws8.drop_first() =~= hws9);
    assert(hvs8.drop_first() =~= hvs9);
    let hws10: Seq<u8> = seq![1u8, 1];
    let hvs10: Seq<nat> = seq![p8 as nat, p9 as nat];
    assert(hws9.drop_first() =~= hws10);
    assert(hvs9.drop_first() =~= hvs10);
    let hws11: Seq<u8> = seq![1u8];
    let hvs11: Seq<nat> = seq![p9 as nat];
    assert(hws10.drop_first() =~= hws11);
    assert(hvs10.drop_first() =~= hvs11);
    let hws12: Seq<u8> = Seq::<u8>::empty();
    let hvs12: Seq<nat> = Seq::<nat>::empty();
    assert(hws11.drop_first() =~= hws12);
    assert(hvs11.drop_first() =~= hvs12);
    assert(width_sum(hws12) == 0);
    assert(pack_fields(hws12, hvs12) == 0);
    assert(hws11[0] == 1 && hvs11[0] == p9 as nat);
    assert(width_sum(hws11) == 1);
    assert(pow2(width_sum(hws12)) == 0x1);
    assert(pack_fields(hws11, hvs11) == hvs11[0] * pow2(width_sum(hws12)) + pack_fields(hws12,
        hvs12));
    assert(hvs11[0] * 1 == hvs11[0]);
    assert(pack_fields(hws11, hvs11) == p9);
    assert(hws10[0] == 1 && hvs10[0] == p8 as nat);
    assert(width_sum(hws10) == 2);
    assert(pow2(width_sum(hws11)) == 0x2);
    assert(pack_fields(hws10, hvs10) == hvs10[0] * pow2(width_sum(hws11)) + pack_fields(hws11,
        hvs11));
    assert(pack_fields(hws10, hvs10) == p8 * 0x2 + p9);
    assert(hws9[0] == 1 && hvs9[0] == p7 as nat);
    assert(width_sum(hws9) == 3);
    assert(pow2(width_sum(hws10)) == 0x4);
    assert(pack_fields(hws9, hvs9) == hvs9[0] * pow2(width_sum(hws10)) + pack_fields(hws10, hvs10));
    assert(pack_fields(hws9, hvs9) == p7 * 0x4 + p8 * 0x2 + p9);
    assert(hws8[0] == 1 && hvs8[0] == p6 as nat);
    assert(width_sum(hws8) == 4);
    assert(pow2(width_sum(hws9)) == 0x8);
    assert(pack_fields(hws8, hvs8) == hvs8[0] * pow2(width_sum(hws9)) + pack_fields(hws9, hvs9));
    assert(pack_fields(hws8, hvs8) == p6 * 0x8 + p7 * 0x4 + p8 * 0x2 + p9);
    assert(hws7[0] == 1 && hvs7[0] == p5 as nat);
    assert(width_sum(hws7) == 5);
    assert(pow2(width_sum(hws8)) == 0x10);
    assert(pack_fields(hws7, hvs7) == hvs7[0] * pow2(width_sum(hws8)) + pack_fields(hws8, hvs8));
    assert(pack_fields(hws7, hvs7) == p5 * 0x10 + p6 * 0x8 + p7 * 0x4 + p8 * 0x2 + p9);
    assert(hws6[0] == 1 && hvs6[0] == p4 as nat);
    assert(width_sum(hws6) == 6);
    assert(pow2(width_sum(hws7)) == 0x20);
    assert(pack_fields(hws6, hvs6) == hvs6[0] * pow2(width_sum(hws7)) + pack_fields(hws7, hvs7));
    assert(pack_fields(hws6, hvs6) == p4 * 0x20 + p5 * 0x10 + p6 * 0x8 + p7 * 0x4 + p8 * 0x2 + p9);
    assert(hws5[0] == 2 && hvs5[0] == 0nat);
    assert(width_sum(hws5) == 8);
    assert(pow2(width_sum(hws6)) == 0x40);
    assert(pack_fields(hws5, hvs5) == hvs5[0] * pow2(width_sum(hws6)) + pack_fields(hws6, hvs6));
    assert(pack_fields(hws5, hvs5) == p4 * 0x20 + p5 * 0x10 + p6 * 0x8 + p7 * 0x4 + p8 * 0x2 + p9);
    assert(hws4[0] == 1 && hvs4[0] == p3 as nat);
    assert(width_sum(hws4) == 9);
    assert(pow2(width_sum(hws5)) == 0x100);
    assert(pack_fields(hws4, hvs4) == hvs4[0] * pow2(width_sum(hws5)) + pack_fields(hws5, hvs5));
    assert(pack_fields(hws4,
        hvs4) == p3 * 0x100 + p4 * 0x20 + p5 * 0x10 + p6 * 0x8 + p7 * 0x4 + p8 * 0x2 + p9);
    assert(hws3[0] == 2 && hvs3[0] == p2 as nat);
    assert(width_sum(hws3) == 11);
    assert(pow2(width_sum(hws4)) == 0x200);
    assert(pack_fields(hws3, hvs3) == hvs3[0] * pow2(width_sum(hws4)) + pack_fields(hws4, hvs4));
    assert(pack_fields(hws3,
        hvs3) == p2 * 0x200 + p3 * 0x100 + p4 * 0x20 + p5 * 0x10 + p6 * 0x8 + p7 * 0x4
            + p8 * 0x2 + p9);
    assert(hws2[0] == 1 && hvs2[0] == p1 as nat);
    assert(width_sum(hws2) == 12);
    assert(pow2(width_sum(hws3)) == 0x800);
    assert(pack_fields(hws2, hvs2) == hvs2[0] * pow2(width_sum(hws3)) + pack_fields(hws3, hvs3));
    assert(pack_fields(hws2,
        hvs2) == p1 * 0x800 + p2 * 0x200 + p3 * 0x100 + p4 * 0x20 + p5 * 0x10 + p6 * 0x8
            + p7 * 0x4 + p8 * 0x2 + p9);
    assert(hws1[0] == 1 && hvs1[0] == p0 as nat);
    assert(width_sum(hws1) == 13);
    assert(pow2(width_sum(hws2)) == 0x1000);
    assert(pack_fields(hws1, hvs1) == hvs1[0] * pow2(width_sum(hws2)) + pack_fields(hws2, hvs2));
    assert(pack_fields(hws1,
        hvs1) == p0 * 0x1000 + p1 * 0x800 + p2 * 0x200 + p3 * 0x100 + p4 * 0x20 + p5 * 0x10
            + p6 * 0x8 + p7 * 0x4 + p8 * 0x2 + p9);
    assert(hws[0] == 3 && hvs[0] == 0nat);
    assert(width_sum(hws) == 16);
    assert(pow2(width_sum(hws1)) == 0x2000);
    assert(pack_fields(hws, hvs) == hvs[0] * pow2(width_sum(hws1)) + pack_fields(hws1, hvs1));
    assert(pack_fields(hws,
        hvs) == p0 * 0x1000 + p1 * 0x800 + p2 * 0x200 + p3 * 0x100 + p4 * 0x20 + p5 * 0x10
            + p6 * 0x8 + p7 * 0x4 + p8 * 0x2 + p9);
}

/// The raw field values of a GPIO configuration word, in declaration
/// order, reserved padding included.
pub open spec fn gpio_config_field_values(r: GPIOConfigRegister) -> Seq<nat> {
    seq![0nat, spec_bool_bit(r.mux_io) as nat, spec_bool_bit(r.sync_en) as nat,
        r.err_en.spec_bits() as nat, spec_bool_bit(r.err_dat) as nat, 0nat,
        spec_bool_bit(r.gpio1_input_enable) as nat, spec_bool_bit(r.gpio0_input_enable) as nat,
        spec_bool_bit(r.gpio1_output_enable) as nat, spec_bool_bit(r.gpio0_output_enable) as nat,
        spec_bool_bit(r.gpio1_data) as nat, spec_bool_bit(r.gpio0_data) as nat]
}

/// The typed codec agrees with the field-packing model: the register word
/// is exactly the catalog layout's field values packed MSB-first.
pub proof fn lemma_gpio_config_packs_catalog_layout(r: GPIOConfigRegister)
    ensures
        r.spec_bits() == pack_fields(gpio_config_field_widths(), gpio_config_field_values(r)),
{
    let ws = gpio_config_field_widths();
    let vs = gpio_config_field_values(r);
    let x0 = spec_bool_bit(r.mux_io);
    let x1 = spec_bool_bit(r.sync_en);
    let x2 = r.err_en.spec_bits();
    let x3 = spec_bool_bit(r.err_dat);
    let x4 = spec_bool_bit(r.gpio1_input_enable);
    let x5 = spec_bool_bit(r.gpio0_input_enable);
    let x6 = spec_bool_bit(r.gpio1_output_enable);
    let x7 = spec_bool_bit(r.gpio0_output_enable);
    let x8 = spec_bool_bit(r.gpio1_data);
    let x9 = spec_bool_bit(r.gpio0_data);
    lemma_sync_error_pin_mode_round_trip(r.err_en);
    assert(ws =~= seq![3u8, 1, 1, 2, 1, 2, 1, 1, 1, 1, 1, 1]);
    assert(vs =~= seq![0nat, x0 as nat, x1 as nat, x2 as nat, x3 as nat, 0nat, x4 as nat,
        x5 as nat, x6 as nat, x7 as nat, x8 as nat, x9 as nat]);
    lemma_gpio_config_pack_eval(x0, x1, x2, x3, x4, x5, x6, x7, x8, x9);
    assert(pack_fields(ws,
        vs) == x0 * 0x1000 + x1 * 0x800 + x2 * 0x200 + x3 * 0x100 + x4 * 0x20 + x5 * 0x10
            + x6 * 0x8 + x7 * 0x4 + x8 * 0x2 + x9);
    let v = r.spec_bits();
    assert(v == x0 * 0x1000 + x1 * 0x800 + x2 * 0x200 + x3 * 0x100 + x4 * 0x20 + x5 * 0x10 + x6 * 0x8 + x7 * 0x4 + x8 * 0x2 + x9) by (bit_vector)
        requires
            v == ((x0 as u16) << 12) | ((x1 as u16) << 11) | ((x2 as u16) << 9)
                | ((x3 as u16) << 8) | ((x4 as u16) << 5) | ((x5 as u16) << 4)
                | ((x6 as u16) << 3) | ((x7 as u16) << 2) | ((x8 as u16) << 1) | (x9 as u16),
            x0 < 2,
            x1 < 2,
            x2 < 0x4,
            x3 < 2,
            x4 < 2,
            x5 < 2,
            x6 < 2,
            x7 < 2,
            x8 < 2,
            x9 < 2,
    ;

}


/// The raw field values of an id word, in declaration
/// order, reserved padding included.
pub open spec fn id_field_values(r: IdRegister) -> Seq<nat> {
    seq![r.id as nat]
}

/// The typed codec agrees with the field-packing model: the register word
/// is exactly the catalog layout's field values packed MSB-first.
pub proof fn lemma_id_packs_catalog_layout(r: IdRegister)
    ensures
        r.spec_bits() == pack_fields(id_field_widths(), id_field_values(r)),
{
    let ws = id_field_widths();
    let vs = id_field_values(r);
    assert(vs =~= seq![r.id as nat]);
    let x0 = r.id;
    vstd::arithmetic::power2::lemma2_to64();
    let ws1: Seq<u8> = Seq::<u8>::empty();
    let vs1: Seq<nat> = Seq::<nat>::empty();
    assert(ws.drop_first() =~= ws1);
    assert(vs.drop_first() =~= vs1);
    assert(width_sum(ws1) == 0);
    assert(pack_fields(ws1, vs1) == 0);
    assert(ws[0] == 16 && vs[0] == r.id as nat);
    assert(width_sum(ws) == 16);
    assert(pow2(width_sum(ws1)) == 0x1);
    assert(pack_fields(ws, vs) == vs[0] * pow2(width_sum(ws1)) + pack_fields(ws1, vs1));
    assert(vs[0] * 1 == vs[0]);
    assert(pack_fields(ws, vs) == x0);
}

} // verus!
