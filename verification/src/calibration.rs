//! Calibration coefficient registers.
//!
//! Four offset registers and four gain registers repeat one single-field
//! 24-bit layout each at consecutive addresses; the shared layouts are
//! defined once and the catalog pairs them with each address.

use vstd::prelude::*;
use crate::catalog::{gain_field_widths, offset_field_widths};
use crate::codec::{
    from_u32, into_u32, lemma_u24_byte_order, lemma_u24_mask, pack_fields, spec_from_u24,
    spec_into_u24, width_sum,
};
use vstd::arithmetic::power2::pow2;
use crate::error::DecodeError;
use crate::register::{Register, WritableRegister};

verus! {

// ---------------------------------------------------------------------------
// Offset registers: addresses 0x30 to 0x33, 3 bytes, read/write.
// ---------------------------------------------------------------------------

/// Offset register: the offset calibration coefficient of one setup.
/// One instance of this layout sits at each of the four offset addresses.
///
/// Bits 23:0 offset coefficient; the reset value 0x800000 stands for zero
/// offset.
#[derive(Clone, Copy, Debug, PartialEq, Eq, Structural)]
pub struct OffsetRegister {
    /// Offset calibration coefficient.
    pub offset: u32,
}

impl OffsetRegister {
    /// The device's reset value.
    pub open spec fn spec_default() -> OffsetRegister {
        OffsetRegister {
            offset: 0x800000,
        }
    }

    /// Which values encode faithfully.
    pub open spec fn wf(self) -> bool {
        self.offset < 0x1000000
    }

    /// The register's 24-bit word, fields packed most-significant first.
    pub open spec fn spec_bits(self) -> u32 {
        self.offset
    }

    /// Decoding of the register word.
    pub open spec fn spec_from_bits(v: u32) -> Result<OffsetRegister, DecodeError> {
        Ok(
            OffsetRegister {
                offset: v & 0xffffff,
            },
        )
    }

    /// A value with every field at its device reset default.
    pub fn new() -> (r: OffsetRegister)
        ensures
            r == OffsetRegister::spec_default(),
            r.wf(),
    {
        OffsetRegister {
            offset: 0x800000,
        }
    }

    /// Packs the register into its 24-bit word.
    pub fn to_bits(&self) -> (r: u32)
        requires
            self.wf(),
        ensures
            r == self.spec_bits(),
            r < 0x1000000,
    {
        self.offset
    }

    /// Decodes the register's 24-bit word.
    pub fn from_bits(v: u32) -> (r: Result<OffsetRegister, DecodeError>)
        ensures
            r == Self::spec_from_bits(v),
            r is Ok,
    {
        Ok(
            OffsetRegister {
                offset: v & 0xffffff,
            },
        )
    }
}

impl Register<3> for OffsetRegister {
    open spec fn spec_from_buffer(raw: Seq<u8>) -> Result<OffsetRegister, DecodeError> {
        Self::spec_from_bits(spec_into_u24(raw[0], raw[1], raw[2]))
    }

    fn from_buffer(raw: &[u8; 3]) -> (r: Result<OffsetRegister, DecodeError>) {
        Self::from_bits(into_u32(*raw))
    }
}

/// Round trip of the register word: decoding a packed value gives every
/// field back.
pub proof fn lemma_offset_bits_round_trip(r: OffsetRegister)
    requires
        r.wf(),
    ensures
        OffsetRegister::spec_from_bits(r.spec_bits()) == Ok::<OffsetRegister, DecodeError>(r),
{
    lemma_u24_mask(r.offset);
}

impl WritableRegister<3> for OffsetRegister {
    open spec fn spec_wf(self) -> bool {
        self.wf()
    }

    open spec fn spec_to_buffer(self) -> Seq<u8> {
        spec_from_u24(self.spec_bits())
    }

    fn to_buffer(&self) -> (r: [u8; 3]) {
        from_u32(self.to_bits())
    }

    fn check_wf(&self) -> (r: bool) {
        self.offset < 0x1000000
    }

    proof fn lemma_round_trip(self) {
        lemma_offset_bits_round_trip(self);
        lemma_u24_byte_order(self.spec_bits(), 0, 0, 0);
    }
}

// ---------------------------------------------------------------------------
// Gain registers: addresses 0x38 to 0x3b, 3 bytes, read/write.
// ---------------------------------------------------------------------------

/// Gain register: the gain calibration coefficient of one setup. One
/// instance of this layout sits at each of the four gain addresses.
///
/// Bits 23:0 gain coefficient.
#[derive(Clone, Copy, Debug, PartialEq, Eq, Structural)]
pub struct GainRegister {
    /// Gain calibration coefficient.
    pub gain: u32,
}

impl GainRegister {
    /// The device's reset value.
    pub open spec fn spec_default() -> GainRegister {
        GainRegister {
            gain: 0x500000,
        }
    }

    /// Which values encode faithfully.
    pub open spec fn wf(self) -> bool {
        self.gain < 0x1000000
    }

    /// The register's 24-bit word, fields packed most-significant first.
    pub open spec fn spec_bits(self) -> u32 {
        self.gain
    }

    /// Decoding of the register word.
    pub open spec fn spec_from_bits(v: u32) -> Result<GainRegister, DecodeError> {
        Ok(
            GainRegister {
                gain: v & 0xffffff,
            },
        )
    }

    /// A value with every field at its device reset default.
    pub fn new() -> (r: GainRegister)
        ensures
            r == GainRegister::spec_default(),
            r.wf(),
    {
        GainRegister {
            gain: 0x500000,
        }
    }

    /// Packs the register into its 24-bit word.
    pub fn to_bits(&self) -> (r: u32)
        requires
            self.wf(),
        ensures
            r == self.spec_bits(),
            r < 0x1000000,
    {
        self.gain
    }

    /// Decodes the register's 24-bit word.
    pub fn from_bits(v: u32) -> (r: Result<GainRegister, DecodeError>)
        ensures
            r == Self::spec_from_bits(v),
            r is Ok,
    {
        Ok(
            GainRegister {
                gain: v & 0xffffff,
            },
        )
    }
}

impl Register<3> for GainRegister {
    open spec fn spec_from_buffer(raw: Seq<u8>) -> Result<GainRegister, DecodeError> {
        Self::spec_from_bits(spec_into_u24(raw[0], raw[1], raw[2]))
    }

    fn from_buffer(raw: &[u8; 3]) -> (r: Result<GainRegister, DecodeError>) {
        Self::from_bits(into_u32(*raw))
    }
}

/// Round trip of the register word: decoding a packed value gives every
/// field back.
pub proof fn lemma_gain_bits_round_trip(r: GainRegister)
    requires
        r.wf(),
    ensures
        GainRegister::spec_from_bits(r.spec_bits()) == Ok::<GainRegister, DecodeError>(r),
{
    lemma_u24_mask(r.gain);
}

impl WritableRegister<3> for GainRegister {
    open spec fn spec_wf(self) -> bool {
        self.wf()
    }

    open spec fn spec_to_buffer(self) -> Seq<u8> {
        spec_from_u24(self.spec_bits())
    }

    fn to_buffer(&self) -> (r: [u8; 3]) {
        from_u32(self.to_bits())
    }

    fn check_wf(&self) -> (r: bool) {
        self.gain < 0x1000000
    }

    proof fn lemma_round_trip(self) {
        lemma_gain_bits_round_trip(self);
        lemma_u24_byte_order(self.spec_bits(), 0, 0, 0);
    }
}








/// The raw field values of an offset word, in declaration
/// order, reserved padding included.
pub open spec fn offset_field_values(r: OffsetRegister) -> Seq<nat> {
    seq![r.offset as nat]
}

/// The typed codec agrees with the field-packing model: the register word
/// is exactly the catalog layout's field values packed MSB-first.
pub proof fn lemma_offset_packs_catalog_layout(r: OffsetRegister)
    requires
        r.wf(),
    ensures
        r.spec_bits() == pack_fields(offset_field_widths(), offset_field_values(r)),
{
    let ws = offset_field_widths();
    let vs = offset_field_values(r);
    assert(vs =~= seq![r.offset as nat]);
    let x0 = r.offset;
    vstd::arithmetic::power2::lemma2_to64();
    let ws1: Seq<u8> = Seq::<u8>::empty();
    let vs1: Seq<nat> = Seq::<nat>::empty();
    assert(ws.drop_first() =~= ws1);
    assert(vs.drop_first() =~= vs1);
    assert(width_sum(ws1) == 0);
    assert(pack_fields(ws1, vs1) == 0);
    assert(ws[0] == 24 && vs[0] == r.offset as nat);
    assert(width_sum(ws) == 24);
    assert(pow2(width_sum(ws1)) == 0x1);
    assert(pack_fields(ws, vs) == vs[0] * pow2(width_sum(ws1)) + pack_fields(ws1, vs1));
    assert(vs[0] * 1 == vs[0]);
    assert(pack_fields(ws, vs) == x0);
}


/// The raw field values of a gain word, in declaration
/// order, reserved padding included.
pub open spec fn gain_field_values(r: GainRegister) -> Seq<nat> {
    seq![r.gain as nat]
}

/// The typed codec agrees with the field-packing model: the register word
/// is exactly the catalog layout's field values packed MSB-first.
pub proof fn lemma_gain_packs_catalog_layout(r: GainRegister)
    requires
        r.wf(),
    ensures
        r.spec_bits() == pack_fields(gain_field_widths(), gain_field_values(r)),
{
    let ws = gain_field_widths();
    let vs = gain_field_values(r);
    assert(vs =~= seq![r.gain as nat]);
    let x0 = r.gain;
    vstd::arithmetic::power2::lemma2_to64();
    let ws1: Seq<u8> = Seq::<u8>::empty();
    let vs1: Seq<nat> = Seq::<nat>::empty();
    assert(ws.drop_first() =~= ws1);
    assert(vs.drop_first() =~= vs1);
    assert(width_sum(ws1) == 0);
    assert(pack_fields(ws1, vs1) == 0);
    assert(ws[0] == 24 && vs[0] == r.gain as nat);
    assert(width_sum(ws) == 24);
    assert(pow2(width_sum(ws1)) == 0x1);
    assert(pack_fields(ws, vs) == vs[0] * pow2(width_sum(ws1)) + pack_fields(ws1, vs1));
    assert(vs[0] * 1 == vs[0]);
    assert(pack_fields(ws, vs) == x0);
}

} // verus!
