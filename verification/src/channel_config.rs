//! Channel and setup configuration registers.
//!
//! Four channel registers and four setup configuration registers repeat one
//! layout each at consecutive addresses; the shared layout is defined once
//! and the catalog pairs it with each address.

use vstd::prelude::*;
use crate::catalog::{channel_field_widths, setup_config_field_widths};
use crate::codec::{
    from_u16, into_u16, lemma_u16_byte_order, pack_fields, spec_from_u16, spec_into_u16,
    width_sum,
};
use vstd::arithmetic::power2::pow2;
use crate::enums::{
    lemma_input_round_trip, lemma_output_coding_round_trip, lemma_reference_source_round_trip,
    lemma_setup_round_trip, Input, OutputCoding, ReferenceSource, Setup,
};
use crate::error::DecodeError;
use crate::register::{bool_bit, spec_bool_bit, Register, WritableRegister};

verus! {

// ---------------------------------------------------------------------------
// Channel registers: addresses 0x10 to 0x13, 2 bytes, read/write.
// ---------------------------------------------------------------------------

/// Channel register: channel enable, setup selection and input mux.
/// One instance of this layout sits at each of the four channel
/// addresses.
///
/// Bit 15 channel enable, bits 13:12 setup selection, bits 9:5 positive
/// input, bits 4:0 negative input; the other bits are reserved.
#[derive(Clone, Copy, Debug, PartialEq, Eq, Structural)]
pub struct ChannelRegister {
    /// Channel enable.
    pub ch_en: bool,
    /// Which setup configuration the channel uses.
    pub setup_sel: Setup,
    /// Positive input selection.
    pub ainpos: Input,
    /// Negative input selection.
    pub ainneg: Input,
}

impl ChannelRegister {
    /// The device's reset value.
    pub open spec fn spec_default() -> ChannelRegister {
        ChannelRegister {
            ch_en: true,
            setup_sel: Setup::Setup0,
            ainpos: Input::Analog0,
            ainneg: Input::Analog0,
        }
    }

    /// Every field combination of this register is well formed.
    pub open spec fn wf(self) -> bool {
        true
    }

    /// The register's 16-bit word, fields packed most-significant first.
    pub open spec fn spec_bits(self) -> u16 {
        ((spec_bool_bit(self.ch_en) as u16) << 15)
            | ((self.setup_sel.spec_bits() as u16) << 12)
            | ((self.ainpos.spec_bits() as u16) << 5)
            | (self.ainneg.spec_bits() as u16)
    }

    /// Decoding of the register word.
    pub open spec fn spec_from_bits(v: u16) -> Result<ChannelRegister, DecodeError> {
        match Setup::spec_from_bits(((v >> 12) & 0x3) as u8) {
            Err(e) => Err(e),
            Ok(setup_sel) => match Input::spec_from_bits(((v >> 5) & 0x1f) as u8) {
                Err(e) => Err(e),
                Ok(ainpos) => match Input::spec_from_bits((v & 0x1f) as u8) {
                    Err(e) => Err(e),
                    Ok(ainneg) => Ok(
                        ChannelRegister {
                            ch_en: (v >> 15) & 1 == 1,
                            setup_sel,
                            ainpos,
                            ainneg,
                        },
                    ),
                },
            },
        }
    }

    /// A value with every field at its device reset default.
    pub fn new() -> (r: ChannelRegister)
        ensures
            r == ChannelRegister::spec_default(),
            r.wf(),
    {
        ChannelRegister {
            ch_en: true,
            setup_sel: Setup::Setup0,
            ainpos: Input::Analog0,
            ainneg: Input::Analog0,
        }
    }

    /// Packs the register into its 16-bit word.
    pub fn to_bits(&self) -> (r: u16)
        ensures
            r == self.spec_bits(),
    {
        ((bool_bit(self.ch_en) as u16) << 15u16)
            | ((self.setup_sel.into_bits() as u16) << 12u16)
            | ((self.ainpos.into_bits() as u16) << 5u16)
            | (self.ainneg.into_bits() as u16)
    }

    /// Decodes the register's 16-bit word.
    pub fn from_bits(v: u16) -> (r: Result<ChannelRegister, DecodeError>)
        ensures
            r == Self::spec_from_bits(v),
    {
        let setup_sel = match Setup::from_bits(((v >> 12u16) & 0x3) as u8) {
            Ok(x) => x,
            Err(e) => {
                return Err(e);
            },
        };
        let ainpos = match Input::from_bits(((v >> 5u16) & 0x1f) as u8) {
            Ok(x) => x,
            Err(e) => {
                return Err(e);
            },
        };
        let ainneg = match Input::from_bits((v & 0x1f) as u8) {
            Ok(x) => x,
            Err(e) => {
                return Err(e);
            },
        };
        Ok(
            ChannelRegister {
                ch_en: (v >> 15u16) & 1 == 1,
                setup_sel,
                ainpos,
                ainneg,
            },
        )
    }
}

impl Register<2> for ChannelRegister {
    open spec fn spec_from_buffer(raw: Seq<u8>) -> Result<ChannelRegister, DecodeError> {
        Self::spec_from_bits(spec_into_u16(raw[0], raw[1]))
    }

    fn from_buffer(raw: &[u8; 2]) -> (r: Result<ChannelRegister, DecodeError>) {
        Self::from_bits(into_u16(*raw))
    }
}

/// Round trip of the register word: decoding a packed value gives every
/// field back.
pub proof fn lemma_channel_register_bits_round_trip(r: ChannelRegister)
    ensures
        ChannelRegister::spec_from_bits(r.spec_bits()) == Ok::<ChannelRegister, DecodeError>(r),
{
    let v = r.spec_bits();
    let x0 = spec_bool_bit(r.ch_en);
    let x1 = r.setup_sel.spec_bits();
    let x2 = r.ainpos.spec_bits();
    let x3 = r.ainneg.spec_bits();
    lemma_setup_round_trip(r.setup_sel);
    lemma_input_round_trip(r.ainpos);
    lemma_input_round_trip(r.ainneg);
    assert({
        &&& (((v >> 15) & 1 == 1) == (x0 == 1))
        &&& (((v >> 12) & 0x3) as u8 == x1)
        &&& (((v >> 5) & 0x1f) as u8 == x2)
        &&& ((v & 0x1f) as u8 == x3)
    }) by (bit_vector)
        requires
            v == ((x0 as u16) << 15) | ((x1 as u16) << 12) | ((x2 as u16) << 5) | (x3 as u16),
            x0 < 2,
            x1 < 0x4,
            x2 < 0x20,
            x3 < 0x20,
    ;
}

impl WritableRegister<2> for ChannelRegister {
    open spec fn spec_wf(self) -> bool {
        self.wf()
    }

    open spec fn spec_to_buffer(self) -> Seq<u8> {
        spec_from_u16(self.spec_bits())
    }

    fn to_buffer(&self) -> (r: [u8; 2]) {
        from_u16(self.to_bits())
    }

    fn check_wf(&self) -> (r: bool) {
        true
    }

    proof fn lemma_round_trip(self) {
        lemma_channel_register_bits_round_trip(self);
        lemma_u16_byte_order(self.spec_bits(), 0, 0);
    }
}

// ---------------------------------------------------------------------------
// Setup configuration registers: addresses 0x20 to 0x23, 2 bytes, read/write.
// ---------------------------------------------------------------------------

/// Setup configuration register: output coding, reference and buffer
/// settings. One instance of this layout sits at each of the four setup
/// addresses.
///
/// Bit 12 output coding, bits 11:8 reference and input buffer enables,
/// bit 7 burnout current enable, bits 5:4 reference selection; the other
/// bits are reserved.
#[derive(Clone, Copy, Debug, PartialEq, Eq, Structural)]
pub struct SetupConfigRegister {
    /// Unipolar or bipolar output coding.
    pub bi_unipolar: OutputCoding,
    /// Enable the positive reference buffer.
    pub refbuf_pos_enabled: bool,
    /// Enable the negative reference buffer.
    pub refbuf_neg_enabled: bool,
    /// Enable the positive input buffer.
    pub ainbuf_pos_enabled: bool,
    /// Enable the negative input buffer.
    pub ainbuf_neg_enabled: bool,
    /// Burnout current enable.
    pub burnout_en: bool,
    /// Reference source selection.
    pub ref_sel: ReferenceSource,
}

impl SetupConfigRegister {
    /// The device's reset value.
    pub open spec fn spec_default() -> SetupConfigRegister {
        SetupConfigRegister {
            bi_unipolar: OutputCoding::Bipolar,
            refbuf_pos_enabled: false,
            refbuf_neg_enabled: false,
            ainbuf_pos_enabled: true,
            ainbuf_neg_enabled: true,
            burnout_en: false,
            ref_sel: ReferenceSource::Internal,
        }
    }

    /// Every field combination of this register is well formed.
    pub open spec fn wf(self) -> bool {
        true
    }

    /// The register's 16-bit word, fields packed most-significant first.
    pub open spec fn spec_bits(self) -> u16 {
        ((self.bi_unipolar.spec_bits() as u16) << 12)
            | ((spec_bool_bit(self.refbuf_pos_enabled) as u16) << 11)
            | ((spec_bool_bit(self.refbuf_neg_enabled) as u16) << 10)
            | ((spec_bool_bit(self.ainbuf_pos_enabled) as u16) << 9)
            | ((spec_bool_bit(self.ainbuf_neg_enabled) as u16) << 8)
            | ((spec_bool_bit(self.burnout_en) as u16) << 7)
            | ((self.ref_sel.spec_bits() as u16) << 4)
    }

    /// Decoding of the register word.
    pub open spec fn spec_from_bits(v: u16) -> Result<SetupConfigRegister, DecodeError> {
        match OutputCoding::spec_from_bits(((v >> 12) & 0x1) as u8) {
            Err(e) => Err(e),
            Ok(bi_unipolar) => match ReferenceSource::spec_from_bits(((v >> 4) & 0x3) as u8) {
                Err(e) => Err(e),
                Ok(ref_sel) => Ok(
                    SetupConfigRegister {
                        bi_unipolar,
                        refbuf_pos_enabled: (v >> 11) & 1 == 1,
                        refbuf_neg_enabled: (v >> 10) & 1 == 1,
                        ainbuf_pos_enabled: (v >> 9) & 1 == 1,
                        ainbuf_neg_enabled: (v >> 8) & 1 == 1,
                        burnout_en: (v >> 7) & 1 == 1,
                        ref_sel,
                    },
                ),
            },
        }
    }

    /// A value with every field at its device reset default.
    pub fn new() -> (r: SetupConfigRegister)
        ensures
            r == SetupConfigRegister::spec_default(),
            r.wf(),
    {
        SetupConfigRegister {
            bi_unipolar: OutputCoding::Bipolar,
            refbuf_pos_enabled: false,
            refbuf_neg_enabled: false,
            ainbuf_pos_enabled: true,
            ainbuf_neg_enabled: true,
            burnout_en: false,
            ref_sel: ReferenceSource::Internal,
        }
    }

    /// Packs the register into its 16-bit word.
    pub fn to_bits(&self) -> (r: u16)
        ensures
            r == self.spec_bits(),
    {
        ((self.bi_unipolar.into_bits() as u16) << 12u16)
            | ((bool_bit(self.refbuf_pos_enabled) as u16) << 11u16)
            | ((bool_bit(self.refbuf_neg_enabled) as u16) << 10u16)
            | ((bool_bit(self.ainbuf_pos_enabled) as u16) << 9u16)
            | ((bool_bit(self.ainbuf_neg_enabled) as u16) << 8u16)
            | ((bool_bit(self.burnout_en) as u16) << 7u16)
            | ((self.ref_sel.into_bits() as u16) << 4u16)
    }

    /// Decodes the register's 16-bit word.
    pub fn from_bits(v: u16) -> (r: Result<SetupConfigRegister, DecodeError>)
        ensures
            r == Self::spec_from_bits(v),
    {
        let bi_unipolar = match OutputCoding::from_bits(((v >> 12u16) & 0x1) as u8) {
            Ok(x) => x,
            Err(e) => {
                return Err(e);
            },
        };
        let ref_sel = match ReferenceSource::from_bits(((v >> 4u16) & 0x3) as u8) {
            Ok(x) => x,
            Err(e) => {
                return Err(e);
            },
        };
        Ok(
            SetupConfigRegister {
                bi_unipolar,
                refbuf_pos_enabled: (v >> 11u16) & 1 == 1,
                refbuf_neg_enabled: (v >> 10u16) & 1 == 1,
                ainbuf_pos_enabled: (v >> 9u16) & 1 == 1,
                ainbuf_neg_enabled: (v >> 8u16) & 1 == 1,
                burnout_en: (v >> 7u16) & 1 == 1,
                ref_sel,
            },
        )
    }
}

impl Register<2> for SetupConfigRegister {
    open spec fn spec_from_buffer(raw: Seq<u8>) -> Result<SetupConfigRegister, DecodeError> {
        Self::spec_from_bits(spec_into_u16(raw[0], raw[1]))
    }

    fn from_buffer(raw: &[u8; 2]) -> (r: Result<SetupConfigRegister, DecodeError>) {
        Self::from_bits(into_u16(*raw))
    }
}

/// Round trip of the register word: decoding a packed value gives every
/// field back.
pub proof fn lemma_setup_config_bits_round_trip(r: SetupConfigRegister)
    ensures
        SetupConfigRegister::spec_from_bits(r.spec_bits()) == Ok::<SetupConfigRegister,
             DecodeError>(r),
{
    let v = r.spec_bits();
    let x0 = r.bi_unipolar.spec_bits();
    let x1 = spec_bool_bit(r.refbuf_pos_enabled);
    let x2 = spec_bool_bit(r.refbuf_neg_enabled);
    let x3 = spec_bool_bit(r.ainbuf_pos_enabled);
    let x4 = spec_bool_bit(r.ainbuf_neg_enabled);
    let x5 = spec_bool_bit(r.burnout_en);
    let x6 = r.ref_sel.spec_bits();
    lemma_output_coding_round_trip(r.bi_unipolar);
    lemma_reference_source_round_trip(r.ref_sel);
    assert({
        &&& (((v >> 12) & 0x1) as u8 == x0)
        &&& (((v >> 11) & 1 == 1) == (x1 == 1))
        &&& (((v >> 10) & 1 == 1) == (x2 == 1))
        &&& (((v >> 9) & 1 == 1) == (x3 == 1))
        &&& (((v >> 8) & 1 == 1) == (x4 == 1))
        &&& (((v >> 7) & 1 == 1) == (x5 == 1))
        &&& (((v >> 4) & 0x3) as u8 == x6)
    }) by (bit_vector)
        requires
            v == ((x0 as u16) << 12) | ((x1 as u16) << 11) | ((x2 as u16) << 10)
                | ((x3 as u16) << 9) | ((x4 as u16) << 8) | ((x5 as u16) << 7)
                | ((x6 as u16) << 4),
            x0 < 0x2,
            x1 < 2,
            x2 < 2,
            x3 < 2,
            x4 < 2,
            x5 < 2,
            x6 < 0x4,
    ;
}

impl WritableRegister<2> for SetupConfigRegister {
    open spec fn spec_wf(self) -> bool {
        self.wf()
    }

    open spec fn spec_to_buffer(self) -> Seq<u8> {
        spec_from_u16(self.spec_bits())
    }

    fn to_buffer(&self) -> (r: [u8; 2]) {
        from_u16(self.to_bits())
    }

    fn check_wf(&self) -> (r: bool) {
        true
    }

    proof fn lemma_round_trip(self) {
        lemma_setup_config_bits_round_trip(self);
        lemma_u16_byte_order(self.spec_bits(), 0, 0);
    }
}








/// The raw field values of a channel word, in declaration
/// order, reserved padding included.
pub open spec fn channel_field_values(r: ChannelRegister) -> Seq<nat> {
    seq![spec_bool_bit(r.ch_en) as nat, 0nat, r.setup_sel.spec_bits() as nat, 0nat,
        r.ainpos.spec_bits() as nat, r.ainneg.spec_bits() as nat]
}

/// The typed codec agrees with the field-packing model: the register word
/// is exactly the catalog layout's field values packed MSB-first.
pub proof fn lemma_channel_packs_catalog_layout(r: ChannelRegister)
    ensures
        r.spec_bits() == pack_fields(channel_field_widths(), channel_field_values(r)),
{
    let ws = channel_field_widths();
    let vs = channel_field_values(r);
    assert(vs =~= seq![spec_bool_bit(r.ch_en) as nat, 0nat, r.setup_sel.spec_bits() as nat, 0nat,
        r.ainpos.spec_bits() as nat, r.ainneg.spec_bits() as nat]);
    let x0 = spec_bool_bit(r.ch_en);
    let x1 = r.setup_sel.spec_bits();
    let x2 = r.ainpos.spec_bits();
    let x3 = r.ainneg.spec_bits();
    lemma_setup_round_trip(r.setup_sel);
    lemma_input_round_trip(r.ainpos);
    lemma_input_round_trip(r.ainneg);
    vstd::arithmetic::power2::lemma2_to64();
    let ws1: Seq<u8> = seq![1u8, 2, 2, 5, 5];
    let vs1: Seq<nat> = seq![0nat, r.setup_sel.spec_bits() as nat, 0nat,
        r.ainpos.spec_bits() as nat, r.ainneg.spec_bits() as nat];
    assert(ws.drop_first() =~= ws1);
    assert(vs.drop_first() =~= vs1);
    let ws2: Seq<u8> = seq![2u8, 2, 5, 5];
    let vs2: Seq<nat> = seq![r.setup_sel.spec_bits() as nat, 0nat, r.ainpos.spec_bits() as nat,
        r.ainneg.spec_bits() as nat];
    assert(ws1.drop_first() =~= ws2);
    assert(vs1.drop_first() =~= vs2);
    let ws3: Seq<u8> = seq![2u8, 5, 5];
    let vs3: Seq<nat> = seq![0nat, r.ainpos.spec_bits() as nat, r.ainneg.spec_bits() as nat];
    assert(ws2.drop_first() =~= ws3);
    assert(vs2.drop_first() =~= vs3);
    let ws4: Seq<u8> = seq![5u8, 5];
    let vs4: Seq<nat> = seq![r.ainpos.spec_bits() as nat, r.ainneg.spec_bits() as nat];
    assert(ws3.drop_first() =~= ws4);
    assert(vs3.drop_first() =~= vs4);
    let ws5: Seq<u8> = seq![5u8];
    let vs5: Seq<nat> = seq![r.ainneg.spec_bits() as nat];
    assert(ws4.drop_first() =~= ws5);
    assert(vs4.drop_first() =~= vs5);
    let ws6: Seq<u8> = Seq::<u8>::empty();
    let vs6: Seq<nat> = Seq::<nat>::empty();
    assert(ws5.drop_first() =~= ws6);
    assert(vs5.drop_first() =~= vs6);
    assert(width_sum(ws6) == 0);
    assert(pack_fields(ws6, vs6) == 0);
    assert(ws5[0] == 5 && vs5[0] == r.ainneg.spec_bits() as nat);
    assert(width_sum(ws5) == 5);
    assert(pow2(width_sum(ws6)) == 0x1);
    assert(pack_fields(ws5, vs5) == vs5[0] * pow2(width_sum(ws6)) + pack_fields(ws6, vs6));
    assert(vs5[0] * 1 == vs5[0]);
    assert(pack_fields(ws5, vs5) == x3);
    assert(ws4[0] == 5 && vs4[0] == r.ainpos.spec_bits() as nat);
    assert(width_sum(ws4) == 10);
    assert(pow2(width_sum(ws5)) == 0x20);
    assert(pack_fields(ws4, vs4) == vs4[0] * pow2(width_sum(ws5)) + pack_fields(ws5, vs5));
    assert(pack_fields(ws4, vs4) == x2 * 0x20 + x3);
    assert(ws3[0] == 2 && vs3[0] == 0nat);
    assert(width_sum(ws3) == 12);
    assert(pow2(width_sum(ws4)) == 0x400);
    assert(pack_fields(ws3, vs3) == vs3[0] * pow2(width_sum(ws4)) + pack_fields(ws4, vs4));
    assert(pack_fields(ws3, vs3) == x2 * 0x20 + x3);
    assert(ws2[0] == 2 && vs2[0] == r.setup_sel.spec_bits() as nat);
    assert(width_sum(ws2) == 14);
    assert(pow2(width_sum(ws3)) == 0x1000);
    assert(pack_fields(ws2, vs2) == vs2[0] * pow2(width_sum(ws3)) + pack_fields(ws3, vs3));
    assert(pack_fields(ws2, vs2) == x1 * 0x1000 + x2 * 0x20 + x3);
    assert(ws1[0] == 1 && vs1[0] == 0nat);
    assert(width_sum(ws1) == 15);
    assert(pow2(width_sum(ws2)) == 0x4000);
    assert(pack_fields(ws1, vs1) == vs1[0] * pow2(width_sum(ws2)) + pack_fields(ws2, vs2));
    assert(pack_fields(ws1, vs1) == x1 * 0x1000 + x2 * 0x20 + x3);
    assert(ws[0] == 1 && vs[0] == spec_bool_bit(r.ch_en) as nat);
    assert(width_sum(ws) == 16);
    assert(pow2(width_sum(ws1)) == 0x8000);
    assert(pack_fields(ws, vs) == vs[0] * pow2(width_sum(ws1)) + pack_fields(ws1, vs1));
    assert(pack_fields(ws, vs) == x0 * 0x8000 + x1 * 0x1000 + x2 * 0x20 + x3);
    let v = r.spec_bits();
    assert(v == x0 * 0x8000 + x1 * 0x1000 + x2 * 0x20 + x3) by (bit_vector)
        requires
            v == ((x0 as u16) << 15) | ((x1 as u16) << 12) | ((x2 as u16) << 5) | (x3 as u16),
            x0 < 2,
            x1 < 0x4,
            x2 < 0x20,
            x3 < 0x20,
    ;

}


/// Evaluates the packing model on the setup configuration layout for
/// arbitrary raw field values.
#[verifier::rlimit(100)]
#[verifier::spinoff_prover]
proof fn lemma_setup_config_pack_eval(p0: u8, p1: u8, p2: u8, p3: u8, p4: u8, p5: u8, p6: u8)
    ensures
        pack_fields(seq![3u8, 1, 1, 1, 1, 1, 1, 1, 2, 4], seq![0nat, p0 as nat, p1 as nat,
            p2 as nat, p3 as nat, p4 as nat, p5 as nat, 0nat, p6 as nat,
            0nat]) == p0 * 0x1000 + p1 * 0x800 + p2 * 0x400 + p3 * 0x200 + p4 * 0x100
                + p5 * 0x80 + p6 * 0x10,
{
    let hws: Seq<u8> = seq![3u8, 1, 1, 1, 1, 1, 1, 1, 2, 4];
    let hvs: Seq<nat> = seq![0nat, p0 as nat, p1 as nat, p2 as nat, p3 as nat, p4 as nat,
        p5 as nat, 0nat, p6 as nat, 0nat];
    vstd::arithmetic::power2::lemma2_to64();
    let hws1: Seq<u8> = seq![1u8, 1, 1, 1, 1, 1, 1, 2, 4];
    let hvs1: Seq<nat> = seq![p0 as nat, p1 as nat, p2 as nat, p3 as nat, p4 as nat, p5 as nat,
        0nat, p6 as nat, 0nat];
    assert(hws.drop_first() =~= hws1);
    assert(hvs.drop_first() =~= hvs1);
    let hws2: Seq<u8> = seq![1u8, 1, 1, 1, 1, 1, 2, 4];
    let hvs2: Seq<nat> = seq![p1 as nat, p2 as nat, p3 as nat, p4 as nat, p5 as nat, 0nat,
        p6 as nat, 0nat];
    assert(hws1.drop_first() =~= hws2);
    assert(hvs1.drop_first() =~= hvs2);
    let hws3: Seq<u8> = seq![1u8, 1, 1, 1, 1, 2, 4];
    let hvs3: Seq<nat> = seq![p2 as nat, p3 as nat, p4 as nat, p5 as nat, 0nat, p6 as nat, 0nat];
    assert(hws2.drop_first() =~= hws3);
    assert(hvs2.drop_first() =~= hvs3);
    let hws4: Seq<u8> = seq![1u8, 1, 1, 1, 2, 4];
    let hvs4: Seq<nat> = seq![p3 as nat, p4 as nat, p5 as nat, 0nat, p6 as nat, 0nat];
    assert(hws3.drop_first() =~= hws4);
    assert(hvs3.drop_first() =~= hvs4);
    let hws5: Seq<u8> = seq![1u8, 1, 1, 2, 4];
    let hvs5: Seq<nat> = seq![p4 as nat, p5 as nat, 0nat, p6 as nat, 0nat];
    assert(hws4.drop_first() =~= hws5);
    assert(hvs4.drop_first() =~= hvs5);
    let hws6: Seq<u8> = seq![1u8, 1, 2, 4];
    let hvs6: Seq<nat> = seq![p5 as nat, 0nat, p6 as nat, 0nat];
    assert(hws5.drop_first() =~= hws6);
    assert(hvs5.drop_first() =~= hvs6);
    let hws7: Seq<u8> = seq![1u8, 2, 4];
    let hvs7: Seq<nat> = seq![0nat, p6 as nat, 0nat];
    assert(hws6.drop_first() =~= hws7);
    assert(hvs6.drop_first() =~= hvs7);
    let hws8: Seq<u8> = seq![2u8, 4];
    let hvs8: Seq<nat> = seq![p6 as nat, 0nat];
    assert(hws7.drop_first() =~= hws8);
    assert(hvs7.drop_first() =~= hvs8);
    let hws9: Seq<u8> = seq![4u8];
    let hvs9: Seq<nat> = seq![0nat];
    assert(hws8.drop_first() =~= hws9);
    assert(hvs8.drop_first() =~= hvs9);
    let hws10: Seq<u8> = Seq::<u8>::empty();
    let hvs10: Seq<nat> = Seq::<nat>::empty();
    assert(hws9.drop_first() =~= hws10);
    assert(hvs9.drop_first() =~= hvs10);
    assert(width_sum(hws10) == 0);
    assert(pack_fields(hws10, hvs10) == 0);
    assert(hws9[0] == 4 && hvs9[0] == 0nat);
    assert(width_sum(hws9) == 4);
    assert(pow2(width_sum(hws10)) == 0x1);
    assert(pack_fields(hws9, hvs9) == hvs9[0] * pow2(width_sum(hws10)) + pack_fields(hws10, hvs10));
    assert(hvs9[0] * 1 == hvs9[0]);
    assert(pack_fields(hws9, hvs9) == 0);
    assert(hws8[0] == 2 && hvs8[0] == p6 as nat);
    assert(width_sum(hws8) == 6);
    assert(pow2(width_sum(hws9)) == 0x10);
    assert(pack_fields(hws8, hvs8) == hvs8[0] * pow2(width_sum(hws9)) + pack_fields(hws9, hvs9));
    assert(pack_fields(hws8, hvs8) == p6 * 0x10);
    assert(hws7[0] == 1 && hvs7[0] == 0nat);
    assert(width_sum(hws7) == 7);
    assert(pow2(width_sum(hws8)) == 0x40);
    assert(pack_fields(hws7, hvs7) == hvs7[0] * pow2(width_sum(hws8)) + pack_fields(hws8, hvs8));
    assert(pack_fields(hws7, hvs7) == p6 * 0x10);
    assert(hws6[0] == 1 && hvs6[0] == p5 as nat);
    assert(width_sum(hws6) == 8);
    assert(pow2(width_sum(hws7)) == 0x80);
    assert(pack_fields(hws6, hvs6) == hvs6[0] * pow2(width_sum(hws7)) + pack_fields(hws7, hvs7));
    assert(pack_fields(hws6, hvs6) == p5 * 0x80 + p6 * 0x10);
    assert(hws5[0] == 1 && hvs5[0] == p4 as nat);
    assert(width_sum(hws5) == 9);
    assert(pow2(width_sum(hws6)) == 0x100);
    assert(pack_fields(hws5, hvs5) == hvs5[0] * pow2(width_sum(hws6)) + pack_fields(hws6, hvs6));
    assert(pack_fields(hws5, hvs5) == p4 * 0x100 + p5 * 0x80 + p6 * 0x10);
    assert(hws4[0] == 1 && hvs4[0] == p3 as nat);
    assert(width_sum(hws4) == 10);
    assert(pow2(width_sum(hws5)) == 0x200);
    assert(pack_fields(hws4, hvs4) == hvs4[0] * pow2(width_sum(hws5)) + pack_fields(hws5, hvs5));
    assert(pack_fields(hws4, hvs4) == p3 * 0x200 + p4 * 0x100 + p5 * 0x80 + p6 * 0x10);
    assert(hws3[0] == 1 && hvs3[0] == p2 as nat);
    assert(width_sum(hws3) == 11);
    assert(pow2(width_sum(hws4)) == 0x400);
    assert(pack_fields(hws3, hvs3) == hvs3[0] * pow2(width_sum(hws4)) + pack_fields(hws4, hvs4));
    assert(pack_fields(hws3, hvs3) == p2 * 0x400 + p3 * 0x200 + p4 * 0x100 + p5 * 0x80 + p6 * 0x10);
    assert(hws2[0] == 1 && hvs2[0] == p1 as nat);
    assert(width_sum(hws2) == 12);
    assert(pow2(width_sum(hws3)) == 0x800);
    assert(pack_fields(hws2, hvs2) == hvs2[0] * pow2(width_sum(hws3)) + pack_fields(hws3, hvs3));
    assert(pack_fields(hws2,
        hvs2) == p1 * 0x800 + p2 * 0x400 + p3 * 0x200 + p4 * 0x100 + p5 * 0x80 + p6 * 0x10);
    assert(hws1[0] == 1 && hvs1[0] == p0 as nat);
    assert(width_sum(hws1) == 13);
    assert(pow2(width_sum(hws2)) == 0x1000);
    assert(pack_fields(hws1, hvs1) == hvs1[0] * pow2(width_sum(hws2)) + pack_fields(hws2, hvs2));
    assert(pack_fields(hws1,
        hvs1) == p0 * 0x1000 + p1 * 0x800 + p2 * 0x400 + p3 * 0x200 + p4 * 0x100 + p5 * 0x80
            + p6 * 0x10);
    assert(hws[0] == 3 && hvs[0] == 0nat);
    assert(width_sum(hws) == 16);
    assert(pow2(width_sum(hws1)) == 0x2000);
    assert(pack_fields(hws, hvs) == hvs[0] * pow2(width_sum(hws1)) + pack_fields(hws1, hvs1));
    assert(pack_fields(hws,
        hvs) == p0 * 0x1000 + p1 * 0x800 + p2 * 0x400 + p3 * 0x200 + p4 * 0x100 + p5 * 0x80
            + p6 * 0x10);
}

/// The raw field values of a setup configuration word, in declaration
/// order, reserved padding included.
pub open spec fn setup_config_field_values(r: SetupConfigRegister) -> Seq<nat> {
    seq![0nat, r.bi_unipolar.spec_bits() as nat, spec_bool_bit(r.refbuf_pos_enabled) as nat,
        spec_bool_bit(r.refbuf_neg_enabled) as nat, spec_bool_bit(r.ainbuf_pos_enabled) as nat,
        spec_bool_bit(r.ainbuf_neg_enabled) as nat, spec_bool_bit(r.burnout_en) as nat, 0nat,
        r.ref_sel.spec_bits() as nat, 0nat]
}

/// The typed codec agrees with the field-packing model: the register word
/// is exactly the catalog layout's field values packed MSB-first.
pub proof fn lemma_setup_config_packs_catalog_layout(r: SetupConfigRegister)
    ensures
        r.spec_bits() == pack_fields(setup_config_field_widths(), setup_config_field_values(r)),
{
    let ws = setup_config_field_widths();
    let vs = setup_config_field_values(r);
    let x0 = r.bi_unipolar.spec_bits();
    let x1 = spec_bool_bit(r.refbuf_pos_enabled);
    let x2 = spec_bool_bit(r.refbuf_neg_enabled);
    let x3 = spec_bool_bit(r.ainbuf_pos_enabled);
    let x4 = spec_bool_bit(r.ainbuf_neg_enabled);
    let x5 = spec_bool_bit(r.burnout_en);
    let x6 = r.ref_sel.spec_bits();
    lemma_output_coding_round_trip(r.bi_unipolar);
    lemma_reference_source_round_trip(r.ref_sel);
    assert(ws =~= seq![3u8, 1, 1, 1, 1, 1, 1, 1, 2, 4]);
    assert(vs =~= seq![0nat, x0 as nat, x1 as nat, x2 as nat, x3 as nat, x4 as nat, x5 as nat,
        0nat, x6 as nat, 0nat]);
    lemma_setup_config_pack_eval(x0, x1, x2, x3, x4, x5, x6);
    assert(pack_fields(ws,
        vs) == x0 * 0x1000 + x1 * 0x800 + x2 * 0x400 + x3 * 0x200 + x4 * 0x100 + x5 * 0x80
            + x6 * 0x10);
    let v = r.spec_bits();
    assert(v == x0 * 0x1000 + x1 * 0x800 + x2 * 0x400 + x3 * 0x200 + x4 * 0x100 + x5 * 0x80 + x6 * 0x10) by (bit_vector)
        requires
            v == ((x0 as u16) << 12) | ((x1 as u16) << 11) | ((x2 as u16) << 10)
                | ((x3 as u16) << 9) | ((x4 as u16) << 8) | ((x5 as u16) << 7)
                | ((x6 as u16) << 4),
            x0 < 0x2,
            x1 < 2,
            x2 < 2,
            x3 < 2,
            x4 < 2,
            x5 < 2,
            x6 < 0x4,
    ;

}

} // verus!
