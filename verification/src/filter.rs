//! Filter configuration registers: two layouts sharing one address.
//!
//! Each of the four filter configuration addresses admits two incompatible
//! layouts. The selector is bit 15 of the raw word, read-only on the
//! device: clear for the standard layout, set for the direct-decimation
//! layout. A value decoded under the wrong layout is not meaningful, so the
//! blessed path decodes the raw word first and branches on the selector bit
//! before interpreting any other field.

use vstd::prelude::*;
use crate::catalog::{default_filter_config_field_widths,
     direct_sinc3_map_filter_config_field_widths};
use crate::codec::{
    from_u16, into_u16, lemma_u16_byte_order, pack_fields, spec_from_u16, spec_into_u16,
    width_sum,
};
use vstd::arithmetic::power2::pow2;
use crate::enums::{
    lemma_enhanced_filter_rate_round_trip, lemma_filter_order_round_trip,
    lemma_output_data_rate_round_trip, EnhancedFilterRate, FilterOrder, OutputDataRate,
};
use crate::error::DecodeError;
use crate::register::{bool_bit, spec_bool_bit, Register, WritableRegister};

verus! {

// ---------------------------------------------------------------------------
// Filter configuration registers, standard layout: addresses 0x28 to 0x2b, 2 bytes, read/write.
// ---------------------------------------------------------------------------

/// Filter configuration register, standard layout: enhanced filter,
/// filter order and output data rate. One instance of this layout sits at
/// each of the four filter configuration addresses, sharing the address
/// with the direct-decimation layout; bit 15, read-only on the device,
/// selects which layout is authoritative.
///
/// Bit 15 direct-map selector (zero for this layout), bit 11 enhanced
/// filter enable, bits 10:8 enhanced filter rate, bits 6:5 filter order,
/// bits 4:0 output data rate; the other bits are reserved.
#[derive(Clone, Copy, Debug, PartialEq, Eq, Structural)]
pub struct DefaultFilterConfigRegister {
    /// Direct-map selector; always clear in this layout.
    pub sinc3_map: bool,
    /// Enhanced filter enable.
    pub enhfilten: bool,
    /// Enhanced filter rate.
    pub enhfilt: EnhancedFilterRate,
    /// Digital filter order.
    pub order: FilterOrder,
    /// Output data rate.
    pub odr: OutputDataRate,
}

impl DefaultFilterConfigRegister {
    /// The device's reset value.
    pub open spec fn spec_default() -> DefaultFilterConfigRegister {
        DefaultFilterConfigRegister {
            sinc3_map: false,
            enhfilten: false,
            enhfilt: EnhancedFilterRate::Sps20,
            order: FilterOrder::Sinc5Sinc1,
            odr: OutputDataRate::Sps250000,
        }
    }

    /// Which values encode faithfully.
    pub open spec fn wf(self) -> bool {
        self.sinc3_map == false
    }

    /// The register's 16-bit word, fields packed most-significant first.
    pub open spec fn spec_bits(self) -> u16 {
        ((spec_bool_bit(self.sinc3_map) as u16) << 15)
            | ((spec_bool_bit(self.enhfilten) as u16) << 11)
            | ((self.enhfilt.spec_bits() as u16) << 8)
            | ((self.order.spec_bits() as u16) << 5)
            | (self.odr.spec_bits() as u16)
    }

    /// Decoding of the register word.
    pub open spec fn spec_from_bits(v: u16) -> Result<DefaultFilterConfigRegister, DecodeError> {
        match EnhancedFilterRate::spec_from_bits(((v >> 8) & 0x7) as u8) {
            Err(e) => Err(e),
            Ok(enhfilt) => match FilterOrder::spec_from_bits(((v >> 5) & 0x3) as u8) {
                Err(e) => Err(e),
                Ok(order) => match OutputDataRate::spec_from_bits((v & 0x1f) as u8) {
                    Err(e) => Err(e),
                    Ok(odr) => Ok(
                        DefaultFilterConfigRegister {
                            sinc3_map: (v >> 15) & 1 == 1,
                            enhfilten: (v >> 11) & 1 == 1,
                            enhfilt,
                            order,
                            odr,
                        },
                    ),
                },
            },
        }
    }

    /// A value with every field at its device reset default.
    pub fn new() -> (r: DefaultFilterConfigRegister)
        ensures
            r == DefaultFilterConfigRegister::spec_default(),
            r.wf(),
    {
        DefaultFilterConfigRegister {
            sinc3_map: false,
            enhfilten: false,
            enhfilt: EnhancedFilterRate::Sps20,
            order: FilterOrder::Sinc5Sinc1,
            odr: OutputDataRate::Sps250000,
        }
    }

    /// Packs the register into its 16-bit word.
    pub fn to_bits(&self) -> (r: u16)
        requires
            self.wf(),
        ensures
            r == self.spec_bits(),
    {
        ((bool_bit(self.sinc3_map) as u16) << 15u16)
            | ((bool_bit(self.enhfilten) as u16) << 11u16)
            | ((self.enhfilt.into_bits() as u16) << 8u16)
            | ((self.order.into_bits() as u16) << 5u16)
            | (self.odr.into_bits() as u16)
    }

    /// Decodes the register's 16-bit word.
    pub fn from_bits(v: u16) -> (r: Result<DefaultFilterConfigRegister, DecodeError>)
        ensures
            r == Self::spec_from_bits(v),
    {
        let enhfilt = match EnhancedFilterRate::from_bits(((v >> 8u16) & 0x7) as u8) {
            Ok(x) => x,
            Err(e) => {
                return Err(e);
            },
        };
        let order = match FilterOrder::from_bits(((v >> 5u16) & 0x3) as u8) {
            Ok(x) => x,
            Err(e) => {
                return Err(e);
            },
        };
        let odr = match OutputDataRate::from_bits((v & 0x1f) as u8) {
            Ok(x) => x,
            Err(e) => {
                return Err(e);
            },
        };
        Ok(
            DefaultFilterConfigRegister {
                sinc3_map: (v >> 15u16) & 1 == 1,
                enhfilten: (v >> 11u16) & 1 == 1,
                enhfilt,
                order,
                odr,
            },
        )
    }
}

impl Register<2> for DefaultFilterConfigRegister {
    open spec fn spec_from_buffer(raw: Seq<u8>) -> Result<DefaultFilterConfigRegister,
         DecodeError> {
        Self::spec_from_bits(spec_into_u16(raw[0], raw[1]))
    }

    fn from_buffer(raw: &[u8; 2]) -> (r: Result<DefaultFilterConfigRegister, DecodeError>) {
        Self::from_bits(into_u16(*raw))
    }
}

/// Round trip of the register word: decoding a packed value gives every
/// field back.
pub proof fn lemma_default_filter_config_bits_round_trip(r: DefaultFilterConfigRegister)
    requires
        r.wf(),
    ensures
        DefaultFilterConfigRegister::spec_from_bits(r.spec_bits()) == Ok::<DefaultFilterConfigRegister,
             DecodeError>(r),
        (r.spec_bits() >> 15) & 1 == 1 <==> r.sinc3_map,
{
    let v = r.spec_bits();
    let x0 = spec_bool_bit(r.sinc3_map);
    let x1 = spec_bool_bit(r.enhfilten);
    let x2 = r.enhfilt.spec_bits();
    let x3 = r.order.spec_bits();
    let x4 = r.odr.spec_bits();
    lemma_enhanced_filter_rate_round_trip(r.enhfilt);
    lemma_filter_order_round_trip(r.order);
    lemma_output_data_rate_round_trip(r.odr);
    assert({
        &&& (((v >> 15) & 1 == 1) == (x0 == 1))
        &&& (((v >> 11) & 1 == 1) == (x1 == 1))
        &&& (((v >> 8) & 0x7) as u8 == x2)
        &&& (((v >> 5) & 0x3) as u8 == x3)
        &&& ((v & 0x1f) as u8 == x4)
    }) by (bit_vector)
        requires
            v == ((x0 as u16) << 15) | ((x1 as u16) << 11) | ((x2 as u16) << 8)
                | ((x3 as u16) << 5) | (x4 as u16),
            x0 < 2,
            x1 < 2,
            x2 < 0x8,
            x3 < 0x4,
            x4 < 0x20,
    ;
}

impl WritableRegister<2> for DefaultFilterConfigRegister {
    open spec fn spec_wf(self) -> bool {
        self.wf()
    }

    open spec fn spec_to_buffer(self) -> Seq<u8> {
        spec_from_u16(self.spec_bits())
    }

    fn to_buffer(&self) -> (r: [u8; 2]) {
        from_u16(self.to_bits())
    }

    fn check_wf(&self) -> (r: bool) {
        !self.sinc3_map
    }

    proof fn lemma_round_trip(self) {
        lemma_default_filter_config_bits_round_trip(self);
        lemma_u16_byte_order(self.spec_bits(), 0, 0);
    }
}

// ---------------------------------------------------------------------------
// Filter configuration registers, direct-decimation layout: addresses 0x28 to 0x2b, 2 bytes, read/write.
// ---------------------------------------------------------------------------

/// Filter configuration register, direct-decimation layout: a single
/// 15-bit SINC3 decimation rate. Shares its address with the standard
/// layout; bit 15, read-only on the device, selects which layout is
/// authoritative.
///
/// Bit 15 direct-map selector (set for this layout), bits 14:0 decimation
/// rate.
#[derive(Clone, Copy, Debug, PartialEq, Eq, Structural)]
pub struct DirectSinc3MapFilterConfigRegister {
    /// Direct-map selector; always set in this layout.
    pub sinc3_map: bool,
    /// SINC3 decimation rate.
    pub decimation_rate: u16,
}

impl DirectSinc3MapFilterConfigRegister {
    /// The device's reset value.
    pub open spec fn spec_default() -> DirectSinc3MapFilterConfigRegister {
        DirectSinc3MapFilterConfigRegister {
            sinc3_map: true,
            decimation_rate: 0,
        }
    }

    /// Which values encode faithfully.
    pub open spec fn wf(self) -> bool {
        self.sinc3_map == true && self.decimation_rate < 0x8000
    }

    /// The register's 16-bit word, fields packed most-significant first.
    pub open spec fn spec_bits(self) -> u16 {
        ((spec_bool_bit(self.sinc3_map) as u16) << 15) | self.decimation_rate
    }

    /// Decoding of the register word.
    pub open spec fn spec_from_bits(v: u16) -> Result<DirectSinc3MapFilterConfigRegister,
         DecodeError> {
        Ok(
            DirectSinc3MapFilterConfigRegister {
                sinc3_map: (v >> 15) & 1 == 1,
                decimation_rate: v & 0x7fff,
            },
        )
    }

    /// A value with every field at its device reset default.
    pub fn new() -> (r: DirectSinc3MapFilterConfigRegister)
        ensures
            r == DirectSinc3MapFilterConfigRegister::spec_default(),
            r.wf(),
    {
        DirectSinc3MapFilterConfigRegister {
            sinc3_map: true,
            decimation_rate: 0,
        }
    }

    /// Packs the register into its 16-bit word.
    pub fn to_bits(&self) -> (r: u16)
        requires
            self.wf(),
        ensures
            r == self.spec_bits(),
    {
        ((bool_bit(self.sinc3_map) as u16) << 15u16) | self.decimation_rate
    }

    /// Decodes the register's 16-bit word.
    pub fn from_bits(v: u16) -> (r: Result<DirectSinc3MapFilterConfigRegister, DecodeError>)
        ensures
            r == Self::spec_from_bits(v),
            r is Ok,
    {
        Ok(
            DirectSinc3MapFilterConfigRegister {
                sinc3_map: (v >> 15u16) & 1 == 1,
                decimation_rate: v & 0x7fff,
            },
        )
    }
}

impl Register<2> for DirectSinc3MapFilterConfigRegister {
    open spec fn spec_from_buffer(raw: Seq<u8>) -> Result<DirectSinc3MapFilterConfigRegister,
         DecodeError> {
        Self::spec_from_bits(spec_into_u16(raw[0], raw[1]))
    }

    fn from_buffer(raw: &[u8; 2]) -> (r: Result<DirectSinc3MapFilterConfigRegister, DecodeError>) {
        Self::from_bits(into_u16(*raw))
    }
}

/// Round trip of the register word: decoding a packed value gives every
/// field back.
pub proof fn lemma_direct_sinc3_map_filter_config_bits_round_trip(r: DirectSinc3MapFilterConfigRegister)
    requires
        r.wf(),
    ensures
        DirectSinc3MapFilterConfigRegister::spec_from_bits(r.spec_bits()) == Ok::<DirectSinc3MapFilterConfigRegister,
             DecodeError>(r),
        (r.spec_bits() >> 15) & 1 == 1 <==> r.sinc3_map,
{
    let v = r.spec_bits();
    let x0 = spec_bool_bit(r.sinc3_map);
    let x1 = r.decimation_rate;
    assert({
        &&& (((v >> 15) & 1 == 1) == (x0 == 1))
        &&& (v & 0x7fff == x1)
    }) by (bit_vector)
        requires
            v == ((x0 as u16) << 15) | x1,
            x0 < 2,
            x1 < 0x8000,
    ;
}

impl WritableRegister<2> for DirectSinc3MapFilterConfigRegister {
    open spec fn spec_wf(self) -> bool {
        self.wf()
    }

    open spec fn spec_to_buffer(self) -> Seq<u8> {
        spec_from_u16(self.spec_bits())
    }

    fn to_buffer(&self) -> (r: [u8; 2]) {
        from_u16(self.to_bits())
    }

    fn check_wf(&self) -> (r: bool) {
        self.sinc3_map && self.decimation_rate < 0x8000
    }

    proof fn lemma_round_trip(self) {
        lemma_direct_sinc3_map_filter_config_bits_round_trip(self);
        lemma_u16_byte_order(self.spec_bits(), 0, 0);
    }
}


// ---------------------------------------------------------------------------
// Two-step decode: branch on the selector bit, then interpret one layout.
// ---------------------------------------------------------------------------

/// A filter configuration word interpreted under the layout its selector
/// bit declares authoritative. Only this form is exposed to callers;
/// neither layout is meaningful on its own without the selector.
#[derive(Clone, Copy, Debug, PartialEq, Eq, Structural)]
pub enum FilterConfig {
    /// Bit 15 clear: the standard layout applies.
    Default(DefaultFilterConfigRegister),
    /// Bit 15 set: the direct-decimation layout applies.
    DirectSinc3Map(DirectSinc3MapFilterConfigRegister),
}

/// Decoding of a filter configuration buffer: the raw word first, then,
/// depending on its selector bit, exactly one of the two layouts.
pub open spec fn spec_decode_filter_config(raw: Seq<u8>) -> Result<FilterConfig, DecodeError> {
    let v = spec_into_u16(raw[0], raw[1]);
    if (v >> 15) & 1 == 1 {
        match DirectSinc3MapFilterConfigRegister::spec_from_bits(v) {
            Err(e) => Err(e),
            Ok(d) => Ok(FilterConfig::DirectSinc3Map(d)),
        }
    } else {
        match DefaultFilterConfigRegister::spec_from_bits(v) {
            Err(e) => Err(e),
            Ok(d) => Ok(FilterConfig::Default(d)),
        }
    }
}

/// Decodes the payload bytes of a filter configuration read, reinterpreting
/// the word under the direct-decimation layout whenever bit 15 is set.
pub fn decode_filter_config(raw: &[u8; 2]) -> (r: Result<FilterConfig, DecodeError>)
    ensures
        r == spec_decode_filter_config(raw@),
{
    let v = into_u16(*raw);
    if (v >> 15u16) & 1 == 1 {
        match DirectSinc3MapFilterConfigRegister::from_bits(v) {
            Err(e) => Err(e),
            Ok(d) => Ok(FilterConfig::DirectSinc3Map(d)),
        }
    } else {
        match DefaultFilterConfigRegister::from_bits(v) {
            Err(e) => Err(e),
            Ok(d) => Ok(FilterConfig::Default(d)),
        }
    }
}

/// The selector bit decides the layout: a successful decode yields the
/// direct-decimation form exactly when bit 15 of the raw word is set, and
/// the value it yields carries that same selector.
pub proof fn lemma_filter_selector(raw: Seq<u8>)
    ensures
        spec_decode_filter_config(raw) matches Ok(c) ==> {
            &&& c is DirectSinc3Map <==> (spec_into_u16(raw[0], raw[1]) >> 15) & 1 == 1
            &&& c matches FilterConfig::DirectSinc3Map(d) ==> d.sinc3_map
            &&& c matches FilterConfig::Default(d) ==> !d.sinc3_map
        },
{
    let v = spec_into_u16(raw[0], raw[1]);
    if (v >> 15) & 1 == 1 {
        assert((v >> 15) & 1 == 1 ==> v >> 15 == 1) by (bit_vector);
    }
}

/// Round trip through the two-step decoder, standard layout: a well-formed
/// value has its selector bit clear, so its encoding decodes under the
/// standard layout to the value itself.
pub proof fn lemma_filter_config_round_trip_default(r: DefaultFilterConfigRegister)
    requires
        r.wf(),
    ensures
        spec_decode_filter_config(r.spec_to_buffer()) == Ok::<FilterConfig, DecodeError>(
            FilterConfig::Default(r),
        ),
{
    lemma_default_filter_config_bits_round_trip(r);
    lemma_u16_byte_order(r.spec_bits(), 0, 0);
}

/// Round trip through the two-step decoder, direct-decimation layout: a
/// well-formed value has its selector bit set, so its encoding decodes
/// under the direct-decimation layout to the value itself.
pub proof fn lemma_filter_config_round_trip_direct(r: DirectSinc3MapFilterConfigRegister)
    requires
        r.wf(),
    ensures
        spec_decode_filter_config(r.spec_to_buffer()) == Ok::<FilterConfig, DecodeError>(
            FilterConfig::DirectSinc3Map(r),
        ),
{
    lemma_direct_sinc3_map_filter_config_bits_round_trip(r);
    lemma_u16_byte_order(r.spec_bits(), 0, 0);
}

// ---------------------------------------------------------------------------
// Per-address constructors.
// ---------------------------------------------------------------------------

/// Filter configuration at address 0x28, for setup 0.
pub struct FilterConfig0Register;

/// Filter configuration at address 0x29, for setup 1.
pub struct FilterConfig1Register;

/// Filter configuration at address 0x2a, for setup 2.
pub struct FilterConfig2Register;

/// Filter configuration at address 0x2b, for setup 3.
pub struct FilterConfig3Register;

impl FilterConfig0Register {
    /// A standard-layout value at its device reset default.
    pub fn new_default() -> (r: DefaultFilterConfigRegister)
        ensures
            r == DefaultFilterConfigRegister::spec_default(),
            r.wf(),
    {
        DefaultFilterConfigRegister::new()
    }

    /// A direct-decimation value at its device reset default.
    pub fn new_direct_sinc3_map() -> (r: DirectSinc3MapFilterConfigRegister)
        ensures
            r == DirectSinc3MapFilterConfigRegister::spec_default(),
            r.wf(),
    {
        DirectSinc3MapFilterConfigRegister::new()
    }
}

impl FilterConfig1Register {
    /// A standard-layout value at its device reset default.
    pub fn new_default() -> (r: DefaultFilterConfigRegister)
        ensures
            r == DefaultFilterConfigRegister::spec_default(),
            r.wf(),
    {
        DefaultFilterConfigRegister::new()
    }

    /// A direct-decimation value at its device reset default.
    pub fn new_direct_sinc3_map() -> (r: DirectSinc3MapFilterConfigRegister)
        ensures
            r == DirectSinc3MapFilterConfigRegister::spec_default(),
            r.wf(),
    {
        DirectSinc3MapFilterConfigRegister::new()
    }
}

impl FilterConfig2Register {
    /// A standard-layout value at its device reset default.
    pub fn new_default() -> (r: DefaultFilterConfigRegister)
        ensures
            r == DefaultFilterConfigRegister::spec_default(),
            r.wf(),
    {
        DefaultFilterConfigRegister::new()
    }

    /// A direct-decimation value at its device reset default.
    pub fn new_direct_sinc3_map() -> (r: DirectSinc3MapFilterConfigRegister)
        ensures
            r == DirectSinc3MapFilterConfigRegister::spec_default(),
            r.wf(),
    {
        DirectSinc3MapFilterConfigRegister::new()
    }
}

impl FilterConfig3Register {
    /// A standard-layout value at its device reset default.
    pub fn new_default() -> (r: DefaultFilterConfigRegister)
        ensures
            r == DefaultFilterConfigRegister::spec_default(),
            r.wf(),
    {
        DefaultFilterConfigRegister::new()
    }

    /// A direct-decimation value at its device reset default.
    pub fn new_direct_sinc3_map() -> (r: DirectSinc3MapFilterConfigRegister)
        ensures
            r == DirectSinc3MapFilterConfigRegister::spec_default(),
            r.wf(),
    {
        DirectSinc3MapFilterConfigRegister::new()
    }
}








/// The raw field values of a standard filter configuration word, in declaration
/// order, reserved padding included.
pub open spec fn default_filter_config_field_values(r: DefaultFilterConfigRegister) -> Seq<nat> {
    seq![spec_bool_bit(r.sinc3_map) as nat, 0nat, spec_bool_bit(r.enhfilten) as nat,
        r.enhfilt.spec_bits() as nat, 0nat, r.order.spec_bits() as nat,
        r.odr.spec_bits() as nat]
}

/// The typed codec agrees with the field-packing model: the register word
/// is exactly the catalog layout's field values packed MSB-first.
pub proof fn lemma_default_filter_config_packs_catalog_layout(r: DefaultFilterConfigRegister)
    ensures
        r.spec_bits() == pack_fields(default_filter_config_field_widths(),
            default_filter_config_field_values(r)),
{
    let ws = default_filter_config_field_widths();
    let vs = default_filter_config_field_values(r);
    assert(vs =~= seq![spec_bool_bit(r.sinc3_map) as nat, 0nat,
        spec_bool_bit(r.enhfilten) as nat, r.enhfilt.spec_bits() as nat, 0nat,
        r.order.spec_bits() as nat, r.odr.spec_bits() as nat]);
    let x0 = spec_bool_bit(r.sinc3_map);
    let x1 = spec_bool_bit(r.enhfilten);
    let x2 = r.enhfilt.spec_bits();
    let x3 = r.order.spec_bits();
    let x4 = r.odr.spec_bits();
    lemma_enhanced_filter_rate_round_trip(r.enhfilt);
    lemma_filter_order_round_trip(r.order);
    lemma_output_data_rate_round_trip(r.odr);
    vstd::arithmetic::power2::lemma2_to64();
    let ws1: Seq<u8> = seq![3u8, 1, 3, 1, 2, 5];
    let vs1: Seq<nat> = seq![0nat, spec_bool_bit(r.enhfilten) as nat,
        r.enhfilt.spec_bits() as nat, 0nat, r.order.spec_bits() as nat,
        r.odr.spec_bits() as nat];
    assert(ws.drop_first() =~= ws1);
    assert(vs.drop_first() =~= vs1);
    let ws2: Seq<u8> = seq![1u8, 3, 1, 2, 5];
    let vs2: Seq<nat> = seq![spec_bool_bit(r.enhfilten) as nat, r.enhfilt.spec_bits() as nat,
        0nat, r.order.spec_bits() as nat, r.odr.spec_bits() as nat];
    assert(ws1.drop_first() =~= ws2);
    assert(vs1.drop_first() =~= vs2);
    let ws3: Seq<u8> = seq![3u8, 1, 2, 5];
    let vs3: Seq<nat> = seq![r.enhfilt.spec_bits() as nat, 0nat, r.order.spec_bits() as nat,
        r.odr.spec_bits() as nat];
    assert(ws2.drop_first() =~= ws3);
    assert(vs2.drop_first() =~= vs3);
    let ws4: Seq<u8> = seq![1u8, 2, 5];
    let vs4: Seq<nat> = seq![0nat, r.order.spec_bits() as nat, r.odr.spec_bits() as nat];
    assert(ws3.drop_first() =~= ws4);
    assert(vs3.drop_first() =~= vs4);
    let ws5: Seq<u8> = seq![2u8, 5];
    let vs5: Seq<nat> = seq![r.order.spec_bits() as nat, r.odr.spec_bits() as nat];
    assert(ws4.drop_first() =~= ws5);
    assert(vs4.drop_first() =~= vs5);
    let ws6: Seq<u8> = seq![5u8];
    let vs6: Seq<nat> = seq![r.odr.spec_bits() as nat];
    assert(ws5.drop_first() =~= ws6);
    assert(vs5.drop_first() =~= vs6);
    let ws7: Seq<u8> = Seq::<u8>::empty();
    let vs7: Seq<nat> = Seq::<nat>::empty();
    assert(ws6.drop_first() =~= ws7);
    assert(vs6.drop_first() =~= vs7);
    assert(width_sum(ws7) == 0);
    assert(pack_fields(ws7, vs7) == 0);
    assert(ws6[0] == 5 && vs6[0] == r.odr.spec_bits() as nat);
    assert(width_sum(ws6) == 5);
    assert(pow2(width_sum(ws7)) == 0x1);
    assert(pack_fields(ws6, vs6) == vs6[0] * pow2(width_sum(ws7)) + pack_fields(ws7, vs7));
    assert(vs6[0] * 1 == vs6[0]);
    assert(pack_fields(ws6, vs6) == x4);
    assert(ws5[0] == 2 && vs5[0] == r.order.spec_bits() as nat);
    assert(width_sum(ws5) == 7);
    assert(pow2(width_sum(ws6)) == 0x20);
    assert(pack_fields(ws5, vs5) == vs5[0] * pow2(width_sum(ws6)) + pack_fields(ws6, vs6));
    assert(pack_fields(ws5, vs5) == x3 * 0x20 + x4);
    assert(ws4[0] == 1 && vs4[0] == 0nat);
    assert(width_sum(ws4) == 8);
    assert(pow2(width_sum(ws5)) == 0x80);
    assert(pack_fields(ws4, vs4) == vs4[0] * pow2(width_sum(ws5)) + pack_fields(ws5, vs5));
    assert(pack_fields(ws4, vs4) == x3 * 0x20 + x4);
    assert(ws3[0] == 3 && vs3[0] == r.enhfilt.spec_bits() as nat);
    assert(width_sum(ws3) == 11);
    assert(pow2(width_sum(ws4)) == 0x100);
    assert(pack_fields(ws3, vs3) == vs3[0] * pow2(width_sum(ws4)) + pack_fields(ws4, vs4));
    assert(pack_fields(ws3, vs3) == x2 * 0x100 + x3 * 0x20 + x4);
    assert(ws2[0] == 1 && vs2[0] == spec_bool_bit(r.enhfilten) as nat);
    assert(width_sum(ws2) == 12);
    assert(pow2(width_sum(ws3)) == 0x800);
    assert(pack_fields(ws2, vs2) == vs2[0] * pow2(width_sum(ws3)) + pack_fields(ws3, vs3));
    assert(pack_fields(ws2, vs2) == x1 * 0x800 + x2 * 0x100 + x3 * 0x20 + x4);
    assert(ws1[0] == 3 && vs1[0] == 0nat);
    assert(width_sum(ws1) == 15);
    assert(pow2(width_sum(ws2)) == 0x1000);
    assert(pack_fields(ws1, vs1) == vs1[0] * pow2(width_sum(ws2)) + pack_fields(ws2, vs2));
    assert(pack_fields(ws1, vs1) == x1 * 0x800 + x2 * 0x100 + x3 * 0x20 + x4);
    assert(ws[0] == 1 && vs[0] == spec_bool_bit(r.sinc3_map) as nat);
    assert(width_sum(ws) == 16);
    assert(pow2(width_sum(ws1)) == 0x8000);
    assert(pack_fields(ws, vs) == vs[0] * pow2(width_sum(ws1)) + pack_fields(ws1, vs1));
    assert(pack_fields(ws, vs) == x0 * 0x8000 + x1 * 0x800 + x2 * 0x100 + x3 * 0x20 + x4);
    let v = r.spec_bits();
    assert(v == x0 * 0x8000 + x1 * 0x800 + x2 * 0x100 + x3 * 0x20 + x4) by (bit_vector)
        requires
            v == ((x0 as u16) << 15) | ((x1 as u16) << 11) | ((x2 as u16) << 8)
                | ((x3 as u16) << 5) | (x4 as u16),
            x0 < 2,
            x1 < 2,
            x2 < 0x8,
            x3 < 0x4,
            x4 < 0x20,
    ;

}


/// The raw field values of a direct-decimation filter configuration word, in declaration
/// order, reserved padding included.
pub open spec fn direct_sinc3_map_filter_config_field_values(r: DirectSinc3MapFilterConfigRegister) -> Seq<nat> {
    seq![spec_bool_bit(r.sinc3_map) as nat, r.decimation_rate as nat]
}

/// The typed codec agrees with the field-packing model: the register word
/// is exactly the catalog layout's field values packed MSB-first.
pub proof fn lemma_direct_sinc3_map_filter_config_packs_catalog_layout(r: DirectSinc3MapFilterConfigRegister)
    requires
        r.wf(),
    ensures
        r.spec_bits() == pack_fields(direct_sinc3_map_filter_config_field_widths(),
            direct_sinc3_map_filter_config_field_values(r)),
{
    let ws = direct_sinc3_map_filter_config_field_widths();
    let vs = direct_sinc3_map_filter_config_field_values(r);
    assert(vs =~= seq![spec_bool_bit(r.sinc3_map) as nat, r.decimation_rate as nat]);
    let x0 = spec_bool_bit(r.sinc3_map);
    let x1 = r.decimation_rate;
    vstd::arithmetic::power2::lemma2_to64();
    let ws1: Seq<u8> = seq![15u8];
    let vs1: Seq<nat> = seq![r.decimation_rate as nat];
    assert(ws.drop_first() =~= ws1);
    assert(vs.drop_first() =~= vs1);
    let ws2: Seq<u8> = Seq::<u8>::empty();
    let vs2: Seq<nat> = Seq::<nat>::empty();
    assert(ws1.drop_first() =~= ws2);
    assert(vs1.drop_first() =~= vs2);
    assert(width_sum(ws2) == 0);
    assert(pack_fields(ws2, vs2) == 0);
    assert(ws1[0] == 15 && vs1[0] == r.decimation_rate as nat);
    assert(width_sum(ws1) == 15);
    assert(pow2(width_sum(ws2)) == 0x1);
    assert(pack_fields(ws1, vs1) == vs1[0] * pow2(width_sum(ws2)) + pack_fields(ws2, vs2));
    assert(vs1[0] * 1 == vs1[0]);
    assert(pack_fields(ws1, vs1) == x1);
    assert(ws[0] == 1 && vs[0] == spec_bool_bit(r.sinc3_map) as nat);
    assert(width_sum(ws) == 16);
    assert(pow2(width_sum(ws1)) == 0x8000);
    assert(pack_fields(ws, vs) == vs[0] * pow2(width_sum(ws1)) + pack_fields(ws1, vs1));
    assert(pack_fields(ws, vs) == x0 * 0x8000 + x1);
    let v = r.spec_bits();
    assert(v == x0 * 0x8000 + x1) by (bit_vector)
        requires
            v == ((x0 as u16) << 15) | x1,
            x0 < 2,
            x1 < 0x8000,
    ;

}

} // verus!
