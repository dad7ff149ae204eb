//! Register catalog: one descriptor per physical register instance.
//!
//! A descriptor pairs a register's bus address with its byte width, its
//! direction capability and the declared widths of its fields, reserved
//! padding included. The catalog enumerates every register of the chip,
//! with one entry per repeated channel, setup, filter, offset and gain
//! slot, and one entry for each of the two layouts sharing the filter
//! configuration addresses and for each interpretation of the data
//! address. Every entry satisfies the width invariant: its field widths
//! sum to exactly eight times its byte width.

use vstd::prelude::*;
use crate::codec::width_sum;

verus! {

/// Direction capability of a register: whether the bus may only read it,
/// or both read and write it.
#[derive(Clone, Copy, Debug, PartialEq, Eq, Structural)]
pub enum Access {
    ReadOnly,
    ReadWrite,
}

/// The static description of one physical register: address code, byte
/// width, direction capability and declared field widths.
#[derive(Debug)]
pub struct RegisterDescriptor {
    /// Bus address code; only the low six bits are significant.
    pub address: u8,
    /// Payload width on the bus, in bytes.
    pub width: u8,
    /// Direction capability.
    pub access: Access,
    /// Declared bit widths of the fields, reserved padding included,
    /// most-significant field first.
    pub field_widths: Vec<u8>,
}

impl RegisterDescriptor {
    /// The descriptor invariant: a six-bit address, a byte width the bus
    /// protocol supports, and field widths that account for every bit of
    /// the register, so that the sum is exactly the width in bits.
    pub open spec fn wf(self) -> bool {
        &&& self.address <= 0x3f
        &&& 1 <= self.width <= 4
        &&& width_sum(self.field_widths@) == 8 * self.width
        &&& forall|i: int|
            0 <= i < self.field_widths@.len() ==> 1 <= #[trigger] self.field_widths@[i] <= 24
    }
}

/// Appending a field extends the width sum by the field's width.
proof fn lemma_width_sum_push(s: Seq<u8>, x: u8)
    ensures
        width_sum(s.push(x)) == width_sum(s) + x,
    decreases s.len(),
{
    assert(s.push(x).len() == s.len() + 1);
    assert(width_sum(s.push(x)) == s.push(x)[0] + width_sum(s.push(x).drop_first()));
    if s.len() == 0 {
        assert(s.push(x)[0] == x);
        assert(s.push(x).drop_first() =~= Seq::<u8>::empty());
        assert(width_sum(Seq::<u8>::empty()) == 0);
    } else {
        assert(s.push(x)[0] == s[0]);
        assert(s.push(x).drop_first() =~= s.drop_first().push(x));
        lemma_width_sum_push(s.drop_first(), x);
        assert(width_sum(s) == s[0] + width_sum(s.drop_first()));
    }
}

/// Appends one field width to a layout under construction.
fn push_field(f: &mut Vec<u8>, w: u8)
    ensures
        final(f)@ == old(f)@.push(w),
        width_sum(final(f)@) == width_sum(old(f)@) + w,
{
    proof {
        lemma_width_sum_push(f@, w);
    }
    f.push(w);
}

/// The declared field widths of the status layout,
/// reserved padding included, most-significant field first.
pub open spec fn status_field_widths() -> Seq<u8> {
    seq![1u8, 1, 1, 1, 2, 2]
}

/// The declared field widths of the ADC mode layout,
/// reserved padding included, most-significant field first.
pub open spec fn adc_mode_field_widths() -> Seq<u8> {
    seq![1u8, 1, 1, 2, 3, 1, 3, 2, 2]
}

/// The declared field widths of the interface mode layout,
/// reserved padding included, most-significant field first.
pub open spec fn interface_mode_field_widths() -> Seq<u8> {
    seq![3u8, 1, 1, 2, 1, 1, 1, 1, 1, 2, 1, 1]
}

/// The declared field widths of the register check layout,
/// reserved padding included, most-significant field first.
pub open spec fn register_check_field_widths() -> Seq<u8> {
    seq![24u8]
}

/// The declared field widths of the data layout,
/// reserved padding included, most-significant field first.
pub open spec fn data_field_widths() -> Seq<u8> {
    seq![24u8]
}

/// The declared field widths of the data and status layout,
/// reserved padding included, most-significant field first.
pub open spec fn data_and_status_field_widths() -> Seq<u8> {
    seq![24u8, 8]
}

/// The declared field widths of the GPIO configuration layout,
/// reserved padding included, most-significant field first.
pub open spec fn gpio_config_field_widths() -> Seq<u8> {
    seq![3u8, 1, 1, 2, 1, 2, 1, 1, 1, 1, 1, 1]
}

/// The declared field widths of the id layout,
/// reserved padding included, most-significant field first.
pub open spec fn id_field_widths() -> Seq<u8> {
    seq![16u8]
}

/// The declared field widths of the channel layout,
/// reserved padding included, most-significant field first.
pub open spec fn channel_field_widths() -> Seq<u8> {
    seq![1u8, 1, 2, 2, 5, 5]
}

/// The declared field widths of the setup configuration layout,
/// reserved padding included, most-significant field first.
pub open spec fn setup_config_field_widths() -> Seq<u8> {
    seq![3u8, 1, 1, 1, 1, 1, 1, 1, 2, 4]
}

/// The declared field widths of the standard filter configuration layout,
/// reserved padding included, most-significant field first.
pub open spec fn default_filter_config_field_widths() -> Seq<u8> {
    seq![1u8, 3, 1, 3, 1, 2, 5]
}

/// The declared field widths of the direct-decimation filter configuration layout,
/// reserved padding included, most-significant field first.
pub open spec fn direct_sinc3_map_filter_config_field_widths() -> Seq<u8> {
    seq![1u8, 15]
}

/// The declared field widths of the offset layout,
/// reserved padding included, most-significant field first.
pub open spec fn offset_field_widths() -> Seq<u8> {
    seq![24u8]
}

/// The declared field widths of the gain layout,
/// reserved padding included, most-significant field first.
pub open spec fn gain_field_widths() -> Seq<u8> {
    seq![24u8]
}

/// The catalog entry of the status register.
pub fn status_descriptor() -> (d: RegisterDescriptor)
    ensures
        d.address == 0x00,
        d.width == 1,
        d.access == Access::ReadOnly,
        d.field_widths@ == status_field_widths(),
        d.wf(),
{
    let mut f: Vec<u8> = Vec::new();
    push_field(&mut f, 1);
    push_field(&mut f, 1);
    push_field(&mut f, 1);
    push_field(&mut f, 1);
    push_field(&mut f, 2);
    push_field(&mut f, 2);
    proof {
        assert(f@ =~= status_field_widths());
    }
    RegisterDescriptor { address: 0x00, width: 1, access: Access::ReadOnly, field_widths: f }
}

/// The catalog entry of the ADC mode register.
pub fn adc_mode_descriptor() -> (d: RegisterDescriptor)
    ensures
        d.address == 0x01,
        d.width == 2,
        d.access == Access::ReadWrite,
        d.field_widths@ == adc_mode_field_widths(),
        d.wf(),
{
    let mut f: Vec<u8> = Vec::new();
    push_field(&mut f, 1);
    push_field(&mut f, 1);
    push_field(&mut f, 1);
    push_field(&mut f, 2);
    push_field(&mut f, 3);
    push_field(&mut f, 1);
    push_field(&mut f, 3);
    push_field(&mut f, 2);
    push_field(&mut f, 2);
    proof {
        assert(f@ =~= adc_mode_field_widths());
    }
    RegisterDescriptor { address: 0x01, width: 2, access: Access::ReadWrite, field_widths: f }
}

/// The catalog entry of the interface mode register.
pub fn interface_mode_descriptor() -> (d: RegisterDescriptor)
    ensures
        d.address == 0x02,
        d.width == 2,
        d.access == Access::ReadWrite,
        d.field_widths@ == interface_mode_field_widths(),
        d.wf(),
{
    let mut f: Vec<u8> = Vec::new();
    push_field(&mut f, 3);
    push_field(&mut f, 1);
    push_field(&mut f, 1);
    push_field(&mut f, 2);
    push_field(&mut f, 1);
    push_field(&mut f, 1);
    push_field(&mut f, 1);
    push_field(&mut f, 1);
    push_field(&mut f, 1);
    push_field(&mut f, 2);
    push_field(&mut f, 1);
    push_field(&mut f, 1);
    proof {
        assert(f@ =~= interface_mode_field_widths());
    }
    RegisterDescriptor { address: 0x02, width: 2, access: Access::ReadWrite, field_widths: f }
}

/// The catalog entry of the register check register.
pub fn register_check_descriptor() -> (d: RegisterDescriptor)
    ensures
        d.address == 0x03,
        d.width == 3,
        d.access == Access::ReadOnly,
        d.field_widths@ == register_check_field_widths(),
        d.wf(),
{
    let mut f: Vec<u8> = Vec::new();
    push_field(&mut f, 24);
    proof {
        assert(f@ =~= register_check_field_widths());
    }
    RegisterDescriptor { address: 0x03, width: 3, access: Access::ReadOnly, field_widths: f }
}

/// The catalog entry of the data register.
pub fn data_descriptor() -> (d: RegisterDescriptor)
    ensures
        d.address == 0x04,
        d.width == 3,
        d.access == Access::ReadOnly,
        d.field_widths@ == data_field_widths(),
        d.wf(),
{
    let mut f: Vec<u8> = Vec::new();
    push_field(&mut f, 24);
    proof {
        assert(f@ =~= data_field_widths());
    }
    RegisterDescriptor { address: 0x04, width: 3, access: Access::ReadOnly, field_widths: f }
}

/// The catalog entry of the data and status register, the alternate interpretation
/// of the data register's address.
pub fn data_and_status_descriptor() -> (d: RegisterDescriptor)
    ensures
        d.address == 0x04,
        d.width == 4,
        d.access == Access::ReadOnly,
        d.field_widths@ == data_and_status_field_widths(),
        d.wf(),
{
    let mut f: Vec<u8> = Vec::new();
    push_field(&mut f, 24);
    push_field(&mut f, 8);
    proof {
        assert(f@ =~= data_and_status_field_widths());
    }
    RegisterDescriptor { address: 0x04, width: 4, access: Access::ReadOnly, field_widths: f }
}

/// The catalog entry of the GPIO configuration register.
pub fn gpio_config_descriptor() -> (d: RegisterDescriptor)
    ensures
        d.address == 0x06,
        d.width == 2,
        d.access == Access::ReadWrite,
        d.field_widths@ == gpio_config_field_widths(),
        d.wf(),
{
    let mut f: Vec<u8> = Vec::new();
    push_field(&mut f, 3);
    push_field(&mut f, 1);
    push_field(&mut f, 1);
    push_field(&mut f, 2);
    push_field(&mut f, 1);
    push_field(&mut f, 2);
    push_field(&mut f, 1);
    push_field(&mut f, 1);
    push_field(&mut f, 1);
    push_field(&mut f, 1);
    push_field(&mut f, 1);
    push_field(&mut f, 1);
    proof {
        assert(f@ =~= gpio_config_field_widths());
    }
    RegisterDescriptor { address: 0x06, width: 2, access: Access::ReadWrite, field_widths: f }
}

/// The catalog entry of the id register.
pub fn id_descriptor() -> (d: RegisterDescriptor)
    ensures
        d.address == 0x07,
        d.width == 2,
        d.access == Access::ReadOnly,
        d.field_widths@ == id_field_widths(),
        d.wf(),
{
    let mut f: Vec<u8> = Vec::new();
    push_field(&mut f, 16);
    proof {
        assert(f@ =~= id_field_widths());
    }
    RegisterDescriptor { address: 0x07, width: 2, access: Access::ReadOnly, field_widths: f }
}

/// The catalog entry of channel register `i`.
pub fn channel_descriptor(i: u8) -> (d: RegisterDescriptor)
    requires
        i < 4,
    ensures
        d.address == 0x10 + i,
        d.width == 2,
        d.access == Access::ReadWrite,
        d.field_widths@ == channel_field_widths(),
        d.wf(),
{
    let mut f: Vec<u8> = Vec::new();
    push_field(&mut f, 1);
    push_field(&mut f, 1);
    push_field(&mut f, 2);
    push_field(&mut f, 2);
    push_field(&mut f, 5);
    push_field(&mut f, 5);
    proof {
        assert(f@ =~= channel_field_widths());
    }
    RegisterDescriptor { address: 0x10 + i, width: 2, access: Access::ReadWrite, field_widths: f }
}

/// The catalog entry of setup configuration register `i`.
pub fn setup_config_descriptor(i: u8) -> (d: RegisterDescriptor)
    requires
        i < 4,
    ensures
        d.address == 0x20 + i,
        d.width == 2,
        d.access == Access::ReadWrite,
        d.field_widths@ == setup_config_field_widths(),
        d.wf(),
{
    let mut f: Vec<u8> = Vec::new();
    push_field(&mut f, 3);
    push_field(&mut f, 1);
    push_field(&mut f, 1);
    push_field(&mut f, 1);
    push_field(&mut f, 1);
    push_field(&mut f, 1);
    push_field(&mut f, 1);
    push_field(&mut f, 1);
    push_field(&mut f, 2);
    push_field(&mut f, 4);
    proof {
        assert(f@ =~= setup_config_field_widths());
    }
    RegisterDescriptor { address: 0x20 + i, width: 2, access: Access::ReadWrite, field_widths: f }
}

/// The catalog entry of filter configuration register `i`, standard layout.
pub fn default_filter_config_descriptor(i: u8) -> (d: RegisterDescriptor)
    requires
        i < 4,
    ensures
        d.address == 0x28 + i,
        d.width == 2,
        d.access == Access::ReadWrite,
        d.field_widths@ == default_filter_config_field_widths(),
        d.wf(),
{
    let mut f: Vec<u8> = Vec::new();
    push_field(&mut f, 1);
    push_field(&mut f, 3);
    push_field(&mut f, 1);
    push_field(&mut f, 3);
    push_field(&mut f, 1);
    push_field(&mut f, 2);
    push_field(&mut f, 5);
    proof {
        assert(f@ =~= default_filter_config_field_widths());
    }
    RegisterDescriptor { address: 0x28 + i, width: 2, access: Access::ReadWrite, field_widths: f }
}

/// The catalog entry of filter configuration register `i`, direct-decimation
/// layout, at the same address as the standard layout.
pub fn direct_sinc3_map_filter_config_descriptor(i: u8) -> (d: RegisterDescriptor)
    requires
        i < 4,
    ensures
        d.address == 0x28 + i,
        d.width == 2,
        d.access == Access::ReadWrite,
        d.field_widths@ == direct_sinc3_map_filter_config_field_widths(),
        d.wf(),
{
    let mut f: Vec<u8> = Vec::new();
    push_field(&mut f, 1);
    push_field(&mut f, 15);
    proof {
        assert(f@ =~= direct_sinc3_map_filter_config_field_widths());
    }
    RegisterDescriptor { address: 0x28 + i, width: 2, access: Access::ReadWrite, field_widths: f }
}

/// The catalog entry of offset register `i`.
pub fn offset_descriptor(i: u8) -> (d: RegisterDescriptor)
    requires
        i < 4,
    ensures
        d.address == 0x30 + i,
        d.width == 3,
        d.access == Access::ReadWrite,
        d.field_widths@ == offset_field_widths(),
        d.wf(),
{
    let mut f: Vec<u8> = Vec::new();
    push_field(&mut f, 24);
    proof {
        assert(f@ =~= offset_field_widths());
    }
    RegisterDescriptor { address: 0x30 + i, width: 3, access: Access::ReadWrite, field_widths: f }
}

/// The catalog entry of gain register `i`.
pub fn gain_descriptor(i: u8) -> (d: RegisterDescriptor)
    requires
        i < 4,
    ensures
        d.address == 0x38 + i,
        d.width == 3,
        d.access == Access::ReadWrite,
        d.field_widths@ == gain_field_widths(),
        d.wf(),
{
    let mut f: Vec<u8> = Vec::new();
    push_field(&mut f, 24);
    proof {
        assert(f@ =~= gain_field_widths());
    }
    RegisterDescriptor { address: 0x38 + i, width: 3, access: Access::ReadWrite, field_widths: f }
}

/// The bus address of catalog entry `i`.
pub open spec fn spec_catalog_address(i: int) -> u8 {
    if i == 0 {
        0x00
    } else if i == 1 {
        0x01
    } else if i == 2 {
        0x02
    } else if i == 3 {
        0x03
    } else if i == 4 || i == 5 {
        0x04
    } else if i == 6 {
        0x06
    } else if i == 7 {
        0x07
    } else if 8 <= i < 12 {
        (0x10 + i - 8) as u8
    } else if 12 <= i < 16 {
        (0x20 + i - 12) as u8
    } else if 16 <= i < 20 {
        (0x28 + i - 16) as u8
    } else if 20 <= i < 24 {
        (0x28 + i - 20) as u8
    } else if 24 <= i < 28 {
        (0x30 + i - 24) as u8
    } else {
        (0x38 + i - 28) as u8
    }
}

/// The byte width of catalog entry `i`.
pub open spec fn spec_catalog_width(i: int) -> u8 {
    if i == 0 {
        1
    } else if i == 3 || i == 4 || 24 <= i < 32 {
        3
    } else if i == 5 {
        4
    } else {
        2
    }
}

/// The direction capability of catalog entry `i`.
pub open spec fn spec_catalog_access(i: int) -> Access {
    if i == 0 || 3 <= i < 6 || i == 7 {
        Access::ReadOnly
    } else {
        Access::ReadWrite
    }
}

/// The declared field widths of catalog entry `i`.
pub open spec fn spec_catalog_fields(i: int) -> Seq<u8> {
    if i == 0 {
        status_field_widths()
    } else if i == 1 {
        adc_mode_field_widths()
    } else if i == 2 {
        interface_mode_field_widths()
    } else if i == 3 {
        register_check_field_widths()
    } else if i == 4 {
        data_field_widths()
    } else if i == 5 {
        data_and_status_field_widths()
    } else if i == 6 {
        gpio_config_field_widths()
    } else if i == 7 {
        id_field_widths()
    } else if 8 <= i < 12 {
        channel_field_widths()
    } else if 12 <= i < 16 {
        setup_config_field_widths()
    } else if 16 <= i < 20 {
        default_filter_config_field_widths()
    } else if 20 <= i < 24 {
        direct_sinc3_map_filter_config_field_widths()
    } else if 24 <= i < 28 {
        offset_field_widths()
    } else {
        gain_field_widths()
    }
}

/// The complete catalog, one entry per physical register instance, in
/// address order; the two layouts of each filter configuration address and
/// the two interpretations of the data address appear as separate entries.
/// Every entry is well formed, and entry `i` carries exactly the address,
/// width, capability and field widths the catalog declares for it.
pub fn catalog() -> (r: Vec<RegisterDescriptor>)
    ensures
        r@.len() == 32,
        forall|i: int| 0 <= i < 32 ==> (#[trigger] r@[i]).wf(),
        forall|i: int|
            0 <= i < 32 ==> {
                &&& (#[trigger] r@[i]).address == spec_catalog_address(i)
                &&& r@[i].width == spec_catalog_width(i)
                &&& r@[i].access == spec_catalog_access(i)
                &&& r@[i].field_widths@ == spec_catalog_fields(i)
            },
{
    let mut v: Vec<RegisterDescriptor> = Vec::new();
    v.push(status_descriptor());
    v.push(adc_mode_descriptor());
    v.push(interface_mode_descriptor());
    v.push(register_check_descriptor());
    v.push(data_descriptor());
    v.push(data_and_status_descriptor());
    v.push(gpio_config_descriptor());
    v.push(id_descriptor());
    let mut i: u8 = 0;
    while i < 4
        invariant
            i <= 4,
            v@.len() == 8 + i,
            forall|j: int| 0 <= j < v@.len() ==> (#[trigger] v@[j]).wf(),
            forall|j: int|
                0 <= j < 8 ==> {
                    &&& (#[trigger] v@[j]).address == spec_catalog_address(j)
                    &&& v@[j].width == spec_catalog_width(j)
                    &&& v@[j].access == spec_catalog_access(j)
                    &&& v@[j].field_widths@ == spec_catalog_fields(j)
                },
            forall|j: int|
                8 <= j < v@.len() ==> {
                    &&& (#[trigger] v@[j]).address == spec_catalog_address(j)
                    &&& v@[j].width == spec_catalog_width(j)
                    &&& v@[j].access == spec_catalog_access(j)
                    &&& v@[j].field_widths@ == spec_catalog_fields(j)
                },
        decreases 4 - i,
    {
        v.push(channel_descriptor(i));
        i += 1;
    }
    let mut i: u8 = 0;
    while i < 4
        invariant
            i <= 4,
            v@.len() == 12 + i,
            forall|j: int| 0 <= j < v@.len() ==> (#[trigger] v@[j]).wf(),
            forall|j: int|
                0 <= j < v@.len() ==> {
                    &&& (#[trigger] v@[j]).address == spec_catalog_address(j)
                    &&& v@[j].width == spec_catalog_width(j)
                    &&& v@[j].access == spec_catalog_access(j)
                    &&& v@[j].field_widths@ == spec_catalog_fields(j)
                },
        decreases 4 - i,
    {
        v.push(setup_config_descriptor(i));
        i += 1;
    }
    let mut i: u8 = 0;
    while i < 4
        invariant
            i <= 4,
            v@.len() == 16 + i,
            forall|j: int| 0 <= j < v@.len() ==> (#[trigger] v@[j]).wf(),
            forall|j: int|
                0 <= j < v@.len() ==> {
                    &&& (#[trigger] v@[j]).address == spec_catalog_address(j)
                    &&& v@[j].width == spec_catalog_width(j)
                    &&& v@[j].access == spec_catalog_access(j)
                    &&& v@[j].field_widths@ == spec_catalog_fields(j)
                },
        decreases 4 - i,
    {
        v.push(default_filter_config_descriptor(i));
        i += 1;
    }
    let mut i: u8 = 0;
    while i < 4
        invariant
            i <= 4,
            v@.len() == 20 + i,
            forall|j: int| 0 <= j < v@.len() ==> (#[trigger] v@[j]).wf(),
            forall|j: int|
                0 <= j < v@.len() ==> {
                    &&& (#[trigger] v@[j]).address == spec_catalog_address(j)
                    &&& v@[j].width == spec_catalog_width(j)
                    &&& v@[j].access == spec_catalog_access(j)
                    &&& v@[j].field_widths@ == spec_catalog_fields(j)
                },
        decreases 4 - i,
    {
        v.push(direct_sinc3_map_filter_config_descriptor(i));
        i += 1;
    }
    let mut i: u8 = 0;
    while i < 4
        invariant
            i <= 4,
            v@.len() == 24 + i,
            forall|j: int| 0 <= j < v@.len() ==> (#[trigger] v@[j]).wf(),
            forall|j: int|
                0 <= j < v@.len() ==> {
                    &&& (#[trigger] v@[j]).address == spec_catalog_address(j)
                    &&& v@[j].width == spec_catalog_width(j)
                    &&& v@[j].access == spec_catalog_access(j)
                    &&& v@[j].field_widths@ == spec_catalog_fields(j)
                },
        decreases 4 - i,
    {
        v.push(offset_descriptor(i));
        i += 1;
    }
    let mut i: u8 = 0;
    while i < 4
        invariant
            i <= 4,
            v@.len() == 28 + i,
            forall|j: int| 0 <= j < v@.len() ==> (#[trigger] v@[j]).wf(),
            forall|j: int|
                0 <= j < v@.len() ==> {
                    &&& (#[trigger] v@[j]).address == spec_catalog_address(j)
                    &&& v@[j].width == spec_catalog_width(j)
                    &&& v@[j].access == spec_catalog_access(j)
                    &&& v@[j].field_widths@ == spec_catalog_fields(j)
                },
        decreases 4 - i,
    {
        v.push(gain_descriptor(i));
        i += 1;
    }
    v
}

/// The width invariant: in a well-formed catalog entry the declared field
/// widths, reserved padding included, sum to no more than the register's
/// byte width times eight, and in fact to exactly that, since padding
/// accounts for every unused bit.
pub proof fn lemma_catalog_width_invariant(d: RegisterDescriptor)
    requires
        d.wf(),
    ensures
        width_sum(d.field_widths@) <= 8 * d.width,
        width_sum(d.field_widths@) == 8 * d.width,
{
}

} // verus!
