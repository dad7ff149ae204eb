//! Bitfield codec: byte order and the field-packing model.
//!
//! A register value travels on the bus as a fixed-width byte buffer,
//! most-significant byte first; within the register word, fields are packed
//! most-significant field first. This module holds the executable byte
//! join/split functions for the three buffer widths in use (2, 3 and 4
//! bytes), and a spec-level model of MSB-first field packing over arbitrary
//! layouts, with the proof that unpacking inverts packing for every layout
//! and every in-range field combination.

use vstd::prelude::*;
use vstd::arithmetic::div_mod::{
    lemma_div_multiples_vanish_fancy, lemma_hoist_over_denominator, lemma_mod_multiples_vanish,
    lemma_small_mod,
};
use vstd::arithmetic::power2::{lemma_pow2_adds, lemma_pow2_pos, pow2};

verus! {

// ---------------------------------------------------------------------------
// Byte order: big-endian join and split for 2-, 3- and 4-byte buffers.
// ---------------------------------------------------------------------------

/// The 16-bit word held by two bus bytes, most-significant byte first.
pub open spec fn spec_into_u16(b0: u8, b1: u8) -> u16 {
    ((b0 as u16) << 8) | (b1 as u16)
}

/// The two bus bytes of a 16-bit word, most-significant byte first.
pub open spec fn spec_from_u16(val: u16) -> Seq<u8> {
    seq![(val >> 8) as u8, val as u8]
}

/// The 24-bit word held by three bus bytes, most-significant byte first.
pub open spec fn spec_into_u24(b0: u8, b1: u8, b2: u8) -> u32 {
    ((b0 as u32) << 16) | ((b1 as u32) << 8) | (b2 as u32)
}

/// The three low bytes of a 32-bit word, most-significant byte first.
pub open spec fn spec_from_u24(val: u32) -> Seq<u8> {
    seq![(val >> 16) as u8, (val >> 8) as u8, val as u8]
}

/// The 32-bit word held by four bus bytes, most-significant byte first.
pub open spec fn spec_into_u32(b0: u8, b1: u8, b2: u8, b3: u8) -> u32 {
    ((b0 as u32) << 24) | ((b1 as u32) << 16) | ((b2 as u32) << 8) | (b3 as u32)
}

/// The four bus bytes of a 32-bit word, most-significant byte first.
pub open spec fn spec_from_u32(val: u32) -> Seq<u8> {
    seq![(val >> 24) as u8, (val >> 16) as u8, (val >> 8) as u8, val as u8]
}

/// Reassembles a 16-bit register word from its two bus bytes.
pub fn into_u16(slice: [u8; 2]) -> (r: u16)
    ensures
        r == spec_into_u16(slice[0], slice[1]),
{
    ((slice[0] as u16) << 8u16) | (slice[1] as u16)
}

/// Splits a 16-bit register word into its two bus bytes.
pub fn from_u16(val: u16) -> (r: [u8; 2])
    ensures
        r@ == spec_from_u16(val),
{
    let r = [(val >> 8u16) as u8, val as u8];
    proof {
        assert(r@ =~= spec_from_u16(val));
    }
    r
}

/// Reassembles a 24-bit register word from its three bus bytes. The top
/// byte of the result is always zero.
pub fn into_u32(slice: [u8; 3]) -> (r: u32)
    ensures
        r == spec_into_u24(slice[0], slice[1], slice[2]),
        r < 0x1000000,
{
    let r = ((slice[0] as u32) << 16u32) | ((slice[1] as u32) << 8u32) | (slice[2] as u32);
    proof {
        let (b0, b1, b2) = (slice[0], slice[1], slice[2]);
        assert(((b0 as u32) << 16u32) | ((b1 as u32) << 8u32) | (b2 as u32) < 0x1000000)
            by (bit_vector);
    }
    r
}

/// Splits the three low bytes of a 32-bit word into bus order; a fourth,
/// most-significant byte is silently dropped, as 3-byte registers hold
/// a zero top byte.
pub fn from_u32(val: u32) -> (r: [u8; 3])
    ensures
        r@ == spec_from_u24(val),
{
    let r = [(val >> 16u32) as u8, (val >> 8u32) as u8, val as u8];
    proof {
        assert(r@ =~= spec_from_u24(val));
    }
    r
}

/// Reassembles a 32-bit register word from its four bus bytes.
pub fn into_u32_full(slice: [u8; 4]) -> (r: u32)
    ensures
        r == spec_into_u32(slice[0], slice[1], slice[2], slice[3]),
{
    ((slice[0] as u32) << 24u32) | ((slice[1] as u32) << 16u32) | ((slice[2] as u32) << 8u32)
        | (slice[3] as u32)
}

/// Splits a 32-bit register word into its four bus bytes.
pub fn from_u32_full(val: u32) -> (r: [u8; 4])
    ensures
        r@ == spec_from_u32(val),
{
    let r = [(val >> 24u32) as u8, (val >> 16u32) as u8, (val >> 8u32) as u8, val as u8];
    proof {
        assert(r@ =~= spec_from_u32(val));
    }
    r
}

/// Splitting a 16-bit word and joining the bytes again gives the word back,
/// and joining two bytes and splitting again gives the bytes back.
pub proof fn lemma_u16_byte_order(val: u16, b0: u8, b1: u8)
    ensures
        spec_into_u16(spec_from_u16(val)[0], spec_from_u16(val)[1]) == val,
        spec_from_u16(spec_into_u16(b0, b1)) =~= seq![b0, b1],
{
    assert(((((val >> 8) as u8) as u16) << 8) | ((val as u8) as u16) == val) by (bit_vector);
    assert(((((b0 as u16) << 8) | (b1 as u16)) >> 8) as u8 == b0) by (bit_vector);
    assert(((((b0 as u16) << 8) | (b1 as u16)) as u8) == b1) by (bit_vector);
}

/// The same round trip for 24-bit words in three bytes; the word must fit
/// in 24 bits.
pub proof fn lemma_u24_byte_order(val: u32, b0: u8, b1: u8, b2: u8)
    requires
        val < 0x1000000,
    ensures
        spec_into_u24(spec_from_u24(val)[0], spec_from_u24(val)[1], spec_from_u24(val)[2]) == val,
        spec_from_u24(spec_into_u24(b0, b1, b2)) =~= seq![b0, b1, b2],
    {
    assert(((((val >> 16) as u8) as u32) << 16) | ((((val >> 8) as u8) as u32) << 8) | ((
    val as u8) as u32) == val) by (bit_vector)
        requires
            val < 0x1000000,
    ;
    assert({
        let w = ((b0 as u32) << 16) | ((b1 as u32) << 8) | (b2 as u32);
        ((w >> 16) as u8) == b0 && ((w >> 8) as u8) == b1 && (w as u8) == b2
    }) by (bit_vector);
}

/// The same round trip for 32-bit words in four bytes.
pub proof fn lemma_u32_byte_order(val: u32, b0: u8, b1: u8, b2: u8, b3: u8)
    ensures
        spec_into_u32(
            spec_from_u32(val)[0],
            spec_from_u32(val)[1],
            spec_from_u32(val)[2],
            spec_from_u32(val)[3],
        ) == val,
        spec_from_u32(spec_into_u32(b0, b1, b2, b3)) =~= seq![b0, b1, b2, b3],
{
    assert(((((val >> 24) as u8) as u32) << 24) | ((((val >> 16) as u8) as u32) << 16) | ((((
    val >> 8) as u8) as u32) << 8) | ((val as u8) as u32) == val) by (bit_vector);
    assert({
        let w = ((b0 as u32) << 24) | ((b1 as u32) << 16) | ((b2 as u32) << 8) | (b3 as u32);
        ((w >> 24) as u8) == b0 && ((w >> 16) as u8) == b1 && ((w >> 8) as u8) == b2 && (w
            as u8) == b3
    }) by (bit_vector);
}

/// Masking a word that already fits in 24 bits changes nothing.
pub proof fn lemma_u24_mask(x: u32)
    requires
        x < 0x1000000,
    ensures
        x & 0xffffff == x,
{
    assert(x < 0x1000000 ==> x & 0xffffff == x) by (bit_vector);
}

// ---------------------------------------------------------------------------
// Field packing model: MSB-first packing of a layout's fields into a word.
// ---------------------------------------------------------------------------

/// The total bit width of a layout, given as the list of its field widths
/// in declaration order (most-significant field first).
pub open spec fn width_sum(ws: Seq<u8>) -> nat
    decreases ws.len(),
{
    if ws.len() == 0 {
        0
    } else {
        ws[0] as nat + width_sum(ws.drop_first())
    }
}

/// Every field value fits in its declared width.
pub open spec fn fields_in_range(ws: Seq<u8>, vs: Seq<nat>) -> bool {
    &&& vs.len() == ws.len()
    &&& forall|i: int| 0 <= i < ws.len() ==> vs[i] < pow2(ws[i] as nat)
}

/// The register word that a layout's field values pack into: the first
/// field lands in the most significant bits, each later field directly
/// below its predecessor.
pub open spec fn pack_fields(ws: Seq<u8>, vs: Seq<nat>) -> nat
    decreases ws.len(),
{
    if ws.len() == 0 {
        0
    } else {
        vs[0] * pow2(width_sum(ws.drop_first())) + pack_fields(ws.drop_first(), vs.drop_first())
    }
}

/// The number of bits below field `i`: the widths of all later fields.
pub open spec fn field_offset(ws: Seq<u8>, i: int) -> nat {
    width_sum(ws.skip(i + 1))
}

/// Field `i` of a packed register word, recovered by shift and mask.
pub open spec fn extract_field(acc: nat, ws: Seq<u8>, i: int) -> nat {
    (acc / pow2(field_offset(ws, i))) % pow2(ws[i] as nat)
}

/// A packed word fits in the layout's total width.
pub proof fn lemma_pack_fields_bound(ws: Seq<u8>, vs: Seq<nat>)
    requires
        fields_in_range(ws, vs),
    ensures
        pack_fields(ws, vs) < pow2(width_sum(ws)),
    decreases ws.len(),
{
    if ws.len() == 0 {
        assert(pow2(0) == 1) by {
            vstd::arithmetic::power2::lemma2_to64();
        }
    } else {
        let ws1 = ws.drop_first();
        let vs1 = vs.drop_first();
        assert(fields_in_range(ws1, vs1));
        lemma_pack_fields_bound(ws1, vs1);
        let v0 = vs[0];
        let w0 = ws[0] as nat;
        let s1 = width_sum(ws1);
        lemma_pow2_pos(s1);
        lemma_pow2_adds(w0, s1);
        assert(v0 + 1 <= pow2(w0));
        assert((v0 + 1) * pow2(s1) <= pow2(w0) * pow2(s1)) by (nonlinear_arith)
            requires
                v0 + 1 <= pow2(w0),
                pow2(s1) > 0,
        ;
        assert(v0 * pow2(s1) + pow2(s1) == (v0 + 1) * pow2(s1)) by (nonlinear_arith);
        assert(pack_fields(ws, vs) < (v0 + 1) * pow2(s1));
    }
}

/// Unpacking inverts packing: extracting field `i` from the packed word of
/// any layout gives the field's value back, as long as every value fits in
/// its declared width.
pub proof fn lemma_pack_extract(ws: Seq<u8>, vs: Seq<nat>, i: int)
    requires
        fields_in_range(ws, vs),
        0 <= i < ws.len(),
    ensures
        extract_field(pack_fields(ws, vs), ws, i) == vs[i],
    decreases i,
{
    let ws1 = ws.drop_first();
    let vs1 = vs.drop_first();
    assert(fields_in_range(ws1, vs1));
    let acc = pack_fields(ws, vs);
    let rest = pack_fields(ws1, vs1);
    let v0 = vs[0];
    let w0 = ws[0] as nat;
    let s1 = width_sum(ws1);
    lemma_pack_fields_bound(ws1, vs1);
    lemma_pow2_pos(s1);
    if i == 0 {
        assert(ws.skip(1) =~= ws1);
        // acc / pow2(s1) == v0 because rest < pow2(s1).
        lemma_div_multiples_vanish_fancy(v0 as int, rest as int, pow2(s1) as int);
        assert(v0 * pow2(s1) == pow2(s1) * v0) by (nonlinear_arith);
        assert(acc as int / pow2(s1) as int == v0);
        lemma_small_mod(v0, pow2(w0));
    } else {
        let off = field_offset(ws, i);
        let wi = ws[i] as nat;
        // The widths of fields i.. are part of the tail's total width.
        lemma_field_offset_bound(ws1, i - 1);
        assert(ws.skip(i + 1) =~= ws1.skip(i));
        assert(field_offset(ws1, i - 1) == off);
        assert(off + wi <= s1);
        let k = (s1 - off - wi) as nat;
        lemma_pow2_adds(k, wi);
        lemma_pow2_adds((k + wi) as nat, off);
        lemma_pow2_pos(off);
        lemma_pow2_pos(wi);
        // acc = (v0 * pow2(k) * pow2(wi)) * pow2(off) + rest
        assert(v0 * pow2(s1) == ((v0 * pow2(k)) * pow2(wi)) * pow2(off)) by (nonlinear_arith)
            requires
                pow2(s1) == pow2(k) * pow2(wi) * pow2(off),
        ;
        let m = v0 * pow2(k);
        // Dividing away the offset leaves the multiple m * pow2(wi) intact.
        lemma_hoist_over_denominator(rest as int, (m * pow2(wi)) as int, pow2(off));
        assert((m * pow2(wi)) * pow2(off) + rest == rest + (m * pow2(wi)) * pow2(off));
        assert(acc as int / pow2(off) as int == rest as int / pow2(off) as int + m * pow2(wi));
        // The multiple of pow2(wi) vanishes under the mask.
        lemma_mod_multiples_vanish(m as int, rest as int / pow2(off) as int, pow2(wi) as int);
        assert(pow2(wi) * m == m * pow2(wi)) by (nonlinear_arith);
        lemma_pack_extract(ws1, vs1, i - 1);
        assert(extract_field(rest, ws1, i - 1) == vs1[i - 1]);
        assert(vs1[i - 1] == vs[i]);
    }
}

/// Bits below a field never outgrow the enclosing layout: the offset of
/// field `j` plus the field's own width is at most the layout's total width.
proof fn lemma_field_offset_bound(ws: Seq<u8>, j: int)
    requires
        0 <= j < ws.len(),
    ensures
        field_offset(ws, j) + ws[j] <= width_sum(ws),
    decreases j,
{
    if j == 0 {
        assert(ws.skip(1) =~= ws.drop_first());
    } else {
        let ws1 = ws.drop_first();
        lemma_field_offset_bound(ws1, j - 1);
        assert(ws.skip(j + 1) =~= ws1.skip(j));
    }
}

/// The codec round trip, stated for every layout at once: decoding any
/// field of an encoded register word gives back exactly the value that was
/// encoded, for every layout and every field combination within the
/// declared widths.
pub proof fn theorem_codec_round_trip(ws: Seq<u8>, vs: Seq<nat>)
    requires
        fields_in_range(ws, vs),
    ensures
        forall|i: int|
            0 <= i < ws.len() ==> #[trigger] extract_field(pack_fields(ws, vs), ws, i) == vs[i],
{
    assert forall|i: int| 0 <= i < ws.len() implies #[trigger] extract_field(
        pack_fields(ws, vs),
        ws,
        i,
    ) == vs[i] by {
        lemma_pack_extract(ws, vs, i);
    }
}

} // verus!
