//! The register model of the ASM330 driver: each register is a byte, and a
//! setting is a bit field of it, written by replacing exactly those bits.

use vstd::prelude::*;

verus! {

/// The low `width` bits set.
pub open spec fn field_mask(width: u8) -> u8 {
    ((1u8 << width) - 1) as u8
}

/// The register `reg` with the `width`-bit field at bit `off` set to `val`
/// (its low `width` bits); every other bit as it was.
pub open spec fn with_field(reg: u8, off: u8, width: u8, val: u8) -> u8 {
    (reg & !(field_mask(width) << off)) | ((val & field_mask(width)) << off)
}

/// The `width`-bit field at bit `off` of the register.
pub open spec fn field_of(reg: u8, off: u8, width: u8) -> u8 {
    (reg >> off) & field_mask(width)
}

/// Writes a bit field of a register value.
pub fn set_field(reg: u8, off: u8, width: u8, val: u8) -> (r: u8)
    requires
        1 <= width <= 7,
        off + width <= 8,
    ensures
        r == with_field(reg, off, width, val),
{
    assert(1u8 << width >= 1) by (bit_vector)
        requires
            width <= 7;
    let mask: u8 = (1u8 << width) - 1;
    (reg & !(mask << off)) | ((val & mask) << off)
}

/// A one-bit flag as a field value.
pub open spec fn bit(b: bool) -> u8 {
    if b { 1 } else { 0 }
}

/// A one-bit flag as a field value.
pub fn bit_of(b: bool) -> (r: u8)
    ensures
        r == bit(b),
{
    if b { 1 } else { 0 }
}

/// Writing a field and reading it back gives the value written (its low
/// `width` bits), and the bits outside the field are those of the register
/// before the write.
pub proof fn law_field_write_reads_back(reg: u8, off: u8, width: u8, val: u8)
    requires
        1 <= width <= 7,
        off + width <= 8,
    ensures
        field_of(with_field(reg, off, width, val), off, width) == val & field_mask(width),
        with_field(reg, off, width, val) & !(field_mask(width) << off) == reg & !(field_mask(width) << off),
{
    assert(((((reg & !((((1u8 << width) - 1) as u8) << off)) | ((val & (((1u8 << width) - 1) as u8)) << off)) >> off)
        & (((1u8 << width) - 1) as u8)) == val & (((1u8 << width) - 1) as u8)
        && (((reg & !((((1u8 << width) - 1) as u8) << off)) | ((val & (((1u8 << width) - 1) as u8)) << off))
        & !((((1u8 << width) - 1) as u8) << off)) == reg & !((((1u8 << width) - 1) as u8) << off)) by (bit_vector)
        requires
            1 <= width <= 7,
            off + width <= 8;
}

/// Writes to two fields that do not overlap commute.
pub proof fn law_disjoint_fields_commute(reg: u8, o1: u8, w1: u8, v1: u8, o2: u8, w2: u8, v2: u8)
    requires
        1 <= w1 <= 7,
        o1 + w1 <= 8,
        1 <= w2 <= 7,
        o2 + w2 <= 8,
        o1 + w1 <= o2 || o2 + w2 <= o1,
    ensures
        with_field(with_field(reg, o1, w1, v1), o2, w2, v2) == with_field(with_field(reg, o2, w2, v2), o1, w1, v1),
{
    let m1 = field_mask(w1);
    let m2 = field_mask(w2);
    assert(m1 == ((1u8 << w1) - 1) as u8 && m2 == ((1u8 << w2) - 1) as u8);
    assert(((((reg & !(m1 << o1)) | ((v1 & m1) << o1)) & !(m2 << o2)) | ((v2 & m2) << o2))
        == ((((reg & !(m2 << o2)) | ((v2 & m2) << o2)) & !(m1 << o1)) | ((v1 & m1) << o1))) by (bit_vector)
        requires
            1 <= w1 <= 7,
            o1 + w1 <= 8,
            1 <= w2 <= 7,
            o2 + w2 <= 8,
            o1 + w1 <= o2 || o2 + w2 <= o1,
            m1 == ((1u8 << w1) - 1) as u8,
            m2 == ((1u8 << w2) - 1) as u8;
}

/// SPI command byte that reads a register: the address with bit 7 set.
pub fn spi_read_command(addr: u8) -> (r: u8)
    ensures
        r == addr | 0x80,
{
    addr | 0x80
}

/// SPI command byte that writes a register: the address with bit 7 clear.
pub fn spi_write_command(addr: u8) -> (r: u8)
    ensures
        r == addr & !0x80u8,
{
    addr & !0x80u8
}

/// 2 to the power `k`.
pub open spec fn pow2(k: nat) -> int
    decreases k,
{
    if k == 0 {
        1
    } else {
        2 * pow2((k - 1) as nat)
    }
}

/// Whether the four-bit data-rate field value `code` selects the output rate
/// `rate_millihz`: the datasheet's rates start at 12.5 Hz for code 1 and
/// double with each further code, each rounded up by less than 5 %, so every
/// rate falls in the window of exactly one code.
pub open spec fn odr_field_selects(code: int, rate_millihz: int) -> bool {
    &&& 1 <= code <= 10
    &&& 12500 * pow2((code - 1) as nat) <= rate_millihz
    &&& rate_millihz < 13125 * pow2((code - 1) as nat)
}

/// Whether the two-bit gyroscope range field `f` selects a full scale of
/// ±`dps`: 250 dps doubled `f` times.
pub open spec fn gyro_field_selects(f: int, dps: int) -> bool {
    0 <= f <= 3 && dps == 250 * pow2(f as nat)
}

/// The two-bit accelerometer range field the datasheet gives for ±`g`:
/// 00 for ±2 g, 10 for ±4 g, 11 for ±8 g and 01 for ±16 g.
pub open spec fn accel_field_for_g(g: int) -> int {
    if g == 2 {
        0
    } else if g == 4 {
        2
    } else if g == 8 {
        3
    } else {
        1
    }
}

/// The powers of two up to 2^9.
pub proof fn lemma_pow2_values()
    ensures
        pow2(0) == 1, pow2(1) == 2, pow2(2) == 4, pow2(3) == 8, pow2(4) == 16,
        pow2(5) == 32, pow2(6) == 64, pow2(7) == 128, pow2(8) == 256, pow2(9) == 512,
{
    reveal_with_fuel(pow2, 10);
}

} // verus!
