//! The first ASM330 accelerometer driver of the rev1 board (blocking SPI):
//! WHO_AM_I frame, accelerometer range and data-rate updates of CTRL1_XL,
//! single-axis reads.

use vstd::prelude::*;
use crate::asm330::regs::{accel_field_for_g, lemma_pow2_values, odr_field_selects};
use crate::board::imu::{i16_from_le, i16_le, read_command, ACCEL_FSR_MASK, ACCEL_ODR_MASK, REG_WHOAMI};

verus! {

/// Accelerometer full-scale range.
#[derive(Debug, Clone, Copy, PartialEq, Eq, Structural)]
pub enum AccelFs {
    /// +/- 2 g
    G2,
    /// +/- 4 g
    G4,
    /// +/- 8 g
    G8,
    /// +/- 16 g
    G16,
}

/// Accelerometer output data rate.
#[derive(Debug, Clone, Copy, PartialEq, Eq, Structural)]
pub enum AccelOdr {
    Hz12_5,
    Hz26,
    Hz52,
    Hz104,
    Hz208,
}

/// The CTRL1_XL bits [3:2] of a range.
pub open spec fn fs_code(fs: AccelFs) -> u8 {
    match fs {
        AccelFs::G2 => 0b0000_0000,
        AccelFs::G4 => 0b0000_1000,
        AccelFs::G8 => 0b0000_1100,
        AccelFs::G16 => 0b0000_0100,
    }
}

/// The CTRL1_XL bits [7:4] of a data rate.
pub open spec fn odr_code(odr: AccelOdr) -> u8 {
    match odr {
        AccelOdr::Hz12_5 => 0b0001_0000,
        AccelOdr::Hz26 => 0b0010_0000,
        AccelOdr::Hz52 => 0b0011_0000,
        AccelOdr::Hz104 => 0b0100_0000,
        AccelOdr::Hz208 => 0b0101_0000,
    }
}

/// The frame that reads WHO_AM_I; the identity comes back in its second byte.
pub fn who_am_i_frame() -> (f: [u8; 2])
    ensures
        f@ == seq![0x8Fu8, 0u8],
{
    let f = [read_command(REG_WHOAMI), 0u8];
    assert(REG_WHOAMI | 0x80 == 0x8Fu8) by (bit_vector);
    assert(f@ =~= seq![0x8Fu8, 0u8]);
    f
}

/// The value written back to CTRL1_XL to set the range: bits [3:2] replaced.
pub fn set_xl_fsr(current_ctrl1_xl: u8, fsr: AccelFs) -> (v: u8)
    ensures
        v == (current_ctrl1_xl & !ACCEL_FSR_MASK) | fs_code(fsr),
{
    let fsr_bits: u8 = match fsr {
        AccelFs::G2 => 0b0000_0000,
        AccelFs::G4 => 0b0000_1000,
        AccelFs::G8 => 0b0000_1100,
        AccelFs::G16 => 0b0000_0100,
    };
    (current_ctrl1_xl & !ACCEL_FSR_MASK) | fsr_bits
}

/// The value written back to CTRL1_XL to set the data rate: bits [7:4]
/// replaced.
pub fn set_xl_odr(current_ctrl1_xl: u8, odr: AccelOdr) -> (v: u8)
    ensures
        v == (current_ctrl1_xl & !ACCEL_ODR_MASK) | odr_code(odr),
{
    let odr_bits: u8 = match odr {
        AccelOdr::Hz12_5 => 0b0001_0000,
        AccelOdr::Hz26 => 0b0010_0000,
        AccelOdr::Hz52 => 0b0011_0000,
        AccelOdr::Hz104 => 0b0100_0000,
        AccelOdr::Hz208 => 0b0101_0000,
    };
    (current_ctrl1_xl & !ACCEL_ODR_MASK) | odr_bits
}

/// The Z axis from the frame that read OUTZ_L and OUTZ_H (bytes 1 and 2).
pub fn read_z_axis(buf: &[u8; 3]) -> (z: i16)
    ensures
        z as int == i16_le(buf@[1], buf@[2]),
{
    i16_from_le(buf[1], buf[2])
}

/// The output rate an accelerometer data rate names, in millihertz.
pub open spec fn odr_rate_millihz(o: AccelOdr) -> int {
    match o {
        AccelOdr::Hz12_5 => 12_500,
        AccelOdr::Hz26 => 26_000,
        AccelOdr::Hz52 => 52_000,
        AccelOdr::Hz104 => 104_000,
        AccelOdr::Hz208 => 208_000,
    }
}

/// Every data rate sets bits [7:4] of CTRL1_XL to the code whose doubling
/// window (from 12.5 Hz at code 1) holds its rate, and no other bit.
pub proof fn law_odr_codes_select_their_rates(o: AccelOdr)
    ensures
        odr_code(o) % 16 == 0,
        odr_field_selects((odr_code(o) / 16) as int, odr_rate_millihz(o)),
{
    lemma_pow2_values();
}

/// The full scale an accelerometer range names, in g.
pub open spec fn fs_g(fs: AccelFs) -> int {
    match fs {
        AccelFs::G2 => 2,
        AccelFs::G4 => 4,
        AccelFs::G8 => 8,
        AccelFs::G16 => 16,
    }
}

/// Every accelerometer range sets bits [3:2] of CTRL1_XL to the field the
/// datasheet gives for its full scale, and no other bit.
pub proof fn law_fs_codes_select_their_ranges(fs: AccelFs)
    ensures
        fs_code(fs) % 4 == 0,
        fs_code(fs) < 16,
        (fs_code(fs) / 4) as int == accel_field_for_g(fs_g(fs)),
{
}

} // verus!
