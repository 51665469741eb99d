//! The stand-alone ASM330 driver: sample types, range and rate codes, and
//! the composition of the control registers.

use vstd::prelude::*;

pub mod regs;
pub mod device;

use regs::{accel_field_for_g, gyro_field_selects, lemma_pow2_values, odr_field_selects};

verus! {

/// A raw three-axis sample and whether it is valid.
#[derive(Debug, Clone, Copy, PartialEq, Eq, Structural)]
pub struct RawSensorData {
    pub x: i16,
    pub y: i16,
    pub z: i16,
    pub valid: bool,
}

/// Raw accelerometer and gyroscope samples, with the timestamp and the
/// temperature when they were read.
#[derive(Debug, Clone, Copy, PartialEq, Eq, Structural)]
pub struct RawImuData {
    pub xl: RawSensorData,
    pub gy: RawSensorData,
    pub ts: Option<u32>,
    pub temp: Option<u16>,
}

/// Gyroscope full-scale range.
#[derive(Debug, Clone, Copy, PartialEq, Eq, Structural)]
pub enum GyroFs {
    DPS250,
    DPS500,
    DPS1000,
    DPS2000,
}

/// Accelerometer full-scale range.
#[derive(Debug, Clone, Copy, PartialEq, Eq, Structural)]
pub enum AccelFs {
    G2,
    G4,
    G8,
    G16,
}

/// Output data rate.
#[derive(Debug, Clone, Copy, PartialEq, Eq, Structural)]
pub enum Odr {
    Hz12_5,
    Hz26,
    Hz52,
    Hz104,
    Hz208,
    Hz417,
    Hz833,
    Hz1667,
    Hz3333,
    Hz6667,
}

/// Output configuration of both sensors.
#[derive(Debug, Clone, Copy, PartialEq, Eq, Structural)]
pub struct OutputConfig {
    pub xl_odr: Odr,
    pub xl_fsr: AccelFs,
    pub xl_lpf2_en: bool,
    pub gy_odr: Odr,
    pub gy_fsr: GyroFs,
    pub gy_lpf1_en: bool,
    pub block_data_en: bool,
    pub timestamp_en: bool,
}

/// The two-bit code of a gyroscope range.
pub open spec fn gyro_fs_code(fs: GyroFs) -> u8 {
    match fs {
        GyroFs::DPS250 => 0b00,
        GyroFs::DPS500 => 0b01,
        GyroFs::DPS1000 => 0b10,
        GyroFs::DPS2000 => 0b11,
    }
}

/// The two-bit code of an accelerometer range.
pub open spec fn accel_fs_code(fs: AccelFs) -> u8 {
    match fs {
        AccelFs::G2 => 0b00,
        AccelFs::G4 => 0b10,
        AccelFs::G8 => 0b11,
        AccelFs::G16 => 0b01,
    }
}

/// The four-bit code of a data rate.
pub open spec fn odr_code(odr: Odr) -> u8 {
    match odr {
        Odr::Hz12_5 => 0b0001,
        Odr::Hz26 => 0b0010,
        Odr::Hz52 => 0b0011,
        Odr::Hz104 => 0b0100,
        Odr::Hz208 => 0b0101,
        Odr::Hz417 => 0b0110,
        Odr::Hz833 => 0b0111,
        Odr::Hz1667 => 0b1000,
        Odr::Hz3333 => 0b1001,
        Odr::Hz6667 => 0b1010,
    }
}

fn gyro_fs_bits(fs: GyroFs) -> (b: u8)
    ensures
        b == gyro_fs_code(fs),
{
    match fs {
        GyroFs::DPS250 => 0b00,
        GyroFs::DPS500 => 0b01,
        GyroFs::DPS1000 => 0b10,
        GyroFs::DPS2000 => 0b11,
    }
}

fn accel_fs_bits(fs: AccelFs) -> (b: u8)
    ensures
        b == accel_fs_code(fs),
{
    match fs {
        AccelFs::G2 => 0b00,
        AccelFs::G4 => 0b10,
        AccelFs::G8 => 0b11,
        AccelFs::G16 => 0b01,
    }
}

fn odr_bits(odr: Odr) -> (b: u8)
    ensures
        b == odr_code(odr),
{
    match odr {
        Odr::Hz12_5 => 0b0001,
        Odr::Hz26 => 0b0010,
        Odr::Hz52 => 0b0011,
        Odr::Hz104 => 0b0100,
        Odr::Hz208 => 0b0101,
        Odr::Hz417 => 0b0110,
        Odr::Hz833 => 0b0111,
        Odr::Hz1667 => 0b1000,
        Odr::Hz3333 => 0b1001,
        Odr::Hz6667 => 0b1010,
    }
}

/// Bit position of the data rate in CTRL1_XL and CTRL2_G.
pub const ODR_SHIFT: u8 = 4;
/// Bit position of the range in CTRL1_XL and CTRL2_G.
pub const FS_SHIFT: u8 = 2;
/// Bit position of the second low-pass filter enable in CTRL1_XL.
pub const LPF2_EN_SHIFT: u8 = 1;
/// Block data update, bit 6 of CTRL3_C.
pub const CTRL3_C_BDU_MASK: u8 = 0b0100_0000;
/// Timestamp enable, bit 5 of CTRL10_C.
pub const CTRL10_C_TIMER_EN_MASK: u8 = 0b0010_0000;

/// CTRL1_XL for a data rate, a range and the second low-pass filter: rate
/// in bits [7:4], range in [3:2], filter enable in bit 1.
pub open spec fn ctrl1_xl_value(odr: Odr, fs: AccelFs, lpf2_en: bool) -> int {
    odr_code(odr) * 16 + accel_fs_code(fs) * 4 + (if lpf2_en { 2int } else { 0int })
}

/// Composes CTRL1_XL.
pub fn make_ctrl1_xl_reg(odr: Odr, fs: AccelFs, lpf2_en: bool) -> (r: u8)
    ensures
        r as int == ctrl1_xl_value(odr, fs, lpf2_en),
{
    let o = odr_bits(odr);
    let f = accel_fs_bits(fs);
    let l: u8 = if lpf2_en { 1 } else { 0 };
    assert((o << 4u8) == o * 16 && (f << 2u8) == f * 4 && (l << 1u8) == l * 2
        && ((o << 4u8) | (f << 2u8) | (l << 1u8)) == (o << 4u8) + (f << 2u8) + (l << 1u8)) by (bit_vector)
        requires
            o <= 10,
            f <= 3,
            l <= 1;
    (o << ODR_SHIFT) | (f << FS_SHIFT) | (l << LPF2_EN_SHIFT)
}

/// CTRL2_G for a data rate and a range: rate in bits [7:4], range in [3:2].
pub open spec fn ctrl2_g_value(odr: Odr, fs: GyroFs) -> int {
    odr_code(odr) * 16 + gyro_fs_code(fs) * 4
}

/// Composes CTRL2_G.
pub fn make_ctrl2_g_reg(odr: Odr, fs: GyroFs) -> (r: u8)
    ensures
        r as int == ctrl2_g_value(odr, fs),
{
    let o = odr_bits(odr);
    let f = gyro_fs_bits(fs);
    assert((o << 4u8) == o * 16 && (f << 2u8) == f * 4
        && ((o << 4u8) | (f << 2u8)) == (o << 4u8) + (f << 2u8)) by (bit_vector)
        requires
            o <= 10,
            f <= 3;
    (o << ODR_SHIFT) | (f << FS_SHIFT)
}

/// CTRL3_C after a block-data-update request: `Some(true)` sets bit 6,
/// `Some(false)` clears it, `None` leaves the register as it was.
pub fn configure_ctrl3_c_reg(current: u8, bdu: Option<bool>) -> (r: u8)
    ensures
        r == (match bdu {
            Some(true) => current | CTRL3_C_BDU_MASK,
            Some(false) => current & !CTRL3_C_BDU_MASK,
            None => current,
        }),
{
    match bdu {
        Some(true) => current | CTRL3_C_BDU_MASK,
        Some(false) => current & !CTRL3_C_BDU_MASK,
        None => current,
    }
}

/// CTRL10_C with the timestamp counter enabled.
pub fn enable_timestamp(current: u8) -> (r: u8)
    ensures
        r == current | CTRL10_C_TIMER_EN_MASK,
{
    current | CTRL10_C_TIMER_EN_MASK
}

/// CTRL1_XL written when the accelerometer is enabled.
pub fn enable_xl(odr: Odr, fsr: AccelFs, lpf2_en: bool) -> (r: u8)
    ensures
        r as int == ctrl1_xl_value(odr, fsr, lpf2_en),
{
    make_ctrl1_xl_reg(odr, fsr, lpf2_en)
}

/// The output rate a data rate names, in millihertz.
pub open spec fn odr_rate_millihz(o: Odr) -> int {
    match o {
        Odr::Hz12_5 => 12_500,
        Odr::Hz26 => 26_000,
        Odr::Hz52 => 52_000,
        Odr::Hz104 => 104_000,
        Odr::Hz208 => 208_000,
        Odr::Hz417 => 417_000,
        Odr::Hz833 => 833_000,
        Odr::Hz1667 => 1_667_000,
        Odr::Hz3333 => 3_333_000,
        Odr::Hz6667 => 6_667_000,
    }
}

/// Every data rate has the four-bit code whose doubling window (from 12.5 Hz
/// at code 1) holds its rate.
pub proof fn law_odr_codes_select_their_rates(o: Odr)
    ensures
        odr_field_selects(odr_code(o) as int, odr_rate_millihz(o)),
{
    lemma_pow2_values();
}

/// The full scale a gyroscope range names, in degrees per second.
pub open spec fn gyro_fs_dps(fs: GyroFs) -> int {
    match fs {
        GyroFs::DPS250 => 250,
        GyroFs::DPS500 => 500,
        GyroFs::DPS1000 => 1000,
        GyroFs::DPS2000 => 2000,
    }
}

/// Every gyroscope range has the two-bit code that selects it: 250 dps
/// doubled that many times.
pub proof fn law_gyro_fs_codes_select_their_ranges(fs: GyroFs)
    ensures
        gyro_field_selects(gyro_fs_code(fs) as int, gyro_fs_dps(fs)),
{
    lemma_pow2_values();
}

/// The full scale an accelerometer range names, in g.
pub open spec fn accel_fs_g(fs: AccelFs) -> int {
    match fs {
        AccelFs::G2 => 2,
        AccelFs::G4 => 4,
        AccelFs::G8 => 8,
        AccelFs::G16 => 16,
    }
}

/// Every accelerometer range has the two-bit code the datasheet gives for
/// its full scale.
pub proof fn law_accel_fs_codes_select_their_ranges(fs: AccelFs)
    ensures
        accel_fs_code(fs) as int == accel_field_for_g(accel_fs_g(fs)),
{
}

} // verus!
