//! ASM330 IMU register logic of the sensor node: SPI command frames, the
//! updates of the control registers, and the decoding of status and sample
//! bursts.

use vstd::prelude::*;
use crate::asm330::regs::{accel_field_for_g, gyro_field_selects, lemma_pow2_values, odr_field_selects};

verus! {

/// WHO_AM_I register.
pub const REG_WHOAMI: u8 = 0x0F;
/// Accelerometer control register.
pub const REG_CTRL1_XL: u8 = 0x10;
/// Gyroscope control register.
pub const REG_CTRL2_G: u8 = 0x11;
/// Control register 3 (block data update).
pub const REG_CTRL3_C: u8 = 0x12;
/// Control register 10 (timestamp counter).
pub const REG_CTRL10_C: u8 = 0x19;
/// Data-ready status register.
pub const REG_STATUS_REG: u8 = 0x1E;
/// First gyroscope output register (X low byte).
pub const REG_OUTX_L_G: u8 = 0x22;
/// Gyroscope Z low byte.
pub const REG_OUTZ_L_G: u8 = 0x26;
/// First accelerometer output register (X low byte).
pub const REG_OUTX_L_A: u8 = 0x28;
/// Accelerometer Y low byte.
pub const REG_OUTY_L_A: u8 = 0x2A;
/// Accelerometer Z low byte.
pub const REG_OUTZ_L_A: u8 = 0x2C;
/// First timestamp register.
pub const REG_TIMESTAMP0_REG: u8 = 0x40;

/// Gyroscope full-scale bits [3:1] of CTRL2_G.
pub const GYRO_FSR_MASK: u8 = 0b0000_1110;
/// Gyroscope data-rate bits [7:4] of CTRL2_G.
pub const GYRO_ODR_MASK: u8 = 0b1111_0000;
/// Accelerometer full-scale bits [3:2] of CTRL1_XL.
pub const ACCEL_FSR_MASK: u8 = 0b0000_1100;
/// Accelerometer data-rate bits [7:4] of CTRL1_XL.
pub const ACCEL_ODR_MASK: u8 = 0b1111_0000;
/// Timestamp enable, bit 5 of CTRL10_C.
pub const TIMER_EN_MASK: u8 = 0b0010_0000;
/// Block data update, bit 6 of CTRL3_C.
pub const BDU_MASK: u8 = 0b0100_0000;

/// Raw gyroscope sample.
#[derive(Debug, Clone, Copy, PartialEq, Eq, Structural)]
pub struct GyRawData {
    pub x: i16,
    pub y: i16,
    pub z: i16,
}

/// Raw accelerometer sample.
#[derive(Debug, Clone, Copy, PartialEq, Eq, Structural)]
pub struct XlRawData {
    pub x: i16,
    pub y: i16,
    pub z: i16,
}

/// Raw accelerometer and gyroscope samples with the sensor timestamp.
#[derive(Debug, Clone, Copy, PartialEq, Eq, Structural)]
pub struct RawImuData {
    pub xl: XlRawData,
    pub gy: GyRawData,
    pub ts: u32,
}

/// Gyroscope full-scale range.
#[derive(Debug, Clone, Copy, PartialEq, Eq, Structural)]
pub enum GyroFs {
    DPS250,
    DPS500,
    DPS1000,
    DPS2000,
}

/// Accelerometer full-scale range.
#[derive(Debug, Clone, Copy, PartialEq, Eq, Structural)]
pub enum AccelFs {
    /// +/- 2 g
    G2,
    /// +/- 4 g
    G4,
    /// +/- 8 g
    G8,
    /// +/- 16 g
    G16,
}

/// Output data rate, shared by the accelerometer and the gyroscope.
#[derive(Debug, Clone, Copy, PartialEq, Eq, Structural)]
pub enum Odr {
    Hz12_5,
    Hz26,
    Hz52,
    Hz104,
    Hz208,
    Hz417,
    Hz833,
    Hz1667,
    Hz3333,
    Hz6667,
}

/// Data-ready flags of the status register.
#[derive(Debug, Clone, Copy, PartialEq, Eq, Structural)]
pub struct StatusDataAvailable {
    /// Accelerometer data available (bit 0).
    pub xlda: bool,
    /// Gyroscope data available (bit 1).
    pub gda: bool,
    /// Temperature data available (bit 2).
    pub tda: bool,
}

/// The register bits of a data rate: its code in bits [7:4].
pub open spec fn odr_code(odr: Odr) -> u8 {
    match odr {
        Odr::Hz12_5 => 0x10,
        Odr::Hz26 => 0x20,
        Odr::Hz52 => 0x30,
        Odr::Hz104 => 0x40,
        Odr::Hz208 => 0x50,
        Odr::Hz417 => 0x60,
        Odr::Hz833 => 0x70,
        Odr::Hz1667 => 0x80,
        Odr::Hz3333 => 0x90,
        Odr::Hz6667 => 0xA0,
    }
}

/// The register bits of a data rate.
pub fn odr_bits(odr: Odr) -> (b: u8)
    ensures
        b == odr_code(odr),
{
    match odr {
        Odr::Hz12_5 => 0x10,
        Odr::Hz26 => 0x20,
        Odr::Hz52 => 0x30,
        Odr::Hz104 => 0x40,
        Odr::Hz208 => 0x50,
        Odr::Hz417 => 0x60,
        Odr::Hz833 => 0x70,
        Odr::Hz1667 => 0x80,
        Odr::Hz3333 => 0x90,
        Odr::Hz6667 => 0xA0,
    }
}

/// The CTRL1_XL bits of an accelerometer range (bits [3:2]).
pub open spec fn accel_fs_code(fs: AccelFs) -> u8 {
    match fs {
        AccelFs::G2 => 0b0000_0000,
        AccelFs::G4 => 0b0000_1000,
        AccelFs::G8 => 0b0000_1100,
        AccelFs::G16 => 0b0000_0100,
    }
}

/// The CTRL1_XL bits of an accelerometer range.
pub fn accel_fs_bits(fs: AccelFs) -> (b: u8)
    ensures
        b == accel_fs_code(fs),
{
    match fs {
        AccelFs::G2 => 0b0000_0000,
        AccelFs::G4 => 0b0000_1000,
        AccelFs::G8 => 0b0000_1100,
        AccelFs::G16 => 0b0000_0100,
    }
}

/// The CTRL2_G bits of a gyroscope range (bits [3:2]).
pub open spec fn gyro_fs_code(fs: GyroFs) -> u8 {
    match fs {
        GyroFs::DPS250 => 0b0000_0000,
        GyroFs::DPS500 => 0b0000_0100,
        GyroFs::DPS1000 => 0b0000_1000,
        GyroFs::DPS2000 => 0b0000_1100,
    }
}

/// The CTRL2_G bits of a gyroscope range.
pub fn gyro_fs_bits(fs: GyroFs) -> (b: u8)
    ensures
        b == gyro_fs_code(fs),
{
    match fs {
        GyroFs::DPS250 => 0b0000_0000,
        GyroFs::DPS500 => 0b0000_0100,
        GyroFs::DPS1000 => 0b0000_1000,
        GyroFs::DPS2000 => 0b0000_1100,
    }
}

/// The first byte of a register read: the address with bit 7 set.
pub fn read_command(reg: u8) -> (c: u8)
    ensures
        c == reg | 0x80,
{
    reg | 0x80
}

/// The first byte of a register write: the address with bit 7 cleared.
pub fn write_command(reg: u8) -> (c: u8)
    ensures
        c == reg & 0x7F,
{
    reg & 0x7F
}

/// The SPI frame that reads `n` bytes starting at `reg`: the read command
/// followed by `n` zero bytes clocked out while the data comes in.
pub fn read_burst_frame(reg: u8, n: usize) -> (f: Vec<u8>)
    requires
        n < usize::MAX,
    ensures
        f@.len() == n + 1,
        f@[0] == reg | 0x80,
        forall|i: int| 1 <= i <= n ==> f@[i] == 0u8,
{
    let mut f: Vec<u8> = Vec::new();
    f.push(read_command(reg));
    let mut i: usize = 0;
    while i < n
        invariant
            i <= n,
            f@.len() == i + 1,
            f@[0] == reg | 0x80,
            forall|j: int| 1 <= j <= i ==> f@[j] == 0u8,
        decreases n - i,
    {
        f.push(0u8);
        i += 1;
    }
    f
}

/// The SPI frame that writes `data` to `reg`.
pub fn write_frame(reg: u8, data: u8) -> (f: [u8; 2])
    ensures
        f@ == seq![reg & 0x7F, data],
{
    let f = [write_command(reg), data];
    assert(f@ =~= seq![reg & 0x7F, data]);
    f
}

/// CTRL1_XL with a new accelerometer range: bits [3:2] replaced.
pub open spec fn ctrl1_with_fsr(current: u8, fs: AccelFs) -> u8 {
    (current & !ACCEL_FSR_MASK) | accel_fs_code(fs)
}

/// CTRL1_XL with a new accelerometer data rate: bits [7:4] replaced.
pub open spec fn ctrl1_with_odr(current: u8, odr: Odr) -> u8 {
    (current & !ACCEL_ODR_MASK) | odr_code(odr)
}

/// The value written back to CTRL1_XL to set the accelerometer range.
pub fn set_xl_fsr(current_ctrl1_xl: u8, fsr: AccelFs) -> (v: u8)
    ensures
        v == ctrl1_with_fsr(current_ctrl1_xl, fsr),
{
    (current_ctrl1_xl & !ACCEL_FSR_MASK) | accel_fs_bits(fsr)
}

/// The value written back to CTRL1_XL to set the accelerometer data rate.
pub fn set_xl_odr(current_ctrl1_xl: u8, odr: Odr) -> (v: u8)
    ensures
        v == ctrl1_with_odr(current_ctrl1_xl, odr),
{
    (current_ctrl1_xl & !ACCEL_ODR_MASK) | odr_bits(odr)
}

/// CTRL2_G with a new gyroscope data rate and range: bits [7:1] replaced.
pub open spec fn ctrl2_with_config(current: u8, odr: Odr, fs: GyroFs) -> u8 {
    (current & !(GYRO_ODR_MASK | GYRO_FSR_MASK)) | odr_code(odr) | gyro_fs_code(fs)
}

/// The value written back to CTRL2_G to configure the gyroscope.
pub fn set_gyro_config(current_ctrl2_g: u8, odr: Odr, fsr: GyroFs) -> (v: u8)
    ensures
        v == ctrl2_with_config(current_ctrl2_g, odr, fsr),
{
    (current_ctrl2_g & !(GYRO_ODR_MASK | GYRO_FSR_MASK)) | odr_bits(odr) | gyro_fs_bits(fsr)
}

/// The value written back to CTRL10_C to enable the timestamp counter.
pub fn enable_timestamp(current_ctrl10_c: u8) -> (v: u8)
    ensures
        v == current_ctrl10_c | TIMER_EN_MASK,
{
    current_ctrl10_c | TIMER_EN_MASK
}

/// The value written back to CTRL3_C to turn block data update on or off.
pub fn set_block_data_update(current_ctrl3_c: u8, enable: bool) -> (v: u8)
    ensures
        v == (if enable { current_ctrl3_c | BDU_MASK } else { current_ctrl3_c & !BDU_MASK }),
{
    if enable {
        current_ctrl3_c | BDU_MASK
    } else {
        current_ctrl3_c & !BDU_MASK
    }
}

/// The signed 16-bit value of two little-endian bytes.
pub open spec fn i16_le(lo: u8, hi: u8) -> int {
    let v = lo as int + 256 * hi as int;
    if v < 32768 { v } else { v - 65536 }
}

/// `i16::from_le_bytes([lo, hi])`.
pub fn i16_from_le(lo: u8, hi: u8) -> (r: i16)
    ensures
        r as int == i16_le(lo, hi),
{
    let v: u32 = lo as u32 + 256 * hi as u32;
    if v < 32768 {
        v as i16
    } else {
        (v as i32 - 65536) as i16
    }
}

/// The unsigned 32-bit value of four little-endian bytes.
pub open spec fn u32_le(b0: u8, b1: u8, b2: u8, b3: u8) -> int {
    b0 as int + 256 * b1 as int + 65536 * b2 as int + 16777216 * b3 as int
}

/// The sensor timestamp from the frame that read the four timestamp
/// registers (bytes 1 to 4, little-endian).
pub fn decode_timestamp(buf: &[u8; 5]) -> (ts: u32)
    ensures
        ts as int == u32_le(buf@[1], buf@[2], buf@[3], buf@[4]),
{
    buf[1] as u32 + 256 * buf[2] as u32 + 65536 * buf[3] as u32 + 16777216 * buf[4] as u32
}

/// One axis from a three-byte read frame (bytes 1 and 2).
pub fn decode_axis(buf: &[u8; 3]) -> (v: i16)
    ensures
        v as int == i16_le(buf@[1], buf@[2]),
{
    i16_from_le(buf[1], buf[2])
}

/// Accelerometer X, Y and Z from a seven-byte burst read at OUTX_L_A.
pub fn decode_xl_xyz(buf: &[u8; 7]) -> (d: XlRawData)
    ensures
        d.x as int == i16_le(buf@[1], buf@[2]),
        d.y as int == i16_le(buf@[3], buf@[4]),
        d.z as int == i16_le(buf@[5], buf@[6]),
{
    XlRawData { x: i16_from_le(buf[1], buf[2]), y: i16_from_le(buf[3], buf[4]), z: i16_from_le(buf[5], buf[6]) }
}

/// Gyroscope X, Y and Z from a seven-byte burst read at OUTX_L_G.
pub fn decode_gy_xyz(buf: &[u8; 7]) -> (d: GyRawData)
    ensures
        d.x as int == i16_le(buf@[1], buf@[2]),
        d.y as int == i16_le(buf@[3], buf@[4]),
        d.z as int == i16_le(buf@[5], buf@[6]),
{
    GyRawData { x: i16_from_le(buf[1], buf[2]), y: i16_from_le(buf[3], buf[4]), z: i16_from_le(buf[5], buf[6]) }
}

/// Gyroscope then accelerometer from a thirteen-byte burst read at
/// OUTX_L_G, with the timestamp read after it.
pub fn decode_xl_gy_combined(buf: &[u8; 13], ts: u32) -> (d: RawImuData)
    ensures
        d.gy.x as int == i16_le(buf@[1], buf@[2]),
        d.gy.y as int == i16_le(buf@[3], buf@[4]),
        d.gy.z as int == i16_le(buf@[5], buf@[6]),
        d.xl.x as int == i16_le(buf@[7], buf@[8]),
        d.xl.y as int == i16_le(buf@[9], buf@[10]),
        d.xl.z as int == i16_le(buf@[11], buf@[12]),
        d.ts == ts,
{
    let gy = GyRawData { x: i16_from_le(buf[1], buf[2]), y: i16_from_le(buf[3], buf[4]), z: i16_from_le(buf[5], buf[6]) };
    let xl = XlRawData { x: i16_from_le(buf[7], buf[8]), y: i16_from_le(buf[9], buf[10]), z: i16_from_le(buf[11], buf[12]) };
    RawImuData { xl, gy, ts }
}

/// The data-ready flags of a status register value: bits 0, 1 and 2.
pub fn read_status_data(status: u8) -> (s: StatusDataAvailable)
    ensures
        s.xlda == (status & 1 != 0),
        s.gda == (status & 2 != 0),
        s.tda == (status & 4 != 0),
{
    StatusDataAvailable { xlda: status & 0b0000_0001 != 0, gda: status & 0b0000_0010 != 0, tda: status & 0b0000_0100 != 0 }
}

/// Whether a sample is read: both accelerometer and gyroscope data are ready.
pub fn sample_ready(status: StatusDataAvailable) -> (r: bool)
    ensures
        r == (status.xlda && status.gda),
{
    status.xlda && status.gda
}

/// Setting the range and the data rate of the accelerometer touch disjoint
/// bits of CTRL1_XL: either order gives the same register, which then holds
/// both settings and the other bits unchanged.
pub proof fn law_ctrl1_settings_independent(current: u8, fs: AccelFs, odr: Odr)
    ensures
        ctrl1_with_odr(ctrl1_with_fsr(current, fs), odr) == ctrl1_with_fsr(ctrl1_with_odr(current, odr), fs),
        ctrl1_with_odr(ctrl1_with_fsr(current, fs), odr) & ACCEL_FSR_MASK == accel_fs_code(fs),
        ctrl1_with_odr(ctrl1_with_fsr(current, fs), odr) & ACCEL_ODR_MASK == odr_code(odr),
        ctrl1_with_odr(ctrl1_with_fsr(current, fs), odr) & 0x03 == current & 0x03,
{
    let f = accel_fs_code(fs);
    let o = odr_code(odr);
    assert(f & !0x0Cu8 == 0) by (bit_vector)
        requires
            f == 0 || f == 4 || f == 8 || f == 12;
    assert(o & !0xF0u8 == 0) by (bit_vector)
        requires
            o == 0x10 || o == 0x20 || o == 0x30 || o == 0x40 || o == 0x50 || o == 0x60 || o == 0x70 || o == 0x80
                || o == 0x90 || o == 0xA0;
    assert(forall|c: u8, f: u8, o: u8| f & !0x0Cu8 == 0 && o & !0xF0u8 == 0 ==> {
        &&& (((c & !0x0Cu8) | f) & !0xF0u8) | o == (((c & !0xF0u8) | o) & !0x0Cu8) | f
        &&& ((((c & !0x0Cu8) | f) & !0xF0u8) | o) & 0x0Cu8 == f
        &&& ((((c & !0x0Cu8) | f) & !0xF0u8) | o) & 0xF0u8 == o
        &&& ((((c & !0x0Cu8) | f) & !0xF0u8) | o) & 0x03u8 == c & 0x03u8
    }) by (bit_vector);
}

/// The output rate a data rate names, in millihertz.
pub open spec fn odr_rate_millihz(o: Odr) -> int {
    match o {
        Odr::Hz12_5 => 12_500,
        Odr::Hz26 => 26_000,
        Odr::Hz52 => 52_000,
        Odr::Hz104 => 104_000,
        Odr::Hz208 => 208_000,
        Odr::Hz417 => 417_000,
        Odr::Hz833 => 833_000,
        Odr::Hz1667 => 1_667_000,
        Odr::Hz3333 => 3_333_000,
        Odr::Hz6667 => 6_667_000,
    }
}

/// Every data rate sets bits [7:4] to the code whose doubling window (from
/// 12.5 Hz at code 1) holds its rate, and no other bit.
pub proof fn law_odr_bits_select_their_rates(o: Odr)
    ensures
        odr_code(o) % 16 == 0,
        odr_field_selects((odr_code(o) / 16) as int, odr_rate_millihz(o)),
{
    lemma_pow2_values();
}

/// The full scale a gyroscope range names, in degrees per second.
pub open spec fn gyro_fs_dps(fs: GyroFs) -> int {
    match fs {
        GyroFs::DPS250 => 250,
        GyroFs::DPS500 => 500,
        GyroFs::DPS1000 => 1000,
        GyroFs::DPS2000 => 2000,
    }
}

/// Every gyroscope range sets bits [3:2] of CTRL2_G to the field that selects
/// it (250 dps doubled that many times), and no other bit.
pub proof fn law_gyro_fs_bits_select_their_ranges(fs: GyroFs)
    ensures
        gyro_fs_code(fs) % 4 == 0,
        gyro_fs_code(fs) < 16,
        gyro_field_selects((gyro_fs_code(fs) / 4) as int, gyro_fs_dps(fs)),
{
    lemma_pow2_values();
}

/// The full scale an accelerometer range names, in g.
pub open spec fn accel_fs_g(fs: AccelFs) -> int {
    match fs {
        AccelFs::G2 => 2,
        AccelFs::G4 => 4,
        AccelFs::G8 => 8,
        AccelFs::G16 => 16,
    }
}

/// Every accelerometer range sets bits [3:2] of CTRL1_XL to the field the
/// datasheet gives for its full scale, and no other bit.
pub proof fn law_accel_fs_bits_select_their_ranges(fs: AccelFs)
    ensures
        accel_fs_code(fs) % 4 == 0,
        accel_fs_code(fs) < 16,
        (accel_fs_code(fs) / 4) as int == accel_field_for_g(accel_fs_g(fs)),
{
}

} // verus!
