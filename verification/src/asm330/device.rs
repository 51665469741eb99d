//! The ASM330 device operations as register arithmetic: each operation takes
//! the values it read from the registers it changes and gives the values it
//! writes back. The SPI transfers around them are the caller's.

use vstd::prelude::*;
use super::regs::{
    accel_field_for_g, bit, bit_of, field_mask, field_of, gyro_field_selects, lemma_pow2_values, odr_field_selects,
    set_field, with_field,
};
use crate::board::imu::{i16_from_le, i16_le, u32_le};

verus! {

/// WHO_AM_I register address.
pub const REG_WHO_AM_I: u8 = 0x0F;
/// The identifier an ASM330 reports in WHO_AM_I.
pub const WHO_AM_I_VALUE: u8 = 0x6B;
/// CTRL3_C: software reset, bit 0.
pub const SW_RESET_MASK: u8 = 0b0000_0001;
/// CTRL3_C: reboot memory content, bit 7.
pub const BOOT_MASK: u8 = 0b1000_0000;

/// The register `reg` with the one-bit field at `off` set to `b`.
pub open spec fn with_bit(reg: u8, off: u8, b: bool) -> u8 {
    with_field(reg, off, 1, bit(b))
}

/// Writes a one-bit field.
fn set_bit(reg: u8, off: u8, b: bool) -> (r: u8)
    requires
        off < 8,
    ensures
        r == with_bit(reg, off, b),
{
    set_field(reg, off, 1, bit_of(b))
}

/// Whether the WHO_AM_I value identifies an ASM330.
pub fn who_am_i_ok(v: u8) -> (r: bool)
    ensures
        r == (v == WHO_AM_I_VALUE),
{
    v == WHO_AM_I_VALUE
}

/// CTRL3_C with the software reset bit set.
pub fn ctrl3_c_sw_reset(cur: u8) -> (r: u8)
    ensures
        r == with_bit(cur, 0, true),
        r == cur | SW_RESET_MASK,
{
    let r = set_bit(cur, 0, true);
    assert(((cur & !((((1u8 << 1u8) - 1) as u8) << 0u8)) | ((1u8 & (((1u8 << 1u8) - 1) as u8)) << 0u8)) == cur | 1u8) by (bit_vector);
    r
}

/// CTRL3_C with the reboot bit set. The accelerometer must be running: the
/// data-rate field of CTRL1_XL names a rate (not power-down).
pub fn ctrl3_c_reboot(ctrl1_xl: u8, cur: u8) -> (r: u8)
    requires
        1 <= field_of(ctrl1_xl, 4, 4) <= 11,
    ensures
        r == with_bit(cur, 7, true),
        r == cur | BOOT_MASK,
{
    let r = set_bit(cur, 7, true);
    assert(((cur & !((((1u8 << 1u8) - 1) as u8) << 7u8)) | ((1u8 & (((1u8 << 1u8) - 1) as u8)) << 7u8)) == cur | 0x80u8) by (bit_vector);
    r
}

/// CTRL4_C with the gyroscope put to sleep (bit 6 set).
pub fn ctrl4_c_sleep_gyro(cur: u8) -> (r: u8)
    ensures
        r == with_bit(cur, 6, true),
{
    set_bit(cur, 6, true)
}

/// CTRL4_C with the gyroscope woken (bit 6 clear).
pub fn ctrl4_c_wake_gyro(cur: u8) -> (r: u8)
    ensures
        r == with_bit(cur, 6, false),
{
    set_bit(cur, 6, false)
}

/// COUNTER_BDR_REG1 with the batch counter reset requested (bit 6 set).
pub fn counter_bdr_reg1_reset(cur: u8) -> (r: u8)
    ensures
        r == with_bit(cur, 6, true),
{
    set_bit(cur, 6, true)
}

/// CTRL10_C with the timestamp counter enabled or disabled (bit 5).
pub fn ctrl10_c_time(cur: u8, enable: bool) -> (r: u8)
    ensures
        r == with_bit(cur, 5, enable),
{
    set_bit(cur, 5, enable)
}

/// Data rate of a sensor or of its FIFO batching.
#[derive(Debug, Clone, Copy, PartialEq, Eq, Structural)]
pub enum Odr {
    PowerDown,
    Hz12_5,
    Hz26,
    Hz52,
    Hz104,
    Hz208,
    Hz417,
    Hz833,
    Hz1667,
    Hz3333,
    Hz6667,
    Hz6_5,
}

impl Odr {
    /// The field value of this setting.
    pub open spec fn code(self) -> u8 {
        match self {
            Odr::PowerDown => 0,
            Odr::Hz12_5 => 1,
            Odr::Hz26 => 2,
            Odr::Hz52 => 3,
            Odr::Hz104 => 4,
            Odr::Hz208 => 5,
            Odr::Hz417 => 6,
            Odr::Hz833 => 7,
            Odr::Hz1667 => 8,
            Odr::Hz3333 => 9,
            Odr::Hz6667 => 10,
            Odr::Hz6_5 => 11,
        }
    }

    /// The field value of this setting.
    pub fn bits(self) -> (r: u8)
        ensures
            r == self.code(),
    {
        match self {
            Odr::PowerDown => 0,
            Odr::Hz12_5 => 1,
            Odr::Hz26 => 2,
            Odr::Hz52 => 3,
            Odr::Hz104 => 4,
            Odr::Hz208 => 5,
            Odr::Hz417 => 6,
            Odr::Hz833 => 7,
            Odr::Hz1667 => 8,
            Odr::Hz3333 => 9,
            Odr::Hz6667 => 10,
            Odr::Hz6_5 => 11,
        }
    }
}

/// Accelerometer full-scale range.
#[derive(Debug, Clone, Copy, PartialEq, Eq, Structural)]
pub enum AccelScale {
    G2,
    G16,
    G4,
    G8,
}

impl AccelScale {
    /// The field value of this setting.
    pub open spec fn code(self) -> u8 {
        match self {
            AccelScale::G2 => 0,
            AccelScale::G16 => 1,
            AccelScale::G4 => 2,
            AccelScale::G8 => 3,
        }
    }

    /// The field value of this setting.
    pub fn bits(self) -> (r: u8)
        ensures
            r == self.code(),
    {
        match self {
            AccelScale::G2 => 0,
            AccelScale::G16 => 1,
            AccelScale::G4 => 2,
            AccelScale::G8 => 3,
        }
    }
}

/// Gyroscope full-scale range (the low four bits of CTRL2_G).
#[derive(Debug, Clone, Copy, PartialEq, Eq, Structural)]
pub enum GyroScale {
    Dps125,
    Dps250,
    Dps500,
    Dps1000,
    Dps2000,
    Dps4000,
}

impl GyroScale {
    /// The field value of this setting.
    pub open spec fn code(self) -> u8 {
        match self {
            GyroScale::Dps125 => 2,
            GyroScale::Dps250 => 0,
            GyroScale::Dps500 => 4,
            GyroScale::Dps1000 => 8,
            GyroScale::Dps2000 => 12,
            GyroScale::Dps4000 => 1,
        }
    }

    /// The field value of this setting.
    pub fn bits(self) -> (r: u8)
        ensures
            r == self.code(),
    {
        match self {
            GyroScale::Dps125 => 2,
            GyroScale::Dps250 => 0,
            GyroScale::Dps500 => 4,
            GyroScale::Dps1000 => 8,
            GyroScale::Dps2000 => 12,
            GyroScale::Dps4000 => 1,
        }
    }
}

/// FIFO operating mode.
#[derive(Debug, Clone, Copy, PartialEq, Eq, Structural)]
pub enum FifoMode {
    Bypass,
    Fifo,
    ContToFifo,
    BypassToCont,
    Cont,
    BypassToFifo,
}

impl FifoMode {
    /// The field value of this setting.
    pub open spec fn code(self) -> u8 {
        match self {
            FifoMode::Bypass => 0,
            FifoMode::Fifo => 1,
            FifoMode::ContToFifo => 3,
            FifoMode::BypassToCont => 4,
            FifoMode::Cont => 6,
            FifoMode::BypassToFifo => 7,
        }
    }

    /// The field value of this setting.
    pub fn bits(self) -> (r: u8)
        ensures
            r == self.code(),
    {
        match self {
            FifoMode::Bypass => 0,
            FifoMode::Fifo => 1,
            FifoMode::ContToFifo => 3,
            FifoMode::BypassToCont => 4,
            FifoMode::Cont => 6,
            FifoMode::BypassToFifo => 7,
        }
    }
}

/// Batching rate of temperature data in the FIFO.
#[derive(Debug, Clone, Copy, PartialEq, Eq, Structural)]
pub enum TempBatchOdr {
    NotBatched,
    Batched1_6,
    Batched12_5,
    Batched52,
}

impl TempBatchOdr {
    /// The field value of this setting.
    pub open spec fn code(self) -> u8 {
        match self {
            TempBatchOdr::NotBatched => 0,
            TempBatchOdr::Batched1_6 => 1,
            TempBatchOdr::Batched12_5 => 2,
            TempBatchOdr::Batched52 => 3,
        }
    }

    /// The field value of this setting.
    pub fn bits(self) -> (r: u8)
        ensures
            r == self.code(),
    {
        match self {
            TempBatchOdr::NotBatched => 0,
            TempBatchOdr::Batched1_6 => 1,
            TempBatchOdr::Batched12_5 => 2,
            TempBatchOdr::Batched52 => 3,
        }
    }
}

/// Decimation of timestamps batched in the FIFO.
#[derive(Debug, Clone, Copy, PartialEq, Eq, Structural)]
pub enum TimestampDecimation {
    NotBatched,
    BDRFlat,
    BDRBy8,
    BDRBy32,
}

impl TimestampDecimation {
    /// The field value of this setting.
    pub open spec fn code(self) -> u8 {
        match self {
            TimestampDecimation::NotBatched => 0,
            TimestampDecimation::BDRFlat => 1,
            TimestampDecimation::BDRBy8 => 2,
            TimestampDecimation::BDRBy32 => 3,
        }
    }

    /// The field value of this setting.
    pub fn bits(self) -> (r: u8)
        ensures
            r == self.code(),
    {
        match self {
            TimestampDecimation::NotBatched => 0,
            TimestampDecimation::BDRFlat => 1,
            TimestampDecimation::BDRBy8 => 2,
            TimestampDecimation::BDRBy32 => 3,
        }
    }
}

/// Read-address rounding.
#[derive(Debug, Clone, Copy, PartialEq, Eq, Structural)]
pub enum Rounding {
    Off,
    AccelOnly,
    GyroOnly,
    Both,
}

impl Rounding {
    /// The field value of this setting.
    pub open spec fn code(self) -> u8 {
        match self {
            Rounding::Off => 0,
            Rounding::AccelOnly => 1,
            Rounding::GyroOnly => 2,
            Rounding::Both => 3,
        }
    }

    /// The field value of this setting.
    pub fn bits(self) -> (r: u8)
        ensures
            r == self.code(),
    {
        match self {
            Rounding::Off => 0,
            Rounding::AccelOnly => 1,
            Rounding::GyroOnly => 2,
            Rounding::Both => 3,
        }
    }
}

/// DEN trigger mode.
#[derive(Debug, Clone, Copy, PartialEq, Eq, Structural)]
pub enum TriggerMode {
    DataEnableOff,
    EdgeTrig,
    LevelTrig,
    LevelLatch,
    LevelFifo,
}

impl TriggerMode {
    /// The field value of this setting.
    pub open spec fn code(self) -> u8 {
        match self {
            TriggerMode::DataEnableOff => 0,
            TriggerMode::EdgeTrig => 4,
            TriggerMode::LevelTrig => 2,
            TriggerMode::LevelLatch => 3,
            TriggerMode::LevelFifo => 6,
        }
    }

    /// The field value of this setting.
    pub fn bits(self) -> (r: u8)
        ensures
            r == self.code(),
    {
        match self {
            TriggerMode::DataEnableOff => 0,
            TriggerMode::EdgeTrig => 4,
            TriggerMode::LevelTrig => 2,
            TriggerMode::LevelLatch => 3,
            TriggerMode::LevelFifo => 6,
        }
    }
}

/// Gyroscope high-pass cut-off.
#[derive(Debug, Clone, Copy, PartialEq, Eq, Structural)]
pub enum GyroHighPassMode {
    Mode16,
    Mode65,
    Mode280,
    Mode1_04,
}

impl GyroHighPassMode {
    /// The field value of this setting.
    pub open spec fn code(self) -> u8 {
        match self {
            GyroHighPassMode::Mode16 => 0,
            GyroHighPassMode::Mode65 => 1,
            GyroHighPassMode::Mode280 => 2,
            GyroHighPassMode::Mode1_04 => 3,
        }
    }

    /// The field value of this setting.
    pub fn bits(self) -> (r: u8)
        ensures
            r == self.code(),
    {
        match self {
            GyroHighPassMode::Mode16 => 0,
            GyroHighPassMode::Mode65 => 1,
            GyroHighPassMode::Mode280 => 2,
            GyroHighPassMode::Mode1_04 => 3,
        }
    }
}

/// Behaviour on inactivity.
#[derive(Debug, Clone, Copy, PartialEq, Eq, Structural)]
pub enum InactMode {
    StationaryOrMotionInts,
    Accel12_5GyroUnchanged,
    Accel12_5GyroSleep,
    Accel12_5GyroPowerDown,
}

impl InactMode {
    /// The field value of this setting.
    pub open spec fn code(self) -> u8 {
        match self {
            InactMode::StationaryOrMotionInts => 0,
            InactMode::Accel12_5GyroUnchanged => 1,
            InactMode::Accel12_5GyroSleep => 2,
            InactMode::Accel12_5GyroPowerDown => 3,
        }
    }

    /// The field value of this setting.
    pub fn bits(self) -> (r: u8)
        ensures
            r == self.code(),
    {
        match self {
            InactMode::StationaryOrMotionInts => 0,
            InactMode::Accel12_5GyroUnchanged => 1,
            InactMode::Accel12_5GyroSleep => 2,
            InactMode::Accel12_5GyroPowerDown => 3,
        }
    }
}

/// 6D orientation threshold.
#[derive(Debug, Clone, Copy, PartialEq, Eq, Structural)]
pub enum SixDThresh {
    Thresh80Deg,
    Thresh70Deg,
    Thresh60Deg,
    Thresh50Deg,
}

impl SixDThresh {
    /// The field value of this setting.
    pub open spec fn code(self) -> u8 {
        match self {
            SixDThresh::Thresh80Deg => 0,
            SixDThresh::Thresh70Deg => 1,
            SixDThresh::Thresh60Deg => 2,
            SixDThresh::Thresh50Deg => 3,
        }
    }

    /// The field value of this setting.
    pub fn bits(self) -> (r: u8)
        ensures
            r == self.code(),
    {
        match self {
            SixDThresh::Thresh80Deg => 0,
            SixDThresh::Thresh70Deg => 1,
            SixDThresh::Thresh60Deg => 2,
            SixDThresh::Thresh50Deg => 3,
        }
    }
}

/// Free-fall threshold.
#[derive(Debug, Clone, Copy, PartialEq, Eq, Structural)]
pub enum FreeFallThresh {
    Thresh156,
    Thresh219,
    Thresh250,
    Thresh312,
    Thresh344,
    Thresh406,
    Thresh469,
    Thresh500,
}

impl FreeFallThresh {
    /// The field value of this setting.
    pub open spec fn code(self) -> u8 {
        match self {
            FreeFallThresh::Thresh156 => 0,
            FreeFallThresh::Thresh219 => 1,
            FreeFallThresh::Thresh250 => 2,
            FreeFallThresh::Thresh312 => 3,
            FreeFallThresh::Thresh344 => 4,
            FreeFallThresh::Thresh406 => 5,
            FreeFallThresh::Thresh469 => 6,
            FreeFallThresh::Thresh500 => 7,
        }
    }

    /// The field value of this setting.
    pub fn bits(self) -> (r: u8)
        ensures
            r == self.code(),
    {
        match self {
            FreeFallThresh::Thresh156 => 0,
            FreeFallThresh::Thresh219 => 1,
            FreeFallThresh::Thresh250 => 2,
            FreeFallThresh::Thresh312 => 3,
            FreeFallThresh::Thresh344 => 4,
            FreeFallThresh::Thresh406 => 5,
            FreeFallThresh::Thresh469 => 6,
            FreeFallThresh::Thresh500 => 7,
        }
    }
}

/// Weight of the user offset bits.
#[derive(Debug, Clone, Copy, PartialEq, Eq, Structural)]
pub enum UsrOffWeight {
    Small,
    Large,
}

impl UsrOffWeight {
    /// The field value of this setting.
    pub open spec fn code(self) -> u8 {
        match self {
            UsrOffWeight::Small => 0,
            UsrOffWeight::Large => 1,
        }
    }

    /// The field value of this setting.
    pub fn bits(self) -> (r: u8)
        ensures
            r == self.code(),
    {
        match self {
            UsrOffWeight::Small => 0,
            UsrOffWeight::Large => 1,
        }
    }
}

/// Sensor that drives the batch counter.
#[derive(Debug, Clone, Copy, PartialEq, Eq, Structural)]
pub enum BatchCounterSrc {
    Accel,
    Gyro,
}

impl BatchCounterSrc {
    /// The field value of this setting.
    pub open spec fn code(self) -> u8 {
        match self {
            BatchCounterSrc::Accel => 0,
            BatchCounterSrc::Gyro => 1,
        }
    }

    /// The field value of this setting.
    pub fn bits(self) -> (r: u8)
        ensures
            r == self.code(),
    {
        match self {
            BatchCounterSrc::Accel => 0,
            BatchCounterSrc::Gyro => 1,
        }
    }
}

/// Interrupt pin output stage.
#[derive(Debug, Clone, Copy, PartialEq, Eq, Structural)]
pub enum InterruptPinMode {
    PushPull,
    OpenDrain,
}

impl InterruptPinMode {
    /// The field value of this setting.
    pub open spec fn code(self) -> u8 {
        match self {
            InterruptPinMode::PushPull => 0,
            InterruptPinMode::OpenDrain => 1,
        }
    }

    /// The field value of this setting.
    pub fn bits(self) -> (r: u8)
        ensures
            r == self.code(),
    {
        match self {
            InterruptPinMode::PushPull => 0,
            InterruptPinMode::OpenDrain => 1,
        }
    }
}

/// SPI wiring.
#[derive(Debug, Clone, Copy, PartialEq, Eq, Structural)]
pub enum SpiMode {
    FourWire,
    ThreeWire,
}

impl SpiMode {
    /// The field value of this setting.
    pub open spec fn code(self) -> u8 {
        match self {
            SpiMode::FourWire => 0,
            SpiMode::ThreeWire => 1,
        }
    }

    /// The field value of this setting.
    pub fn bits(self) -> (r: u8)
        ensures
            r == self.code(),
    {
        match self {
            SpiMode::FourWire => 0,
            SpiMode::ThreeWire => 1,
        }
    }
}

/// Filter feeding the event detection.
#[derive(Debug, Clone, Copy, PartialEq, Eq, Structural)]
pub enum EventFilter {
    Slope,
    HighPass,
}

impl EventFilter {
    /// The field value of this setting.
    pub open spec fn code(self) -> u8 {
        match self {
            EventFilter::Slope => 0,
            EventFilter::HighPass => 1,
        }
    }

    /// The field value of this setting.
    pub fn bits(self) -> (r: u8)
        ensures
            r == self.code(),
    {
        match self {
            EventFilter::Slope => 0,
            EventFilter::HighPass => 1,
        }
    }
}

/// Weight of the wake-up threshold.
#[derive(Debug, Clone, Copy, PartialEq, Eq, Structural)]
pub enum WakeThresholdWeight {
    Large,
    Small,
}

impl WakeThresholdWeight {
    /// The field value of this setting.
    pub open spec fn code(self) -> u8 {
        match self {
            WakeThresholdWeight::Large => 0,
            WakeThresholdWeight::Small => 1,
        }
    }

    /// The field value of this setting.
    pub fn bits(self) -> (r: u8)
        ensures
            r == self.code(),
    {
        match self {
            WakeThresholdWeight::Large => 0,
            WakeThresholdWeight::Small => 1,
        }
    }
}

/// Sensor whose data DEN stamps.
#[derive(Debug, Clone, Copy, PartialEq, Eq, Structural)]
pub enum StampSensor {
    Gyro,
    Accel,
}

impl StampSensor {
    /// The field value of this setting.
    pub open spec fn code(self) -> u8 {
        match self {
            StampSensor::Gyro => 0,
            StampSensor::Accel => 1,
        }
    }

    /// The field value of this setting.
    pub fn bits(self) -> (r: u8)
        ensures
            r == self.code(),
    {
        match self {
            StampSensor::Gyro => 0,
            StampSensor::Accel => 1,
        }
    }
}

/// Accelerometer configuration. `high_pass_cutoff` is a three-bit value.
#[derive(Debug, Clone, Copy, PartialEq, Eq, Structural)]
pub struct AccelConfig {
    pub odr: Odr,
    pub fs: AccelScale,
    pub lpf2_en: bool,
    pub high_pass_cutoff: u8,
    pub high_pass_ref_mode_en: bool,
    pub high_pass_fast_settle_en: bool,
    pub high_pass_slope_xl_en: bool,
    pub low_pass_on_6d_en: bool,
    pub usr_off_weight: UsrOffWeight,
    pub usr_off_on_out_en: bool,
    pub x_ofs_usr: u8,
    pub y_ofs_usr: u8,
    pub z_ofs_usr: u8,
}

/// The registers the accelerometer configuration touches.
#[derive(Debug, Clone, Copy, PartialEq, Eq, Structural)]
pub struct AccelRegs {
    pub ctrl1_xl: u8,
    pub ctrl8_xl: u8,
    pub ctrl6_c: u8,
    pub ctrl7_g: u8,
    pub x_ofs_usr: u8,
    pub y_ofs_usr: u8,
    pub z_ofs_usr: u8,
}

/// CTRL1_XL: data rate in bits [7:4], range in [3:2], second low-pass
/// filter in bit 1.
pub open spec fn ctrl1_xl_value(cur: u8, odr: Odr, fs: AccelScale, lpf2: bool) -> u8 {
    with_field(with_field(with_bit(cur, 1, lpf2), 2, 2, fs.code()), 4, 4, odr.code())
}

/// Composes CTRL1_XL from its current value.
pub fn ctrl1_xl_for(cur: u8, odr: Odr, fs: AccelScale, lpf2: bool) -> (r: u8)
    requires
        odr != Odr::Hz6_5,
    ensures
        r == ctrl1_xl_value(cur, odr, fs, lpf2),
{
    let r = set_bit(cur, 1, lpf2);
    let r = set_field(r, 2, 2, fs.bits());
    set_field(r, 4, 4, odr.bits())
}

/// CTRL8_XL: cut-off in [7:5], reference mode bit 4, fast settle bit 3,
/// slope filter bit 2, low-pass on 6D bit 0.
pub open spec fn ctrl8_xl_value(cur: u8, cfg: AccelConfig) -> u8 {
    with_bit(with_bit(with_bit(with_bit(with_field(cur, 5, 3, cfg.high_pass_cutoff), 4,
        cfg.high_pass_ref_mode_en), 3, cfg.high_pass_fast_settle_en), 2, cfg.high_pass_slope_xl_en), 0,
        cfg.low_pass_on_6d_en)
}

/// The registers written for an accelerometer configuration.
pub open spec fn accel_regs(cur: AccelRegs, cfg: AccelConfig) -> AccelRegs {
    AccelRegs {
        ctrl1_xl: ctrl1_xl_value(cur.ctrl1_xl, cfg.odr, cfg.fs, cfg.lpf2_en),
        ctrl8_xl: ctrl8_xl_value(cur.ctrl8_xl, cfg),
        ctrl6_c: with_field(cur.ctrl6_c, 3, 1, cfg.usr_off_weight.code()),
        ctrl7_g: with_bit(cur.ctrl7_g, 1, cfg.usr_off_on_out_en),
        x_ofs_usr: cfg.x_ofs_usr,
        y_ofs_usr: cfg.y_ofs_usr,
        z_ofs_usr: cfg.z_ofs_usr,
    }
}

/// Configures the accelerometer: the new register values from the current
/// ones. The 6.5 Hz rate is not a valid accelerometer rate.
pub fn configure_accel(cur: AccelRegs, cfg: AccelConfig) -> (r: AccelRegs)
    requires
        cfg.odr != Odr::Hz6_5,
        cfg.high_pass_cutoff < 8,
    ensures
        r == accel_regs(cur, cfg),
{
    let ctrl1_xl = ctrl1_xl_for(cur.ctrl1_xl, cfg.odr, cfg.fs, cfg.lpf2_en);
    let c8 = set_field(cur.ctrl8_xl, 5, 3, cfg.high_pass_cutoff);
    let c8 = set_bit(c8, 4, cfg.high_pass_ref_mode_en);
    let c8 = set_bit(c8, 3, cfg.high_pass_fast_settle_en);
    let c8 = set_bit(c8, 2, cfg.high_pass_slope_xl_en);
    let c8 = set_bit(c8, 0, cfg.low_pass_on_6d_en);
    let ctrl6_c = set_field(cur.ctrl6_c, 3, 1, cfg.usr_off_weight.bits());
    let ctrl7_g = set_bit(cur.ctrl7_g, 1, cfg.usr_off_on_out_en);
    AccelRegs {
        ctrl1_xl,
        ctrl8_xl: c8,
        ctrl6_c,
        ctrl7_g,
        x_ofs_usr: cfg.x_ofs_usr,
        y_ofs_usr: cfg.y_ofs_usr,
        z_ofs_usr: cfg.z_ofs_usr,
    }
}

/// Gyroscope configuration. `low_pass_filter_select` is a three-bit value.
#[derive(Debug, Clone, Copy, PartialEq, Eq, Structural)]
pub struct GyroConfig {
    pub odr: Odr,
    pub fs: GyroScale,
    pub high_pass_en: bool,
    pub high_pass_mode: GyroHighPassMode,
    pub low_pass_filter_select: u8,
    pub low_pass_filter_en: bool,
}

/// The registers the gyroscope configuration touches.
#[derive(Debug, Clone, Copy, PartialEq, Eq, Structural)]
pub struct GyroRegs {
    pub ctrl2_g: u8,
    pub ctrl7_g: u8,
    pub ctrl6_c: u8,
    pub ctrl4_c: u8,
}

/// CTRL2_G: data rate in bits [7:4], range code in [3:0].
pub open spec fn ctrl2_g_value(cur: u8, odr: Odr, fs: GyroScale) -> u8 {
    with_field(with_field(cur, 4, 4, odr.code()), 0, 4, fs.code())
}

/// The registers written for a gyroscope configuration: CTRL7_G high-pass
/// enable bit 6 and mode [5:4], CTRL6_C filter selection [2:0], CTRL4_C
/// low-pass enable bit 1.
pub open spec fn gyro_regs(cur: GyroRegs, cfg: GyroConfig) -> GyroRegs {
    GyroRegs {
        ctrl2_g: ctrl2_g_value(cur.ctrl2_g, cfg.odr, cfg.fs),
        ctrl7_g: with_field(with_bit(cur.ctrl7_g, 6, cfg.high_pass_en), 4, 2, cfg.high_pass_mode.code()),
        ctrl6_c: with_field(cur.ctrl6_c, 0, 3, cfg.low_pass_filter_select),
        ctrl4_c: with_bit(cur.ctrl4_c, 1, cfg.low_pass_filter_en),
    }
}

/// Configures the gyroscope. The 6.5 Hz rate is not a gyroscope rate, and
/// filter selections from 4 up need a rate below 3333 Hz.
pub fn configure_gyro(cur: GyroRegs, cfg: GyroConfig) -> (r: GyroRegs)
    requires
        cfg.odr != Odr::Hz6_5,
        cfg.low_pass_filter_select < 8,
        cfg.low_pass_filter_select < 4 || cfg.odr.code() < Odr::Hz3333.code(),
    ensures
        r == gyro_regs(cur, cfg),
{
    let c2 = set_field(cur.ctrl2_g, 4, 4, cfg.odr.bits());
    let c2 = set_field(c2, 0, 4, cfg.fs.bits());
    let c7 = set_bit(cur.ctrl7_g, 6, cfg.high_pass_en);
    let c7 = set_field(c7, 4, 2, cfg.high_pass_mode.bits());
    let c6 = set_field(cur.ctrl6_c, 0, 3, cfg.low_pass_filter_select);
    let c4 = set_bit(cur.ctrl4_c, 1, cfg.low_pass_filter_en);
    GyroRegs { ctrl2_g: c2, ctrl7_g: c7, ctrl6_c: c6, ctrl4_c: c4 }
}

/// FIFO configuration: `wtm` is a nine-bit watermark and
/// `batch_event_threshold` a ten-bit count.
#[derive(Debug, Clone, Copy, PartialEq, Eq, Structural)]
pub struct FifoConfig {
    pub wtm: u16,
    pub odrchg_en: bool,
    pub stop_on_wtm: bool,
    pub bdr_gy: Odr,
    pub bdr_xl: Odr,
    pub timestamp_decimation: TimestampDecimation,
    pub temperature_batch_rate: TempBatchOdr,
    pub fifo_mode: FifoMode,
    pub data_ready_pulsed_en: bool,
    pub batch_counter_src: BatchCounterSrc,
    pub batch_event_threshold: u16,
}

/// The registers the FIFO configuration touches.
#[derive(Debug, Clone, Copy, PartialEq, Eq, Structural)]
pub struct FifoRegs {
    pub fifo_ctrl1: u8,
    pub fifo_ctrl2: u8,
    pub fifo_ctrl3: u8,
    pub fifo_ctrl4: u8,
    pub counter_bdr_reg1: u8,
    pub counter_bdr_reg2: u8,
}

/// The registers written for a FIFO configuration: the watermark's low byte
/// is FIFO_CTRL1 and its bit 8 is bit 0 of FIFO_CTRL2 (with ODR-change
/// batching bit 4, stop on watermark bit 7); FIFO_CTRL3 holds the
/// accelerometer batch rate in [3:0] and the gyroscope's in [7:4];
/// FIFO_CTRL4 the mode in [2:0], the temperature rate in [5:4], the
/// timestamp decimation in [7:6]; COUNTER_BDR_REG1 the threshold's bits 9:8
/// in [1:0], the counter source bit 5 and pulsed data-ready bit 7;
/// COUNTER_BDR_REG2 the threshold's low byte.
pub open spec fn fifo_regs(cur: FifoRegs, cfg: FifoConfig) -> FifoRegs {
    FifoRegs {
        fifo_ctrl1: (cfg.wtm % 256) as u8,
        fifo_ctrl2: with_bit(with_bit(with_field(cur.fifo_ctrl2, 0, 1, (cfg.wtm / 256) as u8), 4, cfg.odrchg_en),
            7, cfg.stop_on_wtm),
        fifo_ctrl3: with_field(with_field(cur.fifo_ctrl3, 4, 4, cfg.bdr_gy.code()), 0, 4, cfg.bdr_xl.code()),
        fifo_ctrl4: with_field(with_field(with_field(cur.fifo_ctrl4, 0, 3, cfg.fifo_mode.code()), 4, 2,
            cfg.temperature_batch_rate.code()), 6, 2, cfg.timestamp_decimation.code()),
        counter_bdr_reg1: with_field(with_field(with_bit(cur.counter_bdr_reg1, 7, cfg.data_ready_pulsed_en), 5, 1,
            cfg.batch_counter_src.code()), 0, 2, (cfg.batch_event_threshold / 256) as u8),
        counter_bdr_reg2: (cfg.batch_event_threshold % 256) as u8,
    }
}

/// Configures the FIFO. The 6.5 Hz rate is not an accelerometer batch rate.
pub fn configure_fifo(cur: FifoRegs, cfg: FifoConfig) -> (r: FifoRegs)
    requires
        cfg.bdr_xl != Odr::Hz6_5,
        cfg.wtm < 512,
        cfg.batch_event_threshold < 1024,
    ensures
        r == fifo_regs(cur, cfg),
{
    let c1: u8 = (cfg.wtm % 256) as u8;
    let c2 = set_field(cur.fifo_ctrl2, 0, 1, (cfg.wtm / 256) as u8);
    let c2 = set_bit(c2, 4, cfg.odrchg_en);
    let c2 = set_bit(c2, 7, cfg.stop_on_wtm);
    let c3 = set_field(cur.fifo_ctrl3, 4, 4, cfg.bdr_gy.bits());
    let c3 = set_field(c3, 0, 4, cfg.bdr_xl.bits());
    let c4 = set_field(cur.fifo_ctrl4, 0, 3, cfg.fifo_mode.bits());
    let c4 = set_field(c4, 4, 2, cfg.temperature_batch_rate.bits());
    let c4 = set_field(c4, 6, 2, cfg.timestamp_decimation.bits());
    let b1 = set_bit(cur.counter_bdr_reg1, 7, cfg.data_ready_pulsed_en);
    let b1 = set_field(b1, 5, 1, cfg.batch_counter_src.bits());
    let b1 = set_field(b1, 0, 2, (cfg.batch_event_threshold / 256) as u8);
    let b2: u8 = (cfg.batch_event_threshold % 256) as u8;
    FifoRegs {
        fifo_ctrl1: c1,
        fifo_ctrl2: c2,
        fifo_ctrl3: c3,
        fifo_ctrl4: c4,
        counter_bdr_reg1: b1,
        counter_bdr_reg2: b2,
    }
}

/// System configuration.
#[derive(Debug, Clone, Copy, PartialEq, Eq, Structural)]
pub struct SystemConfig {
    pub i2c_disable: bool,
    pub sdo_pullup_en: bool,
    pub block_data_update_en: bool,
    pub interrupt_pin_mode: InterruptPinMode,
    pub spi_mode_select: SpiMode,
    pub reg_addr_auto_increment_en: bool,
    pub rounding_mode: Rounding,
}

/// The registers the system configuration touches.
#[derive(Debug, Clone, Copy, PartialEq, Eq, Structural)]
pub struct SystemRegs {
    pub pin_ctrl: u8,
    pub ctrl3_c: u8,
    pub ctrl4_c: u8,
    pub ctrl5_c: u8,
    pub ctrl9_xl: u8,
}

/// The registers written for a system configuration: PIN_CTRL pull-up
/// bit 6; CTRL3_C block data update bit 6, pin mode bit 4, SPI mode bit 3,
/// auto-increment bit 2; CTRL4_C I2C disable bit 2; CTRL5_C rounding [6:5];
/// CTRL9_XL device configuration bit 1 set.
pub open spec fn system_regs(cur: SystemRegs, cfg: SystemConfig) -> SystemRegs {
    SystemRegs {
        pin_ctrl: with_bit(cur.pin_ctrl, 6, cfg.sdo_pullup_en),
        ctrl3_c: with_bit(with_field(with_field(with_bit(cur.ctrl3_c, 6, cfg.block_data_update_en), 4, 1,
            cfg.interrupt_pin_mode.code()), 3, 1, cfg.spi_mode_select.code()), 2, cfg.reg_addr_auto_increment_en),
        ctrl4_c: with_bit(cur.ctrl4_c, 2, cfg.i2c_disable),
        ctrl5_c: with_field(cur.ctrl5_c, 5, 2, cfg.rounding_mode.code()),
        ctrl9_xl: with_bit(cur.ctrl9_xl, 1, true),
    }
}

/// Configures the interface and data-update behaviour.
pub fn configure_system(cur: SystemRegs, cfg: SystemConfig) -> (r: SystemRegs)
    ensures
        r == system_regs(cur, cfg),
{
    let pin = set_bit(cur.pin_ctrl, 6, cfg.sdo_pullup_en);
    let c3 = set_bit(cur.ctrl3_c, 6, cfg.block_data_update_en);
    let c3 = set_field(c3, 4, 1, cfg.interrupt_pin_mode.bits());
    let c3 = set_field(c3, 3, 1, cfg.spi_mode_select.bits());
    let c3 = set_bit(c3, 2, cfg.reg_addr_auto_increment_en);
    let c4 = set_bit(cur.ctrl4_c, 2, cfg.i2c_disable);
    let c5 = set_field(cur.ctrl5_c, 5, 2, cfg.rounding_mode.bits());
    let c9 = set_bit(cur.ctrl9_xl, 1, true);
    SystemRegs { pin_ctrl: pin, ctrl3_c: c3, ctrl4_c: c4, ctrl5_c: c5, ctrl9_xl: c9 }
}

/// Sources routed to interrupt pin 1.
#[derive(Debug, Clone, Copy, PartialEq, Eq, Structural)]
pub struct Interrupt1Mask {
    pub cnt_bdr: bool,
    pub fifo_full: bool,
    pub fifo_ovr: bool,
    pub fifo_th: bool,
    pub boot: bool,
    pub drdy_g: bool,
    pub drdy_xl: bool,
    pub sleep_change: bool,
    pub wu: bool,
    pub ff: bool,
    pub int_6d: bool,
    pub den_drdy: bool,
}

/// Sources routed to interrupt pin 2.
#[derive(Debug, Clone, Copy, PartialEq, Eq, Structural)]
pub struct Interrupt2Mask {
    pub cnt_bdr: bool,
    pub fifo_full: bool,
    pub fifo_ovr: bool,
    pub fifo_th: bool,
    pub drdy_temp: bool,
    pub drdy_g: bool,
    pub drdy_xl: bool,
    pub sleep_change: bool,
    pub wu: bool,
    pub ff: bool,
    pub int_6d: bool,
    pub timestamp: bool,
}

/// Interrupt configuration.
#[derive(Debug, Clone, Copy, PartialEq, Eq, Structural)]
pub struct InterruptConfig {
    pub int2_on_int1: bool,
    pub active_low: bool,
    pub drdy_mask_en: bool,
    pub clear_on_read_en: bool,
    pub sleep_status_en: bool,
    pub latched_en: bool,
    pub interrupts_en: bool,
    pub int1_mask: Interrupt1Mask,
    pub int2_mask: Interrupt2Mask,
}

/// The registers the interrupt configuration touches.
#[derive(Debug, Clone, Copy, PartialEq, Eq, Structural)]
pub struct InterruptRegs {
    pub ctrl4_c: u8,
    pub ctrl3_c: u8,
    pub int_cfg0: u8,
    pub int_cfg1: u8,
    pub md1_cfg: u8,
    pub md2_cfg: u8,
    pub int1_ctrl: u8,
    pub int2_ctrl: u8,
}

/// MD1_CFG: sleep change bit 7, wake-up bit 5, free fall bit 4, 6D bit 2.
pub open spec fn md1_cfg_value(cur: u8, m: Interrupt1Mask) -> u8 {
    with_bit(with_bit(with_bit(with_bit(cur, 7, m.sleep_change), 5, m.wu), 4, m.ff), 2, m.int_6d)
}

/// MD2_CFG: sleep change bit 7, wake-up bit 5, free fall bit 4, 6D bit 2,
/// timestamp bit 0.
pub open spec fn md2_cfg_value(cur: u8, m: Interrupt2Mask) -> u8 {
    with_bit(with_bit(with_bit(with_bit(with_bit(cur, 7, m.sleep_change), 5, m.wu), 4, m.ff), 2, m.int_6d), 0,
        m.timestamp)
}

/// INT1_CTRL: accelerometer data ready bit 0, gyroscope bit 1, boot bit 2,
/// FIFO threshold bit 3, overrun bit 4, full bit 5, batch counter bit 6,
/// DEN data ready bit 7.
pub open spec fn int1_ctrl_value(cur: u8, m: Interrupt1Mask) -> u8 {
    with_bit(with_bit(with_bit(with_bit(with_bit(with_bit(with_bit(with_bit(cur, 0, m.drdy_xl), 1, m.drdy_g), 2,
        m.boot), 3, m.fifo_th), 4, m.fifo_ovr), 5, m.fifo_full), 6, m.cnt_bdr), 7, m.den_drdy)
}

/// INT2_CTRL: accelerometer data ready bit 0, gyroscope bit 1, temperature
/// bit 2, FIFO threshold bit 3, overrun bit 4, full bit 5, batch counter
/// bit 6.
pub open spec fn int2_ctrl_value(cur: u8, m: Interrupt2Mask) -> u8 {
    with_bit(with_bit(with_bit(with_bit(with_bit(with_bit(with_bit(cur, 0, m.drdy_xl), 1, m.drdy_g), 2,
        m.drdy_temp), 3, m.fifo_th), 4, m.fifo_ovr), 5, m.fifo_full), 6, m.cnt_bdr)
}

/// The registers written for an interrupt configuration: CTRL4_C pin
/// sharing bit 5 and data-ready mask bit 3; CTRL3_C active-low bit 5;
/// INT_CFG0 clear on read bit 6, sleep status bit 5, latched bit 0;
/// INT_CFG1 enable bit 7; and the routing registers.
pub open spec fn interrupt_regs(cur: InterruptRegs, cfg: InterruptConfig) -> InterruptRegs {
    InterruptRegs {
        ctrl4_c: with_bit(with_bit(cur.ctrl4_c, 5, cfg.int2_on_int1), 3, cfg.drdy_mask_en),
        ctrl3_c: with_bit(cur.ctrl3_c, 5, cfg.active_low),
        int_cfg0: with_bit(with_bit(with_bit(cur.int_cfg0, 6, cfg.clear_on_read_en), 5, cfg.sleep_status_en), 0,
            cfg.latched_en),
        int_cfg1: with_bit(cur.int_cfg1, 7, cfg.interrupts_en),
        md1_cfg: md1_cfg_value(cur.md1_cfg, cfg.int1_mask),
        md2_cfg: md2_cfg_value(cur.md2_cfg, cfg.int2_mask),
        int1_ctrl: int1_ctrl_value(cur.int1_ctrl, cfg.int1_mask),
        int2_ctrl: int2_ctrl_value(cur.int2_ctrl, cfg.int2_mask),
    }
}

/// Composes MD1_CFG.
pub fn md1_cfg_for(cur: u8, m1: Interrupt1Mask) -> (r: u8)
    ensures
        r == md1_cfg_value(cur, m1),
{
    let md1 = set_bit(cur, 7, m1.sleep_change);
    let md1 = set_bit(md1, 5, m1.wu);
    let md1 = set_bit(md1, 4, m1.ff);
    set_bit(md1, 2, m1.int_6d)
}

/// Composes MD2_CFG.
pub fn md2_cfg_for(cur: u8, m2: Interrupt2Mask) -> (r: u8)
    ensures
        r == md2_cfg_value(cur, m2),
{
    let md2 = set_bit(cur, 7, m2.sleep_change);
    let md2 = set_bit(md2, 5, m2.wu);
    let md2 = set_bit(md2, 4, m2.ff);
    let md2 = set_bit(md2, 2, m2.int_6d);
    set_bit(md2, 0, m2.timestamp)
}

/// Composes INT1_CTRL.
pub fn int1_ctrl_for(cur: u8, m1: Interrupt1Mask) -> (r: u8)
    ensures
        r == int1_ctrl_value(cur, m1),
{
    let a = set_bit(cur, 0, m1.drdy_xl);
    let a = set_bit(a, 1, m1.drdy_g);
    let a = set_bit(a, 2, m1.boot);
    let a = set_bit(a, 3, m1.fifo_th);
    let a = set_bit(a, 4, m1.fifo_ovr);
    let a = set_bit(a, 5, m1.fifo_full);
    let a = set_bit(a, 6, m1.cnt_bdr);
    set_bit(a, 7, m1.den_drdy)
}

/// Composes INT2_CTRL.
pub fn int2_ctrl_for(cur: u8, m2: Interrupt2Mask) -> (r: u8)
    ensures
        r == int2_ctrl_value(cur, m2),
{
    let b = set_bit(cur, 0, m2.drdy_xl);
    let b = set_bit(b, 1, m2.drdy_g);
    let b = set_bit(b, 2, m2.drdy_temp);
    let b = set_bit(b, 3, m2.fifo_th);
    let b = set_bit(b, 4, m2.fifo_ovr);
    let b = set_bit(b, 5, m2.fifo_full);
    set_bit(b, 6, m2.cnt_bdr)
}

/// Configures the interrupts. Clear-on-read needs latched interrupts.
pub fn configure_interrupt(cur: InterruptRegs, cfg: InterruptConfig) -> (r: InterruptRegs)
    requires
        !cfg.clear_on_read_en || cfg.latched_en,
    ensures
        r == interrupt_regs(cur, cfg),
{
    let c4 = set_bit(cur.ctrl4_c, 5, cfg.int2_on_int1);
    let c4 = set_bit(c4, 3, cfg.drdy_mask_en);
    let c3 = set_bit(cur.ctrl3_c, 5, cfg.active_low);
    let i0 = set_bit(cur.int_cfg0, 6, cfg.clear_on_read_en);
    let i0 = set_bit(i0, 5, cfg.sleep_status_en);
    let i0 = set_bit(i0, 0, cfg.latched_en);
    let i1 = set_bit(cur.int_cfg1, 7, cfg.interrupts_en);
    let md1 = md1_cfg_for(cur.md1_cfg, cfg.int1_mask);
    let md2 = md2_cfg_for(cur.md2_cfg, cfg.int2_mask);
    let a = int1_ctrl_for(cur.int1_ctrl, cfg.int1_mask);
    let b = int2_ctrl_for(cur.int2_ctrl, cfg.int2_mask);
    InterruptRegs {
        ctrl4_c: c4,
        ctrl3_c: c3,
        int_cfg0: i0,
        int_cfg1: i1,
        md1_cfg: md1,
        md2_cfg: md2,
        int1_ctrl: a,
        int2_ctrl: b,
    }
}

/// Event detection configuration: `wake_up_threshold` is six bits,
/// `wake_up_duration` two, `sleep_duration` four, `ff_dur` six.
#[derive(Debug, Clone, Copy, PartialEq, Eq, Structural)]
pub struct EventConfig {
    pub event_filter_select: EventFilter,
    pub inact_en: InactMode,
    pub d4d_en: bool,
    pub sixd_threshold: SixDThresh,
    pub usr_off_on_wu: bool,
    pub wake_up_threshold: u8,
    pub wake_up_duration: u8,
    pub wake_up_threshold_weight: WakeThresholdWeight,
    pub sleep_duration: u8,
    pub ff_dur: u8,
    pub ff_ths: FreeFallThresh,
}

/// The registers the event configuration touches.
#[derive(Debug, Clone, Copy, PartialEq, Eq, Structural)]
pub struct EventRegs {
    pub int_cfg0: u8,
    pub int_cfg1: u8,
    pub ths_6d: u8,
    pub wake_up_ths: u8,
    pub wake_up_dur: u8,
    pub free_fall: u8,
}

/// The registers written for an event configuration: INT_CFG0 filter
/// bit 4; INT_CFG1 inactivity mode [6:5]; THS_6D 4D bit 7 and threshold
/// [6:5]; WAKE_UP_THS user offset bit 6 and threshold [5:0]; WAKE_UP_DUR
/// wake duration [6:5], threshold weight bit 4, sleep duration [3:0] and bit 5
/// of the free-fall duration in bit 7; FREE_FALL the duration's low five
/// bits in [7:3] and the threshold in [2:0].
pub open spec fn event_regs(cur: EventRegs, cfg: EventConfig) -> EventRegs {
    EventRegs {
        int_cfg0: with_field(cur.int_cfg0, 4, 1, cfg.event_filter_select.code()),
        int_cfg1: with_field(cur.int_cfg1, 5, 2, cfg.inact_en.code()),
        ths_6d: with_field(with_bit(cur.ths_6d, 7, cfg.d4d_en), 5, 2, cfg.sixd_threshold.code()),
        wake_up_ths: with_field(with_bit(cur.wake_up_ths, 6, cfg.usr_off_on_wu), 0, 6, cfg.wake_up_threshold),
        wake_up_dur: with_field(with_field(with_field(with_field(cur.wake_up_dur, 5, 2, cfg.wake_up_duration), 4, 1,
            cfg.wake_up_threshold_weight.code()), 0, 4, cfg.sleep_duration), 7, 1, cfg.ff_dur / 32),
        free_fall: with_field(with_field(cur.free_fall, 3, 5, cfg.ff_dur % 32), 0, 3, cfg.ff_ths.code()),
    }
}

/// Configures event detection.
pub fn configure_event(cur: EventRegs, cfg: EventConfig) -> (r: EventRegs)
    requires
        cfg.wake_up_threshold < 64,
        cfg.wake_up_duration < 4,
        cfg.sleep_duration < 16,
        cfg.ff_dur < 64,
    ensures
        r == event_regs(cur, cfg),
{
    let i0 = set_field(cur.int_cfg0, 4, 1, cfg.event_filter_select.bits());
    let i1 = set_field(cur.int_cfg1, 5, 2, cfg.inact_en.bits());
    let t6 = set_bit(cur.ths_6d, 7, cfg.d4d_en);
    let t6 = set_field(t6, 5, 2, cfg.sixd_threshold.bits());
    let wt = set_bit(cur.wake_up_ths, 6, cfg.usr_off_on_wu);
    let wt = set_field(wt, 0, 6, cfg.wake_up_threshold);
    let wd = set_field(cur.wake_up_dur, 5, 2, cfg.wake_up_duration);
    let wd = set_field(wd, 4, 1, cfg.wake_up_threshold_weight.bits());
    let wd = set_field(wd, 0, 4, cfg.sleep_duration);
    let wd = set_field(wd, 7, 1, cfg.ff_dur / 32);
    let ff = set_field(cur.free_fall, 3, 5, cfg.ff_dur % 32);
    let ff = set_field(ff, 0, 3, cfg.ff_ths.bits());
    EventRegs { int_cfg0: i0, int_cfg1: i1, ths_6d: t6, wake_up_ths: wt, wake_up_dur: wd, free_fall: ff }
}

/// DEN (data enable) configuration.
#[derive(Debug, Clone, Copy, PartialEq, Eq, Structural)]
pub struct DenConfig {
    pub on_x: bool,
    pub on_y: bool,
    pub on_z: bool,
    pub stamping_sensor: StampSensor,
    pub extend_to_accel: bool,
    pub active_high: bool,
    pub trigger_mode: TriggerMode,
}

impl Default for DenConfig {
    /// DEN on all three axes, stamping the gyroscope, active low, off.
    fn default() -> (c: DenConfig)
        ensures
            c == (DenConfig {
                on_x: true,
                on_y: true,
                on_z: true,
                stamping_sensor: StampSensor::Gyro,
                extend_to_accel: false,
                active_high: false,
                trigger_mode: TriggerMode::DataEnableOff,
            }),
    {
        DenConfig {
            on_x: true,
            on_y: true,
            on_z: true,
            stamping_sensor: StampSensor::Gyro,
            extend_to_accel: false,
            active_high: false,
            trigger_mode: TriggerMode::DataEnableOff,
        }
    }
}

/// The registers the DEN configuration touches.
#[derive(Debug, Clone, Copy, PartialEq, Eq, Structural)]
pub struct DenRegs {
    pub ctrl9_xl: u8,
    pub ctrl6_c: u8,
}

/// The registers written for a DEN configuration: CTRL9_XL axes in bits 7
/// (x), 6 (y), 5 (z), stamped sensor bit 4, extension to the accelerometer
/// bit 3, active high bit 2; CTRL6_C trigger mode [7:5].
pub open spec fn den_regs(cur: DenRegs, cfg: DenConfig) -> DenRegs {
    DenRegs {
        ctrl9_xl: with_bit(with_bit(with_field(with_bit(with_bit(with_bit(cur.ctrl9_xl, 7, cfg.on_x), 6, cfg.on_y),
            5, cfg.on_z), 4, 1, cfg.stamping_sensor.code()), 3, cfg.extend_to_accel), 2, cfg.active_high),
        ctrl6_c: with_field(cur.ctrl6_c, 5, 3, cfg.trigger_mode.code()),
    }
}

/// Configures DEN.
pub fn configure_den(cur: DenRegs, cfg: DenConfig) -> (r: DenRegs)
    ensures
        r == den_regs(cur, cfg),
{
    let c9 = set_bit(cur.ctrl9_xl, 7, cfg.on_x);
    let c9 = set_bit(c9, 6, cfg.on_y);
    let c9 = set_bit(c9, 5, cfg.on_z);
    let c9 = set_field(c9, 4, 1, cfg.stamping_sensor.bits());
    let c9 = set_bit(c9, 3, cfg.extend_to_accel);
    let c9 = set_bit(c9, 2, cfg.active_high);
    let c6 = set_field(cur.ctrl6_c, 5, 3, cfg.trigger_mode.bits());
    DenRegs { ctrl9_xl: c9, ctrl6_c: c6 }
}

/// Accelerometer output, raw.
#[derive(Debug, Clone, Copy, PartialEq, Eq, Structural)]
pub struct AccelData {
    pub x: i16,
    pub y: i16,
    pub z: i16,
}

/// Gyroscope output, raw.
#[derive(Debug, Clone, Copy, PartialEq, Eq, Structural)]
pub struct GyroData {
    pub x: i16,
    pub y: i16,
    pub z: i16,
}

/// The gyroscope sample from OUTX_L_G through OUTZ_H_G, in register order.
pub fn read_gyro(regs: [u8; 6]) -> (d: GyroData)
    ensures
        d.x as int == i16_le(regs@[0], regs@[1]),
        d.y as int == i16_le(regs@[2], regs@[3]),
        d.z as int == i16_le(regs@[4], regs@[5]),
{
    GyroData {
        x: i16_from_le(regs[0], regs[1]),
        y: i16_from_le(regs[2], regs[3]),
        z: i16_from_le(regs[4], regs[5]),
    }
}

/// The accelerometer sample from OUTX_L_A through OUTZ_H_A, in register order.
pub fn read_accel(regs: [u8; 6]) -> (d: AccelData)
    ensures
        d.x as int == i16_le(regs@[0], regs@[1]),
        d.y as int == i16_le(regs@[2], regs@[3]),
        d.z as int == i16_le(regs@[4], regs@[5]),
{
    AccelData {
        x: i16_from_le(regs[0], regs[1]),
        y: i16_from_le(regs[2], regs[3]),
        z: i16_from_le(regs[4], regs[5]),
    }
}

/// The temperature from OUT_TEMP_L and OUT_TEMP_H.
pub fn read_temp(lo: u8, hi: u8) -> (t: i16)
    ensures
        t as int == i16_le(lo, hi),
{
    i16_from_le(lo, hi)
}

/// The timestamp from TIMESTAMP0 through TIMESTAMP3.
pub fn read_time(regs: [u8; 4]) -> (t: u32)
    ensures
        t as int == u32_le(regs@[0], regs@[1], regs@[2], regs@[3]),
{
    regs[0] as u32 + 256 * regs[1] as u32 + 65536 * regs[2] as u32 + 16777216 * regs[3] as u32
}

/// The output rate a data-rate setting names, in millihertz.
pub open spec fn odr_rate_millihz(o: Odr) -> int {
    match o {
        Odr::PowerDown => 0,
        Odr::Hz12_5 => 12_500,
        Odr::Hz26 => 26_000,
        Odr::Hz52 => 52_000,
        Odr::Hz104 => 104_000,
        Odr::Hz208 => 208_000,
        Odr::Hz417 => 417_000,
        Odr::Hz833 => 833_000,
        Odr::Hz1667 => 1_667_000,
        Odr::Hz3333 => 3_333_000,
        Odr::Hz6667 => 6_667_000,
        Odr::Hz6_5 => 6_500,
    }
}

/// Every data-rate setting writes the field value that selects its rate:
/// power-down is 0, the 6.5 Hz low-power rate is 0b1011, and each other rate
/// gets the code whose doubling window (from 12.5 Hz at code 1) holds it.
pub proof fn law_odr_codes_select_their_rates(o: Odr)
    ensures
        o == Odr::PowerDown ==> o.code() == 0,
        o == Odr::Hz6_5 ==> o.code() == 0b1011,
        o != Odr::PowerDown && o != Odr::Hz6_5 ==> odr_field_selects(o.code() as int, odr_rate_millihz(o)),
{
    lemma_pow2_values();
}

/// The full scale a gyroscope range names, in degrees per second.
pub open spec fn gyro_scale_dps(s: GyroScale) -> int {
    match s {
        GyroScale::Dps125 => 125,
        GyroScale::Dps250 => 250,
        GyroScale::Dps500 => 500,
        GyroScale::Dps1000 => 1000,
        GyroScale::Dps2000 => 2000,
        GyroScale::Dps4000 => 4000,
    }
}

/// Every gyroscope range writes the low nibble of CTRL2_G that selects it:
/// from 250 to 2000 dps the FS field in bits [3:2] selects 250 dps doubled
/// that many times; 125 dps is the FS_125 bit (bit 1) alone, 4000 dps the
/// FS_4000 bit (bit 0) alone.
pub proof fn law_gyro_scale_codes_select_their_ranges(s: GyroScale)
    ensures
        s == GyroScale::Dps125 ==> s.code() == 0b0010,
        s == GyroScale::Dps4000 ==> s.code() == 0b0001,
        s != GyroScale::Dps125 && s != GyroScale::Dps4000 ==> s.code() % 4 == 0
            && gyro_field_selects((s.code() / 4) as int, gyro_scale_dps(s)),
{
    lemma_pow2_values();
}

/// The full scale an accelerometer range names, in g.
pub open spec fn accel_scale_g(s: AccelScale) -> int {
    match s {
        AccelScale::G2 => 2,
        AccelScale::G4 => 4,
        AccelScale::G8 => 8,
        AccelScale::G16 => 16,
    }
}

/// Every accelerometer range writes the FS field the datasheet gives for its
/// full scale.
pub proof fn law_accel_scale_codes_select_their_ranges(s: AccelScale)
    ensures
        s.code() as int == accel_field_for_g(accel_scale_g(s)),
{
}

} // verus!
