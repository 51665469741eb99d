//! NeoPixel colors, as used by the single-LED driver.

pub use crate::board::hmi::neopixel::{color_rgb, Color};
