//! Sensor-node and bridge firmware logic (ESP32-C6 boards).

pub mod types;
pub mod aircomm;
pub mod usb;
pub mod timebase;
pub mod hmi;
pub mod neopixel;
pub mod bridge;
pub mod radio;
pub mod gps;
pub mod imu;
pub mod asm330;
