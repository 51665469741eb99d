//! NeoPixel (WS2812) colors, brightness scaling and the bit pulses that carry them.

use vstd::prelude::*;

verus! {

/// Color of a single NeoPixel.
#[derive(Debug, Clone, Copy, PartialEq, Eq, Structural)]
pub enum Color {
    Off,
    Red,
    Green,
    Blue,
    Yellow,
    Cyan,
    Magenta,
    White,
    Orange,
    Purple,
    /// (R, G, B)
    Custom(u8, u8, u8),
}

/// The RGB value of a color.
pub open spec fn color_rgb(c: Color) -> (u8, u8, u8) {
    match c {
        Color::Off => (0, 0, 0),
        Color::Red => (255, 0, 0),
        Color::Green => (0, 255, 0),
        Color::Blue => (0, 0, 255),
        Color::Yellow => (255, 255, 0),
        Color::Cyan => (0, 255, 255),
        Color::Magenta => (255, 0, 255),
        Color::White => (255, 255, 255),
        Color::Orange => (255, 165, 0),
        Color::Purple => (128, 0, 128),
        Color::Custom(r, g, b) => (r, g, b),
    }
}

/// The RGB value that lights exactly the channels chosen, each at full
/// intensity.
pub open spec fn full_channels(red: bool, green: bool, blue: bool) -> (u8, u8, u8) {
    (if red { 255u8 } else { 0u8 }, if green { 255u8 } else { 0u8 }, if blue { 255u8 } else { 0u8 })
}

/// The named colors light the channels their names say: off none, each
/// primary its own channel alone at full intensity, each secondary its two
/// primaries, white all three; orange and purple are the web colors of those
/// names (255, 165, 0) and (128, 0, 128); a custom color is its own value.
pub proof fn law_named_colors_light_their_channels(c: Color)
    ensures
        c == Color::Off ==> color_rgb(c) == full_channels(false, false, false),
        c == Color::Red ==> color_rgb(c) == full_channels(true, false, false),
        c == Color::Green ==> color_rgb(c) == full_channels(false, true, false),
        c == Color::Blue ==> color_rgb(c) == full_channels(false, false, true),
        c == Color::Yellow ==> color_rgb(c) == full_channels(true, true, false),
        c == Color::Cyan ==> color_rgb(c) == full_channels(false, true, true),
        c == Color::Magenta ==> color_rgb(c) == full_channels(true, false, true),
        c == Color::White ==> color_rgb(c) == full_channels(true, true, true),
        c == Color::Orange ==> color_rgb(c) == (255u8, 165u8, 0u8),
        c == Color::Purple ==> color_rgb(c) == (128u8, 0u8, 128u8),
        c matches Color::Custom(r, g, b) ==> color_rgb(c) == (r, g, b),
{
}

impl Color {
    /// All predefined colors except `Off` and `Custom`, in rainbow order.
    pub fn all_colors() -> (cs: [Color; 9])
        ensures
            cs@ == seq![Color::Red, Color::Orange, Color::Yellow, Color::Green, Color::Cyan,
                Color::Blue, Color::Purple, Color::Magenta, Color::White],
    {
        let cs = [
            Color::Red,
            Color::Orange,
            Color::Yellow,
            Color::Green,
            Color::Cyan,
            Color::Blue,
            Color::Purple,
            Color::Magenta,
            Color::White,
        ];
        assert(cs@ =~= seq![Color::Red, Color::Orange, Color::Yellow, Color::Green, Color::Cyan,
            Color::Blue, Color::Purple, Color::Magenta, Color::White]);
        cs
    }

    /// The RGB value of this color.
    pub fn to_rgb(&self) -> (rgb: (u8, u8, u8))
        ensures
            rgb == color_rgb(*self),
    {
        match self {
            Color::Off => (0, 0, 0),
            Color::Red => (255, 0, 0),
            Color::Green => (0, 255, 0),
            Color::Blue => (0, 0, 255),
            Color::Yellow => (255, 255, 0),
            Color::Cyan => (0, 255, 255),
            Color::Magenta => (255, 0, 255),
            Color::White => (255, 255, 255),
            Color::Orange => (255, 165, 0),
            Color::Purple => (128, 0, 128),
            Color::Custom(r, g, b) => (*r, *g, *b),
        }
    }
}

/// One channel scaled by a brightness of 0 (off) to 255 (full), rounding down.
pub open spec fn scale_channel(c: u8, brightness: u8) -> u8 {
    (c as int * brightness as int / 255) as u8
}

/// A color at a brightness of 0 (off) to 255 (full): each channel scaled,
/// rounding down, as the LED is driven with it.
pub fn scaled_color(color: Color, brightness: u8) -> (c: Color)
    ensures
        c == Color::Custom(
            scale_channel(color_rgb(color).0, brightness),
            scale_channel(color_rgb(color).1, brightness),
            scale_channel(color_rgb(color).2, brightness),
        ),
{
    let (r, g, b) = color.to_rgb();
    let scale = brightness as u16;
    assert(r as u16 * scale <= 65025) by (nonlinear_arith)
        requires r <= 255, scale <= 255;
    assert(g as u16 * scale <= 65025) by (nonlinear_arith)
        requires g <= 255, scale <= 255;
    assert(b as u16 * scale <= 65025) by (nonlinear_arith)
        requires b <= 255, scale <= 255;
    let r_scaled = ((r as u16 * scale) / 255) as u8;
    let g_scaled = ((g as u16 * scale) / 255) as u8;
    let b_scaled = ((b as u16 * scale) / 255) as u8;
    Color::Custom(r_scaled, g_scaled, b_scaled)
}

/// Scaling never brightens a channel, full brightness keeps it, zero turns it off.
pub proof fn law_scaling_bounds(c: u8, brightness: u8)
    ensures
        scale_channel(c, brightness) <= c,
        scale_channel(c, 255) == c,
        scale_channel(c, 0) == 0,
{
    assert(c as int * brightness as int <= c as int * 255) by (nonlinear_arith)
        requires brightness <= 255;
    assert(c as int * brightness as int / 255 <= c as int) by (nonlinear_arith)
        requires c as int * brightness as int <= c as int * 255, c >= 0, brightness >= 0;
}

/// WS2812 pulse timing in RMT ticks (12.5 ns at 80 MHz): high time of a 0 bit.
pub const T0H: u16 = 28;
/// Low time of a 0 bit.
pub const T0L: u16 = 64;
/// High time of a 1 bit.
pub const T1H: u16 = 56;
/// Low time of a 1 bit.
pub const T1L: u16 = 48;
/// Reset (latch) low time.
pub const RESET: u16 = 4000;

/// One RMT pulse code: a level held for a duration, then another.
#[derive(Debug, Clone, Copy, PartialEq, Eq, Structural)]
pub struct PulseCode {
    pub level1_high: bool,
    pub length1: u16,
    pub level2_high: bool,
    pub length2: u16,
}

/// The end marker of an RMT transmission.
pub open spec fn end_marker() -> PulseCode {
    PulseCode { level1_high: false, length1: 0, level2_high: false, length2: 0 }
}

/// Bit `i` (0 = most significant) of the 24 bits sent for a color: green, red,
/// blue, each most significant bit first.
pub open spec fn grb_bit(rgb: (u8, u8, u8), i: int) -> bool {
    let byte = if i < 8 { rgb.1 } else if i < 16 { rgb.0 } else { rgb.2 };
    let shift = 7 - (i % 8);
    (byte as int / vstd::arithmetic::power2::pow2(shift as nat) as int) % 2 == 1
}

/// The pulse for one data bit.
pub open spec fn bit_pulse(one: bool) -> PulseCode {
    if one {
        PulseCode { level1_high: true, length1: T1H, level2_high: false, length2: T1L }
    } else {
        PulseCode { level1_high: true, length1: T0H, level2_high: false, length2: T0L }
    }
}

/// Number of pulse codes in one NeoPixel frame: 24 bits, reset, end marker.
pub const FRAME_LEN: usize = 26;

/// The pulse codes that send a color to one WS2812: 24 data bits (green, red,
/// blue, most significant bit first), a reset pulse, and the end marker.
pub fn frame_pulses(color: Color) -> (frame: Vec<PulseCode>)
    ensures
        frame@.len() == FRAME_LEN,
        forall|i: int| 0 <= i < 24 ==> frame@[i] == bit_pulse(grb_bit(color_rgb(color), i)),
        frame@[24] == (PulseCode { level1_high: false, length1: RESET, level2_high: false, length2: 1 }),
        frame@[25] == end_marker(),
{
    let (r, g, b) = color.to_rgb();
    let bytes = [g, r, b];
    let mut frame: Vec<PulseCode> = Vec::new();
    let mut k: usize = 0;
    while k < 3
        invariant
            k <= 3,
            bytes@ == seq![g, r, b],
            color_rgb(color) == (r, g, b),
            frame@.len() == 8 * k,
            forall|i: int| 0 <= i < 8 * k ==> frame@[i] == bit_pulse(grb_bit(color_rgb(color), i)),
        decreases 3 - k,
    {
        let byte = bytes[k];
        let mut bit: u8 = 8;
        while bit > 0
            invariant
                k < 3,
                bit <= 8,
                byte == bytes@[k as int],
                bytes@ == seq![g, r, b],
                color_rgb(color) == (r, g, b),
                frame@.len() == 8 * k + (8 - bit),
                forall|i: int| 0 <= i < frame@.len() ==> frame@[i] == bit_pulse(grb_bit(color_rgb(color), i)),
            decreases bit,
        {
            bit -= 1;
            let one = (byte >> bit) & 1 == 1;
            proof {
                let i = 8 * k + (7 - bit);
                assert(i % 8 == 7 - bit);
                assert(((byte >> bit) & 1 == 1) == ((byte as int / vstd::arithmetic::power2::pow2(bit as nat) as int) % 2 == 1)) by {
                    vstd::bits::lemma_u8_shr_is_div(byte, bit);
                    vstd::bits::lemma_u8_pow2_no_overflow(bit as nat);
                    let q = byte >> bit;
                    assert(q & 1 == q % 2) by (bit_vector);
                }
            }
            let code = if one {
                PulseCode { level1_high: true, length1: T1H, level2_high: false, length2: T1L }
            } else {
                PulseCode { level1_high: true, length1: T0H, level2_high: false, length2: T0L }
            };
            frame.push(code);
        }
        k += 1;
    }
    frame.push(PulseCode { level1_high: false, length1: RESET, level2_high: false, length2: 1 });
    frame.push(PulseCode { level1_high: false, length1: 0, level2_high: false, length2: 0 });
    frame
}

} // verus!
