//! Colours of the status LED and their encoding for a WS2812 pixel.

use vstd::prelude::*;

verus! {

/// A colour with eight bits per channel.
#[derive(Debug, Clone, Copy, PartialEq, Eq, Structural)]
pub struct RgbColor {
    pub red: u8,
    pub green: u8,
    pub blue: u8,
}

/// The number of bits one pixel is sent.
pub const FRAME_BITS: usize = 24;

/// How long the line is held high and then low for one bit, in
/// nanoseconds.
#[derive(Debug, Clone, Copy, PartialEq, Eq, Structural)]
pub struct BitTiming {
    pub high_ns: u64,
    pub low_ns: u64,
}

/// The timing of a 0 bit.
pub const T0H_NS: u64 = 350;

pub const T0L_NS: u64 = 800;

/// The timing of a 1 bit.
pub const T1H_NS: u64 = 700;

pub const T1L_NS: u64 = 600;

/// The number of steps one colour of the rainbow is faded in with.
pub const RAINBOW_FADE_STEPS: u32 = 20;

/// The word a pixel takes in: green in bits 23 to 16, red in bits 15 to 8,
/// blue in bits 7 to 0.
pub open spec fn grb(color: RgbColor) -> u32 {
    ((color.green as u32) << 16) | ((color.red as u32) << 8) | (color.blue as u32)
}

/// Whether bit `i` of `word` is set.
pub open spec fn bit_at(word: u32, i: u32) -> bool {
    (word >> i) & 1 == 1
}

/// The colours the rainbow effect runs through.
pub open spec fn rainbow() -> Seq<RgbColor> {
    seq![
        RgbColor { red: 255, green: 0, blue: 0 },
        RgbColor { red: 255, green: 127, blue: 0 },
        RgbColor { red: 255, green: 255, blue: 0 },
        RgbColor { red: 0, green: 255, blue: 0 },
        RgbColor { red: 0, green: 255, blue: 255 },
        RgbColor { red: 0, green: 0, blue: 255 },
        RgbColor { red: 127, green: 0, blue: 255 },
    ]
}

/// The timing that puts `bit` on the line.
pub fn bit_timing(bit: bool) -> (timing: BitTiming)
    ensures
        timing == (if bit {
            BitTiming { high_ns: T1H_NS, low_ns: T1L_NS }
        } else {
            BitTiming { high_ns: T0H_NS, low_ns: T0L_NS }
        }),
{
    if bit {
        BitTiming { high_ns: T1H_NS, low_ns: T1L_NS }
    } else {
        BitTiming { high_ns: T0H_NS, low_ns: T0L_NS }
    }
}

/// The colours of the rainbow effect, in the order they are shown.
pub fn rainbow_colors() -> (colors: Vec<RgbColor>)
    ensures
        colors@ == rainbow(),
{
    let mut colors = Vec::new();
    colors.push(RgbColor::red());
    colors.push(RgbColor::new(255, 127, 0));
    colors.push(RgbColor::new(255, 255, 0));
    colors.push(RgbColor::green());
    colors.push(RgbColor::new(0, 255, 255));
    colors.push(RgbColor::blue());
    colors.push(RgbColor::new(127, 0, 255));
    assert(colors@ =~= rainbow());
    colors
}

impl RgbColor {
    /// The word the pixel takes in for this colour.
    pub fn grb_word(&self) -> (word: u32)
        ensures
            word == grb(*self),
            word == self.green * 65536 + self.red * 256 + self.blue,
    {
        let g: u32 = self.green as u32;
        let r: u32 = self.red as u32;
        let b: u32 = self.blue as u32;
        assert(((g << 16) | (r << 8) | b) == g * 65536 + r * 256 + b) by (bit_vector)
            requires
                g < 256,
                r < 256,
                b < 256,
        ;
        (g << 16) | (r << 8) | b
    }

    /// The bits of the frame that shows this colour, in the order they go
    /// onto the line: the word of the colour from its highest bit down.
    pub fn signal_bits(&self) -> (bits: Vec<bool>)
        ensures
            bits@.len() == FRAME_BITS,
            forall|p: int|
                0 <= p < FRAME_BITS ==> #[trigger] bits@[p] == bit_at(grb(*self), (23 - p) as u32),
    {
        let word: u32 = self.grb_word();
        let mut bits: Vec<bool> = Vec::new();
        let mut p: u32 = 0;
        while p < 24
            invariant
                p <= 24,
                word == grb(*self),
                bits@.len() == p,
                forall|q: int| 0 <= q < p ==> #[trigger] bits@[q] == bit_at(word, (23 - q) as u32),
            decreases 24 - p,
        {
            let i: u32 = 23 - p;
            let mask: u32 = 1u32 << i;
            let bit = (mask & word) != 0;
            assert(((1u32 << i) & word != 0) == ((word >> i) & 1 == 1)) by (bit_vector)
                requires
                    i < 24,
            ;
            bits.push(bit);
            p += 1;
        }
        bits
    }

    /// The colour with the given channels.
    pub fn new(red: u8, green: u8, blue: u8) -> (color: Self)
        ensures
            color == (RgbColor { red, green, blue }),
    {
        Self { red, green, blue }
    }

    /// All channels off.
    pub fn black() -> (color: Self)
        ensures
            color == (RgbColor { red: 0, green: 0, blue: 0 }),
    {
        Self { red: 0, green: 0, blue: 0 }
    }

    /// All channels full on.
    pub fn white() -> (color: Self)
        ensures
            color == (RgbColor { red: 255, green: 255, blue: 255 }),
    {
        Self { red: 255, green: 255, blue: 255 }
    }

    /// Pure red.
    pub fn red() -> (color: Self)
        ensures
            color == (RgbColor { red: 255, green: 0, blue: 0 }),
    {
        Self { red: 255, green: 0, blue: 0 }
    }

    /// Pure green.
    pub fn green() -> (color: Self)
        ensures
            color == (RgbColor { red: 0, green: 255, blue: 0 }),
    {
        Self { red: 0, green: 255, blue: 0 }
    }

    /// Pure blue.
    pub fn blue() -> (color: Self)
        ensures
            color == (RgbColor { red: 0, green: 0, blue: 255 }),
    {
        Self { red: 0, green: 0, blue: 255 }
    }
}

} // verus!
