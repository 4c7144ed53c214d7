//! From a density to a colour.
//!
//! A channel is a byte: the value `c` stands for the real number `c / 255`,
//! so every channel lies in the unit interval by construction. A density
//! is handed in as parts per million of the envelope's bound.

use vstd::prelude::*;

verus! {

/// The density that counts as full brightness: the envelope's bound, in
/// parts per million of itself.
pub const FULL_SCALE: u32 = 1_000_000;

/// The least alpha that the mapper gives out.
pub const ALPHA_FLOOR: u8 = 64;

/// Red, green, blue and alpha, each a byte that stands for `c / 255`.
#[derive(Clone, Copy, Debug, PartialEq, Eq, Structural)]
pub struct Color {
    pub r: u8,
    pub g: u8,
    pub b: u8,
    pub a: u8,
}

/// A density clamped to the scale: nothing is darker than none, nothing
/// brighter than the bound.
pub open spec fn level_of(density_ppm: int) -> int {
    if density_ppm < 0 {
        0
    } else if density_ppm > FULL_SCALE {
        FULL_SCALE as int
    } else {
        density_ppm
    }
}

/// The position on the heat ramp, from 0 (black) through 255 (red) and
/// 510 (yellow) to 765 (white).
pub open spec fn heat_of(density_ppm: int) -> int {
    level_of(density_ppm) * 765 / (FULL_SCALE as int)
}

/// One channel of the ramp: it starts to rise at heat `onset` and is
/// full 255 steps later.
pub open spec fn ramp(heat: int, onset: int) -> int {
    if heat <= onset {
        0
    } else if heat >= onset + 255 {
        255
    } else {
        heat - onset
    }
}

/// Alpha rises in a straight line from the floor to full.
pub open spec fn alpha_of(density_ppm: int) -> int {
    ALPHA_FLOOR + level_of(density_ppm) * (255 - ALPHA_FLOOR) / (FULL_SCALE as int)
}

/// The colour of a point of the given density.
pub open spec fn glow_color(density_ppm: int) -> Color {
    Color {
        r: ramp(heat_of(density_ppm), 0) as u8,
        g: ramp(heat_of(density_ppm), 255) as u8,
        b: ramp(heat_of(density_ppm), 510) as u8,
        a: alpha_of(density_ppm) as u8,
    }
}

impl Color {
    /// Whether a sphere of this colour can be seen at all.
    pub open spec fn visible(self) -> bool {
        self.a > 0
    }

    /// The four channels in the order red, green, blue, alpha.
    pub open spec fn bytes(self) -> Seq<u8> {
        seq![self.r, self.g, self.b, self.a]
    }

    /// The four channels in the order red, green, blue, alpha.
    pub fn to_bytes(&self) -> (bytes: [u8; 4])
        ensures
            bytes@ == self.bytes(),
    {
        let bytes: [u8; 4] = [self.r, self.g, self.b, self.a];
        assert(bytes@ =~= self.bytes());
        bytes
    }
}

/// Maps a density, in parts per million of the envelope's bound, to a
/// colour on the heat ramp. Densities above the bound are clamped to it.
/// The result depends on the argument alone.
pub fn glow(density_ppm: u32) -> (color: Color)
    ensures
        color == glow_color(density_ppm as int),
        color.visible(),
        color.a >= ALPHA_FLOOR,
{
    let level: u32 = if density_ppm > FULL_SCALE {
        FULL_SCALE
    } else {
        density_ppm
    };
    let heat: u32 = level * 765 / FULL_SCALE;
    let alpha: u32 = 64 + level * 191 / FULL_SCALE;
    Color { r: rise(heat, 0), g: rise(heat, 255), b: rise(heat, 510), a: alpha as u8 }
}

/// One channel of the heat ramp.
fn rise(heat: u32, onset: u32) -> (value: u8)
    requires
        heat <= 765,
        onset <= 510,
    ensures
        value == ramp(heat as int, onset as int),
{
    if heat <= onset {
        0
    } else if heat >= onset + 255 {
        255
    } else {
        (heat - onset) as u8
    }
}

/// The real number that a channel stands for lies in the unit interval:
/// `0 <= c / 255 <= 1`, stated without division.
pub proof fn lemma_channels_in_unit_interval(density_ppm: int)
    ensures
        0 <= glow_color(density_ppm).r <= 255,
        0 <= glow_color(density_ppm).g <= 255,
        0 <= glow_color(density_ppm).b <= 255,
        0 < glow_color(density_ppm).a <= 255,
{
    lemma_glow_channels(density_ppm);
}

/// The channels of a mapped colour, before they are stored as bytes: each
/// fits a byte, so storing loses nothing.
pub proof fn lemma_glow_channels(density_ppm: int)
    ensures
        0 <= heat_of(density_ppm) <= 765,
        glow_color(density_ppm).r == ramp(heat_of(density_ppm), 0),
        glow_color(density_ppm).g == ramp(heat_of(density_ppm), 255),
        glow_color(density_ppm).b == ramp(heat_of(density_ppm), 510),
        glow_color(density_ppm).a == alpha_of(density_ppm),
        ALPHA_FLOOR <= alpha_of(density_ppm) <= 255,
{
}

/// The mapper is a function: equal densities give colours that are equal
/// byte for byte.
pub proof fn lemma_glow_deterministic(first: int, second: int)
    requires
        first == second,
    ensures
        glow_color(first) == glow_color(second),
        glow_color(first).bytes() == glow_color(second).bytes(),
{
}

/// A denser point is never darker: no channel falls as the density rises.
pub proof fn lemma_glow_monotone(lower: int, higher: int)
    requires
        lower <= higher,
    ensures
        glow_color(lower).r <= glow_color(higher).r,
        glow_color(lower).g <= glow_color(higher).g,
        glow_color(lower).b <= glow_color(higher).b,
        glow_color(lower).a <= glow_color(higher).a,
{
    lemma_glow_channels(lower);
    lemma_glow_channels(higher);
}

/// The two ends of the ramp: no density is black at the alpha floor, the
/// bound (and anything above it) is opaque white.
pub proof fn lemma_glow_ends(density_ppm: int)
    ensures
        density_ppm <= 0 ==> glow_color(density_ppm) == (Color {
            r: 0,
            g: 0,
            b: 0,
            a: ALPHA_FLOOR,
        }),
        density_ppm >= FULL_SCALE ==> glow_color(density_ppm) == (Color {
            r: 255,
            g: 255,
            b: 255,
            a: 255,
        }),
{
}

} // verus!
