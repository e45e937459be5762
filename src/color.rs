use vstd::prelude::*;

verus! {

/// One of the four shades a pixel can take.
#[derive(Copy, Clone, PartialEq, Eq, Structural, Debug)]
pub enum GBColor {
    /// white, rgb #FFFFFF
    Off,
    /// light grey, rgb #C0C0C0
    On33,
    /// dark grey, rgb #606060
    On66,
    /// black, rgb #000000
    On,
}

/// The shade with the given ordinal (0 to 3).
pub open spec fn color_of(n: u8) -> GBColor {
    if n == 0 {
        GBColor::Off
    } else if n == 1 {
        GBColor::On33
    } else if n == 2 {
        GBColor::On66
    } else {
        GBColor::On
    }
}

/// The ordinal (0 to 3) of a shade.
pub open spec fn ordinal_of(c: GBColor) -> u8 {
    match c {
        GBColor::Off => 0,
        GBColor::On33 => 1,
        GBColor::On66 => 2,
        GBColor::On => 3,
    }
}

/// The RGB triple a shade is displayed as.
pub open spec fn rgb_of(c: GBColor) -> (u8, u8, u8) {
    match c {
        GBColor::Off => (255, 255, 255),
        GBColor::On33 => (192, 192, 192),
        GBColor::On66 => (96, 96, 96),
        GBColor::On => (0, 0, 0),
    }
}

impl GBColor {
    pub fn from_u8(number: u8) -> (r: GBColor)
        requires
            number < 4,
        ensures
            r == color_of(number),
            ordinal_of(r) == number,
    {
        if number == 0 {
            GBColor::Off
        } else if number == 1 {
            GBColor::On33
        } else if number == 2 {
            GBColor::On66
        } else {
            GBColor::On
        }
    }

    pub fn to_u8u8u8(self) -> (r: (u8, u8, u8))
        ensures
            r == rgb_of(self),
    {
        match self {
            GBColor::Off => (255, 255, 255),
            GBColor::On33 => (192, 192, 192),
            GBColor::On66 => (96, 96, 96),
            GBColor::On => (0, 0, 0),
        }
    }
}

/// Ordinals and shades are in one-to-one correspondence, and distinct shades
/// are displayed as distinct RGB triples.
pub proof fn lemma_color_bijective(c: GBColor, d: GBColor, n: u8)
    requires
        n < 4,
    ensures
        color_of(ordinal_of(c)) == c,
        ordinal_of(color_of(n)) == n,
        rgb_of(c) == rgb_of(d) ==> c == d,
{
}

} // verus!
