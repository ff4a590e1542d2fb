use vstd::prelude::*;

verus! {

/// A 24-bit colour: one byte each of red, green and blue.
#[derive(Clone, Copy, Debug, PartialEq, Eq, Structural)]
pub struct Rgb {
    pub r: u8,
    pub g: u8,
    pub b: u8,
}

impl Rgb {
    pub fn new(r: u8, g: u8, b: u8) -> (c: Rgb)
        ensures
            c == (Rgb { r, g, b }),
    {
        Rgb { r, g, b }
    }
}

pub open spec fn spec_black() -> Rgb {
    Rgb { r: 0, g: 0, b: 0 }
}

pub open spec fn spec_white() -> Rgb {
    Rgb { r: 255, g: 255, b: 255 }
}

pub open spec fn spec_dark_wall() -> Rgb {
    Rgb { r: 0, g: 0, b: 100 }
}

pub open spec fn spec_dark_ground() -> Rgb {
    Rgb { r: 50, g: 50, b: 150 }
}

pub fn black() -> (c: Rgb)
    ensures
        c == spec_black(),
{
    Rgb { r: 0, g: 0, b: 0 }
}

pub fn white() -> (c: Rgb)
    ensures
        c == spec_white(),
{
    Rgb { r: 255, g: 255, b: 255 }
}

pub fn yellow() -> (c: Rgb)
    ensures
        c == (Rgb { r: 255, g: 255, b: 0 }),
{
    Rgb { r: 255, g: 255, b: 0 }
}

/// Background of a tile that blocks sight.
pub fn color_dark_wall() -> (c: Rgb)
    ensures
        c == spec_dark_wall(),
{
    Rgb { r: 0, g: 0, b: 100 }
}

/// Background of a tile that lets sight through.
pub fn color_dark_ground() -> (c: Rgb)
    ensures
        c == spec_dark_ground(),
{
    Rgb { r: 50, g: 50, b: 150 }
}

} // verus!
