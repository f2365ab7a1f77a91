use vstd::prelude::*;

verus! {

/// A colour with five bits per channel, as render sources produce it.
#[derive(Clone, Copy, Debug, PartialEq, Eq, Structural)]
pub struct Rgb555 {
    pub r: u8,
    pub g: u8,
    pub b: u8,
}

/// The 3-bit panel code of a colour: red is bit 2, green bit 1, blue bit 0.
///
/// A channel lights its sub-LED exactly when it is not zero.
pub open spec fn code_of(c: Rgb555) -> u8 {
    ((if c.r != 0 { 4u8 } else { 0u8 }) + (if c.g != 0 { 2u8 } else { 0u8 }) + (if c.b != 0 {
        1u8
    } else {
        0u8
    })) as u8
}

impl Rgb555 {
    pub fn new(r: u8, g: u8, b: u8) -> (c: Rgb555)
        ensures
            c == (Rgb555 { r, g, b }),
    {
        Rgb555 { r, g, b }
    }

    pub fn black() -> (c: Rgb555)
        ensures
            c == (Rgb555 { r: 0, g: 0, b: 0 }),
    {
        Rgb555 { r: 0, g: 0, b: 0 }
    }

    pub fn red() -> (c: Rgb555)
        ensures
            c == (Rgb555 { r: 31, g: 0, b: 0 }),
    {
        Rgb555 { r: 31, g: 0, b: 0 }
    }

    pub fn green() -> (c: Rgb555)
        ensures
            c == (Rgb555 { r: 0, g: 31, b: 0 }),
    {
        Rgb555 { r: 0, g: 31, b: 0 }
    }

    pub fn blue() -> (c: Rgb555)
        ensures
            c == (Rgb555 { r: 0, g: 0, b: 31 }),
    {
        Rgb555 { r: 0, g: 0, b: 31 }
    }

    pub fn yellow() -> (c: Rgb555)
        ensures
            c == (Rgb555 { r: 31, g: 31, b: 0 }),
    {
        Rgb555 { r: 31, g: 31, b: 0 }
    }

    pub fn cyan() -> (c: Rgb555)
        ensures
            c == (Rgb555 { r: 0, g: 31, b: 31 }),
    {
        Rgb555 { r: 0, g: 31, b: 31 }
    }

    pub fn magenta() -> (c: Rgb555)
        ensures
            c == (Rgb555 { r: 31, g: 0, b: 31 }),
    {
        Rgb555 { r: 31, g: 0, b: 31 }
    }

    pub fn white() -> (c: Rgb555)
        ensures
            c == (Rgb555 { r: 31, g: 31, b: 31 }),
    {
        Rgb555 { r: 31, g: 31, b: 31 }
    }

    /// Quantizes to the 3-bit panel code (see `code_of`).
    pub fn quantize(&self) -> (code: u8)
        ensures
            code == code_of(*self),
            code < 8,
    {
        let mut code: u8 = 0;
        if self.r != 0 {
            code = code + 4;
        }
        if self.g != 0 {
            code = code + 2;
        }
        if self.b != 0 {
            code = code + 1;
        }
        code
    }
}

} // verus!
