use vstd::prelude::*;
use vstd::slice::slice_subrange;
use vstd::string::StringSliceAdditionalSpecFns;
use crate::error::{CoreError, HexError};
use crate::hexcode::{decode, decoded};

verus! {

/// A 32-bit RGBA colour, stored straight: the channels are kept as they were
/// given and are scaled by alpha only when asked for with `premultiplied`,
/// so alpha is applied exactly once however often a colour is assigned.
#[derive(Debug, Clone, Copy, PartialEq, Eq, Structural)]
pub struct Color {
    pub r: u8,
    pub g: u8,
    pub b: u8,
    pub a: u8,
}

/// A colour whose channels are scaled by its alpha. Each field is a
/// numerator over `PREMULTIPLIED_SCALE`.
#[derive(Debug, Clone, Copy, PartialEq, Eq, Structural)]
pub struct Premultiplied {
    pub r: u16,
    pub g: u16,
    pub b: u16,
    pub a: u16,
}

/// The denominator of the fields of `Premultiplied`: 255 * 255.
pub const PREMULTIPLIED_SCALE: u16 = 65025;

/// What `Color::parse` makes of the bytes of a colour string. The first
/// byte, by convention `#`, is skipped; the rest is decoded as hexadecimal
/// digits, of which the first four bytes are red, green, blue and alpha.
pub open spec fn parsed(text: Seq<u8>) -> Result<Color, CoreError> {
    if text.len() == 0 {
        Err(CoreError::FromHexError(HexError::InvalidStringLength))
    } else {
        match decoded(text.subrange(1, text.len() as int)) {
            Err(e) => Err(CoreError::FromHexError(e)),
            Ok(bytes) => if bytes.len() < 4 {
                Err(CoreError::FromHexError(HexError::InvalidStringLength))
            } else {
                Ok(Color { r: bytes[0], g: bytes[1], b: bytes[2], a: bytes[3] })
            },
        }
    }
}

impl Color {
    /// Builds a colour from its four channels.
    pub fn new(r: u8, g: u8, b: u8, a: u8) -> (c: Color)
        ensures
            c == (Color { r, g, b, a }),
    {
        Color { r, g, b, a }
    }

    /// Transparent black.
    pub fn default() -> (c: Color)
        ensures
            c == (Color { r: 0, g: 0, b: 0, a: 0 }),
    {
        Color { r: 0u8, g: 0u8, b: 0u8, a: 0u8 }
    }

    /// Reads red, green, blue and alpha from the first four bytes of `c`.
    pub fn from_hex(c: Vec<u8>) -> (color: Color)
        requires
            c.len() >= 4,
        ensures
            color == (Color { r: c[0], g: c[1], b: c[2], a: c[3] }),
    {
        Color { r: c[0], g: c[1], b: c[2], a: c[3] }
    }

    /// Reads a colour from a string of the form `#RRGGBBAA`.
    pub fn parse(text: &str) -> (r: Result<Color, CoreError>)
        ensures
            r == parsed(text.spec_bytes()),
    {
        let bytes = text.as_bytes();
        if bytes.len() == 0 {
            return Err(CoreError::FromHexError(HexError::InvalidStringLength));
        }
        match decode(slice_subrange(bytes, 1, bytes.len())) {
            Err(e) => Err(CoreError::from(e)),
            Ok(channels) => {
                if channels.len() < 4 {
                    Err(CoreError::FromHexError(HexError::InvalidStringLength))
                } else {
                    Ok(Color::from_hex(channels))
                }
            },
        }
    }

    /// The channels scaled by alpha, and alpha itself, on the common scale
    /// `PREMULTIPLIED_SCALE`.
    pub fn premultiplied(&self) -> (p: Premultiplied)
        ensures
            p.r == self.r * self.a,
            p.g == self.g * self.a,
            p.b == self.b * self.a,
            p.a == self.a * 255,
    {
        let a: u16 = self.a as u16;
        assert(self.r * self.a <= 255 * 255 && self.g * self.a <= 255 * 255 && self.b * self.a
            <= 255 * 255) by (nonlinear_arith)
            requires
                self.r <= 255,
                self.g <= 255,
                self.b <= 255,
                self.a <= 255,
        ;
        Premultiplied {
            r: self.r as u16 * a,
            g: self.g as u16 * a,
            b: self.b as u16 * a,
            a: a * 255,
        }
    }
}

} // verus!
