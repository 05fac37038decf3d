//! Colours and rectangles: whole device pixels, and layout positions in
//! hundredths of a pixel.
use vstd::prelude::*;

verus! {

/// An RGBA colour, eight bits per channel.
#[derive(Clone, Copy, Debug, PartialEq, Eq, Structural)]
pub struct Color {
    pub r: u8,
    pub g: u8,
    pub b: u8,
    pub a: u8,
}

/// Opaque black, white and magenta.
pub open spec fn black_spec() -> Color {
    Color { r: 0, g: 0, b: 0, a: 255 }
}

#[verifier::when_used_as_spec(black_spec)]
pub fn black() -> (c: Color)
    ensures
        c == black_spec(),
{
    Color { r: 0, g: 0, b: 0, a: 255 }
}

pub open spec fn white_spec() -> Color {
    Color { r: 255, g: 255, b: 255, a: 255 }
}

#[verifier::when_used_as_spec(white_spec)]
pub fn white() -> (c: Color)
    ensures
        c == white_spec(),
{
    Color { r: 255, g: 255, b: 255, a: 255 }
}

pub open spec fn magenta_spec() -> Color {
    Color { r: 255, g: 0, b: 255, a: 255 }
}

#[verifier::when_used_as_spec(magenta_spec)]
pub fn magenta() -> (c: Color)
    ensures
        c == magenta_spec(),
{
    Color { r: 255, g: 0, b: 255, a: 255 }
}

/// A rectangle of whole device pixels, holding `min <= p < max` on each axis.
#[derive(Clone, Copy, Debug, PartialEq, Eq, Structural)]
pub struct IntRect {
    pub min_x: i32,
    pub min_y: i32,
    pub max_x: i32,
    pub max_y: i32,
}

/// A layout rectangle; its coordinates are hundredths of a pixel.
#[derive(Clone, Copy, Debug, PartialEq, Eq, Structural)]
pub struct LayoutRect {
    pub min_x: i64,
    pub min_y: i64,
    pub max_x: i64,
    pub max_y: i64,
}

/// Half-open containment of the point `(x, y)` in `rect` moved down by `dy`.
pub open spec fn shifted_contains(rect: IntRect, dy: int, x: int, y: int) -> bool {
    rect.min_x <= x < rect.max_x && rect.min_y + dy <= y < rect.max_y + dy
}

impl IntRect {
    /// Whether `(x, y)` lies in the rectangle moved down by `dy` pixels.
    pub fn contains_shifted(&self, dy: i32, x: i32, y: i32) -> (r: bool)
        ensures
            r == shifted_contains(*self, dy as int, x as int, y as int),
    {
        let y = y as i64;
        self.min_x <= x && x < self.max_x && self.min_y as i64 + dy as i64 <= y && y
            < self.max_y as i64 + dy as i64
    }

    /// The rectangle in layout units (hundredths), moved down by `dy` of them.
    pub fn to_layout_shifted(&self, dy: i32) -> (r: LayoutRect)
        ensures
            r == (LayoutRect {
                min_x: (self.min_x * 100) as i64,
                min_y: (self.min_y * 100 + dy) as i64,
                max_x: (self.max_x * 100) as i64,
                max_y: (self.max_y * 100 + dy) as i64,
            }),
    {
        LayoutRect {
            min_x: self.min_x as i64 * 100,
            min_y: self.min_y as i64 * 100 + dy as i64,
            max_x: self.max_x as i64 * 100,
            max_y: self.max_y as i64 * 100 + dy as i64,
        }
    }
}

} // verus!
