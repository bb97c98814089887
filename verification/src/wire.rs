//! The fixed-layout records that cross the backend boundary.
//!
//! Every record here is a plain value. Numbers that the backend reads as
//! single-precision reals are carried as their 32-bit patterns, so that two
//! records are equal exactly when the backend would receive the same bytes.

use vstd::prelude::*;

verus! {

/// A backend real number, held as its IEEE-754 single-precision bit pattern.
#[derive(Clone, Copy, Debug, PartialEq, Eq, Structural)]
pub struct AzFloat(pub u32);

/// A point in user space.
#[derive(Clone, Copy, Debug, PartialEq, Eq, Structural)]
pub struct AzPoint {
    pub x: AzFloat,
    pub y: AzFloat,
}

/// An axis-aligned rectangle: origin, then extent.
#[derive(Clone, Copy, Debug, PartialEq, Eq, Structural)]
pub struct AzRect {
    pub x: AzFloat,
    pub y: AzFloat,
    pub width: AzFloat,
    pub height: AzFloat,
}

/// A size in whole pixels.
#[derive(Clone, Copy, Debug, PartialEq, Eq, Structural)]
pub struct AzIntSize {
    pub width: i32,
    pub height: i32,
}

/// A colour with one channel per component.
#[derive(Clone, Copy, Debug, PartialEq, Eq, Structural)]
pub struct AzColor {
    pub r: AzFloat,
    pub g: AzFloat,
    pub b: AzFloat,
    pub a: AzFloat,
}

/// A 3x2 affine transform in row-major order.
#[derive(Clone, Copy, Debug, PartialEq, Eq, Structural)]
pub struct AzMatrix {
    pub m11: AzFloat,
    pub m12: AzFloat,
    pub m21: AzFloat,
    pub m22: AzFloat,
    pub m31: AzFloat,
    pub m32: AzFloat,
}

/// One entry of a gradient stop table.
#[derive(Clone, Copy, Debug, PartialEq, Eq, Structural)]
pub struct AzGradientStop {
    pub offset: AzFloat,
    pub color: AzColor,
}

/// Stroke parameters. `dash_pattern` is the address of the caller's dash
/// array, or zero; `fields` packs the join style into the low nibble and the
/// cap style into the high nibble.
#[derive(Clone, Copy, Debug, PartialEq, Eq, Structural)]
pub struct AzStrokeOptions {
    pub line_width: AzFloat,
    pub miter_limit: AzFloat,
    pub dash_pattern: usize,
    pub dash_length: usize,
    pub dash_offset: AzFloat,
    pub fields: u8,
}

/// Draw parameters. `fields` packs the composition operator into the low
/// byte and the antialiasing mode into bits 8 to 10.
#[derive(Clone, Copy, Debug, PartialEq, Eq, Structural)]
pub struct AzDrawOptions {
    pub alpha: AzFloat,
    pub fields: u16,
}

/// Surface blit parameters: the filter code, with bit 3 set when sampling is
/// clamped to the source bounds.
#[derive(Clone, Copy, Debug, PartialEq, Eq, Structural)]
pub struct AzDrawSurfaceOptions {
    pub fields: u32,
}

/// A shaped glyph run, forwarded untouched: the address of the glyph array
/// and the number of glyphs in it.
#[derive(Clone, Copy, Debug, PartialEq, Eq, Structural)]
pub struct AzGlyphBuffer {
    pub glyphs: usize,
    pub num_glyphs: u32,
}

} // verus!
