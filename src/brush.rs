use vstd::prelude::*;

verus! {

/// A channel at full intensity: the single-precision bit pattern of one.
pub const CHANNEL_ONE: u32 = 0x3F80_0000;

/// A colour with red, green, blue and alpha channels. Each channel holds the IEEE 754
/// single-precision bit pattern of an intensity from zero to one, so that colours pass
/// through the toolbar exactly as they were given; zero intensity is the pattern 0.
#[derive(Clone, Copy, Debug, PartialEq, Eq, Structural)]
pub struct Rgba {
    pub r: u32,
    pub g: u32,
    pub b: u32,
    pub a: u32,
}

impl Rgba {
    pub fn new(r: u32, g: u32, b: u32, a: u32) -> (c: Rgba)
        ensures
            c == (Rgba { r, g, b, a }),
    {
        Rgba { r, g, b, a }
    }
}

/// The shape of the stamp a brush paints.
#[derive(Clone, Copy, Debug, PartialEq, Eq, Structural)]
pub enum BrushType {
    Round,
    Square,
    Dither,
}

/// How painted pixels combine with those beneath.
#[derive(Clone, Copy, Debug, PartialEq, Eq, Structural)]
pub enum BlendingMode {
    Paint,
    Overwrite,
}

/// A paint stamp: a colour pair, a shape and a radius.
#[derive(Clone, Copy, Debug, PartialEq, Eq, Structural)]
pub struct Brush {
    pub primary_color: Rgba,
    pub secondary_color: Rgba,
    pub brush_type: BrushType,
    pub radius: u8,
}

impl Brush {
    pub open spec fn wf(&self) -> bool {
        self.radius >= 1
    }

    pub fn new(primary_color: Rgba, secondary_color: Rgba, brush_type: BrushType, radius: u8) -> (b: Brush)
        requires
            radius >= 1,
        ensures
            b == (Brush { primary_color, secondary_color, brush_type, radius }),
            b.wf(),
    {
        Brush { primary_color, secondary_color, brush_type, radius }
    }

    /// Sets every field of the brush in place.
    pub fn modify(&mut self, primary_color: Rgba, secondary_color: Rgba, brush_type: BrushType, radius: u8)
        requires
            radius >= 1,
        ensures
            *final(self) == (Brush { primary_color, secondary_color, brush_type, radius }),
            final(self).wf(),
    {
        self.primary_color = primary_color;
        self.secondary_color = secondary_color;
        self.brush_type = brush_type;
        self.radius = radius;
    }
}

} // verus!
