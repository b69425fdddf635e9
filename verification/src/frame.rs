//! Conversion from rendered RGB pixels to the platform presentation format.
use vstd::prelude::*;

verus! {

/// An 8-bit-per-channel RGB color.
#[derive(Debug, Clone, Copy, PartialEq, Eq, Structural)]
pub struct Rgb888 {
    /// Red.
    pub r: u8,
    /// Green.
    pub g: u8,
    /// Blue.
    pub b: u8,
}

/// A color as a `0RGB` word: zero, red, green, blue, most significant first.
pub open spec fn spec_pack_rgb888(color: Rgb888) -> u32 {
    (color.r * 0x1_0000 + color.g * 0x100 + color.b) as u32
}

/// Packs a color into the platform's `0RGB` pixel word.
pub fn pack_rgb888(color: Rgb888) -> (r: u32)
    ensures
        r == spec_pack_rgb888(color),
        r < 0x100_0000,
{
    (color.r as u32) * 0x1_0000 + (color.g as u32) * 0x100 + (color.b as u32)
}

/// Packs a composed framebuffer's pixels, in row-major order, into the
/// platform frame's pixel format.
pub fn to_platform_frame(pixels: &Vec<Rgb888>) -> (frame: Vec<u32>)
    ensures
        frame.len() == pixels.len(),
        forall|i: int| 0 <= i < pixels.len() ==> #[trigger] frame@[i] == spec_pack_rgb888(pixels@[i]),
{
    let mut frame: Vec<u32> = Vec::new();
    let mut i: usize = 0;
    while i < pixels.len()
        invariant
            i <= pixels.len(),
            frame.len() == i,
            forall|j: int| 0 <= j < i ==> #[trigger] frame@[j] == spec_pack_rgb888(pixels@[j]),
        decreases pixels.len() - i,
    {
        frame.push(pack_rgb888(pixels[i]));
        i = i + 1;
    }
    frame
}

/// Packing keeps each channel in its own byte: the packed word determines the
/// color, so distinct colors never share a pixel word.
pub proof fn lemma_pack_rgb888_is_injective(a: Rgb888, b: Rgb888)
    ensures
        spec_pack_rgb888(a) == spec_pack_rgb888(b) ==> a == b,
{
    if spec_pack_rgb888(a) == spec_pack_rgb888(b) {
        assert(a.r == b.r && a.g == b.g && a.b == b.b) by (nonlinear_arith)
            requires
                a.r * 0x1_0000 + a.g * 0x100 + a.b == b.r * 0x1_0000 + b.g * 0x100 + b.b,
                a.r < 256, a.g < 256, a.b < 256, b.r < 256, b.g < 256, b.b < 256,
        ;
    }
}

} // verus!
