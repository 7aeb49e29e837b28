//! Defines the [`Rgb`] color, the [`Bitmap`] structure, and their functions.

use vstd::prelude::*;
use vstd::slice::slice_to_vec;

verus! {

/// A pixel color with three 8-bit channels.
#[derive(Clone, Copy, PartialEq, Eq, Structural, Debug)]
pub struct Rgb {
    /// The red channel.
    pub r: u8,
    /// The green channel.
    pub g: u8,
    /// The blue channel.
    pub b: u8,
}

/// The color packed into a 32-bit value, one byte per channel from the
/// highest downward: a fully opaque alpha byte, then red, green, and blue.
pub open spec fn argb_of(color: Rgb) -> int {
    0xFF00_0000 + color.r * 0x1_0000 + color.g * 0x100 + color.b
}

/// The color a packed 32-bit value holds in its red, green, and blue bytes;
/// the highest (alpha) byte carries no color and is dropped.
pub open spec fn rgb_of_argb(value: u32) -> Rgb {
    Rgb {
        r: ((value / 0x1_0000) % 0x100) as u8,
        g: ((value / 0x100) % 0x100) as u8,
        b: (value % 0x100) as u8,
    }
}

impl Rgb {
    /// Constructs a color from its three channels.
    pub fn new(r: u8, g: u8, b: u8) -> (color: Rgb)
        ensures
            color == (Rgb { r, g, b }),
    {
        Rgb { r, g, b }
    }

    /// Packs the color into a 32-bit ARGB value with full opacity.
    pub fn as_argb_u32(&self) -> (argb: u32)
        ensures
            argb == argb_of(*self),
    {
        0xFF00_0000u32 + (self.r as u32) * 0x1_0000 + (self.g as u32) * 0x100 + (self.b as u32)
    }

    /// Unpacks the red, green, and blue bytes of a 32-bit ARGB value.
    pub fn from_argb_u32(value: &u32) -> (color: Rgb)
        ensures
            color == rgb_of_argb(*value),
    {
        Rgb {
            r: ((*value / 0x1_0000) % 0x100) as u8,
            g: ((*value / 0x100) % 0x100) as u8,
            b: (*value % 0x100) as u8,
        }
    }
}

/// A representation of a bitmap image with a defined resolution.
///
/// A well-formed bitmap holds one color per pixel: `width * height` colors
/// in row order. The constructors accept whatever they are given; callers
/// that need the resolution to match the buffer check [`Bitmap::wf`].
pub struct Bitmap {
    width: usize,
    height: usize,
    colors: Vec<Rgb>,
}

impl Bitmap {
    /// The width in pixels, as seen by specifications.
    pub closed spec fn spec_width(&self) -> usize {
        self.width
    }

    /// The height in pixels, as seen by specifications.
    pub closed spec fn spec_height(&self) -> usize {
        self.height
    }

    /// The color buffer, as seen by specifications.
    pub closed spec fn spec_colors(&self) -> Seq<Rgb> {
        self.colors@
    }

    /// Whether the buffer holds exactly one color per pixel.
    pub open spec fn wf(&self) -> bool {
        self.spec_colors().len() == self.spec_width() * self.spec_height()
    }

    /// Constructs a bitmap from the given colors and resolution.
    pub fn new(width: usize, height: usize, colors: Vec<Rgb>) -> (bitmap: Bitmap)
        ensures
            bitmap.spec_width() == width,
            bitmap.spec_height() == height,
            bitmap.spec_colors() == colors@,
    {
        Bitmap { width, height, colors }
    }

    /// Constructs a bitmap from the given framebuffer and resolution.
    pub fn from_framebuffer(width: usize, height: usize, buffer: &[Rgb]) -> (bitmap: Bitmap)
        ensures
            bitmap.spec_width() == width,
            bitmap.spec_height() == height,
            bitmap.spec_colors() == buffer@,
    {
        let colors = slice_to_vec(buffer);
        Bitmap { width, height, colors }
    }

    /// Returns the width of the bitmap, in pixels.
    pub fn width(&self) -> (width: usize)
        ensures
            width == self.spec_width(),
    {
        self.width
    }

    /// Returns the height of the bitmap, in pixels.
    pub fn height(&self) -> (height: usize)
        ensures
            height == self.spec_height(),
    {
        self.height
    }

    /// Returns a reference to a buffer containing the colors in the bitmap.
    pub fn colors_ref(&self) -> (colors: &Vec<Rgb>)
        ensures
            colors@ == self.spec_colors(),
    {
        &self.colors
    }

    /// Packs every color of the bitmap into a 32-bit ARGB value, in order.
    /// This is the form a framebuffer-style screen consumes.
    pub fn to_argb_buffer(&self) -> (buffer: Vec<u32>)
        ensures
            buffer@.len() == self.spec_colors().len(),
            forall|k: int|
                0 <= k < buffer@.len() ==> buffer@[k] == argb_of(self.spec_colors()[k]),
    {
        let mut buffer: Vec<u32> = Vec::new();
        let mut k: usize = 0;
        while k < self.colors.len()
            invariant
                k <= self.colors.len(),
                buffer@.len() == k,
                forall|j: int| 0 <= j < k ==> buffer@[j] == argb_of(self.spec_colors()[j]),
            decreases self.colors.len() - k,
        {
            buffer.push(self.colors[k].as_argb_u32());
            k += 1;
        }
        buffer
    }
}

/// The colors a tightly packed RGBA byte buffer holds: each group of four
/// bytes is one pixel, red, green, and blue first, then an alpha byte that
/// carries no color and is dropped. A trailing group of fewer than four
/// bytes is dropped too.
pub open spec fn colors_of_rgba(bytes: Seq<u8>) -> Seq<Rgb> {
    Seq::new((bytes.len() / 4) as nat, |j: int| Rgb {
        r: bytes[4 * j],
        g: bytes[4 * j + 1],
        b: bytes[4 * j + 2],
    })
}

/// The colors a tightly packed byte buffer of 32-bit big-endian ARGB pixels
/// holds: each group of four bytes is one pixel, whose first (alpha) byte
/// carries no color. A trailing group of fewer than four bytes is dropped.
pub open spec fn image_data_colors(bytes: Seq<u8>) -> Seq<Rgb> {
    Seq::new((bytes.len() / 4) as nat, |j: int| Rgb {
        r: bytes[4 * j + 1],
        g: bytes[4 * j + 2],
        b: bytes[4 * j + 3],
    })
}

/// Constructs a bitmap of the given resolution from image data laid out as
/// tightly packed 32-bit big-endian ARGB pixels.
pub fn bitmap_from_image_data(width: u32, height: u32, bytes: &Vec<u8>) -> (bitmap: Bitmap)
    ensures
        bitmap.spec_width() == width as usize,
        bitmap.spec_height() == height as usize,
        bitmap.spec_colors() == image_data_colors(bytes@),
{
    let pixel_count: usize = bytes.len() / 4;
    let mut colors: Vec<Rgb> = Vec::new();
    let mut j: usize = 0;
    proof {
        assert(4 * (bytes@.len() / 4) <= bytes@.len()) by (nonlinear_arith);
    }
    while j < pixel_count
        invariant
            j <= pixel_count,
            pixel_count == bytes@.len() / 4,
            4 * pixel_count <= bytes@.len() <= usize::MAX,
            colors@.len() == j,
            forall|k: int| 0 <= k < j ==> colors@[k] == image_data_colors(bytes@)[k],
        decreases pixel_count - j,
    {
        let base: usize = 4 * j;
        let alpha = bytes[base];
        let value = ((alpha as u32) * 0x100_0000) + ((bytes[base + 1] as u32) * 0x1_0000) + (
        (bytes[base + 2] as u32) * 0x100) + (bytes[base + 3] as u32);
        let color = Rgb::from_argb_u32(&value);
        proof {
            assert(color == image_data_colors(bytes@)[j as int]) by {
                let r = bytes@[4 * j + 1];
                let g = bytes@[4 * j + 2];
                let b = bytes@[4 * j + 3];
                assert((value as int / 0x1_0000) % 0x100 == r) by (nonlinear_arith)
                    requires
                        value == (bytes@[4 * j] as int) * 0x100_0000 + r * 0x1_0000 + g * 0x100 + b,
                        0 <= r < 256 && 0 <= g < 256 && 0 <= b < 256,
                        0 <= bytes@[4 * j] < 256,
                ;
                assert((value as int / 0x100) % 0x100 == g) by (nonlinear_arith)
                    requires
                        value == (bytes@[4 * j] as int) * 0x100_0000 + r * 0x1_0000 + g * 0x100 + b,
                        0 <= r < 256 && 0 <= g < 256 && 0 <= b < 256,
                        0 <= bytes@[4 * j] < 256,
                ;
                assert(value as int % 0x100 == b) by (nonlinear_arith)
                    requires
                        value == (bytes@[4 * j] as int) * 0x100_0000 + r * 0x1_0000 + g * 0x100 + b,
                        0 <= r < 256 && 0 <= g < 256 && 0 <= b < 256,
                        0 <= bytes@[4 * j] < 256,
                ;
            }
        }
        colors.push(color);
        j += 1;
    }
    proof {
        assert(colors@ =~= image_data_colors(bytes@));
    }
    Bitmap::new(width as usize, height as usize, colors)
}

} // verus!
