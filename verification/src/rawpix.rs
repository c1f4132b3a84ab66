use vstd::prelude::*;

use crate::errors::Error;
use crate::client::ShellClient;
use crate::window::Window;

verus! {

/// A software-rendering pixel layout. All components are named in
/// little-endian order; a platform typically implements only a few.
#[derive(Clone, Copy, PartialEq, Eq, Structural, Debug)]
pub enum PixelFormat {
    /// Red 8 bits, green 8 bits, blue 8 bits (packed).
    Rgb888,
    /// Blue 8 bits, green 8 bits, red 8 bits (packed).
    Bgr888,
    /// Red, green, blue, one unused byte.
    Rgbx8888,
    /// One unused byte, red, green, blue.
    Xrgb8888,
    /// Blue, green, red, one unused byte.
    Bgrx8888,
    /// One unused byte, blue, green, red.
    Xbgr8888,
    /// Red, green, blue, alpha.
    Rgba8888,
    /// Alpha, red, green, blue.
    Argb8888,
    /// Blue, green, red, alpha.
    Bgra8888,
    /// Alpha, blue, green, red.
    Abgr8888,
}

impl PixelFormat {
    /// The number of bytes one pixel occupies: three for the packed
    /// three-component formats, four for every other.
    pub open spec fn spec_size_of_pixel(self) -> usize {
        if self == PixelFormat::Rgb888 || self == PixelFormat::Bgr888 {
            3usize
        } else {
            4usize
        }
    }

    /// The number of bytes one pixel of this format occupies.
    pub fn size_of_pixel(&self) -> (r: usize)
        ensures
            r == self.spec_size_of_pixel(),
    {
        match self {
            PixelFormat::Rgb888 | PixelFormat::Bgr888 => 3,
            _ => 4,
        }
    }
}

/// The number of bytes one pixel of `format` occupies.
pub fn size_of_pixel(format: PixelFormat) -> (r: usize)
    ensures
        r == format.spec_size_of_pixel(),
{
    format.size_of_pixel()
}

/// What a caller requests of a software-rendering canvas.
#[derive(Clone, Copy, PartialEq, Eq, Structural, Debug)]
pub struct RawpixInfo {
    pub format: PixelFormat,
}

/// The caller-visible back buffer of a software-rendering canvas.
#[derive(Clone, Debug)]
pub struct RawpixData {
    pub format: PixelFormat,
    /// Number of padding bytes added after each row.
    pub padding: usize,
    /// Pixel data: `height * (width * size_of_pixel + padding)` bytes.
    pub pixels: Vec<u8>,
}

/// A pixel buffer with an explicit row layout.
#[derive(Clone, Debug)]
pub struct Pixmap {
    pub format: PixelFormat,
    /// Size of a row in bytes, padding included.
    pub stride: usize,
    /// Number of padding bytes after each row: `stride` minus the row's
    /// pixel bytes.
    pub padding: usize,
    /// Pixel data; its length must not be modified.
    pub pixels: Vec<u8>,
}

/// What a software-rendering canvas offers once created.
pub trait RawpixCanvasTrait {
    /// Hands out the back buffer.
    fn get_raw_pixel_data(&self) -> RawpixData;

    /// Copies the back buffer to the front buffer.
    fn present(&self, client: &ShellClient, window: &mut Window) -> Result<(), Error>;
}

} // verus!
