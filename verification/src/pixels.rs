//! Frame capture's pixel work: decomposing packed true-color pixels into
//! 8-bit RGB channels, assembling the dense row-major raster, and encoding
//! it into the lossless output format.

use vstd::prelude::*;
use crate::errors::Error;

verus! {

/// The red channel of a packed true-color pixel: bits 16 to 23.
pub open spec fn red_of(pixel: u64) -> u8 {
    (((pixel as int) / 0x10000) % 0x100) as u8
}

/// The green channel of a packed true-color pixel: bits 8 to 15.
pub open spec fn green_of(pixel: u64) -> u8 {
    (((pixel as int) / 0x100) % 0x100) as u8
}

/// The blue channel of a packed true-color pixel: bits 0 to 7.
pub open spec fn blue_of(pixel: u64) -> u8 {
    ((pixel as int) % 0x100) as u8
}

/// Decompose a packed pixel into its red, green and blue channels using
/// the fixed true-color bit masks.
pub fn get_colors(pixel: u64) -> (rgb: [u8; 3])
    ensures
        rgb@ == seq![red_of(pixel), green_of(pixel), blue_of(pixel)],
{
    let red = (pixel & 0xff0000) >> 16;
    let green = (pixel & 0xff00) >> 8;
    let blue = pixel & 0xff;
    proof {
        assert((pixel & 0xff0000) >> 16 == ((pixel as int) / 0x10000) % 0x100 && (pixel & 0xff00)
            >> 8 == ((pixel as int) / 0x100) % 0x100 && (pixel & 0xff) == (pixel as int) % 0x100)
            by (bit_vector);
    }
    let rgb = [red as u8, green as u8, blue as u8];
    proof {
        assert(rgb@ =~= seq![red_of(pixel), green_of(pixel), blue_of(pixel)]);
    }
    rgb
}

/// What the lossless encoder produces for an RGB raster of the given
/// dimensions; the stream is a function of the dimensions and bytes alone.
pub uninterp spec fn png_encoding(width: u32, height: u32, data: Seq<u8>) -> Seq<u8>;

/// A dense row-major RGB raster: three bytes per pixel, top row first.
/// The sole artifact of a capture once the native pixel buffer has been
/// converted and released.
#[derive(Debug)]
pub struct Raster {
    pub width: u32,
    pub height: u32,
    pub data: Vec<u8>,
}

impl Raster {
    /// The raster holds exactly one RGB triple per pixel.
    pub open spec fn wf(self) -> bool {
        self.data@.len() == 3 * self.width * self.height
    }

    /// Every packed pixel's channels sit decomposed at the pixel's
    /// row-major position.
    pub open spec fn matches_pixels(self, pixels: Seq<u64>) -> bool {
        &&& pixels.len() == self.width * self.height
        &&& forall|i: int|
            0 <= i < pixels.len() ==> {
                &&& self.data@[3 * i] == red_of(#[trigger] pixels[i])
                &&& self.data@[3 * i + 1] == green_of(pixels[i])
                &&& self.data@[3 * i + 2] == blue_of(pixels[i])
            }
    }

    /// Convert a captured pixel buffer, given in row-major order for a
    /// rectangle of the given dimensions, into an RGB raster. A zero
    /// extent is rejected as an invalid rectangle; a buffer that does not
    /// hold exactly one packed pixel per coordinate, or one too large to
    /// hold as bytes, is rejected as an image failure.
    pub fn from_pixels(width: u32, height: u32, pixels: &Vec<u64>) -> (r: Result<Raster, Error>)
        ensures
            r is Ok <==> (width > 0 && height > 0 && pixels@.len() == width * height && 3 * (
            width * height) <= usize::MAX),
            r matches Ok(ra) ==> ra.width == width && ra.height == height && ra.wf()
                && ra.matches_pixels(pixels@),
            r matches Err(e) ==> (e == (if width == 0 || height == 0 {
                Error::InvalidRect
            } else {
                Error::ImageError
            })),
    {
        if width == 0 || height == 0 {
            return Err(Error::InvalidRect);
        }
        proof {
            assert((width as int) * (height as int) < 0x1_0000_0000_0000_0000)
                by (nonlinear_arith)
                requires
                    width < 0x1_0000_0000,
                    height < 0x1_0000_0000,
            ;
        }
        let expected: u64 = (width as u64) * (height as u64);
        if (pixels.len() as u64) != expected {
            return Err(Error::ImageError);
        }
        if pixels.len() > usize::MAX / 3 {
            return Err(Error::ImageError);
        }
        let mut data: Vec<u8> = Vec::new();
        let mut i: usize = 0;
        while i < pixels.len()
            invariant
                i <= pixels.len(),
                pixels@.len() <= usize::MAX / 3,
                data@.len() == 3 * i,
                forall|k: int|
                    0 <= k < i ==> {
                        &&& data@[3 * k] == red_of(#[trigger] pixels@[k])
                        &&& data@[3 * k + 1] == green_of(pixels@[k])
                        &&& data@[3 * k + 2] == blue_of(pixels@[k])
                    },
            decreases pixels.len() - i,
        {
            let rgb = get_colors(pixels[i]);
            data.push(rgb[0]);
            data.push(rgb[1]);
            data.push(rgb[2]);
            i = i + 1;
        }
        proof {
            assert(3 * (width as int) * (height as int) == 3 * ((width as int) * (height as int)))
                by (nonlinear_arith);
        }
        Ok(Raster { width, height, data })
    }

    /// Encode this raster as the lossless output stream, ready to be
    /// written to the output file. Encoding succeeds exactly when both
    /// extents are positive; the format has no representation for an
    /// empty image.
    pub fn encode(&self) -> (r: Result<Vec<u8>, Error>)
        requires
            self.wf(),
        ensures
            r is Ok <==> (self.width > 0 && self.height > 0),
            r matches Ok(b) ==> b@ == png_encoding(self.width, self.height, self.data@),
            r matches Err(e) ==> e is IOError,
    {
        encode_png_rgb(self.width, self.height, &self.data)
    }
}

/// Relies on image::write_buffer_with_format with the PNG format: the
/// encoder writes a stream that is a function of the dimensions and the
/// pixel bytes alone, and it demands a buffer of exactly width * height
/// RGB triples. Writing goes to an in-memory buffer, which cannot fail,
/// and the encoder accepts every such buffer except a zero-width or
/// zero-height one, which it rejects as an error; so the call returns Ok
/// exactly when both extents are positive.
#[verifier::external_body]
fn encode_png_rgb(width: u32, height: u32, data: &Vec<u8>) -> (r: Result<Vec<u8>, Error>)
    requires
        data@.len() == 3 * width * height,
    ensures
        r is Ok <==> (width > 0 && height > 0),
        r matches Ok(b) ==> b@ == png_encoding(width, height, data@),
        r matches Err(e) ==> e is IOError,
{
    let mut cursor = std::io::Cursor::new(Vec::new());
    let res = image::write_buffer_with_format(
        &mut cursor,
        data.as_slice(),
        width,
        height,
        image::ExtendedColorType::Rgb8,
        image::ImageFormat::Png,
    );
    match res {
        Ok(()) => Ok(cursor.into_inner()),
        Err(e) => Err(Error::IOError(e.to_string())),
    }
}

} // verus!
