//! Raster images: colour photos and their black-and-white copies, decoded
//! from and encoded into image files by the image library.
use crate::printer::path_file_name_text;
use vstd::prelude::*;

verus! {

/// What the image library decodes from the bytes of a file named `path`
/// (its format taken from the file name's extension), converted to 8-bit
/// RGB: width, height and the pixels row by row; or the error text.
pub uninterp spec fn rgb_decoding(bytes: Seq<u8>, path: Seq<char>) -> Result<
    (u32, u32, Seq<u8>),
    Seq<char>,
>;

/// What the image library decodes from the bytes of a file named `path`,
/// converted to 8-bit luminance: width, height and the pixels row by row;
/// or the error text.
pub uninterp spec fn gray_decoding(bytes: Seq<u8>, path: Seq<char>) -> Result<
    (u32, u32, Seq<u8>),
    Seq<char>,
>;

/// The bytes of the file named `path` (its format taken from the extension)
/// that the image library encodes an 8-bit RGB image into; or the error text.
pub uninterp spec fn rgb_encoding(width: u32, height: u32, pixels: Seq<u8>, path: Seq<char>) -> Result<
    Seq<u8>,
    Seq<char>,
>;

/// The bytes of the file named `path` that the image library encodes an
/// 8-bit luminance image into; or the error text.
pub uninterp spec fn gray_encoding(width: u32, height: u32, pixels: Seq<u8>, path: Seq<char>) -> Result<
    Seq<u8>,
    Seq<char>,
>;

/// `ImageReader::decode` of the bytes in the format that `path` names, then
/// `DynamicImage::to_rgb8`. The RGB buffer holds three bytes per pixel.
#[verifier::external_body]
fn decode_rgb8(bytes: &[u8], path: &str) -> (r: Result<(u32, u32, Vec<u8>), String>)
    ensures
        match r {
            Ok((w, h, p)) => rgb_decoding(bytes@, path@) == Ok::<(u32, u32, Seq<u8>), Seq<char>>(
                (w, h, p@),
            ) && p@.len() == 3 * w * h,
            Err(e) => rgb_decoding(bytes@, path@) == Err::<(u32, u32, Seq<u8>), Seq<char>>(e@),
        },
{
    let format = match image::ImageFormat::from_path(path) {
        Ok(f) => f,
        Err(e) => return Err(e.to_string()),
    };
    let mut reader = image::ImageReader::new(std::io::Cursor::new(bytes));
    reader.set_format(format);
    match reader.decode() {
        Ok(img) => {
            let rgb = img.to_rgb8();
            Ok((rgb.width(), rgb.height(), rgb.into_raw()))
        },
        Err(e) => Err(e.to_string()),
    }
}

/// `ImageReader::decode` of the bytes in the format that `path` names, then
/// `DynamicImage::to_luma8`. The luminance buffer holds one byte per pixel.
/// A path without a file name has no extension, so `ImageFormat::from_path`
/// names no format and the decoding fails.
#[verifier::external_body]
fn decode_luma8(bytes: &[u8], path: &str) -> (r: Result<(u32, u32, Vec<u8>), String>)
    ensures
        path_file_name_text(path@) is None ==> r is Err,
        match r {
            Ok((w, h, p)) => gray_decoding(bytes@, path@) == Ok::<(u32, u32, Seq<u8>), Seq<char>>(
                (w, h, p@),
            ) && p@.len() == w * h,
            Err(e) => gray_decoding(bytes@, path@) == Err::<(u32, u32, Seq<u8>), Seq<char>>(e@),
        },
{
    let format = match image::ImageFormat::from_path(path) {
        Ok(f) => f,
        Err(e) => return Err(e.to_string()),
    };
    let mut reader = image::ImageReader::new(std::io::Cursor::new(bytes));
    reader.set_format(format);
    match reader.decode() {
        Ok(img) => {
            let gray = img.to_luma8();
            Ok((gray.width(), gray.height(), gray.into_raw()))
        },
        Err(e) => Err(e.to_string()),
    }
}

/// `ImageBuffer::write_to` of an RGB buffer in the format that `path` names.
#[verifier::external_body]
fn encode_rgb8(width: u32, height: u32, pixels: &[u8], path: &str) -> (r: Result<Vec<u8>, String>)
    requires
        pixels@.len() == 3 * width * height,
    ensures
        match r {
            Ok(b) => rgb_encoding(width, height, pixels@, path@) == Ok::<Seq<u8>, Seq<char>>(b@),
            Err(e) => rgb_encoding(width, height, pixels@, path@) == Err::<Seq<u8>, Seq<char>>(e@),
        },
{
    let format = match image::ImageFormat::from_path(path) {
        Ok(f) => f,
        Err(e) => return Err(e.to_string()),
    };
    let buffer: image::RgbImage = image::ImageBuffer::from_raw(width, height, pixels.to_vec()).unwrap();
    let mut out = std::io::Cursor::new(Vec::new());
    match buffer.write_to(&mut out, format) {
        Ok(()) => Ok(out.into_inner()),
        Err(e) => Err(e.to_string()),
    }
}

/// `ImageBuffer::write_to` of a luminance buffer in the format that `path`
/// names.
#[verifier::external_body]
fn encode_luma8(width: u32, height: u32, pixels: &[u8], path: &str) -> (r: Result<Vec<u8>, String>)
    requires
        pixels@.len() == width * height,
    ensures
        match r {
            Ok(b) => gray_encoding(width, height, pixels@, path@) == Ok::<Seq<u8>, Seq<char>>(b@),
            Err(e) => gray_encoding(width, height, pixels@, path@) == Err::<Seq<u8>, Seq<char>>(e@),
        },
{
    let format = match image::ImageFormat::from_path(path) {
        Ok(f) => f,
        Err(e) => return Err(e.to_string()),
    };
    let buffer: image::GrayImage = image::ImageBuffer::from_raw(width, height, pixels.to_vec()).unwrap();
    let mut out = std::io::Cursor::new(Vec::new());
    match buffer.write_to(&mut out, format) {
        Ok(()) => Ok(out.into_inner()),
        Err(e) => Err(e.to_string()),
    }
}

/// A colour image: three bytes (red, green, blue) per pixel, row by row.
pub struct RgbImage {
    width: u32,
    height: u32,
    pixels: Vec<u8>,
}

impl View for RgbImage {
    type V = (u32, u32, Seq<u8>);

    closed spec fn view(&self) -> (u32, u32, Seq<u8>) {
        (self.width, self.height, self.pixels@)
    }
}

/// The pixels of a `width` x `height` image all of one colour.
pub open spec fn filled_pixels(width: u32, height: u32, r: u8, g: u8, b: u8) -> Seq<u8> {
    Seq::new(
        (3 * width * height) as nat,
        |i: int|
            if i % 3 == 0 {
                r
            } else if i % 3 == 1 {
                g
            } else {
                b
            },
    )
}

impl RgbImage {
    #[verifier::type_invariant]
    spec fn inv(self) -> bool {
        self.pixels@.len() == 3 * self.width * self.height
    }

    /// The width in pixels.
    pub fn width(&self) -> (r: u32)
        ensures
            r == self@.0,
    {
        self.width
    }

    /// The height in pixels.
    pub fn height(&self) -> (r: u32)
        ensures
            r == self@.1,
    {
        self.height
    }

    /// The pixels, three bytes each, row by row.
    pub fn pixels(&self) -> (r: &Vec<u8>)
        ensures
            r@ == self@.2,
            r@.len() == 3 * self@.0 * self@.1,
    {
        proof {
            use_type_invariant(self);
        }
        &self.pixels
    }

    /// A `width` x `height` image all of the colour (`r`, `g`, `b`).
    pub fn filled(width: u32, height: u32, r: u8, g: u8, b: u8) -> (img: RgbImage)
        requires
            3 * width * height <= usize::MAX,
        ensures
            img@ == (width, height, filled_pixels(width, height, r, g, b)),
    {
        assert((width as usize) * (height as usize) <= usize::MAX) by (nonlinear_arith)
            requires
                3 * width * height <= usize::MAX,
        ;
        let n: usize = (width as usize) * (height as usize);
        assert(3 * n == 3 * width * height) by (nonlinear_arith)
            requires
                n == width * height,
        ;
        let mut pixels: Vec<u8> = Vec::new();
        let mut k: usize = 0;
        while k < n
            invariant
                k <= n,
                n == width * height,
                3 * n <= usize::MAX,
                pixels@.len() == 3 * k,
                forall|i: int|
                    0 <= i < 3 * k ==> #[trigger] pixels@[i] == (if i % 3 == 0 {
                        r
                    } else if i % 3 == 1 {
                        g
                    } else {
                        b
                    }),
            decreases n - k,
        {
            pixels.push(r);
            pixels.push(g);
            pixels.push(b);
            k = k + 1;
        }
        assert(pixels@ =~= filled_pixels(width, height, r, g, b));
        RgbImage { width, height, pixels }
    }

    /// The image decoded from the bytes of a file named `path`, in 8-bit RGB.
    pub fn decode(bytes: &[u8], path: &str) -> (r: Result<RgbImage, String>)
        ensures
            match rgb_decoding(bytes@, path@) {
                Ok((w, h, p)) => r matches Ok(img) && img@ == (w, h, p),
                Err(e) => r matches Err(m) && m@ == e,
            },
    {
        match decode_rgb8(bytes, path) {
            Ok((width, height, pixels)) => Ok(RgbImage { width, height, pixels }),
            Err(e) => Err(e),
        }
    }

    /// The bytes of the file named `path` that holds this image.
    pub fn encode(&self, path: &str) -> (r: Result<Vec<u8>, String>)
        ensures
            match rgb_encoding(self@.0, self@.1, self@.2, path@) {
                Ok(b) => r matches Ok(v) && v@ == b,
                Err(e) => r matches Err(m) && m@ == e,
            },
    {
        proof {
            use_type_invariant(self);
        }
        encode_rgb8(self.width, self.height, self.pixels.as_slice(), path)
    }
}

/// A black-and-white image: one luminance byte per pixel, row by row.
pub struct GrayImage {
    width: u32,
    height: u32,
    pixels: Vec<u8>,
}

impl View for GrayImage {
    type V = (u32, u32, Seq<u8>);

    closed spec fn view(&self) -> (u32, u32, Seq<u8>) {
        (self.width, self.height, self.pixels@)
    }
}

impl GrayImage {
    #[verifier::type_invariant]
    spec fn inv(self) -> bool {
        self.pixels@.len() == self.width * self.height
    }

    /// The width in pixels.
    pub fn width(&self) -> (r: u32)
        ensures
            r == self@.0,
    {
        self.width
    }

    /// The height in pixels.
    pub fn height(&self) -> (r: u32)
        ensures
            r == self@.1,
    {
        self.height
    }

    /// The pixels, one byte each, row by row.
    pub fn pixels(&self) -> (r: &Vec<u8>)
        ensures
            r@ == self@.2,
            r@.len() == self@.0 * self@.1,
    {
        proof {
            use_type_invariant(self);
        }
        &self.pixels
    }

    /// The black-and-white image decoded from the bytes of a file named
    /// `path`; a path without a file name names no format.
    pub fn decode(bytes: &[u8], path: &str) -> (r: Result<GrayImage, String>)
        ensures
            path_file_name_text(path@) is None ==> r is Err,
            match gray_decoding(bytes@, path@) {
                Ok((w, h, p)) => r matches Ok(img) && img@ == (w, h, p),
                Err(e) => r matches Err(m) && m@ == e,
            },
    {
        match decode_luma8(bytes, path) {
            Ok((width, height, pixels)) => Ok(GrayImage { width, height, pixels }),
            Err(e) => Err(e),
        }
    }

    /// The bytes of the file named `path` that holds this image.
    pub fn encode(&self, path: &str) -> (r: Result<Vec<u8>, String>)
        ensures
            match gray_encoding(self@.0, self@.1, self@.2, path@) {
                Ok(b) => r matches Ok(v) && v@ == b,
                Err(e) => r matches Err(m) && m@ == e,
            },
    {
        proof {
            use_type_invariant(self);
        }
        encode_luma8(self.width, self.height, self.pixels.as_slice(), path)
    }
}

} // verus!
