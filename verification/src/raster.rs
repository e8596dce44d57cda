//! Decoded raster images: RGBA8, row-major, top-left origin.

use vstd::prelude::*;

verus! {

/// The mathematical content of a raster image.
pub struct ImageView {
    pub width: nat,
    pub height: nat,
    pub pixels: Seq<u8>,
}

impl ImageView {
    /// Both dimensions are positive and the buffer holds exactly four bytes
    /// for each pixel.
    pub open spec fn wf(self) -> bool {
        &&& self.width > 0
        &&& self.height > 0
        &&& self.pixels.len() == self.width * self.height * 4
    }

    /// Whether (x, y) names a pixel of the image.
    pub open spec fn contains(self, x: int, y: int) -> bool {
        0 <= x < self.width && 0 <= y < self.height
    }

    /// Index of the red byte of the pixel at (x, y).
    pub open spec fn offset(self, x: int, y: int) -> int {
        (y * self.width + x) * 4
    }

    /// The four bytes (red, green, blue, alpha) of the pixel at (x, y).
    pub open spec fn pixel(self, x: int, y: int) -> Seq<u8> {
        self.pixels.subrange(self.offset(x, y), self.offset(x, y) + 4)
    }

    /// The alpha byte of the pixel at (x, y).
    pub open spec fn alpha(self, x: int, y: int) -> u8 {
        self.pixels[self.offset(x, y) + 3]
    }
}

/// Whether `width`, `height` and a buffer of `len` bytes make a decoded image.
pub open spec fn valid_rgba(width: u32, height: u32, len: nat) -> bool {
    width > 0 && height > 0 && len == width * height * 4
}

/// The pixels of an image lie inside its buffer, one after another.
pub proof fn lemma_pixel_in_buffer(image: ImageView, x: int, y: int)
    requires
        image.wf(),
        image.contains(x, y),
    ensures
        0 <= image.offset(x, y),
        image.offset(x, y) + 4 <= image.pixels.len(),
        (image.offset(x, y) / 4) % (image.width as int) == x,
        (image.offset(x, y) / 4) / (image.width as int) == y,
{
    let w = image.width as int;
    let h = image.height as int;
    let p = y * w + x;
    assert(0 <= y * w && (y + 1) * w <= h * w) by (nonlinear_arith)
        requires
            0 <= y < h,
            0 < w,
    ;
    assert((y + 1) * w == y * w + w) by (nonlinear_arith);
    assert(h * w == image.width * image.height) by (nonlinear_arith)
        requires
            w == image.width,
            h == image.height,
    ;
    vstd::arithmetic::div_mod::lemma_fundamental_div_mod_converse(p, w, y, x);
}

/// A decoded raster image. Every value has positive dimensions and a buffer
/// of exactly `width * height * 4` bytes.
#[derive(Debug)]
pub struct DecodedImage {
    width: u32,
    height: u32,
    pixels: Vec<u8>,
}

impl View for DecodedImage {
    type V = ImageView;

    closed spec fn view(&self) -> ImageView {
        ImageView {
            width: self.width as nat,
            height: self.height as nat,
            pixels: self.pixels@,
        }
    }
}

impl DecodedImage {
    #[verifier::type_invariant]
    spec fn inv(self) -> bool {
        valid_rgba(self.width, self.height, self.pixels@.len())
    }

    /// Takes a buffer as an image if it has the right length for the
    /// dimensions, and refuses it otherwise.
    pub fn from_rgba(width: u32, height: u32, pixels: Vec<u8>) -> (image: Option<DecodedImage>)
        ensures
            image is Some <==> valid_rgba(width, height, pixels@.len()),
            image matches Some(img) ==> img@ == (ImageView {
                width: width as nat,
                height: height as nat,
                pixels: pixels@,
            }),
    {
        if width == 0 || height == 0 {
            return None;
        }
        assert(width * height * 4 <= 0x4_0000_0000_0000_0000) by (nonlinear_arith)
            requires
                width <= 0xffff_ffff,
                height <= 0xffff_ffff,
        ;
        let expected: u128 = (width as u128) * (height as u128) * 4;
        if pixels.len() as u128 == expected {
            Some(DecodedImage { width, height, pixels })
        } else {
            None
        }
    }

    /// Takes a buffer that is known to fit the dimensions.
    pub(crate) fn from_valid_rgba(width: u32, height: u32, pixels: Vec<u8>) -> (image: DecodedImage)
        requires
            valid_rgba(width, height, pixels@.len()),
        ensures
            image@ == (ImageView { width: width as nat, height: height as nat, pixels: pixels@ }),
    {
        DecodedImage { width, height, pixels }
    }

    pub fn width(&self) -> (width: u32)
        ensures
            width == self@.width,
            width > 0,
    {
        proof {
            use_type_invariant(self);
        }
        self.width
    }

    pub fn height(&self) -> (height: u32)
        ensures
            height == self@.height,
            height > 0,
    {
        proof {
            use_type_invariant(self);
        }
        self.height
    }

    /// The RGBA bytes, row by row from the top left.
    pub fn pixels(&self) -> (pixels: &Vec<u8>)
        ensures
            pixels@ == self@.pixels,
            self@.wf(),
    {
        proof {
            use_type_invariant(self);
        }
        &self.pixels
    }

    /// Gives up the image for its RGBA bytes.
    pub fn into_raw(self) -> (pixels: Vec<u8>)
        ensures
            pixels@ == self@.pixels,
            self@.wf(),
    {
        proof {
            use_type_invariant(&self);
        }
        self.pixels
    }

    /// The four bytes of the pixel at (x, y), or `None` outside the image.
    pub fn pixel(&self, x: u32, y: u32) -> (rgba: Option<[u8; 4]>)
        ensures
            rgba is Some <==> self@.contains(x as int, y as int),
            rgba matches Some(bytes) ==> bytes@ == self@.pixel(x as int, y as int),
    {
        proof {
            use_type_invariant(self);
        }
        if x >= self.width || y >= self.height {
            return None;
        }
        let len = self.pixels.len();
        proof {
            lemma_pixel_in_buffer(self@, x as int, y as int);
            assert(self@.offset(x as int, y as int) == (y * self.width + x) * 4);
            assert(0 <= y * self.width) by (nonlinear_arith);
            assert((y * self.width + x) * 4 + 4 <= len);
        }
        let row: usize = (y as usize) * (self.width as usize);
        let at: usize = (row + x as usize) * 4;
        let bytes = [
            self.pixels[at],
            self.pixels[at + 1],
            self.pixels[at + 2],
            self.pixels[at + 3],
        ];
        assert(bytes@ =~= self@.pixel(x as int, y as int));
        Some(bytes)
    }
}

impl Clone for DecodedImage {
    fn clone(&self) -> (copy: DecodedImage)
        ensures
            copy@ == self@,
    {
        proof {
            use_type_invariant(self);
        }
        DecodedImage { width: self.width, height: self.height, pixels: self.pixels.clone() }
    }
}

} // verus!
