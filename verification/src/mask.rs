//! The corner mask: pixels outside a rounded rectangle become transparent.

use crate::decode::{decode, decode_spec, decoded_view, DecodeError};
use crate::raster::{DecodedImage, ImageView};
use vstd::prelude::*;

verus! {

/// Whether the offset (dx, dy) stays within `radius` of its origin, by
/// Euclidean distance.
pub open spec fn within_radius(dx: int, dy: int, radius: int) -> bool {
    dx * dx + dy * dy <= radius * radius
}

/// Whether (x, y) lies in one of the four `radius` by `radius` squares at the
/// corners of a `width` by `height` image.
pub open spec fn in_corner_square(x: int, y: int, width: int, height: int, radius: int) -> bool {
    (x < radius || x > width - radius) && (y < radius || y > height - radius)
}

/// Centre of the corner circle that decides (x, y): the circle sits `radius`
/// pixels in from the corner whose square holds the pixel. Where squares
/// overlap, the left one comes before the right and the top before the bottom.
pub open spec fn corner_centre(x: int, y: int, width: int, height: int, radius: int) -> Option<
    (int, int),
> {
    if x < radius && y < radius {
        Some((radius, radius))
    } else if x > width - radius && y < radius {
        Some((width - radius, radius))
    } else if x < radius && y > height - radius {
        Some((radius, height - radius))
    } else if x > width - radius && y > height - radius {
        Some((width - radius, height - radius))
    } else {
        None
    }
}

/// Whether (x, y) is inside the rounded rectangle of a `width` by `height`
/// image: in a corner square the distance to the corner circle's centre
/// decides, elsewhere the image bounds do.
pub open spec fn in_rounded_rect(x: int, y: int, width: int, height: int, radius: int) -> bool {
    match corner_centre(x, y, width, height, radius) {
        Some((cx, cy)) => within_radius(x - cx, y - cy, radius),
        None => 0 <= x < width && 0 <= y < height,
    }
}

/// The byte at index `i` of the masked buffer: unchanged where its pixel is
/// inside the rounded rectangle, zero where it is outside.
pub open spec fn masked_byte(image: ImageView, radius: int, i: int) -> u8 {
    let p = i / 4;
    let w = image.width as int;
    if in_rounded_rect(p % w, p / w, w, image.height as int, radius) {
        image.pixels[i]
    } else {
        0
    }
}

/// The image with its corners cut to `radius`.
pub open spec fn masked(image: ImageView, radius: int) -> ImageView {
    ImageView {
        width: image.width,
        height: image.height,
        pixels: Seq::new(image.pixels.len(), |i: int| masked_byte(image, radius, i)),
    }
}

/// Corner radius of the game icons, in pixels.
pub const ICON_CORNER_RADIUS: u32 = 50;

/// The decoded image of the bytes with its corners cut to the icon radius, or
/// the reason why the bytes do not decode.
pub open spec fn round_image_spec(bytes: Seq<u8>) -> Result<ImageView, DecodeError> {
    match decode_spec(bytes) {
        Ok(image) => Ok(masked(image, ICON_CORNER_RADIUS as int)),
        Err(error) => Err(error),
    }
}

/// A fully transparent black pixel.
pub open spec fn transparent() -> Seq<u8> {
    seq![0u8, 0u8, 0u8, 0u8]
}

/// The index arithmetic of a buffer: byte `i` belongs to the pixel whose
/// column and row are read off `i / 4`, and that pixel is in the image.
proof fn lemma_byte_pixel(image: ImageView, i: int)
    requires
        image.wf(),
        0 <= i < image.pixels.len(),
    ensures
        image.contains((i / 4) % (image.width as int), (i / 4) / (image.width as int)),
{
    let w = image.width as int;
    let h = image.height as int;
    let p = i / 4;
    assert(p < w * h) by {
        assert(image.pixels.len() == (w * h) * 4) by (nonlinear_arith)
            requires
                image.pixels.len() == image.width * image.height * 4,
                w == image.width,
                h == image.height,
        ;
    }
    vstd::arithmetic::div_mod::lemma_mod_bound(p, w);
    vstd::arithmetic::div_mod::lemma_div_pos_is_pos(p, w);
    vstd::arithmetic::div_mod::lemma_multiply_divide_lt(p, w, h);
}

/// Masking changes neither the dimensions nor the length of the buffer.
pub proof fn lemma_mask_keeps_dimensions(image: ImageView, radius: int)
    requires
        image.wf(),
    ensures
        masked(image, radius).width == image.width,
        masked(image, radius).height == image.height,
        masked(image, radius).pixels.len() == image.width * image.height * 4,
        masked(image, radius).wf(),
{
}

/// What masking does to one pixel: inside the rounded rectangle its four
/// bytes stay, outside they all become zero.
pub proof fn lemma_masked_pixel(image: ImageView, radius: int, x: int, y: int)
    requires
        image.wf(),
        image.contains(x, y),
    ensures
        masked(image, radius).pixel(x, y) == if in_rounded_rect(
            x,
            y,
            image.width as int,
            image.height as int,
            radius,
        ) {
            image.pixel(x, y)
        } else {
            transparent()
        },
{
    crate::raster::lemma_pixel_in_buffer(image, x, y);
    let at = image.offset(x, y);
    let out = masked(image, radius);
    assert(out.offset(x, y) == at);
    assert(at / 4 == (at + 1) / 4 == (at + 2) / 4 == (at + 3) / 4);
    if in_rounded_rect(x, y, image.width as int, image.height as int, radius) {
        assert(out.pixel(x, y) =~= image.pixel(x, y));
    } else {
        assert(out.pixel(x, y) =~= transparent());
    }
}

/// A pixel outside all four corner squares keeps its four bytes.
pub proof fn lemma_mask_keeps_pixels_outside_corner_squares(
    image: ImageView,
    radius: int,
    x: int,
    y: int,
)
    requires
        image.wf(),
        image.contains(x, y),
        !in_corner_square(x, y, image.width as int, image.height as int, radius),
    ensures
        masked(image, radius).pixel(x, y) == image.pixel(x, y),
{
    lemma_masked_pixel(image, radius, x, y);
}

/// A pixel outside the rounded rectangle ends up fully transparent.
pub proof fn lemma_mask_clears_alpha_outside(image: ImageView, radius: int, x: int, y: int)
    requires
        image.wf(),
        image.contains(x, y),
        !in_rounded_rect(x, y, image.width as int, image.height as int, radius),
    ensures
        masked(image, radius).alpha(x, y) == 0,
{
    crate::raster::lemma_pixel_in_buffer(image, x, y);
    assert((image.offset(x, y) + 3) / 4 == image.offset(x, y) / 4);
}

/// With a radius of zero or less no corner square holds a pixel, and masking
/// changes nothing.
pub proof fn lemma_mask_without_radius_is_identity(image: ImageView, radius: int)
    requires
        image.wf(),
        radius <= 0,
    ensures
        masked(image, radius) == image,
{
    assert forall|i: int| 0 <= i < image.pixels.len() implies masked_byte(image, radius, i)
        == image.pixels[i] by {
        lemma_byte_pixel(image, i);
    }
    assert(masked(image, radius).pixels =~= image.pixels);
}

/// Masking twice with one radius is masking once.
pub proof fn lemma_mask_is_idempotent(image: ImageView, radius: int)
    requires
        image.wf(),
    ensures
        masked(masked(image, radius), radius) == masked(image, radius),
{
    let once = masked(image, radius);
    assert(masked(once, radius).pixels =~= once.pixels);
}

fn offset_within_radius(dx: i64, dy: i64, radius: i64) -> (within: bool)
    requires
        -0x2_0000_0000 <= dx <= 0x2_0000_0000,
        -0x2_0000_0000 <= dy <= 0x2_0000_0000,
        0 <= radius <= 0x1_0000_0000,
    ensures
        within == within_radius(dx as int, dy as int, radius as int),
{
    let dx = dx as i128;
    let dy = dy as i128;
    let radius = radius as i128;
    assert(0 <= dx * dx <= 0x4_0000_0000_0000_0000) by (nonlinear_arith)
        requires
            -0x2_0000_0000 <= dx <= 0x2_0000_0000,
    ;
    assert(0 <= dy * dy <= 0x4_0000_0000_0000_0000) by (nonlinear_arith)
        requires
            -0x2_0000_0000 <= dy <= 0x2_0000_0000,
    ;
    assert(0 <= radius * radius <= 0x1_0000_0000_0000_0000) by (nonlinear_arith)
        requires
            0 <= radius <= 0x1_0000_0000,
    ;
    dx * dx + dy * dy <= radius * radius
}

/// Whether the pixel (x, y) of a `width` by `height` image is inside the
/// rounded rectangle with corner radius `radius`, all in whole pixels.
pub fn is_in_rounded_rect(x: u32, y: u32, width: u32, height: u32, radius: u32) -> (inside: bool)
    ensures
        inside == in_rounded_rect(
            x as int,
            y as int,
            width as int,
            height as int,
            radius as int,
        ),
{
    let px = x as i64;
    let py = y as i64;
    let r = radius as i64;
    let right = width as i64 - r;
    let bottom = height as i64 - r;
    if px < r && py < r {
        offset_within_radius(px - r, py - r, r)
    } else if px > right && py < r {
        offset_within_radius(px - right, py - r, r)
    } else if px < r && py > bottom {
        offset_within_radius(px - r, py - bottom, r)
    } else if px > right && py > bottom {
        offset_within_radius(px - right, py - bottom, r)
    } else {
        x < width && y < height
    }
}

/// Cuts the corners of an image to `radius`: a pixel outside the rounded
/// rectangle becomes transparent black, every other pixel keeps its bytes.
pub fn round_corners(image: DecodedImage, radius: u32) -> (rounded: DecodedImage)
    ensures
        rounded@ == masked(image@, radius as int),
        rounded@.wf(),
{
    let width = image.width();
    let height = image.height();
    let source = image.pixels();
    let len = source.len();
    let mut out: Vec<u8> = Vec::with_capacity(len);
    let mut x: u32 = 0;
    let mut y: u32 = 0;
    let mut at: usize = 0;
    while at < len
        invariant
            image@.wf(),
            source@ == image@.pixels,
            len == source@.len(),
            width == image@.width,
            height == image@.height,
            at % 4 == 0,
            at <= len,
            at / 4 == y * width + x,
            x < width,
            y <= height,
            out@ == Seq::new(at as nat, |i: int| masked_byte(image@, radius as int, i)),
        decreases len - at,
    {
        proof {
            let p = (at / 4) as int;
            vstd::arithmetic::div_mod::lemma_fundamental_div_mod_converse(
                p,
                width as int,
                y as int,
                x as int,
            );
            assert(y < height) by (nonlinear_arith)
                requires
                    y * width + x < width * height,
                    0 <= x,
                    0 < width,
            ;
        }
        let ghost old_p = (at / 4) as int;
        let ghost old_x = x as int;
        let ghost old_y = y as int;
        let inside = is_in_rounded_rect(x, y, width, height, radius);
        if inside {
            out.push(source[at]);
            out.push(source[at + 1]);
            out.push(source[at + 2]);
            out.push(source[at + 3]);
        } else {
            out.push(0);
            out.push(0);
            out.push(0);
            out.push(0);
        }
        assert(out@ =~= Seq::new((at + 4) as nat, |i: int| masked_byte(image@, radius as int, i)));
        at += 4;
        x += 1;
        if x == width {
            x = 0;
            y += 1;
        }
        assert(at / 4 == y * width + x) by (nonlinear_arith)
            requires
                at / 4 == old_p + 1,
                old_p == old_y * width + old_x,
                (old_x + 1 < width && x == old_x + 1 && y == old_y) || (old_x + 1 == width && x
                    == 0 && y == old_y + 1),
        ;
    }
    assert(out@ =~= masked(image@, radius as int).pixels);
    DecodedImage::from_valid_rgba(width, height, out)
}

/// Decodes raster bytes and cuts the corners of the image to the icon radius.
pub fn round_image(bytes: &[u8]) -> (result: Result<DecodedImage, DecodeError>)
    ensures
        decoded_view(result) == round_image_spec(bytes@),
{
    match decode(bytes) {
        Ok(image) => Ok(round_corners(image, ICON_CORNER_RADIUS)),
        Err(error) => Err(error),
    }
}

} // verus!
