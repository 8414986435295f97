//! Trusted boundary to the `image` and `imageproc` crates.
//!
//! A `DynamicImage` is opaque here; the contracts track it through names
//! for what its accessors return: the dimensions it reports (`dims_of`),
//! the RGBA value read at a position (`pixel_of`, with `stored_pixel` for
//! what a write reads back as), and the interleaved RGB bytes it converts
//! to (`rgb_bytes_of`, with `resized_rgb_of` for the bytes after an exact
//! resize). Every wrapper states over these names what the operation it
//! relies on does, which is what the augmentation and batching logic is
//! proved against.

use vstd::prelude::*;
use rand::RngExt;

verus! {

#[verifier::external_type_specification]
#[verifier::external_body]
pub struct ExDynamicImage(image::DynamicImage);

/// The (width, height) pair a `DynamicImage` reports: a pure function of
/// the image value, returned by `image::GenericImageView::dimensions`.
pub uninterp spec fn dims_of(img: image::DynamicImage) -> (u32, u32);

/// The RGBA value `image::GenericImageView::get_pixel` reads at (x, y): a
/// pure function of the image value and the position.
pub uninterp spec fn pixel_of(img: image::DynamicImage, x: u32, y: u32) -> (u8, u8, u8, u8);

/// The RGBA value that reads back after `image::GenericImage::put_pixel`
/// writes `px` into an image with `img`'s color model: the write is
/// converted to the image's own channels (an RGB image, for one, keeps no
/// alpha), a deterministic function of the color model and the value.
pub uninterp spec fn stored_pixel(img: image::DynamicImage, px: (u8, u8, u8, u8)) -> (
    u8,
    u8,
    u8,
    u8,
);

/// The interleaved row-major RGB bytes `image::DynamicImage::to_rgb8`
/// yields, three bytes per pixel: a pure function of the image value.
pub uninterp spec fn rgb_bytes_of(img: image::DynamicImage) -> Seq<u8>;

/// The RGB bytes of the image `image::DynamicImage::resize_exact`
/// produces with the triangle filter at the given dimensions: the
/// resampling is deterministic, so a function of the inputs alone.
pub uninterp spec fn resized_rgb_of(img: image::DynamicImage, width: u32, height: u32) -> Seq<u8>;

/// Relies on image::GenericImageView::dimensions: the width and height of
/// the image.
#[verifier::external_body]
pub fn image_dims(img: &image::DynamicImage) -> (r: (u32, u32))
    ensures
        r == dims_of(*img),
{
    image::GenericImageView::dimensions(img)
}

/// Relies on image::DynamicImage::fliph: mirrors the image horizontally,
/// keeping its dimensions.
#[verifier::external_body]
pub(crate) fn flip_horizontal(img: &image::DynamicImage) -> (r: image::DynamicImage)
    ensures
        dims_of(r) == dims_of(*img),
{
    img.fliph()
}

/// Relies on imageproc::geometric_transformations::rotate_about_center
/// (and image::DynamicImage::to_rgba8): rotates about the image center by
/// an angle drawn uniformly from ±`max_radians_e4` ten-thousandths of a
/// radian, with bilinear resampling and transparent fill; both steps keep
/// the dimensions. Only the int-to-float conversion and the draw are
/// trusted; the angle bound itself is the caller's.
#[verifier::external_body]
pub(crate) fn rotate_random(img: &image::DynamicImage, max_radians_e4: i16) -> (r:
    image::DynamicImage)
    requires
        max_radians_e4 > 0,
    ensures
        dims_of(r) == dims_of(*img),
{
    let mut num = Into::into(0i8);
    // Resolves the angle's type to the call's parameter type.
    let _pin = imageproc::geometric_transformations::Projection::rotate(num);
    num = Into::into(max_radians_e4);
    let mut den = num;
    den = Into::into(10000i16);
    let max_angle = num / den;
    let rgba = img.to_rgba8();
    let rotated = imageproc::geometric_transformations::rotate_about_center(
        &rgba,
        rand::rng().random_range(-max_angle..max_angle),
        imageproc::geometric_transformations::Interpolation::Bilinear,
        imageproc::geometric_transformations::Border::Constant(image::Rgba([0, 0, 0, 0])),
    );
    image::DynamicImage::ImageRgba8(rotated)
}

/// Relies on image::DynamicImage::adjust_contrast: adjusts contrast by a
/// factor drawn uniformly from [`lo_tenths`/10, `hi_tenths`/10), keeping
/// the dimensions. Only the int-to-float conversion and the draw are
/// trusted; the factor range itself is the caller's.
#[verifier::external_body]
pub(crate) fn contrast_random(img: &image::DynamicImage, lo_tenths: i8, hi_tenths: i8) -> (r:
    image::DynamicImage)
    requires
        lo_tenths < hi_tenths,
    ensures
        dims_of(r) == dims_of(*img),
{
    let mut lo_num = Into::into(0i8);
    // Resolves the factor's type to the call's parameter type.
    let _pin = imageproc::geometric_transformations::Projection::rotate(lo_num);
    lo_num = Into::into(lo_tenths);
    let mut hi_num = lo_num;
    hi_num = Into::into(hi_tenths);
    let mut den = lo_num;
    den = Into::into(10i8);
    img.adjust_contrast(rand::rng().random_range((lo_num / den)..(hi_num / den)))
}

/// Relies on image::DynamicImage::blur: Gaussian blur with a sigma drawn
/// uniformly from [`lo_tenths`/10, `hi_tenths`/10) — positive, so the
/// kernel is well-formed — keeping the dimensions. Only the int-to-float
/// conversion and the draw are trusted; the sigma range is the caller's.
#[verifier::external_body]
pub(crate) fn blur_random(img: &image::DynamicImage, lo_tenths: i8, hi_tenths: i8) -> (r:
    image::DynamicImage)
    requires
        1 <= lo_tenths < hi_tenths,
    ensures
        dims_of(r) == dims_of(*img),
{
    let mut lo_num = Into::into(0i8);
    // Resolves the sigma's type to the call's parameter type.
    let _pin = imageproc::geometric_transformations::Projection::rotate(lo_num);
    lo_num = Into::into(lo_tenths);
    let mut hi_num = lo_num;
    hi_num = Into::into(hi_tenths);
    let mut den = lo_num;
    den = Into::into(10i8);
    img.blur(rand::rng().random_range((lo_num / den)..(hi_num / den)))
}

/// Relies on image::GenericImageView::get_pixel: the RGBA value at (x, y);
/// in bounds by the precondition, so it cannot panic.
#[verifier::external_body]
pub(crate) fn get_pixel(img: &image::DynamicImage, x: u32, y: u32) -> (r: (u8, u8, u8, u8))
    requires
        x < dims_of(*img).0,
        y < dims_of(*img).1,
    ensures
        r == pixel_of(*img, x, y),
{
    let p = image::GenericImageView::get_pixel(img, x, y);
    (p.0[0], p.0[1], p.0[2], p.0[3])
}

/// Relies on image::GenericImage::put_pixel: overwrites the single pixel
/// at (x, y) — in bounds by the precondition — with `px` converted to the
/// image's color model, leaving every other pixel, the dimensions and the
/// color model (so what any later write reads back as) unchanged.
#[verifier::external_body]
pub(crate) fn put_pixel(img: &mut image::DynamicImage, x: u32, y: u32, px: (u8, u8, u8, u8))
    requires
        x < dims_of(*old(img)).0,
        y < dims_of(*old(img)).1,
    ensures
        dims_of(*final(img)) == dims_of(*old(img)),
        pixel_of(*final(img), x, y) == stored_pixel(*old(img), px),
        forall|i: u32, j: u32|
            !(i == x && j == y) ==> #[trigger] pixel_of(*final(img), i, j) == pixel_of(
                *old(img),
                i,
                j,
            ),
        forall|q: (u8, u8, u8, u8)| #[trigger]
            stored_pixel(*final(img), q) == stored_pixel(*old(img), q),
{
    image::GenericImage::put_pixel(img, x, y, image::Rgba([px.0, px.1, px.2, px.3]))
}

/// Relies on image::DynamicImage::resize_exact with the triangle filter:
/// the result has exactly the requested dimensions, ignoring aspect
/// ratio, and its RGB bytes are the deterministic resampling of the
/// input's, named by `resized_rgb_of`.
#[verifier::external_body]
pub(crate) fn resize_exact(img: &image::DynamicImage, width: u32, height: u32) -> (r:
    image::DynamicImage)
    requires
        width >= 1,
        height >= 1,
    ensures
        dims_of(r) == (width, height),
        rgb_bytes_of(r) == resized_rgb_of(*img, width, height),
{
    img.resize_exact(width, height, image::imageops::FilterType::Triangle)
}

/// Relies on image::DynamicImage::to_rgb8 and ImageBuffer::into_raw: the
/// raw interleaved RGB bytes in row-major (height, width, channel) order,
/// three bytes per pixel.
#[verifier::external_body]
pub(crate) fn rgb_bytes(img: &image::DynamicImage) -> (r: Vec<u8>)
    ensures
        r@ == rgb_bytes_of(*img),
        r@.len() == 3 * (dims_of(*img).0 as int) * (dims_of(*img).1 as int),
{
    img.to_rgb8().into_raw()
}

} // verus!
