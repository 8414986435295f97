//! Stochastic image augmentation, applied only to training items.
//!
//! With `is_train == false` the input is returned untouched. With
//! `is_train == true`, six independent steps may fire, each behind its own
//! probability gate: horizontal flip (1/2), rotation (1/2), brightness
//! scaling (3/10), contrast adjustment (3/10), Gaussian blur (1/5), and
//! cutout (1/2). Every step keeps the image dimensions, and the cutout
//! rectangle is in bounds by construction.

use vstd::prelude::*;
use crate::image_ops::{
    blur_random, contrast_random, dims_of, flip_horizontal, get_pixel, image_dims, pixel_of,
    put_pixel, rotate_random, stored_pixel,
};
use crate::sampling::sample_u32;

verus! {

/// Largest rotation angle, in ten-thousandths of a radian: 15 degrees.
pub const ROTATION_LIMIT_RADIANS_E4: i16 = 2618;

/// Contrast factor range, in tenths: [-0.2, 0.4).
pub const CONTRAST_LO_TENTHS: i8 = -2;

pub const CONTRAST_HI_TENTHS: i8 = 4;

/// Blur sigma range, in tenths: [0.1, 1.5).
pub const BLUR_SIGMA_LO_TENTHS: i8 = 1;

pub const BLUR_SIGMA_HI_TENTHS: i8 = 15;

/// One channel value scaled by `scale`/1000 and clamped to the pixel
/// range.
pub open spec fn spec_scaled_channel(v: u8, scale: int) -> u8 {
    if v * scale / 1000 > 255 {
        255u8
    } else {
        (v * scale / 1000) as u8
    }
}

/// The brightness law for one pixel: the three color channels scaled by
/// `scale`/1000 and clamped, the alpha channel kept.
pub open spec fn spec_scaled_pixel(px: (u8, u8, u8, u8), scale: int) -> (u8, u8, u8, u8) {
    (
        spec_scaled_channel(px.0, scale),
        spec_scaled_channel(px.1, scale),
        spec_scaled_channel(px.2, scale),
        px.3,
    )
}

/// Scales one color channel by `scale`/1000, clamping to the pixel range.
fn scale_channel(v: u8, scale: u32) -> (r: u8)
    requires
        750 <= scale <= 1250,
    ensures
        r == spec_scaled_channel(v, scale as int),
{
    proof {
        assert((v as int) * (scale as int) <= 255 * 1250) by (nonlinear_arith)
            requires
                0 <= v as int <= 255,
                0 <= scale as int <= 1250,
        ;
    }
    let scaled: u32 = (v as u32) * scale / 1000;
    if scaled > 255 {
        255
    } else {
        scaled as u8
    }
}

/// Multiplies every color channel by 1 + `factor_permille`/1000, clamped
/// to the valid pixel range; alpha is kept (each write is stored in the
/// image's own color model). The factor is a brightness adjustment in
/// thousandths, drawn from [-0.25, 0.25).
pub fn adjust_brightness(img: image::DynamicImage, factor_permille: i32) -> (r: image::DynamicImage)
    requires
        -250 <= factor_permille < 250,
    ensures
        dims_of(r) == dims_of(img),
        forall|i: u32, j: u32|
            i < dims_of(img).0 && j < dims_of(img).1 ==> #[trigger] pixel_of(r, i, j)
                == stored_pixel(
                img,
                spec_scaled_pixel(pixel_of(img, i, j), 1000 + factor_permille),
            ),
{
    let mut out = img;
    let ghost img0 = out;
    let ghost d0 = dims_of(out);
    let (width, height) = image_dims(&out);
    let scale: u32 = (1000 + factor_permille) as u32;
    let mut y: u32 = 0;
    while y < height
        invariant
            dims_of(out) == d0,
            (width, height) == d0,
            750 <= scale <= 1250,
            scale == 1000 + factor_permille,
            y <= height,
            forall|i: u32, j: u32|
                i < width && j < y ==> #[trigger] pixel_of(out, i, j) == stored_pixel(
                    img0,
                    spec_scaled_pixel(pixel_of(img0, i, j), scale as int),
                ),
            forall|i: u32, j: u32|
                !(i < width && j < y) ==> #[trigger] pixel_of(out, i, j) == pixel_of(img0, i, j),
            forall|q: (u8, u8, u8, u8)| #[trigger] stored_pixel(out, q) == stored_pixel(img0, q),
        decreases height - y,
    {
        let mut x: u32 = 0;
        while x < width
            invariant
                dims_of(out) == d0,
                (width, height) == d0,
                750 <= scale <= 1250,
                scale == 1000 + factor_permille,
                y < height,
                x <= width,
                forall|i: u32, j: u32|
                    i < width && (j < y || (j == y && i < x)) ==> #[trigger] pixel_of(out, i, j)
                        == stored_pixel(
                        img0,
                        spec_scaled_pixel(pixel_of(img0, i, j), scale as int),
                    ),
                forall|i: u32, j: u32|
                    !(i < width && (j < y || (j == y && i < x))) ==> #[trigger] pixel_of(out, i, j)
                        == pixel_of(img0, i, j),
                forall|q: (u8, u8, u8, u8)| #[trigger]
                    stored_pixel(out, q) == stored_pixel(img0, q),
            decreases width - x,
        {
            let px = get_pixel(&out, x, y);
            proof {
                assert(px == pixel_of(img0, x, y));
            }
            let red = scale_channel(px.0, scale);
            let green = scale_channel(px.1, scale);
            let blue = scale_channel(px.2, scale);
            proof {
                assert((red, green, blue, px.3) == spec_scaled_pixel(
                    pixel_of(img0, x, y),
                    scale as int,
                ));
            }
            put_pixel(&mut out, x, y, (red, green, blue, px.3));
            x += 1;
        }
        y += 1;
    }
    out
}

/// Picks the cutout rectangle for a `width`-by-`height` image: a position
/// and size drawn at random, the size uniform in [dim/8, dim/4) for each
/// dimension, the position uniform among all placements that keep the
/// rectangle fully inside the image. Returns (x, y, w, h).
pub fn pick_cutout(width: u32, height: u32) -> (r: (u32, u32, u32, u32))
    requires
        width >= 4,
        height >= 4,
    ensures
        width / 8 <= r.2 < width / 4,
        height / 8 <= r.3 < height / 4,
        r.0 + r.2 <= width,
        r.1 + r.3 <= height,
{
    proof {
        assert(width / 8 < width / 4 && height / 8 < height / 4) by (bit_vector)
            requires
                width >= 4 && height >= 4,
        ;
    }
    let cutout_width = sample_u32(width / 8, width / 4);
    let cutout_height = sample_u32(height / 8, height / 4);
    let x_offset = sample_u32(0, width - cutout_width + 1);
    let y_offset = sample_u32(0, height - cutout_height + 1);
    (x_offset, y_offset, cutout_width, cutout_height)
}

/// Overwrites the rectangle at (x, y) of size `w` by `h` — in bounds by
/// the precondition — with the fully transparent zero pixel, stored in
/// the image's own color model; every pixel outside the rectangle is
/// untouched.
pub fn apply_cutout(img: &mut image::DynamicImage, x: u32, y: u32, w: u32, h: u32)
    requires
        x + w <= dims_of(*old(img)).0,
        y + h <= dims_of(*old(img)).1,
    ensures
        dims_of(*final(img)) == dims_of(*old(img)),
        forall|a: u32, b: u32|
            x <= a < x + w && y <= b < y + h ==> #[trigger] pixel_of(*final(img), a, b)
                == stored_pixel(*old(img), (0u8, 0u8, 0u8, 0u8)),
        forall|a: u32, b: u32|
            !(x <= a < x + w && y <= b < y + h) ==> #[trigger] pixel_of(*final(img), a, b)
                == pixel_of(*old(img), a, b),
{
    let ghost img0 = *img;
    let ghost d0 = dims_of(*img);
    let mut j: u32 = 0;
    while j < h
        invariant
            dims_of(*img) == d0,
            x + w <= d0.0,
            y + h <= d0.1,
            j <= h,
            forall|a: u32, b: u32|
                x <= a < x + w && y <= b < y + j ==> #[trigger] pixel_of(*img, a, b)
                    == stored_pixel(img0, (0u8, 0u8, 0u8, 0u8)),
            forall|a: u32, b: u32|
                !(x <= a < x + w && y <= b < y + j) ==> #[trigger] pixel_of(*img, a, b) == pixel_of(
                    img0,
                    a,
                    b,
                ),
            forall|q: (u8, u8, u8, u8)| #[trigger] stored_pixel(*img, q) == stored_pixel(img0, q),
        decreases h - j,
    {
        let mut i: u32 = 0;
        while i < w
            invariant
                dims_of(*img) == d0,
                x + w <= d0.0,
                y + h <= d0.1,
                j < h,
                i <= w,
                forall|a: u32, b: u32|
                    (x <= a < x + w && y <= b < y + j) || (b == y + j && x <= a < x + i)
                        ==> #[trigger] pixel_of(*img, a, b) == stored_pixel(
                        img0,
                        (0u8, 0u8, 0u8, 0u8),
                    ),
                forall|a: u32, b: u32|
                    !((x <= a < x + w && y <= b < y + j) || (b == y + j && x <= a < x + i))
                        ==> #[trigger] pixel_of(*img, a, b) == pixel_of(img0, a, b),
                forall|q: (u8, u8, u8, u8)| #[trigger]
                    stored_pixel(*img, q) == stored_pixel(img0, q),
            decreases w - i,
        {
            put_pixel(img, x + i, y + j, (0, 0, 0, 0));
            i += 1;
        }
        j += 1;
    }
}

/// The augmentation policy. For non-training use it is the identity; for
/// training use it applies, in order and each behind an independent
/// uniform gate: flip, rotation, brightness, contrast, blur, and cutout.
/// Dimensions are always preserved. An image too small to fit the
/// smallest cutout rectangle skips the cutout step, so cutout geometry is
/// in bounds by construction.
pub fn apply_augmentations(img: image::DynamicImage, is_train: bool) -> (r: image::DynamicImage)
    ensures
        !is_train ==> r == img,
        dims_of(r) == dims_of(img),
{
    if !is_train {
        return img;
    }
    let mut out = img;
    if sample_u32(0, 10) < 5 {
        out = flip_horizontal(&out);
    }
    if sample_u32(0, 10) < 5 {
        out = rotate_random(&out, ROTATION_LIMIT_RADIANS_E4);
    }
    if sample_u32(0, 10) < 3 {
        let draw = sample_u32(0, 500);
        let factor_permille: i32 = (draw as i32) - 250;
        out = adjust_brightness(out, factor_permille);
    }
    if sample_u32(0, 10) < 3 {
        out = contrast_random(&out, CONTRAST_LO_TENTHS, CONTRAST_HI_TENTHS);
    }
    if sample_u32(0, 10) < 2 {
        out = blur_random(&out, BLUR_SIGMA_LO_TENTHS, BLUR_SIGMA_HI_TENTHS);
    }
    let (width, height) = image_dims(&out);
    if width >= 4 && height >= 4 && sample_u32(0, 10) < 5 {
        let (x, y, w, h) = pick_cutout(width, height);
        apply_cutout(&mut out, x, y, w, h);
    }
    out
}

} // verus!
