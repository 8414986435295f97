use disaster_cnn::augmentation::{
    adjust_brightness, apply_augmentations, apply_cutout, pick_cutout,
};
use image::{DynamicImage, GenericImage, GenericImageView, Rgba};

fn patterned_image(width: u32, height: u32) -> DynamicImage {
    let mut img = DynamicImage::new_rgb8(width, height);
    for y in 0..height {
        for x in 0..width {
            img.put_pixel(
                x,
                y,
                Rgba([(x * 7 % 256) as u8, (y * 13 % 256) as u8, ((x + y) % 256) as u8, 255]),
            );
        }
    }
    img
}

#[test]
fn augment_without_training_is_identity() {
    let img = patterned_image(13, 9);
    let out = apply_augmentations(img.clone(), false);
    assert_eq!(out.dimensions(), (13, 9));
    assert_eq!(out.to_rgba8().into_raw(), img.to_rgba8().into_raw());
}

#[test]
fn augment_keeps_dimensions() {
    for _ in 0..20 {
        let img = patterned_image(40, 28);
        let out = apply_augmentations(img, true);
        assert_eq!(out.dimensions(), (40, 28));
    }
}

#[test]
fn augment_keeps_dimensions_on_tiny_images() {
    for _ in 0..10 {
        let img = patterned_image(3, 2);
        let out = apply_augmentations(img, true);
        assert_eq!(out.dimensions(), (3, 2));
    }
}

#[test]
fn cutout_rectangle_stays_in_bounds() {
    for _ in 0..200 {
        let (x, y, w, h) = pick_cutout(256, 256);
        assert!((32..64).contains(&w));
        assert!((32..64).contains(&h));
        assert!(x + w <= 256);
        assert!(y + h <= 256);
    }
}

#[test]
fn cutout_zeroes_the_rectangle_and_nothing_else() {
    let mut img = DynamicImage::new_rgba8(16, 12);
    for y in 0..12 {
        for x in 0..16 {
            img.put_pixel(x, y, Rgba([(x * 7 % 256) as u8, (y * 13 % 256) as u8, 9, 255]));
        }
    }
    let before = img.clone();
    apply_cutout(&mut img, 3, 2, 5, 4);
    assert_eq!(img.dimensions(), (16, 12));
    for y in 0..12 {
        for x in 0..16 {
            let inside = (3..8).contains(&x) && (2..6).contains(&y);
            if inside {
                assert_eq!(img.get_pixel(x, y), Rgba([0, 0, 0, 0]));
            } else {
                assert_eq!(img.get_pixel(x, y), before.get_pixel(x, y));
            }
        }
    }
}

#[test]
fn brightness_scales_and_clamps_channels() {
    let mut img = DynamicImage::new_rgba8(2, 2);
    for y in 0..2 {
        for x in 0..2 {
            img.put_pixel(x, y, Rgba([100, 50, 200, 255]));
        }
    }
    let brighter = adjust_brightness(img.clone(), 200);
    assert_eq!(brighter.dimensions(), (2, 2));
    assert_eq!(brighter.get_pixel(0, 0), Rgba([120, 60, 240, 255]));
    let darker = adjust_brightness(img.clone(), -250);
    assert_eq!(darker.get_pixel(1, 1), Rgba([75, 37, 150, 255]));
    let mut bright_input = DynamicImage::new_rgba8(1, 1);
    bright_input.put_pixel(0, 0, Rgba([250, 0, 10, 255]));
    let clamped = adjust_brightness(bright_input, 249);
    assert_eq!(clamped.get_pixel(0, 0), Rgba([255, 0, 12, 255]));
}
