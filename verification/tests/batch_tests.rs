use disaster_cnn::data::{
    batch_positions, hwc_to_chw, load_image_as_tensor_data, ClassificationBatcher,
    IMAGE_TENSOR_LEN,
};
use disaster_cnn::training::batch_count;
use disaster_cnn::dataset::{DisasterImageItem, IMAGE_SIZE};
use image::{DynamicImage, GenericImage, Rgba};

fn solid_image(width: u32, height: u32, color: [u8; 3]) -> DynamicImage {
    let mut img = DynamicImage::new_rgb8(width, height);
    for y in 0..height {
        for x in 0..width {
            img.put_pixel(x, y, Rgba([color[0], color[1], color[2], 255]));
        }
    }
    img
}

fn item(path: &str, label: usize, is_train: bool) -> DisasterImageItem {
    DisasterImageItem { image_path: path.to_string(), label, is_train }
}

#[test]
fn tensor_len_is_three_planes() {
    assert_eq!(IMAGE_TENSOR_LEN, 3 * IMAGE_SIZE * IMAGE_SIZE);
    assert_eq!(IMAGE_TENSOR_LEN, 49152);
}

#[test]
fn load_resizes_any_source_resolution() {
    let small = load_image_as_tensor_data(solid_image(10, 7, [1, 2, 3]), false);
    assert_eq!(small.len(), IMAGE_TENSOR_LEN);
    let large = load_image_as_tensor_data(solid_image(300, 200, [1, 2, 3]), false);
    assert_eq!(large.len(), IMAGE_TENSOR_LEN);
}

#[test]
fn hwc_to_chw_reorders_exactly() {
    // 2 rows, 3 columns, 3 channels: byte (y, x, c) holds (y*3 + x)*3 + c.
    let bytes: Vec<u8> = (0..18).collect();
    let chw = hwc_to_chw(&bytes, 2, 3);
    assert_eq!(chw.len(), 18);
    for c in 0..3usize {
        for y in 0..2usize {
            for x in 0..3usize {
                assert_eq!(chw[c * 6 + y * 3 + x], bytes[(y * 3 + x) * 3 + c]);
            }
        }
    }
    assert_eq!(&chw[0..6], &[0, 3, 6, 9, 12, 15]);
}

#[test]
fn batch_stacks_images_and_targets() {
    let batcher = ClassificationBatcher::new();
    let images = vec![
        solid_image(30, 20, [255, 0, 0]),
        solid_image(7, 9, [0, 255, 0]),
        solid_image(128, 128, [0, 0, 255]),
    ];
    let items = vec![item("a.jpg", 2, false), item("b.jpg", 0, false), item("c.jpg", 3, false)];
    let batch = batcher.batch(images, &items);
    assert_eq!(batch.images.len(), 3 * IMAGE_TENSOR_LEN);
    assert_eq!(batch.targets, vec![2, 0, 3]);
}

#[test]
fn batch_lays_out_channel_planes() {
    // A solid red inference image: after decoding, resizing and the
    // channel-first reorder, the red plane is all 255 and the green and
    // blue planes are all zero.
    let batcher = ClassificationBatcher::new();
    let images = vec![solid_image(50, 40, [255, 0, 0])];
    let items = vec![item("red.jpg", 1, false)];
    let batch = batcher.batch(images, &items);
    assert_eq!(batch.images.len(), IMAGE_TENSOR_LEN);
    let plane = IMAGE_SIZE * IMAGE_SIZE;
    assert!(batch.images[0..plane].iter().all(|&b| b == 255));
    assert!(batch.images[plane..3 * plane].iter().all(|&b| b == 0));
}

#[test]
fn empty_batch_is_empty() {
    let batcher = ClassificationBatcher::new();
    let batch = batcher.batch(Vec::new(), &Vec::new());
    assert_eq!(batch.images.len(), 0);
    assert_eq!(batch.targets.len(), 0);
}

#[test]
fn batch_positions_cuts_the_order_into_chunks() {
    let order: Vec<usize> = vec![4, 2, 7, 0, 5];
    assert_eq!(batch_positions(&order, 2, 0), vec![4, 2]);
    assert_eq!(batch_positions(&order, 2, 1), vec![7, 0]);
    assert_eq!(batch_positions(&order, 2, 2), vec![5]);
    assert_eq!(batch_positions(&order, 5, 1), Vec::<usize>::new());
}

#[test]
fn batch_count_rounds_up() {
    assert_eq!(batch_count(0, 32), 0);
    assert_eq!(batch_count(10, 0), 0);
    assert_eq!(batch_count(64, 32), 2);
    assert_eq!(batch_count(65, 32), 3);
    assert_eq!(batch_count(1, 32), 1);
}
