//! Batcher: turns decoded images and their dataset items into one numeric
//! batch at the byte stage.
//!
//! Per item: augment (training items only), resize to the fixed square
//! resolution, extract interleaved RGB bytes, reorder them channel-first,
//! and stack everything along a leading batch dimension; the integer
//! labels are stacked into one target vector. Scaling to unit range and
//! the fixed per-channel mean/std normalization are floating-point affine
//! maps that the compute backend applies downstream, outside this crate.

use vstd::prelude::*;
use vstd::arithmetic::mul::lemma_mul_nonnegative;
use crate::augmentation::apply_augmentations;
use crate::dataset::{DisasterImageItem, IMAGE_SIZE};
use crate::image_ops::{resize_exact, resized_rgb_of, rgb_bytes};

verus! {

/// Bytes per image after the pipeline: three channels at the fixed
/// square resolution.
pub const IMAGE_TENSOR_LEN: usize = 3 * IMAGE_SIZE * IMAGE_SIZE;

/// Decodes one image into tensor bytes: augment (gated by `is_train`),
/// resize to IMAGE_SIZE x IMAGE_SIZE, and extract the raw RGB bytes in
/// row-major (height, width, channel) order. Outside training the
/// augmentation is the identity, so the result is exactly the resized
/// image's bytes — a deterministic function of the input image.
pub fn load_image_as_tensor_data(img: image::DynamicImage, is_train: bool) -> (r: Vec<u8>)
    ensures
        r@.len() == IMAGE_TENSOR_LEN,
        !is_train ==> r@ == resized_rgb_of(img, IMAGE_SIZE as u32, IMAGE_SIZE as u32),
{
    let augmented = apply_augmentations(img, is_train);
    let resized = resize_exact(&augmented, IMAGE_SIZE as u32, IMAGE_SIZE as u32);
    rgb_bytes(&resized)
}

/// Source position, in (height, width, channel) interleaved bytes, of the
/// byte that lands at position `k` of the channel-first layout.
pub open spec fn chw_source_index(k: int, height: int, width: int) -> int {
    3 * (k % (height * width)) + k / (height * width)
}

/// The channel-first reordering of interleaved row-major bytes.
pub open spec fn chw_of(bytes: Seq<u8>, height: int, width: int) -> Seq<u8> {
    Seq::new(bytes.len(), |k: int| bytes[chw_source_index(k, height, width)])
}

/// Reorders interleaved row-major bytes (height, width, channel) into
/// channel-first planes (channel, height, width): the byte for channel c,
/// row y, column x moves from position (y*width + x)*3 + c to position
/// c*height*width + y*width + x.
pub fn hwc_to_chw(bytes: &Vec<u8>, height: usize, width: usize) -> (r: Vec<u8>)
    requires
        bytes@.len() == 3 * height * width,
    ensures
        r@.len() == bytes@.len(),
        forall|k: int|
            0 <= k < r@.len() ==> r@[k] == bytes@[chw_source_index(
                k,
                height as int,
                width as int,
            )],
        r@ == chw_of(bytes@, height as int, width as int),
{
    let total = bytes.len();
    proof {
        lemma_mul_nonnegative(height as int, width as int);
        assert(3 * (height as int) * (width as int) == 3 * ((height as int) * (width as int)))
            by (nonlinear_arith);
    }
    let hw = height * width;
    let mut out: Vec<u8> = Vec::with_capacity(total);
    let mut k: usize = 0;
    while k < total
        invariant
            total == bytes@.len(),
            total == 3 * hw,
            hw == height * width,
            k <= total,
            out@.len() == k,
            forall|j: int|
                0 <= j < k ==> out@[j] == bytes@[chw_source_index(j, height as int, width as int)],
        decreases total - k,
    {
        let channel = k / hw;
        let rem = k % hw;
        proof {
            assert(k / hw < 3 && k % hw < hw) by (nonlinear_arith)
                requires
                    0 <= k < 3 * hw,
                    hw > 0,
            ;
        }
        let src = 3 * rem + channel;
        out.push(bytes[src]);
        k += 1;
    }
    proof {
        assert(out@ =~= chw_of(bytes@, height as int, width as int));
    }
    out
}

/// The dataset positions batch `step` visits when the visiting `order` is
/// cut into `batch_size`-sized chunks: the slice of `order` from
/// step*batch_size to the end of the chunk or of `order`, whichever comes
/// first.
pub fn batch_positions(order: &Vec<usize>, batch_size: usize, step: usize) -> (r: Vec<usize>)
    requires
        step * batch_size <= order@.len(),
    ensures
        r@ == order@.subrange(
            step as int * batch_size as int,
            if step as int * batch_size as int + batch_size as int <= order@.len() {
                step as int * batch_size as int + batch_size as int
            } else {
                order@.len() as int
            },
        ),
{
    let n = order.len();
    let start = step * batch_size;
    let end = if batch_size <= n - start {
        start + batch_size
    } else {
        n
    };
    let mut r: Vec<usize> = Vec::new();
    let mut k = start;
    while k < end
        invariant
            start <= k <= end,
            end <= order@.len(),
            r@ == order@.subrange(start as int, k as int),
        decreases end - k,
    {
        r.push(order[k]);
        proof {
            assert(order@.subrange(start as int, k as int + 1) =~= order@.subrange(
                start as int,
                k as int,
            ).push(order@[k as int]));
        }
        k += 1;
    }
    r
}

/// One assembled batch: the channel-first image bytes of all items,
/// flattened row-major with shape [N, 3, IMAGE_SIZE, IMAGE_SIZE], and one
/// integer target per item, shape [N].
pub struct ClassificationBatch {
    pub images: Vec<u8>,
    pub targets: Vec<i64>,
}

/// Assembles classification batches at the fixed square resolution.
pub struct ClassificationBatcher {
}

impl ClassificationBatcher {
    pub fn new() -> (r: Self) {
        ClassificationBatcher {  }
    }

    /// Builds one batch from the decoded images of `items` (position by
    /// position). The batch holds exactly one IMAGE_TENSOR_LEN-byte
    /// channel-first image per item and one target per item, the item's
    /// label, in item order; for an item outside training, its block is
    /// exactly the channel-first reordering of its image's resize bytes.
    pub fn batch(&self, images: Vec<image::DynamicImage>, items: &Vec<DisasterImageItem>) -> (r:
        ClassificationBatch)
        requires
            images@.len() == items@.len(),
            items@.len() * IMAGE_TENSOR_LEN <= usize::MAX,
            forall|i: int| 0 <= i < items@.len() ==> #[trigger] items@[i].label <= i64::MAX,
        ensures
            r.images@.len() == items@.len() * IMAGE_TENSOR_LEN,
            r.targets@.len() == items@.len(),
            forall|i: int|
                0 <= i < items@.len() ==> r.targets@[i] == items@[i].label as i64,
            forall|i: int|
                #![trigger items@[i]]
                0 <= i < items@.len() && !items@[i].is_train ==> r.images@.subrange(
                    i * IMAGE_TENSOR_LEN,
                    (i + 1) * IMAGE_TENSOR_LEN,
                ) == chw_of(
                    resized_rgb_of(images@[i], IMAGE_SIZE as u32, IMAGE_SIZE as u32),
                    IMAGE_SIZE as int,
                    IMAGE_SIZE as int,
                ),
    {
        let n = items.len();
        let ghost imgs = images@;
        let mut rest = images;
        let mut image_bytes: Vec<u8> = Vec::new();
        let mut targets: Vec<i64> = Vec::new();
        let mut idx: usize = 0;
        while idx < n
            invariant
                n == items@.len(),
                idx <= n,
                imgs.len() == n,
                rest@ == imgs.skip(idx as int),
                n * IMAGE_TENSOR_LEN <= usize::MAX,
                forall|i: int| 0 <= i < n ==> #[trigger] items@[i].label <= i64::MAX,
                image_bytes@.len() == idx * IMAGE_TENSOR_LEN,
                targets@.len() == idx,
                forall|i: int| 0 <= i < idx ==> targets@[i] == items@[i].label as i64,
                forall|i: int|
                    #![trigger items@[i]]
                    0 <= i < idx && !items@[i].is_train ==> image_bytes@.subrange(
                        i * IMAGE_TENSOR_LEN,
                        (i + 1) * IMAGE_TENSOR_LEN,
                    ) == chw_of(
                        resized_rgb_of(imgs[i], IMAGE_SIZE as u32, IMAGE_SIZE as u32),
                        IMAGE_SIZE as int,
                        IMAGE_SIZE as int,
                    ),
            decreases n - idx,
        {
            let ghost old_bytes = image_bytes@;
            let img = rest.remove(0);
            proof {
                assert(img == imgs[idx as int]);
                assert(rest@ =~= imgs.skip(idx as int + 1));
            }
            let data = load_image_as_tensor_data(img, items[idx].is_train);
            let mut chw = hwc_to_chw(&data, IMAGE_SIZE, IMAGE_SIZE);
            let ghost chw_seq = chw@;
            image_bytes.append(&mut chw);
            targets.push(items[idx].label as i64);
            proof {
                assert(idx * IMAGE_TENSOR_LEN + IMAGE_TENSOR_LEN == (idx + 1) * IMAGE_TENSOR_LEN)
                    by (nonlinear_arith);
                assert forall|i: int|
                    #![trigger items@[i]]
                    0 <= i < idx + 1 && !items@[i].is_train implies image_bytes@.subrange(
                    i * IMAGE_TENSOR_LEN,
                    (i + 1) * IMAGE_TENSOR_LEN,
                ) == chw_of(
                    resized_rgb_of(imgs[i], IMAGE_SIZE as u32, IMAGE_SIZE as u32),
                    IMAGE_SIZE as int,
                    IMAGE_SIZE as int,
                ) by {
                    let l = IMAGE_TENSOR_LEN as int;
                    assert(image_bytes@ == old_bytes + chw_seq);
                    if i < idx {
                        assert(0 <= i * l && (i + 1) * l <= idx * l && (i + 1) * l == i * l + l)
                            by (nonlinear_arith)
                            requires
                                0 <= i,
                                i + 1 <= idx,
                                l >= 0,
                        ;
                        assert(image_bytes@.subrange(i * l, (i + 1) * l) =~= old_bytes.subrange(
                            i * l,
                            (i + 1) * l,
                        ));
                    } else {
                        assert(image_bytes@.subrange(i * l, (i + 1) * l) =~= chw_seq);
                    }
                }
            }
            idx += 1;
        }
        ClassificationBatch { images: image_bytes, targets }
    }
}

} // verus!
