//! Shape calculus of the convolutional classifier.
//!
//! The network is fixed: a strided 3x3 "same" convolution stem into 32
//! channels with a 2x2 max pool, three depthwise-separable blocks
//! (32 -> 64 -> 128 -> 256, a second 2x2 max pool after the middle one),
//! adaptive average pooling to a 4x4 map, and two fully connected layers
//! (4096 -> 512 -> num_classes). The floating-point parameters and the
//! tensor arithmetic live in the compute backend outside this crate; what
//! is verified here is the architecture's shape law: which input shapes
//! the network accepts and the exact output shape it produces for them.

use vstd::prelude::*;
use crate::dataset::IMAGE_SIZE;

verus! {

/// Channels produced by the stem convolution.
pub const STEM_CHANNELS: usize = 32;

/// Side length of the adaptive average pooling output.
pub const POOLED_SIZE: usize = 4;

/// Units of the hidden fully connected layer.
pub const HIDDEN_UNITS: usize = 512;

/// Ceiling division for positive operands: the spatial size a "same"
/// padded convolution of the given stride produces.
pub open spec fn same_conv_out(n: int, stride: int) -> int {
    (n - 1) / stride + 1
}

/// A depthwise 3x3 convolution ("same" padding, one group per channel,
/// the block's stride) followed by a pointwise 1x1 convolution that
/// changes the channel count.
pub struct SeparableConv2d {
    pub in_channels: usize,
    pub out_channels: usize,
    pub stride: usize,
}

impl SeparableConv2d {
    pub fn new(in_channels: usize, out_channels: usize, stride: usize) -> (r: Self)
        requires
            stride >= 1,
        ensures
            r == (SeparableConv2d { in_channels, out_channels, stride }),
    {
        SeparableConv2d { in_channels, out_channels, stride }
    }

    /// Output shape of the block on a (channels, height, width) input:
    /// defined exactly when the channel count matches and the spatial
    /// dimensions are non-empty.
    pub fn forward_shape(&self, channels: usize, height: usize, width: usize) -> (r: Option<
        (usize, usize, usize),
    >)
        requires
            self.stride >= 1,
        ensures
            r is Some <==> channels == self.in_channels && height >= 1 && width >= 1,
            r is Some ==> r == Some(
                (
                    self.out_channels,
                    same_conv_out(height as int, self.stride as int) as usize,
                    same_conv_out(width as int, self.stride as int) as usize,
                ),
            ),
    {
        if channels != self.in_channels || height == 0 || width == 0 {
            return None;
        }
        let out_h = (height - 1) / self.stride + 1;
        let out_w = (width - 1) / self.stride + 1;
        proof {
            assert((height - 1) as int / self.stride as int <= (height - 1) as int)
                by (nonlinear_arith)
                requires
                    self.stride >= 1,
                    height >= 1,
            ;
            assert((width - 1) as int / self.stride as int <= (width - 1) as int)
                by (nonlinear_arith)
                requires
                    self.stride >= 1,
                    width >= 1,
            ;
        }
        Some((self.out_channels, out_h, out_w))
    }
}

/// The fixed classifier architecture, described by its blocks and the
/// number of output classes.
pub struct Cnn {
    pub sep_block1: SeparableConv2d,
    pub sep_block2: SeparableConv2d,
    pub sep_block3: SeparableConv2d,
    pub num_classes: usize,
}

impl Cnn {
    /// The architecture is the fixed one: 32 -> 64 -> 128 -> 256 channel
    /// separable blocks, all of stride 1.
    pub open spec fn wf(self) -> bool {
        &&& self.sep_block1 == (SeparableConv2d { in_channels: 32, out_channels: 64, stride: 1 })
        &&& self.sep_block2 == (SeparableConv2d { in_channels: 64, out_channels: 128, stride: 1 })
        &&& self.sep_block3 == (SeparableConv2d { in_channels: 128, out_channels: 256, stride: 1 })
    }

    pub fn new(num_classes: usize) -> (r: Self)
        ensures
            r.wf(),
            r.num_classes == num_classes,
    {
        Cnn {
            sep_block1: SeparableConv2d::new(32, 64, 1),
            sep_block2: SeparableConv2d::new(64, 128, 1),
            sep_block3: SeparableConv2d::new(128, 256, 1),
            num_classes,
        }
    }

    /// The model's shape law. On a batch shaped [batch, channels, height,
    /// width] the forward pass is defined exactly when the batch is
    /// non-empty, the input has three channels, and both spatial sizes are
    /// at least 7 (so that both max pools see at least two rows and
    /// columns); it then produces logits shaped [batch, num_classes]. In
    /// particular every batch of N >= 1 images at the configured square
    /// resolution maps to [N, num_classes].
    pub fn forward_shape(&self, batch: usize, channels: usize, height: usize, width: usize) -> (r:
        Option<(usize, usize)>)
        requires
            self.wf(),
        ensures
            r is Some <==> batch >= 1 && channels == 3 && height >= 7 && width >= 7,
            r is Some ==> r == Some((batch, self.num_classes)),
            batch >= 1 && channels == 3 && height == IMAGE_SIZE && width == IMAGE_SIZE ==> r
                == Some((batch, self.num_classes)),
    {
        if batch == 0 || channels != 3 || height == 0 || width == 0 {
            return None;
        }
        // Stem: 3x3 convolution, stride 2, "same" padding.
        let h1 = (height - 1) / 2 + 1;
        let w1 = (width - 1) / 2 + 1;
        // Stem max pool: 2x2, stride 2, needs at least a 2x2 input.
        if h1 < 2 || w1 < 2 {
            return None;
        }
        let h2 = h1 / 2;
        let w2 = w1 / 2;
        // Three separable blocks of stride 1 keep the spatial size; the
        // 2x2 max pool after the second block needs a 2x2 input.
        let after1 = self.sep_block1.forward_shape(STEM_CHANNELS, h2, w2);
        match after1 {
            None => None,
            Some((c1, bh1, bw1)) => {
                match self.sep_block2.forward_shape(c1, bh1, bw1) {
                    None => None,
                    Some((c2, bh2, bw2)) => {
                        if bh2 < 2 || bw2 < 2 {
                            return None;
                        }
                        let h3 = bh2 / 2;
                        let w3 = bw2 / 2;
                        match self.sep_block3.forward_shape(c2, h3, w3) {
                            None => None,
                            Some((_c3, _bh3, _bw3)) => {
                                // Adaptive average pooling to POOLED_SIZE x
                                // POOLED_SIZE, flatten, and the two fully
                                // connected layers end at num_classes.
                                Some((batch, self.num_classes))
                            },
                        }
                    },
                }
            },
        }
    }
}

} // verus!
