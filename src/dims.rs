//! The shape of one convolution layer and the clamp bound of its ReLU.
use vstd::prelude::*;

verus! {

/// Why a layer or its public output was refused.
#[derive(Clone, Copy, Debug, PartialEq, Eq, Structural)]
pub enum ConfigError {
    /// The kernel has no column or no row.
    EmptyKernel,
    /// The kernel has more columns than the image.
    KernelTooWide,
    /// The kernel has more rows than the image.
    KernelTooTall,
    /// The public output does not have `out_w` columns of `out_h` rows.
    ShapeMismatch,
}

/// Image and kernel sizes (columns by rows) and the largest value that the
/// ReLU passes through. The clamp compares canonical integers, which only
/// makes sense for values far below the field's modulus; a `u64` bound is
/// below `2^64`, and the modulus is above `2^254`.
#[derive(Clone, Copy, Debug, PartialEq, Eq, Structural)]
pub struct Dims {
    pub image_w: usize,
    pub image_h: usize,
    pub kernel_w: usize,
    pub kernel_h: usize,
    pub relu_bound: u64,
}

impl Dims {
    /// Both kernel sides are positive and fit inside the image.
    pub open spec fn wf(self) -> bool {
        &&& 0 < self.kernel_w <= self.image_w
        &&& 0 < self.kernel_h <= self.image_h
    }

    pub open spec fn spec_out_w(self) -> nat {
        (self.image_w - self.kernel_w + 1) as nat
    }

    pub open spec fn spec_out_h(self) -> nat {
        (self.image_h - self.kernel_h + 1) as nat
    }

    /// Checks the sizes; the error names the first rule that is broken,
    /// in the order empty kernel, width, height.
    pub fn new(
        image_w: usize,
        image_h: usize,
        kernel_w: usize,
        kernel_h: usize,
        relu_bound: u64,
    ) -> (r: Result<Dims, ConfigError>)
        ensures
            (kernel_w == 0 || kernel_h == 0) ==> r == Err::<Dims, ConfigError>(ConfigError::EmptyKernel),
            (kernel_w > 0 && kernel_h > 0 && kernel_w > image_w) ==> r == Err::<Dims, ConfigError>(ConfigError::KernelTooWide),
            (kernel_w > 0 && kernel_h > 0 && kernel_w <= image_w && kernel_h > image_h) ==> r
                == Err::<Dims, ConfigError>(ConfigError::KernelTooTall),
            (0 < kernel_w <= image_w && 0 < kernel_h <= image_h) ==> r == Ok::<Dims, ConfigError>(
                (Dims { image_w, image_h, kernel_w, kernel_h, relu_bound }),
            ),
    {
        if kernel_w == 0 || kernel_h == 0 {
            Err(ConfigError::EmptyKernel)
        } else if kernel_w > image_w {
            Err(ConfigError::KernelTooWide)
        } else if kernel_h > image_h {
            Err(ConfigError::KernelTooTall)
        } else {
            Ok(Dims { image_w, image_h, kernel_w, kernel_h, relu_bound })
        }
    }

    /// Number of output columns, `image_w - kernel_w + 1`.
    pub fn out_w(&self) -> (r: usize)
        requires
            self.wf(),
        ensures
            r == self.spec_out_w(),
    {
        self.image_w - self.kernel_w + 1
    }

    /// Number of output rows, `image_h - kernel_h + 1`.
    pub fn out_h(&self) -> (r: usize)
        requires
            self.wf(),
        ensures
            r == self.spec_out_h(),
    {
        self.image_h - self.kernel_h + 1
    }
}

} // verus!
