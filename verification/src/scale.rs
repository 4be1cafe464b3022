//! From the size of a scene and the size of its target to the plan of a render:
//! the scale along each axis and the length of the pixel buffer.
//!
//! Lengths of a scene are real numbers. They are kept here as the bit patterns
//! of IEEE 754 binary32 numbers, so that every question asked of them is one
//! about integers.

use vstd::prelude::*;
use crate::error::TransformError;

verus! {

/// The bit pattern of positive infinity. The patterns of the positive finite
/// numbers other than zero are those strictly between zero and this one.
pub const POSITIVE_INFINITY_BITS: u32 = 0x7F80_0000;

/// The largest width or height of a target. Five times a side of the target
/// must fit in an `i32`, which the rasterizer needs for its clipping box.
pub const MAX_DIMENSION: u32 = 429_496_729;

/// Bytes of one pixel: red, green, blue and alpha, eight bits each.
pub const BYTES_PER_PIXEL: usize = 4;

/// The sign bit of a binary32 pattern.
pub open spec fn sign_bit(bits: u32) -> bool {
    bits & 0x8000_0000 != 0
}

/// The eight bits of a binary32 pattern that hold the biased exponent.
pub open spec fn exponent_field(bits: u32) -> u32 {
    (bits >> 23) & 0xFF
}

/// The twenty-three bits of a binary32 pattern that hold the fraction.
pub open spec fn fraction_field(bits: u32) -> u32 {
    bits & 0x007F_FFFF
}

/// Whether a binary32 pattern stands for a number that is greater than zero
/// and finite.
pub open spec fn is_positive_finite(bits: u32) -> bool {
    0 < bits < POSITIVE_INFINITY_BITS
}

/// A pattern is positive and finite exactly when its sign bit is clear, its
/// exponent is not the one kept for infinities and NaNs, and it is not zero.
pub proof fn lemma_positive_finite_by_fields(bits: u32)
    ensures
        is_positive_finite(bits) <==> {
            &&& !sign_bit(bits)
            &&& exponent_field(bits) != 0xFF
            &&& !(exponent_field(bits) == 0 && fraction_field(bits) == 0)
        },
{
    assert((0 < bits && bits < 0x7F80_0000u32) <==> (bits & 0x8000_0000 == 0 && (bits >> 23) & 0xFF
        != 0xFF && !((bits >> 23) & 0xFF == 0 && bits & 0x007F_FFFF == 0))) by (bit_vector);
}

/// The intrinsic size of a scene, in source units.
#[derive(Clone, Copy, Debug, PartialEq, Eq, Structural)]
pub struct SourceSize {
    /// The width, as a binary32 pattern.
    pub width_bits: u32,
    /// The height, as a binary32 pattern.
    pub height_bits: u32,
}

impl SourceSize {
    /// A size is degenerate unless both its width and its height are positive
    /// and finite: zero, negative numbers, infinities and NaNs all are.
    pub open spec fn is_degenerate(self) -> bool {
        !is_positive_finite(self.width_bits) || !is_positive_finite(self.height_bits)
    }

    /// Tells whether no scale can be had from this size.
    pub fn degenerate(&self) -> (d: bool)
        ensures
            d == self.is_degenerate(),
    {
        !(0 < self.width_bits && self.width_bits < POSITIVE_INFINITY_BITS) || !(0
            < self.height_bits && self.height_bits < POSITIVE_INFINITY_BITS)
    }
}

/// The scale along one axis: the exact ratio of a target length in pixels to a
/// source length. It is kept as its two terms, since the quotient of the two is
/// in general no binary32 number.
#[derive(Clone, Copy, Debug, PartialEq, Eq, Structural)]
pub struct ScaleFactor {
    /// The dividend: a side of the target, in pixels.
    pub target: u32,
    /// The divisor: a side of the scene, as a binary32 pattern.
    pub source_bits: u32,
}

/// What the transformer has settled before it rasterizes.
#[derive(Clone, Copy, Debug, PartialEq, Eq, Structural)]
pub struct RenderPlan {
    /// Width of the target, in pixels.
    pub width: u32,
    /// Height of the target, in pixels.
    pub height: u32,
    /// Length of the pixel buffer, in bytes.
    pub buffer_len: usize,
    /// The horizontal scale.
    pub scale_x: ScaleFactor,
    /// The vertical scale, which need not be the horizontal one.
    pub scale_y: ScaleFactor,
}

/// The bytes that the pixels of a target take.
pub open spec fn buffer_bytes(width: u32, height: u32) -> int {
    width * height * BYTES_PER_PIXEL
}

/// Whether a pixel buffer can be had for a target: neither side is zero or
/// above [`MAX_DIMENSION`], and the bytes can be addressed as one allocation.
pub open spec fn target_fits(width: u32, height: u32) -> bool {
    &&& 0 < width <= MAX_DIMENSION
    &&& 0 < height <= MAX_DIMENSION
    &&& buffer_bytes(width, height) <= isize::MAX
}

/// The plan for a scene of size `source` and a target of `target` pixels.
pub open spec fn planned(source: SourceSize, target: (u32, u32)) -> Result<
    RenderPlan,
    TransformError,
> {
    if source.is_degenerate() {
        Err(TransformError::DegenerateSource)
    } else if !target_fits(target.0, target.1) {
        Err(TransformError::Allocation)
    } else {
        Ok(
            RenderPlan {
                width: target.0,
                height: target.1,
                buffer_len: buffer_bytes(target.0, target.1) as usize,
                scale_x: ScaleFactor { target: target.0, source_bits: source.width_bits },
                scale_y: ScaleFactor { target: target.1, source_bits: source.height_bits },
            },
        )
    }
}

/// The product of two sides within [`MAX_DIMENSION`], times four, stays below
/// two to the power of sixty.
proof fn lemma_buffer_bytes_bounded(width: u32, height: u32)
    requires
        width <= MAX_DIMENSION,
        height <= MAX_DIMENSION,
    ensures
        0 <= buffer_bytes(width, height) <= 4 * MAX_DIMENSION * MAX_DIMENSION,
        4 * MAX_DIMENSION * MAX_DIMENSION < 0x1000_0000_0000_0000,
{
    assert(0 <= width * height <= MAX_DIMENSION * MAX_DIMENSION) by (nonlinear_arith)
        requires
            0 <= width <= MAX_DIMENSION,
            0 <= height <= MAX_DIMENSION,
    ;
}

/// Settles the geometry of a render: checks the scene's size, then the
/// target's, and gives the scale and the length of the pixel buffer.
pub fn plan_render(source: SourceSize, target: (u32, u32)) -> (plan: Result<
    RenderPlan,
    TransformError,
>)
    ensures
        plan == planned(source, target),
{
    if source.degenerate() {
        return Err(TransformError::DegenerateSource);
    }
    let (width, height) = target;
    if width == 0 || height == 0 || width > MAX_DIMENSION || height > MAX_DIMENSION {
        return Err(TransformError::Allocation);
    }
    proof {
        lemma_buffer_bytes_bounded(width, height);
    }
    let bytes: u64 = (width as u64) * (height as u64) * 4;
    if bytes > isize::MAX as u64 {
        return Err(TransformError::Allocation);
    }
    Ok(
        RenderPlan {
            width,
            height,
            buffer_len: bytes as usize,
            scale_x: ScaleFactor { target: width, source_bits: source.width_bits },
            scale_y: ScaleFactor { target: height, source_bits: source.height_bits },
        },
    )
}

} // verus!
