//! Aspect-ratio correction for the camera transform.
//!
//! Rendering divides normalized device coordinates component-wise by the
//! vector `(min(w, h) / w, min(w, h) / h)` so circles stay circular on a
//! non-square viewport. This module keeps that vector as exact integer
//! ratios; the conversion to the GPU's floating-point uniform happens
//! outside the library.

use vstd::prelude::*;

verus! {

/// The aspect-ratio correction vector for a `width` x `height` viewport,
/// as exact ratios: the x component is `min_dim / width`, the y component
/// `min_dim / height`.
#[derive(Debug, Copy, Clone, Eq, PartialEq, Structural)]
pub struct AspectCorrection {
    pub min_dim: u32,
    pub width: u32,
    pub height: u32,
}

pub open spec fn aspect_correction_spec(width: u32, height: u32) -> AspectCorrection {
    AspectCorrection {
        min_dim: if width <= height {
            width
        } else {
            height
        },
        width,
        height,
    }
}

/// Both components of the correction vector are exactly one.
pub open spec fn is_identity(c: AspectCorrection) -> bool {
    c.min_dim == c.width && c.min_dim == c.height
}

/// Recomputed on every viewport resize.
pub fn aspect_correction(width: u32, height: u32) -> (c: AspectCorrection)
    ensures
        c == aspect_correction_spec(width, height),
        c.min_dim <= c.width,
        c.min_dim <= c.height,
{
    let min_dim = if width <= height {
        width
    } else {
        height
    };
    AspectCorrection { min_dim, width, height }
}

/// Aspect correction law: a square viewport needs no correction; its
/// correction vector is exactly `(1, 1)`.
pub proof fn lemma_square_viewport_identity(width: u32, height: u32)
    requires
        width == height,
    ensures
        is_identity(aspect_correction_spec(width, height)),
{
}

} // verus!
