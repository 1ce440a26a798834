//! Sizes and rectangles: the surface's backing buffer, its place in the host
//! document, and the test that decides whether document points can be mapped
//! into the buffer at all.

use crate::error::AppError;
use crate::scalar::Scalar;
use vstd::prelude::*;

verus! {

/// The size of a drawing surface's backing buffer, in pixels.
#[derive(Clone, Copy, Debug, PartialEq, Eq, Structural)]
pub struct BufferSize {
    pub width: u32,
    pub height: u32,
}

/// The rectangle that the surface takes up in the host document.
#[derive(Clone, Copy, Debug)]
pub struct LayoutRect {
    pub left: Scalar,
    pub top: Scalar,
    pub width: Scalar,
    pub height: Scalar,
}

impl LayoutRect {
    /// Whether the rectangle has no width or no height. The scale from
    /// document space to buffer space divides by both.
    pub open spec fn spec_is_degenerate(self) -> bool {
        self.width.spec_is_zero() || self.height.spec_is_zero()
    }

    /// The size of the rectangle in whole pixels: width and height, each
    /// rounded to the nearest whole number.
    pub open spec fn spec_pixel_size(self) -> BufferSize {
        BufferSize {
            width: self.width.spec_round_to_u32(),
            height: self.height.spec_round_to_u32(),
        }
    }

    /// The size of the rectangle in whole pixels.
    #[verifier::when_used_as_spec(spec_pixel_size)]
    pub fn pixel_size(self) -> (size: BufferSize)
        ensures
            size == self.spec_pixel_size(),
    {
        BufferSize { width: self.width.round_to_u32(), height: self.height.round_to_u32() }
    }

    /// Whether the rectangle has no width or no height.
    #[verifier::when_used_as_spec(spec_is_degenerate)]
    pub fn is_degenerate(self) -> (degenerate: bool)
        ensures
            degenerate == self.spec_is_degenerate(),
    {
        self.width.is_zero() || self.height.is_zero()
    }
}

/// The transform from document space to buffer space: a point `(px, py)` of
/// the document lies at `((px - left) * (buffer.width / width), (py - top) *
/// (buffer.height / height))` in the buffer. A mapper exists only for a
/// rectangle with a width and a height, so both quotients are defined. The
/// engine carries positions by their encoding and does no arithmetic on
/// them: whoever holds a mapper applies the transform to the numbers.
#[derive(Clone, Copy, Debug)]
pub struct CoordinateMapper {
    rect: LayoutRect,
    buffer: BufferSize,
}

impl CoordinateMapper {
    /// The rectangle that the surface takes up in the document.
    pub closed spec fn spec_rect(self) -> LayoutRect {
        self.rect
    }

    /// The size of the buffer that points are mapped into.
    pub closed spec fn spec_buffer(self) -> BufferSize {
        self.buffer
    }

    #[verifier::type_invariant]
    spec fn well_formed(self) -> bool {
        !self.rect.spec_is_degenerate()
    }

    /// The mapper for a surface laid out at `rect` with a buffer of size
    /// `buffer`, or `DegenerateLayout` where `rect` has no width or no
    /// height.
    pub fn new(rect: LayoutRect, buffer: BufferSize) -> (mapper: Result<CoordinateMapper, AppError>)
        ensures
            rect.spec_is_degenerate() ==> mapper == Err::<CoordinateMapper, AppError>(
                AppError::DegenerateLayout,
            ),
            !rect.spec_is_degenerate() ==> mapper is Ok && mapper->Ok_0.spec_rect() == rect
                && mapper->Ok_0.spec_buffer() == buffer,
    {
        if rect.is_degenerate() {
            Err(AppError::DegenerateLayout)
        } else {
            Ok(CoordinateMapper { rect, buffer })
        }
    }

    /// The rectangle that the surface takes up in the document. It has a
    /// width and a height.
    #[verifier::when_used_as_spec(spec_rect)]
    pub fn rect(self) -> (rect: LayoutRect)
        ensures
            rect == self.spec_rect(),
            !rect.spec_is_degenerate(),
    {
        proof {
            use_type_invariant(&self);
        }
        self.rect
    }

    /// The size of the buffer that points are mapped into.
    #[verifier::when_used_as_spec(spec_buffer)]
    pub fn buffer(self) -> (buffer: BufferSize)
        ensures
            buffer == self.spec_buffer(),
    {
        self.buffer
    }
}

} // verus!
