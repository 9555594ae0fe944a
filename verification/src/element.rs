use vstd::prelude::*;

use crate::color::Color;
use crate::position::Scalar;

verus! {

/// One drawable primitive: a filled rectangle of the given extents whose
/// centre sits at `(x, y)` in absolute coordinates.
#[derive(Clone, Copy, Debug, PartialEq)]
pub struct Form {
    pub width: Scalar,
    pub height: Scalar,
    pub color: Color,
    pub x: Scalar,
    pub y: Scalar,
}

/// The drawable element of one resolved region: a frame-colored background
/// rectangle with an inner-colored rectangle layered above it, both centred
/// at the region's final position.
#[derive(Clone, Copy, Debug, PartialEq)]
pub struct Element {
    pub width: Scalar,
    pub height: Scalar,
    pub frame_form: Form,
    pub inner_form: Form,
}

} // verus!
