use vstd::prelude::*;

verus! {

/// The scalar type of all lengths and positions.
///
/// Geometry is integral: every length, offset and centre coordinate is a
/// whole number of layout units, and divisions (flexible shares, half
/// extents) truncate toward zero on the non-negative values they are applied
/// to.
pub type Scalar = i64;

/// Largest magnitude accepted for a single style or length value
/// (a padding, margin or frame width, a fixed length, a window extent).
pub const MAX_SCALAR: i64 = 1_000_000;

/// Largest number of nodes accepted in one split tree.
pub const MAX_NODES: usize = 1_000_000;

/// Bound within which every computed centre coordinate stays during a
/// resolution pass; chosen so that `MAX_NODES` nodes of `MAX_SCALAR`-bounded
/// values can never overflow `i64` arithmetic.
pub const POS_LIMIT: i64 = 1_000_000_000_000_000;

/// The flow axis and sign convention along which the children of a split are
/// laid out.
#[derive(Clone, Copy, Debug, PartialEq, Eq, Structural)]
pub enum Direction {
    Up,
    Down,
    Left,
    Right,
}

/// Resolved padding: the inset between the inner edge of a region's frame and
/// its content area, one concrete value per edge.
#[derive(Clone, Copy, Debug, PartialEq, Eq, Structural)]
pub struct Padding {
    pub top: Scalar,
    pub bottom: Scalar,
    pub left: Scalar,
    pub right: Scalar,
}

/// Resolved margin: the inset between a region's allocated outer edge and the
/// outer edge of its frame, one concrete value per edge.
#[derive(Clone, Copy, Debug, PartialEq, Eq, Structural)]
pub struct Margin {
    pub top: Scalar,
    pub bottom: Scalar,
    pub left: Scalar,
    pub right: Scalar,
}

} // verus!
