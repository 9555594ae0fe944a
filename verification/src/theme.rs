use vstd::prelude::*;

use crate::color::Color;
use crate::position::{Margin, Padding, Scalar, MAX_SCALAR};
use crate::split::Style;

verus! {

/// Global style defaults for a resolution pass, plus an optional per-kind
/// override bundle for canvas splits.
///
/// Every global default is a concrete value, so style resolution is total:
/// whatever a node and the per-kind bundle leave unset falls through to the
/// fields here.
#[derive(Clone, Debug, PartialEq)]
pub struct Theme {
    pub background_color: Color,
    pub frame_width: Scalar,
    pub frame_color: Color,
    pub padding: Padding,
    pub margin: Margin,
    pub maybe_canvas_split: Option<Style>,
}

/// A theme is well formed when each of its scalar values lies in
/// `[0, MAX_SCALAR]`, in the global defaults as well as in whatever the
/// per-kind bundle sets.
pub open spec fn theme_wf(t: Theme) -> bool {
    &&& 0 <= t.frame_width <= MAX_SCALAR
    &&& 0 <= t.padding.top <= MAX_SCALAR
    &&& 0 <= t.padding.bottom <= MAX_SCALAR
    &&& 0 <= t.padding.left <= MAX_SCALAR
    &&& 0 <= t.padding.right <= MAX_SCALAR
    &&& 0 <= t.margin.top <= MAX_SCALAR
    &&& 0 <= t.margin.bottom <= MAX_SCALAR
    &&& 0 <= t.margin.left <= MAX_SCALAR
    &&& 0 <= t.margin.right <= MAX_SCALAR
    &&& match t.maybe_canvas_split {
        Some(style) => crate::split::style_wf(style),
        None => true,
    }
}

impl Theme {
    /// Construct a theme whose defaults are all zero insets, a zero-width
    /// frame, and opaque black for both colors, with no per-kind overrides.
    pub fn new() -> (t: Theme)
        ensures
            t == (Theme {
                background_color: Color { red: 0, green: 0, blue: 0, alpha: 255 },
                frame_width: 0,
                frame_color: Color { red: 0, green: 0, blue: 0, alpha: 255 },
                padding: Padding { top: 0, bottom: 0, left: 0, right: 0 },
                margin: Margin { top: 0, bottom: 0, left: 0, right: 0 },
                maybe_canvas_split: None::<Style>,
            }),
            theme_wf(t),
    {
        Theme {
            background_color: Color::black(),
            frame_width: 0,
            frame_color: Color::black(),
            padding: Padding { top: 0, bottom: 0, left: 0, right: 0 },
            margin: Margin { top: 0, bottom: 0, left: 0, right: 0 },
            maybe_canvas_split: None,
        }
    }
}

} // verus!
