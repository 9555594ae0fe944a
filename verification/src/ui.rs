use vstd::prelude::*;

use crate::element::Element;
use crate::position::{Padding, Scalar, MAX_SCALAR};
use crate::split::State;
use crate::theme::{theme_wf, Theme};

verus! {

/// Identifier of a canvas region, unique per tree and stable across frames.
pub type CanvasId = usize;

/// The kind of widget a stored region belongs to.
#[derive(Clone, Copy, Debug, PartialEq, Eq, Structural)]
pub enum Kind {
    Split(State),
}

/// The record produced for one split: its final centre position, the area
/// and centre offered to widgets placed inside it, its resolved padding, and
/// its drawable element.
#[derive(Clone, Copy, Debug, PartialEq)]
pub struct ResolvedRegion {
    pub id: CanvasId,
    pub kind: Kind,
    pub xy: (Scalar, Scalar),
    pub widget_area_xy: (Scalar, Scalar),
    pub widget_area_dim: (Scalar, Scalar),
    pub padding: Padding,
    pub maybe_element: Option<Element>,
}

/// The host state a resolution pass works against: the window extents that
/// seed the root allocation, the read-only theme, and the region store the
/// pass appends to.
///
/// The store is an append-only log; a later entry for an identifier
/// supersedes an earlier one, which is how frame-to-frame updates work.
#[derive(Clone, Debug)]
pub struct Ui {
    pub win_w: Scalar,
    pub win_h: Scalar,
    pub theme: Theme,
    pub regions: Vec<ResolvedRegion>,
}

/// The entry a lookup by identifier returns: the last region recorded under
/// `id`, if any.
pub open spec fn last_region(regions: Seq<ResolvedRegion>, id: CanvasId) -> Option<ResolvedRegion>
    decreases regions.len(),
{
    if regions.len() == 0 {
        None
    } else if regions.last().id == id {
        Some(regions.last())
    } else {
        last_region(regions.drop_last(), id)
    }
}

impl Ui {
    /// Construct a host state with the given window extents and theme and an
    /// empty region store.
    pub fn new(win_w: Scalar, win_h: Scalar, theme: Theme) -> (ui: Ui)
        ensures
            ui.win_w == win_w,
            ui.win_h == win_h,
            ui.theme == theme,
            ui.regions@ == Seq::<ResolvedRegion>::empty(),
    {
        Ui { win_w, win_h, theme, regions: Vec::new() }
    }

    /// Look up the region most recently recorded under `id`.
    pub fn canvas(&self, id: CanvasId) -> (r: Option<&ResolvedRegion>)
        ensures
            match r {
                Some(region) => last_region(self.regions@, id) == Some(*region),
                None => last_region(self.regions@, id) is None,
            },
    {
        let mut i: usize = self.regions.len();
        proof {
            assert(self.regions@.take(i as int) =~= self.regions@);
        }
        while i > 0
            invariant
                i <= self.regions.len(),
                last_region(self.regions@, id) == last_region(self.regions@.take(i as int), id),
            decreases i,
        {
            i = i - 1;
            if self.regions[i].id == id {
                proof {
                    assert(self.regions@.take(i as int + 1).last() == self.regions@[i as int]);
                }
                return Some(&self.regions[i]);
            }
            proof {
                assert(self.regions@.take(i as int + 1).drop_last() =~= self.regions@.take(
                    i as int,
                ));
            }
        }
        proof {
            assert(self.regions@.take(0) =~= Seq::<ResolvedRegion>::empty());
        }
        None
    }
}

/// Record `region` for its identifier: append it to the store, superseding
/// any earlier entry with the same identifier.
pub fn update_canvas(
    ui: &mut Ui,
    id: CanvasId,
    kind: Kind,
    xy: (Scalar, Scalar),
    widget_area_xy: (Scalar, Scalar),
    widget_area_dim: (Scalar, Scalar),
    padding: Padding,
    maybe_element: Option<Element>,
) -> (nothing: ())
    ensures
        final(ui).regions@ == old(ui).regions@.push(
            ResolvedRegion { id, kind, xy, widget_area_xy, widget_area_dim, padding, maybe_element },
        ),
        final(ui).win_w == old(ui).win_w,
        final(ui).win_h == old(ui).win_h,
        final(ui).theme == old(ui).theme,
{
    ui.regions.push(
        ResolvedRegion { id, kind, xy, widget_area_xy, widget_area_dim, padding, maybe_element },
    );
}

/// A host state accepts a resolution pass when its theme is well formed and
/// its window extents are scalars in range.
pub open spec fn ui_wf(ui: Ui) -> bool {
    &&& theme_wf(ui.theme)
    &&& 0 <= ui.win_w <= MAX_SCALAR
    &&& 0 <= ui.win_h <= MAX_SCALAR
}

} // verus!
