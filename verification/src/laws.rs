use vstd::prelude::*;

use crate::position::{Direction, Scalar, MAX_SCALAR, POS_LIMIT};
use crate::split::{
    child_alloc, fallback, flexible_length, flow_extent, frame_dim_of, margin_dim, num_not_stuck,
    pad_dim_of, resolve_node, spec_frame, spec_margin, split_wf, stuck_length, Split,
};
use crate::theme::{theme_wf, Theme};
use crate::ui::ResolvedRegion;
use vstd::arithmetic::div_mod::lemma_fundamental_div_mod;
use vstd::math::abs;

verus! {

/// A split with no children resolves to exactly one region, and that
/// region's widget area dimensions equal the allocated dimensions minus the
/// resolved margin on each axis, whatever else the split carries.
pub proof fn lemma_leaf_single_region(s: Split, dim: (int, int), xy: (int, int), theme: Theme)
    requires
        s.maybe_splits is None,
        split_wf(s),
        theme_wf(theme),
        0 <= dim.0 <= MAX_SCALAR as int,
        0 <= dim.1 <= MAX_SCALAR as int,
        abs(xy.0) <= POS_LIMIT as int,
        abs(xy.1) <= POS_LIMIT as int,
    ensures
        resolve_node(s, dim, xy, theme).len() == 1,
        resolve_node(s, dim, xy, theme)[0].id == s.id,
        resolve_node(s, dim, xy, theme)[0].widget_area_dim.0 as int == dim.0 - (spec_margin(
            s.style,
            theme,
        ).left + spec_margin(s.style, theme).right),
        resolve_node(s, dim, xy, theme)[0].widget_area_dim.1 as int == dim.1 - (spec_margin(
            s.style,
            theme,
        ).top + spec_margin(s.style, theme).bottom),
        resolve_node(s, dim, xy, theme)[0].maybe_element is Some,
        resolve_node(s, dim, xy, theme)[0].maybe_element->0.frame_form.width == resolve_node(
            s,
            dim,
            xy,
            theme,
        )[0].widget_area_dim.0,
        resolve_node(s, dim, xy, theme)[0].maybe_element->0.inner_form.width as int == resolve_node(
            s,
            dim,
            xy,
            theme,
        )[0].widget_area_dim.0 - 2 * spec_frame(s.style, theme),
{
    assert(Seq::<ResolvedRegion>::empty() + resolve_node(s, dim, xy, theme) =~= resolve_node(
        s,
        dim,
        xy,
        theme,
    ));
}

/// A pass records a node's own region after all the regions of its subtree,
/// so in the append-only store the node's latest entry is the one a lookup
/// by its identifier finds.
pub proof fn lemma_node_region_is_last(s: Split, dim: (int, int), xy: (int, int), theme: Theme)
    ensures
        resolve_node(s, dim, xy, theme).len() >= 1,
        resolve_node(s, dim, xy, theme).last().id == s.id,
{
}

/// The total flow-axis length allocated to the children `splits[i..]` of a
/// split flowing in `dir`.
pub open spec fn total_allocated(
    splits: Seq<Split>,
    i: int,
    dir: Direction,
    avail: (int, int),
    stuck: int,
    k: int,
) -> int
    decreases splits.len() - i,
{
    if 0 <= i < splits.len() {
        flow_extent(child_alloc(splits[i], dir, avail, stuck, k), dir) + total_allocated(
            splits,
            i + 1,
            dir,
            avail,
            stuck,
            k,
        )
    } else {
        0
    }
}

/// The allocated flow lengths decompose into the fixed lengths plus one
/// flexible share per flexible child.
pub proof fn lemma_total_allocated(
    splits: Seq<Split>,
    i: int,
    dir: Direction,
    avail: (int, int),
    stuck: int,
    k: int,
)
    requires
        0 <= i <= splits.len(),
    ensures
        total_allocated(splits, i, dir, avail, stuck, k) == stuck_length(splits, i)
            + num_not_stuck(splits, i) * flexible_length(flow_extent(avail, dir), stuck, k),
    decreases splits.len() - i,
{
    if i < splits.len() {
        lemma_total_allocated(splits, i + 1, dir, avail, stuck, k);
        let share = flexible_length(flow_extent(avail, dir), stuck, k);
        assert((num_not_stuck(splits, i + 1) + 1) * share == num_not_stuck(splits, i + 1) * share
            + share) by (nonlinear_arith);
    }
}

/// Conservation of space: when the padded flow-axis extent covers the fixed
/// lengths, at least one child is flexible, and the remainder divides evenly
/// among the flexible children, the allocated flow lengths sum to exactly
/// that extent.
pub proof fn lemma_space_conservation(splits: Seq<Split>, dir: Direction, avail: (int, int))
    requires
        num_not_stuck(splits, 0) >= 1,
        stuck_length(splits, 0) <= flow_extent(avail, dir),
        (flow_extent(avail, dir) - stuck_length(splits, 0)) % num_not_stuck(splits, 0) == 0,
    ensures
        total_allocated(
            splits,
            0,
            dir,
            avail,
            stuck_length(splits, 0),
            num_not_stuck(splits, 0),
        ) == flow_extent(avail, dir),
{
    let extent = flow_extent(avail, dir);
    let stuck = stuck_length(splits, 0);
    let k = num_not_stuck(splits, 0);
    lemma_total_allocated(splits, 0, dir, avail, stuck, k);
    if extent - stuck > 0 {
        lemma_fundamental_div_mod(extent - stuck, k);
        assert(k * ((extent - stuck) / k) == extent - stuck);
    } else {
        assert(flexible_length(extent, stuck, k) == 0);
        assert(k * 0 == 0) by (nonlinear_arith);
    }
}

/// The count of flexible children is never negative.
pub proof fn lemma_num_not_stuck_nonneg(splits: Seq<Split>, i: int)
    ensures
        num_not_stuck(splits, i) >= 0,
    decreases splits.len() - i,
{
    if 0 <= i < splits.len() {
        lemma_num_not_stuck_nonneg(splits, i + 1);
    }
}

/// With no flexible sibling, no implicit adjustment occurs: every child has
/// a fixed length, and its allocated flow-axis length is exactly that
/// length.
pub proof fn lemma_fixed_children_exact(
    splits: Seq<Split>,
    j: int,
    i: int,
    dir: Direction,
    avail: (int, int),
    stuck: int,
)
    requires
        num_not_stuck(splits, j) == 0,
        0 <= j <= i < splits.len(),
    ensures
        splits[i].maybe_length is Some,
        flow_extent(child_alloc(splits[i], dir, avail, stuck, 0), dir) == splits[i].maybe_length->0,
    decreases i - j,
{
    lemma_num_not_stuck_nonneg(splits, j + 1);
    if j < i {
        lemma_fixed_children_exact(splits, j + 1, i, dir, avail, stuck);
    }
}

/// Style resolution is monotonic in specificity: a set local override always
/// wins; failing that, a set per-kind theme entry wins; only when both are
/// unset does the global theme default apply.
pub proof fn lemma_style_specificity<V>(local: Option<V>, kind_entry: Option<Option<V>>, global: V)
    ensures
        local matches Some(v) ==> fallback(local, kind_entry, global) == v,
        local is None ==> (kind_entry matches Some(entry) ==> (entry matches Some(v) ==> fallback(
            local,
            kind_entry,
            global,
        ) == v)),
        (local is None && kind_entry is None) ==> fallback(local, kind_entry, global) == global,
        local is None ==> (kind_entry matches Some(entry2) ==> (entry2 is None ==> fallback(
            local,
            kind_entry,
            global,
        ) == global)),
{
}

/// Margin, frame and padding compose in a fixed order, each consuming the
/// dimension left by the previous one: with symmetric insets `m`, `f` and
/// `p`, the padded content dimension is the outer dimension minus `2m`,
/// `2f` and `2p` on each axis.  The composition is a pure function of the
/// allocated dimension, independent of traversal order.
pub proof fn lemma_inset_composition(dim: (int, int), m: Scalar, f: Scalar, p: Scalar)
    ensures
        pad_dim_of(
            frame_dim_of(
                margin_dim(
                    dim,
                    (crate::position::Margin { top: m, bottom: m, left: m, right: m }),
                ),
                f as int,
            ),
            (crate::position::Padding { top: p, bottom: p, left: p, right: p }),
        ) == ((dim.0 - 2 * m - 2 * f - 2 * p, dim.1 - 2 * m - 2 * f - 2 * p)),
{
}

/// One resolution pass is deterministic and blind to the store's existing
/// contents: the regions it appends are a function of the split tree, the
/// seed allocation and the theme alone.  Two passes on identical inputs
/// therefore append bit-identical region sequences, whatever each store
/// already held.
pub proof fn lemma_resolve_idempotent(
    s: Split,
    dim: (int, int),
    xy: (int, int),
    theme: Theme,
    store1: Seq<ResolvedRegion>,
    store2: Seq<ResolvedRegion>,
)
    ensures
        (store1 + resolve_node(s, dim, xy, theme)).skip(store1.len() as int) == (store2
            + resolve_node(s, dim, xy, theme)).skip(store2.len() as int),
{
    assert((store1 + resolve_node(s, dim, xy, theme)).skip(store1.len() as int) =~= resolve_node(
        s,
        dim,
        xy,
        theme,
    ));
    assert((store2 + resolve_node(s, dim, xy, theme)).skip(store2.len() as int) =~= resolve_node(
        s,
        dim,
        xy,
        theme,
    ));
}

} // verus!
