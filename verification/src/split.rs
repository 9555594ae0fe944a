use vstd::prelude::*;

use crate::color::Color;
use crate::element::{Element, Form};
use crate::position::{Direction, Scalar, MAX_NODES, MAX_SCALAR, POS_LIMIT};
use vstd::math::abs;
use crate::theme::{theme_wf, Theme};
use crate::ui::{update_canvas, CanvasId, Kind, ResolvedRegion, Ui};

verus! {

broadcast use {vstd::seq::axiom_seq_index_decreases, vstd::std_specs::vec::axiom_vec_decreases_to_view};

/// The length of a split along its parent's flow axis.
pub type Length = Scalar;

/// The current state of a split.
#[derive(Clone, Copy, Debug, PartialEq, Eq, Structural)]
pub struct State;

/// A node of the declarative layout tree: a rectangular region of the window,
/// optionally subdivided into child splits along one flow direction.
#[derive(Debug, PartialEq)]
pub struct Split {
    pub id: CanvasId,
    pub maybe_splits: Option<(Direction, Vec<Split>)>,
    pub maybe_length: Option<Length>,
    pub style: Style,
}

/// The style override bundle of a split: per-node optional values that take
/// precedence over the theme. An unset value falls through to the theme; a
/// set zero does not.
#[derive(Clone, Copy, Debug, PartialEq)]
pub struct Style {
    pub maybe_frame: Option<Scalar>,
    pub maybe_frame_color: Option<Color>,
    pub maybe_color: Option<Color>,
    pub padding: Padding,
    pub margin: Margin,
}

/// Optional per-edge padding overrides: the distance between the inner edge
/// of a split's frame and its content area.
#[derive(Clone, Copy, Debug, PartialEq)]
pub struct Padding {
    pub maybe_top: Option<Scalar>,
    pub maybe_bottom: Option<Scalar>,
    pub maybe_left: Option<Scalar>,
    pub maybe_right: Option<Scalar>,
}

/// Optional per-edge margin overrides: the distance between a split's
/// allocated outer edge and the outer edge of its frame.
#[derive(Clone, Copy, Debug, PartialEq)]
pub struct Margin {
    pub maybe_top: Option<Scalar>,
    pub maybe_bottom: Option<Scalar>,
    pub maybe_left: Option<Scalar>,
    pub maybe_right: Option<Scalar>,
}

/// An optional scalar override is in range when, if set, it lies in
/// `[0, MAX_SCALAR]`.
pub open spec fn opt_scalar_wf(v: Option<Scalar>) -> bool {
    match v {
        Some(x) => 0 <= x <= MAX_SCALAR,
        None => true,
    }
}

pub open spec fn padding_wf(p: Padding) -> bool {
    &&& opt_scalar_wf(p.maybe_top)
    &&& opt_scalar_wf(p.maybe_bottom)
    &&& opt_scalar_wf(p.maybe_left)
    &&& opt_scalar_wf(p.maybe_right)
}

pub open spec fn margin_wf(m: Margin) -> bool {
    &&& opt_scalar_wf(m.maybe_top)
    &&& opt_scalar_wf(m.maybe_bottom)
    &&& opt_scalar_wf(m.maybe_left)
    &&& opt_scalar_wf(m.maybe_right)
}

pub open spec fn style_wf(st: Style) -> bool {
    &&& opt_scalar_wf(st.maybe_frame)
    &&& padding_wf(st.padding)
    &&& margin_wf(st.margin)
}

/// A split tree is well formed when every scalar stored anywhere in it lies
/// in `[0, MAX_SCALAR]`.
pub open spec fn split_wf(s: Split) -> bool
    decreases s, 0int, 0int,
{
    &&& style_wf(s.style)
    &&& opt_scalar_wf(s.maybe_length)
    &&& match s.maybe_splits {
        Some((dir, splits)) => forall|i: int|
            0 <= i < splits@.len() ==> split_wf(#[trigger] splits@[i]),
        None => true,
    }
}

/// The number of nodes in a split tree.
pub open spec fn size(s: Split) -> nat
    decreases s, 0int, 0int,
{
    1 + match s.maybe_splits {
        Some((dir, splits)) => seq_size(splits@, 0),
        None => 0,
    }
}

/// The number of nodes in the trees `splits[i..]`.
pub open spec fn seq_size(splits: Seq<Split>, i: int) -> nat
    decreases splits, splits.len() - i, 0int,
{
    if 0 <= i < splits.len() {
        size(splits[i]) + seq_size(splits, i + 1)
    } else {
        0
    }
}

/// Clamp a dimension used for further subdivision at zero: fixed children
/// that overflow the available space leave nothing, not a negative amount,
/// for the others.
pub open spec fn clamp0(x: int) -> int {
    if x < 0 {
        0
    } else {
        x
    }
}

/// Sum of the fixed lengths among the children `splits[i..]`.
pub open spec fn stuck_length(splits: Seq<Split>, i: int) -> int
    decreases splits.len() - i,
{
    if 0 <= i < splits.len() {
        (match splits[i].maybe_length {
            Some(l) => l as int,
            None => 0,
        }) + stuck_length(splits, i + 1)
    } else {
        0
    }
}

/// Number of flexible children (those without a fixed length) among
/// `splits[i..]`.
pub open spec fn num_not_stuck(splits: Seq<Split>, i: int) -> int
    decreases splits.len() - i,
{
    if 0 <= i < splits.len() {
        (match splits[i].maybe_length {
            Some(l) => 0int,
            None => 1int,
        }) + num_not_stuck(splits, i + 1)
    } else {
        0
    }
}

/// The flow-axis length granted to each of `k` flexible children when the
/// padded flow-axis extent is `avail_flow` and the fixed children claim
/// `stuck` of it: an equal share of the remaining space, clamped at zero
/// when the fixed children already overflow it.
pub open spec fn flexible_length(avail_flow: int, stuck: int, k: int) -> int {
    if k == 0 {
        0
    } else if avail_flow - stuck > 0 {
        (avail_flow - stuck) / k
    } else {
        0
    }
}

/// The outer dimensions allocated to child `c` of a split flowing in `dir`
/// whose clamped padded content area is `avail`, with `stuck` the sum of the
/// siblings' fixed lengths and `k` the number of flexible siblings: its own
/// fixed length (or the flexible share) along the flow axis, and the full
/// cross-axis extent — which is zero when no sibling is flexible.
pub open spec fn child_alloc(c: Split, dir: Direction, avail: (int, int), stuck: int, k: int) -> (
    int,
    int,
) {
    match dir {
        Direction::Up | Direction::Down => {
            let cross = if k == 0 {
                0
            } else {
                avail.0
            };
            match c.maybe_length {
                Some(l) => (cross, l as int),
                None => (cross, flexible_length(avail.1, stuck, k)),
            }
        },
        Direction::Left | Direction::Right => {
            let cross = if k == 0 {
                0
            } else {
                avail.1
            };
            match c.maybe_length {
                Some(l) => (l as int, cross),
                None => (flexible_length(avail.0, stuck, k), cross),
            }
        },
    }
}

/// The flow-axis component of a dimension pair.
pub open spec fn flow_extent(dim: (int, int), dir: Direction) -> int {
    match dir {
        Direction::Up | Direction::Down => dim.1,
        Direction::Left | Direction::Right => dim.0,
    }
}

/// The centre position of the first child run: the edge of the padded
/// content area `avail` centred at `xy` that is appropriate to `dir`.
pub open spec fn start_position(xy: (int, int), dir: Direction, avail: (int, int)) -> (int, int) {
    match dir {
        Direction::Down => (xy.0, xy.1 + avail.1 / 2),
        Direction::Up => (xy.0, xy.1 - avail.1 / 2),
        Direction::Left => (xy.0 + avail.0 / 2, xy.1),
        Direction::Right => (xy.0 - avail.0 / 2, xy.1),
    }
}

/// Advance the running centre position by half the current child's flow
/// length plus half the previous child's, with the sign of `dir`.
pub open spec fn advance(cur: (int, int), dir: Direction, flow_len: int, prev: int) -> (int, int) {
    match dir {
        Direction::Down => (cur.0, cur.1 - (flow_len / 2 + prev / 2)),
        Direction::Up => (cur.0, cur.1 + (flow_len / 2 + prev / 2)),
        Direction::Left => (cur.0 - (flow_len / 2 + prev / 2), cur.1),
        Direction::Right => (cur.0 + (flow_len / 2 + prev / 2), cur.1),
    }
}

/// The region recorded for a split with identifier `id` whose final centre is
/// `xy2`, margin-inset dimensions `dim2` and frame-inset dimensions
/// `frame_dim`: the widget area is the margin-inset rectangle at the final
/// centre, and the element layers the frame-colored rectangle beneath the
/// inner-colored one, both centred there.
pub open spec fn region_for(
    id: CanvasId,
    xy2: (int, int),
    dim2: (int, int),
    frame_dim: (int, int),
    pad: crate::position::Padding,
    color: Color,
    frame_color: Color,
) -> ResolvedRegion {
    ResolvedRegion {
        id,
        kind: Kind::Split(State),
        xy: (xy2.0 as i64, xy2.1 as i64),
        widget_area_xy: (xy2.0 as i64, xy2.1 as i64),
        widget_area_dim: (dim2.0 as i64, dim2.1 as i64),
        padding: pad,
        maybe_element: Some(
            Element {
                width: frame_dim.0 as i64,
                height: frame_dim.1 as i64,
                frame_form: Form {
                    width: dim2.0 as i64,
                    height: dim2.1 as i64,
                    color: frame_color,
                    x: xy2.0 as i64,
                    y: xy2.1 as i64,
                },
                inner_form: Form {
                    width: frame_dim.0 as i64,
                    height: frame_dim.1 as i64,
                    color,
                    x: xy2.0 as i64,
                    y: xy2.1 as i64,
                },
            },
        ),
    }
}

/// The margin-inset dimensions of a split allocated `dim`: the margin
/// consumes the outer dimension first.
pub open spec fn margin_dim(dim: (int, int), mgn: crate::position::Margin) -> (int, int) {
    (dim.0 - (mgn.left + mgn.right), dim.1 - (mgn.top + mgn.bottom))
}

/// The frame-inset dimensions: the frame consumes a uniform border of width
/// `frame` on all four sides of the margin-inset rectangle.
pub open spec fn frame_dim_of(dim2: (int, int), frame: int) -> (int, int) {
    (dim2.0 - 2 * frame, dim2.1 - 2 * frame)
}

/// The padded content dimensions: the padding consumes a further inset of
/// the frame-inset rectangle, edge by edge. May be negative when a split is
/// over-constrained; it is clamped before being used for subdivision.
pub open spec fn pad_dim_of(frame_dim: (int, int), pad: crate::position::Padding) -> (int, int) {
    (frame_dim.0 - (pad.left + pad.right), frame_dim.1 - (pad.top + pad.bottom))
}

/// The sequence of regions one resolution pass records for the tree rooted
/// at `s`, allocated outer dimensions `dim` centred at `xy`: the regions of
/// the children (in declared order, each subtree depth first), followed by
/// the region of `s` itself.
pub open spec fn resolve_node(s: Split, dim: (int, int), xy: (int, int), theme: Theme) -> Seq<
    ResolvedRegion,
>
    decreases s, 0int, 0int,
{
    let mgn = spec_margin(s.style, theme);
    let pad = spec_padding(s.style, theme);
    let frame = spec_frame(s.style, theme) as int;
    let dim2 = margin_dim(dim, mgn);
    let frame_dim = frame_dim_of(dim2, frame);
    let pad_dim = pad_dim_of(frame_dim, pad);
    let xy2 = (xy.0 + (mgn.left - mgn.right), xy.1 + (mgn.bottom - mgn.top));
    let children = match s.maybe_splits {
        Some((dir, splits)) => {
            let xy3 = (xy2.0 + (pad.bottom - pad.top), xy2.1 + (pad.left - pad.right));
            let avail = (clamp0(pad_dim.0), clamp0(pad_dim.1));
            resolve_children(
                splits@,
                0,
                dir,
                avail,
                stuck_length(splits@, 0),
                num_not_stuck(splits@, 0),
                start_position(xy3, dir, avail),
                0,
                theme,
            )
        },
        None => Seq::empty(),
    };
    children + seq![
        region_for(
            s.id,
            xy2,
            dim2,
            frame_dim,
            pad,
            spec_color(s.style, theme),
            spec_frame_color(s.style, theme),
        ),
    ]
}

/// The regions recorded for the children `splits[i..]` of a split flowing in
/// `dir`, walking them in declared order with the running centre `cur` and
/// the previous child's flow length `prev`.
pub open spec fn resolve_children(
    splits: Seq<Split>,
    i: int,
    dir: Direction,
    avail: (int, int),
    stuck: int,
    k: int,
    cur: (int, int),
    prev: int,
    theme: Theme,
) -> Seq<ResolvedRegion>
    decreases splits, splits.len() - i, 1int,
{
    if 0 <= i < splits.len() {
        let c = splits[i];
        let cdim = child_alloc(c, dir, avail, stuck, k);
        let flow_len = flow_extent(cdim, dir);
        let cur2 = advance(cur, dir, flow_len, prev);
        resolve_node(c, cdim, cur2, theme) + resolve_children(
            splits,
            i + 1,
            dir,
            avail,
            stuck,
            k,
            cur2,
            flow_len,
            theme,
        )
    } else {
        Seq::empty()
    }
}

/// Each tree among `splits[i..]` counts at least one node.
pub proof fn lemma_seq_size_lower(splits: Seq<Split>, i: int)
    requires
        0 <= i <= splits.len(),
    ensures
        seq_size(splits, i) >= splits.len() - i,
    decreases splits.len() - i,
{
    if i < splits.len() {
        lemma_seq_size_lower(splits, i + 1);
        assert(seq_size(splits, i) == size(splits[i]) + seq_size(splits, i + 1));
        assert(size(splits[i]) >= 1);
    }
}

/// In a well-formed sibling group, the fixed lengths sum to a value in
/// `[0, n * MAX_SCALAR]` and the flexible children number at most `n`.
pub proof fn lemma_sibling_counts(splits: Seq<Split>, i: int)
    requires
        0 <= i <= splits.len(),
        forall|t: int| 0 <= t < splits.len() ==> split_wf(#[trigger] splits[t]),
    ensures
        0 <= stuck_length(splits, i) <= (splits.len() - i) * (MAX_SCALAR as int),
        0 <= num_not_stuck(splits, i) <= splits.len() - i,
    decreases splits.len() - i,
{
    if i < splits.len() {
        lemma_sibling_counts(splits, i + 1);
        assert(split_wf(splits[i]));
        assert((splits.len() - i) * (MAX_SCALAR as int) == (splits.len() - i - 1) * (
        MAX_SCALAR as int) + MAX_SCALAR as int) by (nonlinear_arith);
    }
}

/// Half of a non-negative scalar, truncated.
fn half(x: Scalar) -> (h: Scalar)
    requires
        0 <= x,
    ensures
        h == x as int / 2,
        0 <= h,
        2 * h <= x,
{
    ((x as u64) / 2u64) as i64
}

/// An equal share of a non-negative total among `parts` takers, truncated.
fn equal_share(total: Scalar, parts: usize) -> (q: Scalar)
    requires
        0 <= total,
        1 <= parts,
    ensures
        q == total as int / parts as int,
        0 <= q <= total,
{
    proof {
        assert((total as u64) / (parts as u64) <= total as u64) by (nonlinear_arith)
            requires
                parts as u64 >= 1,
        ;
    }
    ((total as u64) / (parts as u64)) as i64
}

/// Walk the children of a split flowing in `direction` across the clamped
/// padded content area `avail` centred at `xy3`: allocate each child its
/// dimensions (its fixed length or an equal share of the remaining space
/// along the flow axis, the full cross extent), advance the running centre
/// with the sign of the direction, and recursively record each subtree.
#[verifier::loop_isolation(false)]
#[verifier::rlimit(100)]
fn flow_children(
    splits: &Vec<Split>,
    direction: Direction,
    avail: (Scalar, Scalar),
    xy3: (Scalar, Scalar),
    ui: &mut Ui,
)
    requires
        theme_wf(old(ui).theme),
        forall|t: int| 0 <= t < splits@.len() ==> split_wf(#[trigger] splits@[t]),
        0 <= avail.0 <= MAX_SCALAR,
        0 <= avail.1 <= MAX_SCALAR,
        abs(xy3.0 as int) + 4 * (MAX_SCALAR as int) * (seq_size(splits@, 0) as int) + 2 * (
        MAX_SCALAR as int) <= POS_LIMIT as int,
        abs(xy3.1 as int) + 4 * (MAX_SCALAR as int) * (seq_size(splits@, 0) as int) + 2 * (
        MAX_SCALAR as int) <= POS_LIMIT as int,
    ensures
        final(ui).regions@ == old(ui).regions@ + resolve_children(
            splits@,
            0,
            direction,
            (avail.0 as int, avail.1 as int),
            stuck_length(splits@, 0),
            num_not_stuck(splits@, 0),
            start_position(
                (xy3.0 as int, xy3.1 as int),
                direction,
                (avail.0 as int, avail.1 as int),
            ),
            0,
            old(ui).theme,
        ),
        final(ui).theme == old(ui).theme,
        final(ui).win_w == old(ui).win_w,
        final(ui).win_h == old(ui).win_h,
    decreases *splits, 0int, 0int,
{
    let ghost theme = old(ui).theme;
    let ghost sseq = splits@;
    let ghost availi = (avail.0 as int, avail.1 as int);
    let ghost xy3i = (xy3.0 as int, xy3.1 as int);
    proof {
        lemma_seq_size_lower(sseq, 0);
        lemma_sibling_counts(sseq, 0);
        assert((sseq.len() - 0) * (MAX_SCALAR as int) <= 4 * (MAX_SCALAR as int) * (seq_size(
            sseq,
            0,
        ) as int)) by (nonlinear_arith)
            requires
                sseq.len() <= seq_size(sseq, 0),
                MAX_SCALAR as int > 0,
        ;
        assert(stuck_length(sseq, 0) <= POS_LIMIT as int);
    }

    let mut stuck: i64 = 0;
    let mut not_stuck: usize = 0;
    let mut j: usize = 0;
    while j < splits.len()
        invariant
            0 <= j <= sseq.len(),
            stuck_length(sseq, 0) == stuck + stuck_length(sseq, j as int),
            num_not_stuck(sseq, 0) == not_stuck + num_not_stuck(sseq, j as int),
            0 <= stuck <= stuck_length(sseq, 0),
            not_stuck <= j,
        decreases sseq.len() - j,
    {
        proof {
            assert(split_wf(sseq[j as int]));
            lemma_sibling_counts(sseq, j as int + 1);
        }
        match splits[j].maybe_length {
            Some(l) => {
                stuck = stuck + l;
            },
            None => {
                not_stuck = not_stuck + 1;
            },
        }
        j = j + 1;
    }
    let ghost stucki = stuck as int;
    let ghost ki = not_stuck as int;
    proof {
        assert(stucki == stuck_length(sseq, 0));
        assert(ki == num_not_stuck(sseq, 0));
    }

    let split_dim: (i64, i64) = if not_stuck == 0 {
        (0, 0)
    } else {
        match direction {
            Direction::Up | Direction::Down => {
                let remaining = avail.1 - stuck;
                let h = if remaining > 0 {
                    equal_share(remaining, not_stuck)
                } else {
                    0
                };
                (avail.0, h)
            },
            Direction::Left | Direction::Right => {
                let remaining = avail.0 - stuck;
                let w = if remaining > 0 {
                    equal_share(remaining, not_stuck)
                } else {
                    0
                };
                (w, avail.1)
            },
        }
    };
    proof {
        assert(0 <= split_dim.0 <= MAX_SCALAR);
        assert(0 <= split_dim.1 <= MAX_SCALAR);
    }

    let mut prev_length: i64 = 0;
    let mut cur_x: i64;
    let mut cur_y: i64;
    match direction {
        Direction::Down => {
            cur_x = xy3.0;
            cur_y = xy3.1 + half(avail.1);
        },
        Direction::Up => {
            cur_x = xy3.0;
            cur_y = xy3.1 - half(avail.1);
        },
        Direction::Left => {
            cur_x = xy3.0 + half(avail.0);
            cur_y = xy3.1;
        },
        Direction::Right => {
            cur_x = xy3.0 - half(avail.0);
            cur_y = xy3.1;
        },
    }
    let ghost starti = (cur_x as int, cur_y as int);
    proof {
        assert(starti == start_position(xy3i, direction, availi));
        assert(abs(cur_x as int) <= abs(xy3.0 as int) + (MAX_SCALAR as int));
        assert(abs(cur_y as int) <= abs(xy3.1 as int) + (MAX_SCALAR as int));
    }

    let mut i: usize = 0;
    while i < splits.len()
        invariant
            0 <= i <= sseq.len(),
            ui.theme == old(ui).theme,
            ui.win_w == old(ui).win_w,
            ui.win_h == old(ui).win_h,
            0 <= prev_length <= MAX_SCALAR,
            abs(cur_x as int) + 4 * (MAX_SCALAR as int) * (seq_size(sseq, i as int) as int) + (
            MAX_SCALAR as int) <= POS_LIMIT as int,
            abs(cur_y as int) + 4 * (MAX_SCALAR as int) * (seq_size(sseq, i as int) as int) + (
            MAX_SCALAR as int) <= POS_LIMIT as int,
            ui.regions@ + resolve_children(
                sseq,
                i as int,
                direction,
                availi,
                stucki,
                ki,
                (cur_x as int, cur_y as int),
                prev_length as int,
                theme,
            ) == old(ui).regions@ + resolve_children(
                sseq,
                0,
                direction,
                availi,
                stucki,
                ki,
                starti,
                0,
                theme,
            ),
        decreases sseq.len() - i,
    {
        let ghost pre_cur = (cur_x as int, cur_y as int);
        let ghost pre_prev = prev_length as int;
        let ghost pre_regions = ui.regions@;
        proof {
            assert(split_wf(sseq[i as int]));
        }
        let child = &splits[i];
        let child_dim: (i64, i64) = match child.maybe_length {
            Some(len) => match direction {
                Direction::Up | Direction::Down => (split_dim.0, len),
                Direction::Left | Direction::Right => (len, split_dim.1),
            },
            None => split_dim,
        };
        let ghost cdimi = (child_dim.0 as int, child_dim.1 as int);
        proof {
            assert(0 <= child_dim.0 <= MAX_SCALAR && 0 <= child_dim.1 <= MAX_SCALAR);
            assert(cdimi == child_alloc(sseq[i as int], direction, availi, stucki, ki));
            assert(seq_size(sseq, i as int) == size(sseq[i as int]) + seq_size(
                sseq,
                i as int + 1,
            ));
            assert(size(sseq[i as int]) >= 1);
            assert(4 * (MAX_SCALAR as int) * (size(sseq[i as int]) as int) >= 4 * (
            MAX_SCALAR as int)) by (nonlinear_arith)
                requires
                    size(sseq[i as int]) >= 1,
            ;
            assert(4 * (MAX_SCALAR as int) * (seq_size(sseq, i as int) as int) == 4 * (
            MAX_SCALAR as int) * (size(sseq[i as int]) as int) + 4 * (MAX_SCALAR as int) * (
            seq_size(sseq, i as int + 1) as int)) by (nonlinear_arith)
                requires
                    seq_size(sseq, i as int) == size(sseq[i as int]) + seq_size(
                        sseq,
                        i as int + 1,
                    ),
            ;
        }
        let step = half(
            match direction {
                Direction::Up | Direction::Down => child_dim.1,
                Direction::Left | Direction::Right => child_dim.0,
            },
        ) + half(prev_length);
        proof {
            assert(0 <= step && step <= MAX_SCALAR);
        }
        match direction {
            Direction::Down => {
                cur_y = cur_y - step;
                prev_length = child_dim.1;
            },
            Direction::Up => {
                cur_y = cur_y + step;
                prev_length = child_dim.1;
            },
            Direction::Left => {
                cur_x = cur_x - step;
                prev_length = child_dim.0;
            },
            Direction::Right => {
                cur_x = cur_x + step;
                prev_length = child_dim.0;
            },
        }
        let ghost cur2i = (cur_x as int, cur_y as int);
        proof {
            assert(cur2i == advance(pre_cur, direction, flow_extent(cdimi, direction), pre_prev));
            assert(abs(cur_x as int) <= abs(pre_cur.0) + (MAX_SCALAR as int));
            assert(abs(cur_y as int) <= abs(pre_cur.1) + (MAX_SCALAR as int));
            assert(abs(cur_x as int) + 4 * (MAX_SCALAR as int) * (size(sseq[i as int]) as int)
                <= POS_LIMIT as int);
            assert(abs(cur_y as int) + 4 * (MAX_SCALAR as int) * (size(sseq[i as int]) as int)
                <= POS_LIMIT as int);
        }
        child.into_ui(child_dim, (cur_x, cur_y), ui);
        proof {
            assert(resolve_children(
                sseq,
                i as int,
                direction,
                availi,
                stucki,
                ki,
                pre_cur,
                pre_prev,
                theme,
            ) == resolve_node(sseq[i as int], cdimi, cur2i, theme) + resolve_children(
                sseq,
                i as int + 1,
                direction,
                availi,
                stucki,
                ki,
                cur2i,
                flow_extent(cdimi, direction),
                theme,
            ));
            assert(ui.regions@ + resolve_children(
                sseq,
                i as int + 1,
                direction,
                availi,
                stucki,
                ki,
                cur2i,
                flow_extent(cdimi, direction),
                theme,
            ) =~= pre_regions + resolve_children(
                sseq,
                i as int,
                direction,
                availi,
                stucki,
                ki,
                pre_cur,
                pre_prev,
                theme,
            ));
        }
        i = i + 1;
    }
    proof {
        assert(resolve_children(
            sseq,
            sseq.len() as int,
            direction,
            availi,
            stucki,
            ki,
            (cur_x as int, cur_y as int),
            prev_length as int,
            theme,
        ) =~= Seq::<ResolvedRegion>::empty());
        assert(ui.regions@ =~= old(ui).regions@ + resolve_children(
            sseq,
            0,
            direction,
            availi,
            stucki,
            ki,
            starti,
            0,
            theme,
        ));
    }
}

impl Split {
    /// Construct a default split: no children, no fixed length, every style
    /// attribute left to the theme.
    pub fn new(id: CanvasId) -> (s: Split)
        ensures
            s == (Split {
                id,
                maybe_splits: None::<(Direction, Vec<Split>)>,
                maybe_length: None::<Length>,
                style: Style::empty(),
            }),
    {
        Split { id, maybe_splits: None, maybe_length: None, style: Style::new() }
    }

    /// Set the fixed length of the split along its parent's flow axis.
    pub fn length(self, length: Length) -> (s: Split)
        ensures
            s == (Split { maybe_length: Some(length), ..self }),
    {
        Split { maybe_length: Some(length), ..self }
    }

    /// Set the child splits of this split, flowing in the given direction.
    pub fn flow(self, dir: Direction, splits: Vec<Split>) -> (s: Split)
        ensures
            s == (Split { maybe_splits: Some((dir, splits)), ..self }),
    {
        Split { maybe_splits: Some((dir, splits)), ..self }
    }

    /// Set the child splits flowing downwards.
    pub fn flow_down(self, splits: Vec<Split>) -> (s: Split)
        ensures
            s == (Split { maybe_splits: Some((Direction::Down, splits)), ..self }),
    {
        self.flow(Direction::Down, splits)
    }

    /// Set the child splits flowing upwards.
    pub fn flow_up(self, splits: Vec<Split>) -> (s: Split)
        ensures
            s == (Split { maybe_splits: Some((Direction::Up, splits)), ..self }),
    {
        self.flow(Direction::Up, splits)
    }

    /// Set the child splits flowing to the right.
    pub fn flow_right(self, splits: Vec<Split>) -> (s: Split)
        ensures
            s == (Split { maybe_splits: Some((Direction::Right, splits)), ..self }),
    {
        self.flow(Direction::Right, splits)
    }

    /// Set the child splits flowing to the left.
    pub fn flow_left(self, splits: Vec<Split>) -> (s: Split)
        ensures
            s == (Split { maybe_splits: Some((Direction::Left, splits)), ..self }),
    {
        self.flow(Direction::Left, splits)
    }

    /// Set the padding from the left edge.
    pub fn pad_left(self, pad: Scalar) -> (s: Split)
        ensures
            s == (Split {
                style: Style {
                    padding: Padding { maybe_left: Some(pad), ..self.style.padding },
                    ..self.style
                },
                ..self
            }),
    {
        Split {
            style: Style {
                padding: Padding { maybe_left: Some(pad), ..self.style.padding },
                ..self.style
            },
            ..self
        }
    }

    /// Set the padding from the right edge.
    pub fn pad_right(self, pad: Scalar) -> (s: Split)
        ensures
            s == (Split {
                style: Style {
                    padding: Padding { maybe_right: Some(pad), ..self.style.padding },
                    ..self.style
                },
                ..self
            }),
    {
        Split {
            style: Style {
                padding: Padding { maybe_right: Some(pad), ..self.style.padding },
                ..self.style
            },
            ..self
        }
    }

    /// Set the padding from the top edge.
    pub fn pad_top(self, pad: Scalar) -> (s: Split)
        ensures
            s == (Split {
                style: Style {
                    padding: Padding { maybe_top: Some(pad), ..self.style.padding },
                    ..self.style
                },
                ..self
            }),
    {
        Split {
            style: Style {
                padding: Padding { maybe_top: Some(pad), ..self.style.padding },
                ..self.style
            },
            ..self
        }
    }

    /// Set the padding from the bottom edge.
    pub fn pad_bottom(self, pad: Scalar) -> (s: Split)
        ensures
            s == (Split {
                style: Style {
                    padding: Padding { maybe_bottom: Some(pad), ..self.style.padding },
                    ..self.style
                },
                ..self
            }),
    {
        Split {
            style: Style {
                padding: Padding { maybe_bottom: Some(pad), ..self.style.padding },
                ..self.style
            },
            ..self
        }
    }

    /// Set the padding for all edges at once.
    pub fn pad(self, pad: Scalar) -> (s: Split)
        ensures
            s == (Split {
                style: Style {
                    padding: Padding {
                        maybe_top: Some(pad),
                        maybe_bottom: Some(pad),
                        maybe_left: Some(pad),
                        maybe_right: Some(pad),
                    },
                    ..self.style
                },
                ..self
            }),
    {
        self.pad_left(pad).pad_right(pad).pad_top(pad).pad_bottom(pad)
    }

    /// Set the margin from the left edge.
    pub fn margin_left(self, pad: Scalar) -> (s: Split)
        ensures
            s == (Split {
                style: Style {
                    margin: Margin { maybe_left: Some(pad), ..self.style.margin },
                    ..self.style
                },
                ..self
            }),
    {
        Split {
            style: Style {
                margin: Margin { maybe_left: Some(pad), ..self.style.margin },
                ..self.style
            },
            ..self
        }
    }

    /// Set the margin from the right edge.
    pub fn margin_right(self, pad: Scalar) -> (s: Split)
        ensures
            s == (Split {
                style: Style {
                    margin: Margin { maybe_right: Some(pad), ..self.style.margin },
                    ..self.style
                },
                ..self
            }),
    {
        Split {
            style: Style {
                margin: Margin { maybe_right: Some(pad), ..self.style.margin },
                ..self.style
            },
            ..self
        }
    }

    /// Set the margin from the top edge.
    pub fn margin_top(self, pad: Scalar) -> (s: Split)
        ensures
            s == (Split {
                style: Style {
                    margin: Margin { maybe_top: Some(pad), ..self.style.margin },
                    ..self.style
                },
                ..self
            }),
    {
        Split {
            style: Style {
                margin: Margin { maybe_top: Some(pad), ..self.style.margin },
                ..self.style
            },
            ..self
        }
    }

    /// Set the margin from the bottom edge.
    pub fn margin_bottom(self, pad: Scalar) -> (s: Split)
        ensures
            s == (Split {
                style: Style {
                    margin: Margin { maybe_bottom: Some(pad), ..self.style.margin },
                    ..self.style
                },
                ..self
            }),
    {
        Split {
            style: Style {
                margin: Margin { maybe_bottom: Some(pad), ..self.style.margin },
                ..self.style
            },
            ..self
        }
    }

    /// Set the margin for all edges at once.
    pub fn margin(self, pad: Scalar) -> (s: Split)
        ensures
            s == (Split {
                style: Style {
                    margin: Margin {
                        maybe_top: Some(pad),
                        maybe_bottom: Some(pad),
                        maybe_left: Some(pad),
                        maybe_right: Some(pad),
                    },
                    ..self.style
                },
                ..self
            }),
    {
        self.margin_left(pad).margin_right(pad).margin_top(pad).margin_bottom(pad)
    }

    /// Set the fill color of the split's drawable element.
    pub fn color(self, color: Color) -> (s: Split)
        ensures
            s == (Split {
                style: Style { maybe_color: Some(color), ..self.style },
                ..self
            }),
    {
        Split { style: Style { maybe_color: Some(color), ..self.style }, ..self }
    }

    /// Set the width of the split's frame.
    pub fn frame(self, width: Scalar) -> (s: Split)
        ensures
            s == (Split {
                style: Style { maybe_frame: Some(width), ..self.style },
                ..self
            }),
    {
        Split { style: Style { maybe_frame: Some(width), ..self.style }, ..self }
    }

    /// Set the color of the split's frame.
    pub fn frame_color(self, color: Color) -> (s: Split)
        ensures
            s == (Split {
                style: Style { maybe_frame_color: Some(color), ..self.style },
                ..self
            }),
    {
        Split { style: Style { maybe_frame_color: Some(color), ..self.style }, ..self }
    }

    /// Store the split and its children within the `Ui`: one resolution pass
    /// seeded with the full window area, recording a region for this split
    /// and every descendant, each accessible via its identifier.
    pub fn set(self, ui: &mut Ui)
        requires
            split_wf(self),
            size(self) <= MAX_NODES,
            crate::ui::ui_wf(*old(ui)),
        ensures
            final(ui).regions@ == old(ui).regions@ + resolve_node(
                self,
                (old(ui).win_w as int, old(ui).win_h as int),
                (0, 0),
                old(ui).theme,
            ),
            final(ui).theme == old(ui).theme,
            final(ui).win_w == old(ui).win_w,
            final(ui).win_h == old(ui).win_h,
    {
        let dim = (ui.win_w, ui.win_h);
        proof {
            assert(4 * (MAX_SCALAR as int) * (size(self) as int) <= 4 * (MAX_SCALAR as int) * (
            MAX_NODES as int)) by (nonlinear_arith)
                requires
                    size(self) <= MAX_NODES,
            ;
        }
        self.into_ui(dim, (0, 0), ui);
    }

    /// Resolve this split against the outer dimensions `dim` allocated by
    /// its parent, centred at `xy`, and record a region for it and all its
    /// descendants: margin, frame and padding are subtracted in that order,
    /// the children split the clamped padded area along the flow direction,
    /// and the split's own region is recorded last.
    #[verifier::loop_isolation(false)]
    #[verifier::rlimit(100)]
    fn into_ui(&self, dim: (Scalar, Scalar), xy: (Scalar, Scalar), ui: &mut Ui)
        requires
            split_wf(*self),
            theme_wf(old(ui).theme),
            0 <= dim.0 <= MAX_SCALAR,
            0 <= dim.1 <= MAX_SCALAR,
            abs(xy.0 as int) + 4 * (MAX_SCALAR as int) * (size(*self) as int) <= POS_LIMIT as int,
            abs(xy.1 as int) + 4 * (MAX_SCALAR as int) * (size(*self) as int) <= POS_LIMIT as int,
        ensures
            final(ui).regions@ == old(ui).regions@ + resolve_node(
                *self,
                (dim.0 as int, dim.1 as int),
                (xy.0 as int, xy.1 as int),
                old(ui).theme,
            ),
            final(ui).theme == old(ui).theme,
            final(ui).win_w == old(ui).win_w,
            final(ui).win_h == old(ui).win_h,
        decreases *self, 0int, 0int,
    {
        let ghost theme = old(ui).theme;
        let ghost dimi = (dim.0 as int, dim.1 as int);
        let ghost xyi = (xy.0 as int, xy.1 as int);

        let color = self.style.color(&ui.theme);
        let frame_color = self.style.frame_color(&ui.theme);
        let frame = self.style.frame(&ui.theme);
        let pad = self.style.padding(&ui.theme);
        let mgn = self.style.margin(&ui.theme);

        proof {
            assert(0 <= frame <= MAX_SCALAR);
            assert(0 <= pad.top <= MAX_SCALAR && 0 <= pad.bottom <= MAX_SCALAR && 0 <= pad.left
                <= MAX_SCALAR && 0 <= pad.right <= MAX_SCALAR);
            assert(0 <= mgn.top <= MAX_SCALAR && 0 <= mgn.bottom <= MAX_SCALAR && 0 <= mgn.left
                <= MAX_SCALAR && 0 <= mgn.right <= MAX_SCALAR);
        }

        let dim2 = (dim.0 - (mgn.left + mgn.right), dim.1 - (mgn.top + mgn.bottom));
        let frame_dim = (dim2.0 - 2 * frame, dim2.1 - 2 * frame);
        let pad_dim = (frame_dim.0 - (pad.left + pad.right), frame_dim.1 - (pad.top + pad.bottom));
        let xy2 = (xy.0 + (mgn.left - mgn.right), xy.1 + (mgn.bottom - mgn.top));

        let ghost dim2i = (dim2.0 as int, dim2.1 as int);
        let ghost frame_dimi = (frame_dim.0 as int, frame_dim.1 as int);
        let ghost xy2i = (xy2.0 as int, xy2.1 as int);

        match &self.maybe_splits {
            Some(pair) => {
                let direction = pair.0;
                let splits: &Vec<Split> = &pair.1;
                let ghost sseq = splits@;
                proof {
                    assert(self.maybe_splits == Some((direction, pair.1)));
                    assert(size(*self) == 1 + seq_size(sseq, 0));
                    assert(4 * (MAX_SCALAR as int) * (size(*self) as int) == 4 * (
                    MAX_SCALAR as int) + 4 * (MAX_SCALAR as int) * (seq_size(sseq, 0) as int))
                        by (nonlinear_arith)
                        requires
                            size(*self) == 1 + seq_size(sseq, 0),
                    ;
                    assert(forall|t: int| 0 <= t < sseq.len() ==> split_wf(#[trigger] sseq[t]));
                }

                let xy3 = (xy2.0 + (pad.bottom - pad.top), xy2.1 + (pad.left - pad.right));
                let avail = (
                    if pad_dim.0 < 0 {
                        0
                    } else {
                        pad_dim.0
                    },
                    if pad_dim.1 < 0 {
                        0
                    } else {
                        pad_dim.1
                    },
                );
                proof {
                    assert(abs(xy3.0 as int) <= abs(xy.0 as int) + 2 * (MAX_SCALAR as int));
                    assert(abs(xy3.1 as int) <= abs(xy.1 as int) + 2 * (MAX_SCALAR as int));
                }
                flow_children(splits, direction, avail, xy3, ui);
                proof {
                    assert(ui.regions@ + seq![
                        region_for(
                            self.id,
                            xy2i,
                            dim2i,
                            frame_dimi,
                            pad,
                            spec_color(self.style, theme),
                            spec_frame_color(self.style, theme),
                        ),
                    ] =~= old(ui).regions@ + resolve_node(*self, dimi, xyi, theme));
                }
            },
            None => {
                proof {
                    assert(ui.regions@ + seq![
                        region_for(
                            self.id,
                            xy2i,
                            dim2i,
                            frame_dimi,
                            pad,
                            spec_color(self.style, theme),
                            spec_frame_color(self.style, theme),
                        ),
                    ] =~= old(ui).regions@ + resolve_node(*self, dimi, xyi, theme));
                }
            },
        }

        let ghost pre_regions = ui.regions@;
        let frame_form = Form {
            width: dim2.0,
            height: dim2.1,
            color: frame_color,
            x: xy2.0,
            y: xy2.1,
        };
        let inner_form = Form {
            width: frame_dim.0,
            height: frame_dim.1,
            color: color,
            x: xy2.0,
            y: xy2.1,
        };
        let element = Element {
            width: frame_dim.0,
            height: frame_dim.1,
            frame_form: frame_form,
            inner_form: inner_form,
        };
        update_canvas(ui, self.id, Kind::Split(State), xy2, xy2, dim2, pad, Some(element));
        proof {
            assert(ui.regions@ =~= pre_regions + seq![
                region_for(
                    self.id,
                    xy2i,
                    dim2i,
                    frame_dimi,
                    pad,
                    spec_color(self.style, theme),
                    spec_frame_color(self.style, theme),
                ),
            ]);
            assert(ui.regions@ =~= old(ui).regions@ + resolve_node(*self, dimi, xyi, theme));
        }
    }
}


/// The three-tier style fallback chain, first present value wins: the
/// node-local override, then the theme's per-kind entry (if the theme has a
/// per-kind bundle and that bundle sets the attribute), then the theme's
/// global default.
pub open spec fn fallback<V>(local: Option<V>, kind_entry: Option<Option<V>>, global: V) -> V {
    match local {
        Some(v) => v,
        None => match kind_entry {
            Some(entry) => match entry {
                Some(v) => v,
                None => global,
            },
            None => global,
        },
    }
}

/// Resolve one style attribute through the three-tier fallback chain.
pub fn resolve_attribute<V: Copy>(local: Option<V>, kind_entry: Option<Option<V>>, global: V) -> (r: V)
    ensures
        r == fallback(local, kind_entry, global),
{
    match local {
        Some(v) => v,
        None => match kind_entry {
            Some(entry) => match entry {
                Some(v) => v,
                None => global,
            },
            None => global,
        },
    }
}

/// The effective fill color of a split with style `st` under `theme`.
pub open spec fn spec_color(st: Style, theme: Theme) -> Color {
    fallback(
        st.maybe_color,
        match theme.maybe_canvas_split {
            Some(entry) => Some(entry.maybe_color),
            None => None,
        },
        theme.background_color,
    )
}

/// The effective frame width of a split with style `st` under `theme`.
pub open spec fn spec_frame(st: Style, theme: Theme) -> Scalar {
    fallback(
        st.maybe_frame,
        match theme.maybe_canvas_split {
            Some(entry) => Some(entry.maybe_frame),
            None => None,
        },
        theme.frame_width,
    )
}

/// The effective frame color of a split with style `st` under `theme`.
pub open spec fn spec_frame_color(st: Style, theme: Theme) -> Color {
    fallback(
        st.maybe_frame_color,
        match theme.maybe_canvas_split {
            Some(entry) => Some(entry.maybe_frame_color),
            None => None,
        },
        theme.frame_color,
    )
}

/// The effective padding of a split with style `st` under `theme`, each edge
/// resolved through the fallback chain on its own.
pub open spec fn spec_padding(st: Style, theme: Theme) -> crate::position::Padding {
    crate::position::Padding {
        top: fallback(
            st.padding.maybe_top,
            match theme.maybe_canvas_split {
                Some(entry) => Some(entry.padding.maybe_top),
                None => None,
            },
            theme.padding.top,
        ),
        bottom: fallback(
            st.padding.maybe_bottom,
            match theme.maybe_canvas_split {
                Some(entry) => Some(entry.padding.maybe_bottom),
                None => None,
            },
            theme.padding.bottom,
        ),
        left: fallback(
            st.padding.maybe_left,
            match theme.maybe_canvas_split {
                Some(entry) => Some(entry.padding.maybe_left),
                None => None,
            },
            theme.padding.left,
        ),
        right: fallback(
            st.padding.maybe_right,
            match theme.maybe_canvas_split {
                Some(entry) => Some(entry.padding.maybe_right),
                None => None,
            },
            theme.padding.right,
        ),
    }
}

/// The effective margin of a split with style `st` under `theme`, each edge
/// resolved through the fallback chain on its own.
pub open spec fn spec_margin(st: Style, theme: Theme) -> crate::position::Margin {
    crate::position::Margin {
        top: fallback(
            st.margin.maybe_top,
            match theme.maybe_canvas_split {
                Some(entry) => Some(entry.margin.maybe_top),
                None => None,
            },
            theme.margin.top,
        ),
        bottom: fallback(
            st.margin.maybe_bottom,
            match theme.maybe_canvas_split {
                Some(entry) => Some(entry.margin.maybe_bottom),
                None => None,
            },
            theme.margin.bottom,
        ),
        left: fallback(
            st.margin.maybe_left,
            match theme.maybe_canvas_split {
                Some(entry) => Some(entry.margin.maybe_left),
                None => None,
            },
            theme.margin.left,
        ),
        right: fallback(
            st.margin.maybe_right,
            match theme.maybe_canvas_split {
                Some(entry) => Some(entry.margin.maybe_right),
                None => None,
            },
            theme.margin.right,
        ),
    }
}

impl Style {
    /// The style with every attribute left to the theme.
    pub open spec fn empty() -> Style {
        Style {
            maybe_frame: None,
            maybe_frame_color: None,
            maybe_color: None,
            padding: Padding {
                maybe_top: None,
                maybe_bottom: None,
                maybe_left: None,
                maybe_right: None,
            },
            margin: Margin {
                maybe_top: None,
                maybe_bottom: None,
                maybe_left: None,
                maybe_right: None,
            },
        }
    }

    /// Construct a default style: every attribute left to the theme.
    pub fn new() -> (st: Style)
        ensures
            st == Style::empty(),
    {
        Style {
            maybe_frame: None,
            maybe_frame_color: None,
            maybe_color: None,
            padding: Padding::new(),
            margin: Margin::new(),
        }
    }

    /// The effective fill color for the split's element.
    pub fn color(&self, theme: &Theme) -> (c: Color)
        ensures
            c == spec_color(*self, *theme),
    {
        let kind_entry: Option<Option<Color>> = match &theme.maybe_canvas_split {
            Some(entry) => Some(entry.maybe_color),
            None => None,
        };
        resolve_attribute(self.maybe_color, kind_entry, theme.background_color)
    }

    /// The effective frame width for the split's element.
    pub fn frame(&self, theme: &Theme) -> (w: Scalar)
        ensures
            w == spec_frame(*self, *theme),
    {
        let kind_entry: Option<Option<Scalar>> = match &theme.maybe_canvas_split {
            Some(entry) => Some(entry.maybe_frame),
            None => None,
        };
        resolve_attribute(self.maybe_frame, kind_entry, theme.frame_width)
    }

    /// The effective frame color for the split's element.
    pub fn frame_color(&self, theme: &Theme) -> (c: Color)
        ensures
            c == spec_frame_color(*self, *theme),
    {
        let kind_entry: Option<Option<Color>> = match &theme.maybe_canvas_split {
            Some(entry) => Some(entry.maybe_frame_color),
            None => None,
        };
        resolve_attribute(self.maybe_frame_color, kind_entry, theme.frame_color)
    }

    /// The effective padding for the split.
    pub fn padding(&self, theme: &Theme) -> (p: crate::position::Padding)
        ensures
            p == spec_padding(*self, *theme),
    {
        let kind_padding: Option<Padding> = match &theme.maybe_canvas_split {
            Some(entry) => Some(entry.padding),
            None => None,
        };
        crate::position::Padding {
            top: resolve_attribute(
                self.padding.maybe_top,
                match kind_padding {
                    Some(p) => Some(p.maybe_top),
                    None => None,
                },
                theme.padding.top,
            ),
            bottom: resolve_attribute(
                self.padding.maybe_bottom,
                match kind_padding {
                    Some(p) => Some(p.maybe_bottom),
                    None => None,
                },
                theme.padding.bottom,
            ),
            left: resolve_attribute(
                self.padding.maybe_left,
                match kind_padding {
                    Some(p) => Some(p.maybe_left),
                    None => None,
                },
                theme.padding.left,
            ),
            right: resolve_attribute(
                self.padding.maybe_right,
                match kind_padding {
                    Some(p) => Some(p.maybe_right),
                    None => None,
                },
                theme.padding.right,
            ),
        }
    }

    /// The effective margin for the split.
    pub fn margin(&self, theme: &Theme) -> (m: crate::position::Margin)
        ensures
            m == spec_margin(*self, *theme),
    {
        let kind_margin: Option<Margin> = match &theme.maybe_canvas_split {
            Some(entry) => Some(entry.margin),
            None => None,
        };
        crate::position::Margin {
            top: resolve_attribute(
                self.margin.maybe_top,
                match kind_margin {
                    Some(m) => Some(m.maybe_top),
                    None => None,
                },
                theme.margin.top,
            ),
            bottom: resolve_attribute(
                self.margin.maybe_bottom,
                match kind_margin {
                    Some(m) => Some(m.maybe_bottom),
                    None => None,
                },
                theme.margin.bottom,
            ),
            left: resolve_attribute(
                self.margin.maybe_left,
                match kind_margin {
                    Some(m) => Some(m.maybe_left),
                    None => None,
                },
                theme.margin.left,
            ),
            right: resolve_attribute(
                self.margin.maybe_right,
                match kind_margin {
                    Some(m) => Some(m.maybe_right),
                    None => None,
                },
                theme.margin.right,
            ),
        }
    }
}

impl Padding {
    /// Construct a default padding override: every edge left to the theme.
    pub fn new() -> (p: Padding)
        ensures
            p == (Padding {
                maybe_top: None::<Scalar>,
                maybe_bottom: None::<Scalar>,
                maybe_left: None::<Scalar>,
                maybe_right: None::<Scalar>,
            }),
    {
        Padding { maybe_top: None, maybe_bottom: None, maybe_left: None, maybe_right: None }
    }
}

impl Margin {
    /// Construct a default margin override: every edge left to the theme.
    pub fn new() -> (m: Margin)
        ensures
            m == (Margin {
                maybe_top: None::<Scalar>,
                maybe_bottom: None::<Scalar>,
                maybe_left: None::<Scalar>,
                maybe_right: None::<Scalar>,
            }),
    {
        Margin { maybe_top: None, maybe_bottom: None, maybe_left: None, maybe_right: None }
    }
}

} // verus!
