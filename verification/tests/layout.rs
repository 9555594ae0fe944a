use canvas_split::position::Direction;
use canvas_split::split::Split;
use canvas_split::theme::Theme;
use canvas_split::ui::Ui;

fn leaf(id: usize) -> Split {
    Split::new(id)
}

#[test]
fn leaf_resolves_to_single_region() {
    let mut ui = Ui::new(200, 100, Theme::new());
    Split::new(7).margin(5).set(&mut ui);
    assert_eq!(ui.regions.len(), 1);
    let region = &ui.regions[0];
    assert_eq!(region.id, 7);
    assert_eq!(region.xy, (0, 0));
    assert_eq!(region.widget_area_dim, (190, 90));
}

#[test]
fn down_flow_fixed_then_flexible() {
    // Root window 200x100, flow Down: a fixed child of length 30, then a
    // flexible child that receives the remaining 70.
    let mut ui = Ui::new(200, 100, Theme::new());
    Split::new(0)
        .flow_down(vec![Split::new(1).length(30), Split::new(2)])
        .set(&mut ui);
    assert_eq!(ui.regions.len(), 3);

    let first = ui.canvas(1).unwrap();
    assert_eq!(first.widget_area_dim, (200, 30));
    assert_eq!(first.xy, (0, 35));

    let second = ui.canvas(2).unwrap();
    assert_eq!(second.widget_area_dim, (200, 70));
    assert_eq!(second.xy, (0, -15));

    // First child spans [20, 50], second [-50, 20]: contiguous, below it.
    let root = ui.canvas(0).unwrap();
    assert_eq!(root.widget_area_dim, (200, 100));
    assert_eq!(root.xy, (0, 0));
}

#[test]
fn right_flow_three_flexible() {
    // Three flexible children under Right flow, padded width 90: each gets
    // width 30, full cross height, x-centres increasing left to right.
    let mut ui = Ui::new(90, 60, Theme::new());
    Split::new(0)
        .flow_right(vec![leaf(1), leaf(2), leaf(3)])
        .set(&mut ui);

    let xs: Vec<i64> = [1usize, 2, 3]
        .iter()
        .map(|id| ui.canvas(*id).unwrap().xy.0)
        .collect();
    assert_eq!(xs, vec![-30, 0, 30]);
    for id in 1usize..=3 {
        let region = ui.canvas(id).unwrap();
        assert_eq!(region.widget_area_dim, (30, 60));
        assert_eq!(region.xy.1, 0);
    }
}

#[test]
fn space_is_conserved_under_mixed_children() {
    // Width 100, one fixed 40 plus two flexible: shares of 30 each, and the
    // allocated widths sum to the parent's padded extent.
    let mut ui = Ui::new(100, 50, Theme::new());
    Split::new(0)
        .flow_right(vec![Split::new(1).length(40), leaf(2), leaf(3)])
        .set(&mut ui);
    let w1 = ui.canvas(1).unwrap().widget_area_dim.0;
    let w2 = ui.canvas(2).unwrap().widget_area_dim.0;
    let w3 = ui.canvas(3).unwrap().widget_area_dim.0;
    assert_eq!((w1, w2, w3), (40, 30, 30));
    assert_eq!(w1 + w2 + w3, 100);
}

#[test]
fn fixed_only_children_keep_exact_lengths() {
    // With no flexible sibling every child keeps its own fixed length and
    // the cross-axis extent collapses to zero.
    let mut ui = Ui::new(200, 100, Theme::new());
    Split::new(0)
        .flow_down(vec![Split::new(1).length(30), Split::new(2).length(50)])
        .set(&mut ui);
    assert_eq!(ui.canvas(1).unwrap().widget_area_dim, (0, 30));
    assert_eq!(ui.canvas(2).unwrap().widget_area_dim, (0, 50));
}

#[test]
fn overconstrained_flexible_child_clamps_to_zero() {
    // The fixed children already overflow the height: the flexible child's
    // share is clamped to zero, not driven negative.
    let mut ui = Ui::new(200, 50, Theme::new());
    Split::new(0)
        .flow_down(vec![
            Split::new(1).length(40),
            Split::new(2).length(40),
            Split::new(3),
        ])
        .set(&mut ui);
    assert_eq!(ui.canvas(3).unwrap().widget_area_dim, (200, 0));
}

#[test]
fn margin_frame_padding_compose_in_order() {
    // Outer 100x100 with margin 5, frame 3, padding 2: the single flexible
    // child sees 100 - 2*5 - 2*3 - 2*2 = 80 on both axes.
    let mut ui = Ui::new(100, 100, Theme::new());
    Split::new(0)
        .margin(5)
        .frame(3)
        .pad(2)
        .flow_down(vec![leaf(1)])
        .set(&mut ui);
    assert_eq!(ui.canvas(1).unwrap().widget_area_dim, (80, 80));
    let root = ui.canvas(0).unwrap();
    assert_eq!(root.widget_area_dim, (90, 90));
    let element = root.maybe_element.unwrap();
    assert_eq!((element.frame_form.width, element.frame_form.height), (90, 90));
    assert_eq!((element.inner_form.width, element.inner_form.height), (84, 84));
}

#[test]
fn negative_dimensions_are_recorded_unclamped_for_the_node() {
    // A node whose margins over-consume its allocation records its negative
    // widget dimensions as computed; only subdivision clamps at zero.
    let mut ui = Ui::new(10, 10, Theme::new());
    Split::new(0).margin(20).flow_down(vec![leaf(1)]).set(&mut ui);
    assert_eq!(ui.canvas(0).unwrap().widget_area_dim, (-30, -30));
    assert_eq!(ui.canvas(1).unwrap().widget_area_dim, (0, 0));
}

#[test]
fn up_and_left_flows_mirror_down_and_right() {
    let mut ui = Ui::new(200, 100, Theme::new());
    Split::new(0)
        .flow_up(vec![Split::new(1).length(30), Split::new(2)])
        .set(&mut ui);
    assert_eq!(ui.canvas(1).unwrap().xy, (0, -35));
    assert_eq!(ui.canvas(2).unwrap().xy, (0, 15));

    let mut ui2 = Ui::new(90, 60, Theme::new());
    Split::new(0).flow_left(vec![leaf(1), leaf(2), leaf(3)]).set(&mut ui2);
    let xs: Vec<i64> = [1usize, 2, 3]
        .iter()
        .map(|id| ui2.canvas(*id).unwrap().xy.0)
        .collect();
    assert_eq!(xs, vec![30, 0, -30]);
}

#[test]
fn padding_offset_axes_are_swapped() {
    // The padding offset deliberately feeds bottom-top into x and
    // left-right into y before children are placed.
    let mut ui = Ui::new(100, 100, Theme::new());
    Split::new(0).pad_bottom(10).flow_down(vec![leaf(1)]).set(&mut ui);
    let child = ui.canvas(1).unwrap();
    // pad offset x = bottom - top = 10; child height 90, centred at
    // x = 10, y = 10/2... start y = 0 + 90/2 = 45, step 45 -> 0.
    assert_eq!(child.xy, (10, 0));
    assert_eq!(child.widget_area_dim, (100, 90));
}

fn sample_tree() -> Split {
    Split::new(0)
        .margin(2)
        .pad(1)
        .flow_down(vec![
            Split::new(1).length(30),
            Split::new(2).flow_right(vec![Split::new(3), Split::new(4).length(10)]),
        ])
}

#[test]
fn resolution_is_idempotent() {
    let mut ui1 = Ui::new(200, 100, Theme::new());
    let mut ui2 = Ui::new(200, 100, Theme::new());
    sample_tree().set(&mut ui1);
    sample_tree().set(&mut ui2);
    assert_eq!(ui1.regions, ui2.regions);

    // A second pass on the same store appends the identical sequence.
    let first_pass = ui1.regions.clone();
    sample_tree().set(&mut ui1);
    assert_eq!(ui1.regions.len(), 2 * first_pass.len());
    assert_eq!(&ui1.regions[first_pass.len()..], &first_pass[..]);
}

#[test]
fn later_entries_supersede_earlier_ones() {
    let mut ui = Ui::new(100, 100, Theme::new());
    Split::new(5).set(&mut ui);
    Split::new(5).margin(10).set(&mut ui);
    assert_eq!(ui.regions.len(), 2);
    let region = ui.canvas(5).unwrap();
    assert_eq!(region.widget_area_dim, (80, 80));
    assert!(ui.canvas(6).is_none());
}

#[test]
fn direction_values_are_distinct() {
    assert_ne!(Direction::Up, Direction::Down);
    assert_ne!(Direction::Left, Direction::Right);
}
