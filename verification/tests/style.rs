use canvas_split::color::Color;
use canvas_split::split::{Margin, Padding, Split, Style};
use canvas_split::theme::Theme;
use canvas_split::ui::Ui;

fn red() -> Color {
    Color::rgba(255, 0, 0, 255)
}

fn green() -> Color {
    Color::rgba(0, 255, 0, 255)
}

fn blue() -> Color {
    Color::rgba(0, 0, 255, 255)
}

fn theme_with_kind_entry() -> Theme {
    let mut theme = Theme::new();
    theme.background_color = blue();
    let mut entry = Style::new();
    entry.maybe_color = Some(green());
    entry.maybe_frame = Some(7);
    entry.padding.maybe_left = Some(4);
    entry.margin.maybe_top = Some(6);
    theme.maybe_canvas_split = Some(entry);
    theme
}

#[test]
fn local_override_beats_kind_entry_and_default() {
    let theme = theme_with_kind_entry();
    let mut style = Style::new();
    style.maybe_color = Some(red());
    assert_eq!(style.color(&theme), red());
}

#[test]
fn kind_entry_beats_global_default() {
    let theme = theme_with_kind_entry();
    let style = Style::new();
    assert_eq!(style.color(&theme), green());
    assert_eq!(style.frame(&theme), 7);
    assert_eq!(style.padding(&theme).left, 4);
    assert_eq!(style.margin(&theme).top, 6);
}

#[test]
fn global_default_applies_when_nothing_is_set() {
    let mut theme = Theme::new();
    theme.background_color = blue();
    theme.frame_width = 2;
    theme.padding.right = 9;
    let style = Style::new();
    assert_eq!(style.color(&theme), blue());
    assert_eq!(style.frame(&theme), 2);
    assert_eq!(style.padding(&theme).right, 9);
    assert_eq!(style.margin(&theme).top, 0);
}

#[test]
fn unset_kind_attribute_falls_through_to_default() {
    // The per-kind bundle exists but leaves the frame color unset: the
    // global default applies, not a zero.
    let theme = theme_with_kind_entry();
    let style = Style::new();
    assert_eq!(style.frame_color(&theme), theme.frame_color);
    // Edges the bundle leaves unset fall through edge by edge.
    assert_eq!(style.padding(&theme).right, 0);
}

#[test]
fn resolved_style_drives_the_drawn_element() {
    let mut theme = Theme::new();
    theme.background_color = blue();
    let mut ui = Ui::new(100, 100, theme);
    Split::new(0).frame(5).frame_color(red()).set(&mut ui);
    let element = ui.canvas(0).unwrap().maybe_element.unwrap();
    assert_eq!(element.frame_form.color, red());
    assert_eq!(element.inner_form.color, blue());
    assert_eq!((element.frame_form.width, element.inner_form.width), (100, 90));
}

#[test]
fn builders_record_each_field() {
    let s = Split::new(3)
        .length(40)
        .pad_left(1)
        .pad_right(2)
        .pad_top(3)
        .pad_bottom(4)
        .margin_left(5)
        .margin_right(6)
        .margin_top(7)
        .margin_bottom(8);
    assert_eq!(s.id, 3);
    assert_eq!(s.maybe_length, Some(40));
    assert_eq!(s.style.padding.maybe_left, Some(1));
    assert_eq!(s.style.padding.maybe_right, Some(2));
    assert_eq!(s.style.padding.maybe_top, Some(3));
    assert_eq!(s.style.padding.maybe_bottom, Some(4));
    assert_eq!(s.style.margin.maybe_left, Some(5));
    assert_eq!(s.style.margin.maybe_right, Some(6));
    assert_eq!(s.style.margin.maybe_top, Some(7));
    assert_eq!(s.style.margin.maybe_bottom, Some(8));
    assert!(s.maybe_splits.is_none());
}

#[test]
fn pad_and_margin_set_all_edges() {
    let s = Split::new(0).pad(9).margin(11);
    assert_eq!(s.style.padding.maybe_top, Some(9));
    assert_eq!(s.style.padding.maybe_bottom, Some(9));
    assert_eq!(s.style.padding.maybe_left, Some(9));
    assert_eq!(s.style.padding.maybe_right, Some(9));
    assert_eq!(s.style.margin.maybe_top, Some(11));
    assert_eq!(s.style.margin.maybe_bottom, Some(11));
    assert_eq!(s.style.margin.maybe_left, Some(11));
    assert_eq!(s.style.margin.maybe_right, Some(11));
}

#[test]
fn new_style_and_edges_are_unset() {
    let style = Style::new();
    assert_eq!(style.maybe_color, None);
    assert_eq!(style.maybe_frame, None);
    assert_eq!(style.maybe_frame_color, None);
    assert_eq!(Padding::new(), style.padding);
    assert_eq!(Margin::new(), style.margin);
    assert_eq!(Padding::new().maybe_left, None);
    assert_eq!(Margin::new().maybe_bottom, None);
}

#[test]
fn zero_override_is_distinct_from_unset() {
    let mut theme = Theme::new();
    theme.frame_width = 5;
    let mut style = Style::new();
    assert_eq!(style.frame(&theme), 5);
    style.maybe_frame = Some(0);
    assert_eq!(style.frame(&theme), 0);
}
