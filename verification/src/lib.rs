//! A canvas-split layout library: a declarative tree of nested rectangular
//! regions is resolved into absolute screen-space geometry and drawable
//! rectangles, with a three-tier style cascade (node override, per-kind theme
//! override, global theme default) deciding every style attribute.

pub mod color;
pub mod element;
pub mod laws;
pub mod position;
pub mod split;
pub mod theme;
pub mod ui;
