//! A retained-mode terminal UI core: a component tree with relative-to-absolute
//! layout resolution, dirty tracking, focus traversal, a clipped draw context,
//! fixed-point color blending and animation, and a sub-cell scrollbar renderer.

pub mod action;
pub mod app;
pub mod animation;
pub mod color;
pub mod component;
pub mod draw;
pub mod event;
pub mod events;
pub mod fixed;
pub mod focus;
pub mod geometry;
pub mod layout;
pub mod line_spacer;
pub mod rect;
pub mod scrollbar;
pub mod text;
pub mod widgets;
