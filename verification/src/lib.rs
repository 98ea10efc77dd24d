//! A small library for rendering scalable vector graphics (SVG) icons.
//!
//! An icon is described by a shape (its viewport, namespace, drawing
//! primitives and stroke/fill policy) together with caller-supplied display
//! attributes (size, fill color, CSS class, inline style). Rendering produces
//! a plain markup tree that a host GUI framework can serialize or diff.

pub mod icons;
pub mod markup;
pub mod render;
pub mod shape;

pub use render::Icon;
pub use render::IconProps;
pub use shape::IconShape;
