//! Widgets, styles and the elements they are built into.

pub mod color;
pub mod decimal;
pub mod dictionary;
pub mod document;
pub mod element;
pub mod font;
pub mod laws;
pub mod size;
pub mod style;
pub mod view;
pub mod widget;
