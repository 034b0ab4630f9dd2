//! A library that renders a tree of styled document nodes into a flat
//! BBCode-like markup string. Leaf and composite node kinds (styled text,
//! key-value pairs, lists, images, spoilers) render bottom-up; a deferred
//! reference node stands for an externally stored sub-document that is
//! decoded and rendered once its text has been handed in.

pub mod style;
pub mod numeral;
pub mod render;
pub mod nodes;
pub mod deferred;
pub mod schema;
