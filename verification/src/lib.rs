//! Core logic of a small portfolio page: the pointer-tracking eye geometry,
//! the tracking component's event lifecycle, the style text it emits, the
//! one-shot viewport layout classifier, and the route table.
//!
//! Rendering, event subscription and DOM mutation are left to the UI layer;
//! everything here is plain data and verified arithmetic.

pub mod geometry;
pub mod layout;
pub mod routing;
pub mod style;
pub mod tracker;
