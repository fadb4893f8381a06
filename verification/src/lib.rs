//! Retained-mode view composition and incremental-redraw engine for a
//! touchscreen e-reader interface.
//!
//! Screens are trees of heterogeneous view nodes.  Events are dispatched
//! through the tree; visual changes are expressed as a queue of screen-region
//! update requests consumed by an e-ink display driver.

pub mod address_bar;
pub mod common;
pub mod context;
pub mod event;
pub mod geom;
pub mod home;
pub mod http;
pub mod laws;
pub mod node;
pub mod overlay;
pub mod render;
pub mod rotation;
pub mod works;
