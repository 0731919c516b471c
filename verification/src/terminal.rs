//! The terminal panel: what it paints, what it sends, and how its tabs behave.
pub mod codec;
pub mod feed;
pub mod laws;
pub mod panel;
pub mod tabs;
pub mod view;
