//! The settings pages.
pub mod appearance;
pub mod developer;
pub mod nova;
pub mod pi;
pub mod pi_view;
