//! The app's shell.
pub mod paths;
pub mod projects;
pub mod sidebar;
