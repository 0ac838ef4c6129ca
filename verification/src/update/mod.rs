//! Updates of the application.

pub mod integrity;
