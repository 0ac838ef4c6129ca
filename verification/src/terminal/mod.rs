//! Terminal panes.

pub mod pane;
pub mod reconnect;
pub mod reconnect_laws;
