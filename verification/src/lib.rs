//! The parts of a terminal application that decide: how a pane is connected again,
//! whether a release is what was signed, and how X11 is forwarded through a server
//! that the application brings up itself.

pub mod secret;
pub mod terminal;
pub mod text;
pub mod update;
pub mod x11;
