//! X11 forwarding through a managed VcXsrv server.

pub mod authority;
pub mod authority_laws;
pub mod display_search;
pub mod display_search_laws;
pub mod error;
pub mod forwarding;
pub mod job;
pub mod launch;
pub mod runtime;
pub mod runtime_dir;
pub mod runtime_registry;
pub mod setup;
pub mod start;
