//! Verified core of a documentation-site builder and of its live-reload
//! development server.
//!
//! The crate holds the decisions of the development server (debouncing of
//! change notifications, serialising rebuilds, fanning reload signals out to
//! browser sessions, and answering HTTP requests) together with the
//! configuration builder and the page generator. Reading files, watching
//! directories and talking to sockets is left to the program that embeds the
//! library.

pub mod bus;
pub mod config_builder;
pub mod content;
pub mod coordinator;
pub mod css;
pub mod customize;
pub mod debounce;
pub mod detect;
pub mod http;
pub mod interactive;
pub mod javascript;
pub mod listing;
pub mod markdown;
pub mod reorder;
pub mod session;
pub mod sidebar;
pub mod site;
pub mod text;
