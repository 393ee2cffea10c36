//! Command dispatch and session bookkeeping for a process that drives native
//! windows with embedded web views over a line-oriented JSON protocol.
pub mod text;
pub mod decimal;
pub mod json;
pub mod protocol;
pub mod registry;
pub mod shapes;
pub mod config;
pub mod request;
pub mod monitor;
pub mod response;
pub mod event;
pub mod application;
pub mod pending;
pub mod laws;
