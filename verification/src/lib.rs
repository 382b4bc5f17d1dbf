//! Mirrors remote repositories into local bare mirrors: the decisions of the
//! synchronization engine, stated and proved over plain values.

pub mod archive;
pub mod args;
pub mod config;
pub mod dispatch;
pub mod github;
pub mod mirror;
pub mod ssl;
pub mod text;
pub mod transport;
