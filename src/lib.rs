//! A small launcher for a proxy binary: server catalog, asset resolution,
//! configuration record, server-file cache decisions, launch command and
//! a supervisor state machine.
pub mod archive;
pub mod asset;
pub mod cache;
pub mod catalog;
pub mod config;
pub mod launch;
pub mod supervisor;
pub mod text;
