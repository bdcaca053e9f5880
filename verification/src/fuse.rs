//! The FUSE protocol server core: wire structures, the pluggable
//! filesystem interface, and the request dispatcher.

pub mod filesystem;
pub mod server;
pub mod sys;
