//! Supervision of a static-site tool's local preview server, and the small
//! pieces of logic around the editor's commands: decoding command output,
//! listing files, checking a project directory and freeing a port.
pub mod text;
pub mod readiness;
pub mod report;
pub mod startup;
pub mod registry;
pub mod platform;
pub mod shutdown;
pub mod ports;
pub mod decode;
pub mod commands;
pub mod listing;
pub mod project;
