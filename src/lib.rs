//! A small console logger: severity-tagged, optionally coloured and indexed
//! messages, shaped by a compact bitmask of formatting options.
//!
//! The library decides what each log call produces; the host writes the
//! resulting lines to standard error and to a file sink.
pub mod flags;
pub mod laws;
pub mod level;
pub mod logs;
pub mod paint;
pub mod render;
pub mod text;
