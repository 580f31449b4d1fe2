//! Core of a launcher that instruments a locally running game client:
//! process discovery and classification, launch-command augmentation for
//! agent injection, line-oriented output streaming with a selectable
//! focused process, process lifecycle control, and artifact inspection
//! (archive configuration entries and content-hash verification).

pub mod config;
pub mod digest;
pub mod error;
pub mod launcher;
pub mod paths;
pub mod registry;
pub mod scan;
pub mod streamer;
pub mod strutil;
