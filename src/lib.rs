//! Dispatch layer over heterogeneous speech synthesizers and Braille displays.
//!
//! The library keeps a registry of backends, resolves which backend serves a
//! request from partial criteria (backend name, voice name, language), routes
//! speech either to a backend's own playback or through a shared audio sink,
//! and merges speech and Braille outcomes into one result.
pub mod audio;
pub mod backends;
pub mod catalog;
pub mod codes;
pub mod dispatch;
pub mod error;
pub mod laws;
pub mod metadata;
pub mod registry;
pub mod rules;
pub mod selection;
