//! Core logic of a clipboard-mediated capture-and-translate desktop utility:
//! a debounced double-copy gesture detector, a previous-window tracker, a
//! clipboard save/restore extraction protocol, synthetic key-chord planning,
//! and the orchestration rules that tie them together.

pub mod chunking;
pub mod clipboard;
pub mod gesture;
pub mod injector;
pub mod language;
pub mod orchestrator;
pub mod parse;
pub mod placement;
pub mod settings;
pub mod stream;
pub mod strutil;
pub mod tracker;
pub mod types;
