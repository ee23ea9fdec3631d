//! A verified core for a VST 3 plugin host: result codes, the decisions taken
//! while a plugin module is loaded, text read from fixed C buffers, and the
//! geometry exchanged with a plugin's editor view.

pub mod result_code;
pub mod text;
pub mod plugin;
pub mod loader;
pub mod geometry;
pub mod host;
pub mod bundle;

pub use result_code::{KResult, TResult};
