//! The backend of a desktop media player's shell: a local resource protocol
//! with byte-range support, and the tray menu's mirror of playback state.

pub mod decimal;
pub mod http;
pub mod listing;
pub mod range;
pub mod resource;
pub mod text;
pub mod tray;

pub use range::parse_range;
