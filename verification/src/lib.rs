//! Text pipeline of a "now playing" status-bar widget: cleaning a track title,
//! shortening the display text to a character budget with an ellipsis in the
//! middle, and wrapping it in a markup line.

pub mod config;
pub mod error;
pub mod feat;
pub mod markup;
pub mod pipeline;
pub mod truncate;
