//! A scrollable view of one text file beside a line-number gutter: the
//! document model, the clamped scroll state, the gutter's sizing and the
//! rows that a frame shows.

pub mod document;
pub mod geometry;
pub mod gutter;
pub mod input;
pub mod render;
pub mod view;
pub mod viewport;

pub use view::{App, LogView};
