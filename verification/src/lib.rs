pub mod grid;
pub mod playback;
pub mod render;
