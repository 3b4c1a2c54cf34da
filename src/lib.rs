pub mod color;
mod text;
pub mod glyph;
pub mod game;
pub mod error;
pub mod sprite;
pub mod driver;
