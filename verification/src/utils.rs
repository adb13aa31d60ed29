//! Reusable leaf components and the text subsystem.

pub mod button;
pub mod cursor;
pub mod glyph_cache;
pub mod input;
pub mod plane;
pub mod raw_text;
pub mod text;

pub use button::Button;
pub use cursor::Cursor;
pub use glyph_cache::GlyphCache;
pub use input::Input;
pub use plane::Plane;
pub use text::Text;
