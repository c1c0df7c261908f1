//! Character-grid video playback core: a 2D grid coordinate type, a
//! double-buffered character grid with change diffing, a pixel-plane
//! stride corrector, a wall-clock playback pacer, a debounced audio
//! bell latch, and the per-frame rendering steps that tie them together.

pub mod glyph;
pub mod pacer;
pub mod plane;
pub mod position;
pub mod render;
pub mod ringer;
pub mod screen;

pub use glyph::gray_to_char;
pub use pacer::Pacer;
pub use position::floorcast;
pub use position::Position;
pub use position::Visible;
pub use render::Options;
pub use ringer::Ringer;
pub use screen::Screen;
pub use screen::BLANK;
