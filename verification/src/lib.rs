//! Timeline-driven frame compositor core.
//!
//! The library resolves "what should be visible, and how, at playback time t"
//! from a declarative timeline model and plans the GPU work for the caption
//! layer: text shaping with retained state, style diffing, outline synthesis
//! and background quad placement.  All times are project-relative
//! milliseconds; colors are integer channels (0..=255) with alpha in
//! hundredths (0..=100), so every rule is stated and proved exactly.

pub mod captions;
pub mod compositor;
pub mod driver;
pub mod error;
pub mod events;
pub mod files;
pub mod hotkeys;
pub mod media;
pub mod permissions;
pub mod project;
pub mod strings;
pub mod style;
pub mod timeline;
pub mod uploads;
