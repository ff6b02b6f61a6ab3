//! A small engine that writes a sampled colour as text, either through one
//! of the built-in formats or through a template of the user's, together
//! with the arithmetic of the colour picker around it: which pixels to
//! capture, how to draw the magnifying glass, and what to do about the
//! events of the display server.
//!
//! The engine: `color` holds the colour sample, `number` writes one
//! channel in a base, `grammar` says what a template is, `parser` reads
//! one, `template` writes what it stands for, `preset` holds the built-in
//! formats and `config` chooses between the two. `compose`, `equivalence`,
//! `laws` and `width` state what holds of them together.
//!
//! The picker: `location`, `draw`, `pixel`, `preview`, `selection` and
//! `util`.

pub mod color;
pub mod compose;
pub mod config;
pub mod draw;
pub mod equivalence;
pub mod error;
pub mod grammar;
pub mod laws;
pub mod location;
pub mod number;
pub mod parser;
pub mod pixel;
pub mod preset;
pub mod preview;
pub mod selection;
pub mod template;
pub mod text;
pub mod util;
pub mod width;
