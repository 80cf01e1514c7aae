//! Driver for a 240x416 black/white e-paper panel on a 4-wire serial bus.
//!
//! The driver decides *what* goes on the bus: every operation returns the
//! exact sequence of protocol steps for the panel, and each step can be
//! lowered into line levels and byte writes with [`interface::frame`].
//! Performing those signals on real hardware is left to the caller.

pub mod color;
pub mod command;
pub mod epd;
pub mod graphics;
pub mod interface;

pub use color::{Color, DisplayRotation, RefreshLut};
pub use command::Command;
pub use epd::{EPD3in71bw, EpdError, WaveformSet, BUFFER_LEN, DEFAULT_BACKGROUND_COLOR, HEIGHT, WIDTH};
pub use graphics::Display3in71;
pub use interface::{Signal, Step};
