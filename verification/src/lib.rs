//! A small panel driver core: two interrupt-latched buttons feed a counter
//! that is rendered, together with a clock reading, as text lines on a
//! low-resolution display.
//!
//! The crate holds the verified logic only: the edge latch protocol, the
//! counter update rule, decimal text rendering, and the per-iteration
//! refresh step that turns the state into draw commands. The hardware
//! (GPIO interrupts, the SPI display, the clock and the delay) lives in
//! the surrounding application, which feeds plain values in and carries
//! the draw commands out.

pub mod counter;
pub mod latch;
pub mod laws;
pub mod panel;
pub mod render;
pub mod text;
