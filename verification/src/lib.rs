//! Driver core for black-and-white electrophoretic panels.
//!
//! The crate has two halves. [`framebuffer`] packs one bit per pixel into a
//! byte buffer and maps logical coordinates through a rotation. [`controller`]
//! sequences a panel through reset, initialisation, frame transfer, refresh
//! and deep sleep. The controller never touches hardware: every operation
//! yields the next [`wire::Action`] for the caller to perform, and the caller
//! reports back what happened as a [`wire::Event`].

pub mod color;
pub mod controller;
pub mod epd1in54;
pub mod epd4in2;
pub mod error;
pub mod framebuffer;
pub mod laws;
pub mod panel;
pub mod window;
pub mod wire;
