//! A minimal real-time rendering harness: a procedurally generated RGBA
//! frame is rebuilt on the CPU every iteration, uploaded as a texture, and
//! drawn onto a full-screen quad, while a once-per-second frame-rate report
//! is emitted.
//!
//! This crate holds the verified core: the image generator, the render-loop
//! state machine (close and resize handling, frame-rate accounting), and the
//! GPU pipeline's setup state machine. The surrounding program owns the
//! window, the GL context and the clock, and feeds their observations in as
//! plain values.

pub mod image;
pub mod pipeline;
pub mod state;
