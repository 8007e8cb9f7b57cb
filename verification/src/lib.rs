//! Host-side logic for a set of small GPU demonstrations: a linear buffer
//! copy, an image clear with readback, a compute dispatch and a fractal
//! renderer. The crate decides what is recorded, in which order it is
//! submitted and read, and whether what came back is what was asked for.
//! Talking to the device itself is left to the caller.

pub mod commands;
pub mod device;
pub mod export;
pub mod model;
pub mod submission;
pub mod linear_copy;
pub mod image_clear;
pub mod readback;
pub mod compute;
pub mod mandelbrot;
pub mod render_win;
