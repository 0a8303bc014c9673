//! A verified interpreter core for an 8-bit virtual machine with a
//! 64x32 monochrome framebuffer, sixteen 8-bit registers, a 16-entry
//! call stack, two decaying timers and a 16-key input surface.
//!
//! The machine itself lives in [`machine`]; the sprite compositor and
//! its specification are in [`screen`]; [`laws`] states and proves the
//! properties that relate several operations.

pub mod laws;
pub mod machine;
pub mod screen;
