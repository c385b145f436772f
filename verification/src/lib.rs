//! An Intel 8080 interpreter together with the Space Invaders arcade host
//! logic: instruction decoding and execution with cycle accounting, the five
//! condition bits, the dedicated shift register, sound edge detection, the
//! 1 bpp framebuffer decode, and the vertical-blank interrupt cadence.
//!
//! Every instruction's effect is stated by a mathematical transition function
//! over an abstract machine state, and the executable interpreter is proved
//! to follow it step by step.

pub mod arith;
pub mod cpm;
pub mod cpu;
pub mod flags;
pub mod memory;
pub mod props;
pub mod spaceinvaders;
pub mod state;
pub mod timing;
pub mod step;
