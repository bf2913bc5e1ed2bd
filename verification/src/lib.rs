//! Interrupt-driven I2S protocol core: assembles 16-bit register half-words
//! into whole stereo sample frames (and back), decides what each data/error
//! interrupt must do for every role, direction and width, and hands completed
//! frames to a deferred consumer over a bounded non-blocking queue.
//!
//! Register access, pin muxing and interrupt dispatch are left to the
//! surrounding firmware: the functions here take plain status values and
//! return the actions to perform, so the whole decision layer is verified.

pub mod driver;
pub mod frame;
pub mod laws;
pub mod pattern;
pub mod queue;

pub use frame::Channel;
pub use frame::Frame;
pub use frame::FrameState;
pub use frame::Width;
