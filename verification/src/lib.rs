//! A standalone real-time convolution effect, as a verified library.
//!
//! One streaming convolution engine per audio channel is driven by a
//! block-synchronous process scheduler; a buffer-size change handler
//! reinitializes every engine when the audio host renegotiates its block
//! size; and a one-shot shutdown latch carries the host's termination
//! signal to the blocked control thread. The numeric convolution itself
//! runs in floating point on the real-time thread and is delegated to an
//! outside backend; this crate holds and verifies the control logic that
//! decides when that work may run and what every outcome means.

pub mod channels;
pub mod engine;
pub mod errors;
pub mod shutdown;
pub mod startup;
