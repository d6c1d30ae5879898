//! Control core of a network-connected addressable LED strip controller.
//!
//! The crate verifies the two correctness-critical pieces of the firmware:
//! the wifi connection state manager (a state machine over an unreliable
//! radio link) and the animation playback coordinator (a paced loop that
//! interleaves frame production, live reconfiguration and program swaps).
//! Hardware drivers, persistent storage and the HTTP surface are external
//! collaborators: the functions here take their outcomes as plain values
//! and decide every state transition, so the decisions themselves carry
//! machine-checked contracts.

pub mod errors;
pub mod led_strip_animations;
pub mod playback_trace;
pub mod program_codec;
pub mod wifi_manager;
