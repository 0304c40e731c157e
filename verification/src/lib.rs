//! Single-use pipeline stages over asynchronous byte streams.
//!
//! A [`Pipe`](pipe::Pipe) wraps a splittable stream stage and may be consumed
//! exactly once: either materialized into a stream handle, or divided into
//! two sub-stages that are consumed independently.

mod errors;
mod pipe;
mod taps;

pub use errors::Error;
pub use pipe::consumed_message;
pub use pipe::hold;
pub use pipe::hold_mut;
pub use pipe::not_mutable_message;
pub use pipe::splitter;
pub use pipe::splitter_mut;
pub use pipe::Held;
pub use pipe::HeldMut;
pub use pipe::Pipe;
pub use pipe::Splitter;
pub use pipe::SplitterMut;
pub use taps::tap_bytes;
pub use taps::tap_granted;
pub use taps::tap_mut_bytes;
pub use taps::tap_mut_granted;
pub use taps::Tap;
pub use taps::TapMut;
