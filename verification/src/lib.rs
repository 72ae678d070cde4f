//! The drive loop of a touchscreen device: one cooperative cycle that samples
//! the touch controller, advances the animation, redraws through bounded row
//! batches and paces itself against a monotonic clock.

pub mod animation;
pub mod fault;
pub mod flush;
pub mod pacer;
pub mod panel;
pub mod region;
pub mod scheduler;
pub mod touch;
