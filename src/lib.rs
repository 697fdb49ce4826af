//! Input bridge: turns raw device events into pointer and key events,
//! hands them across a bounded queue, and decides how each frame delivers
//! them to the subscriber registered for their class.
pub mod device;
pub mod dispatch;
pub mod event;
pub mod handoff;
pub mod normalize;
pub mod poll;
