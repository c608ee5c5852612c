//! Runtime core of a 2D arcade game: axis-aligned rectangle geometry,
//! a liveness wrapper for per-frame entity removal, a parallax background
//! scroller, and the decision logic of a fixed-interval game loop with a
//! view state machine. Rendering, audio and input I/O live outside this
//! crate; the functions here are pure and carry full contracts.

pub mod background;
pub mod data;
pub mod driver;
pub mod events;
