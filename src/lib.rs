//! Runtime core of the pincel overlay: an in-process event bus with a
//! subscriber registry, a double-buffered input state with edge detection,
//! a monotonic clock and the application lifecycle that drives them.

pub mod application;
pub mod clock;
pub mod color;
pub mod context;
pub mod event;
pub mod input;
pub mod keysym;
pub mod logger;
pub mod platform;
pub mod registry;
pub mod viewport;
