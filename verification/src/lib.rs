//! Verified core of a single-screen ball-and-paddle arcade game.
//!
//! The crate covers the per-frame gameplay loop: mapping raw device input to
//! abstract actions, turning held directions into a bounded paddle
//! displacement, the ball's armed/in-play launch state machine, and the
//! dispatch of collision events to sound requests.  Positions, speeds and
//! impulses are held as fixed-point integers (subunits); the surrounding
//! engine — rendering, rigid-body integration, audio output — stays outside
//! and talks to this core through plain values.

pub mod actions;
pub mod ball;
pub mod events;
pub mod field;
pub mod paddle;
pub mod session;
