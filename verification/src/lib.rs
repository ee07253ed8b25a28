//! A verified model of the frame-rendering and swapchain-synchronization
//! core of a windowed renderer.
//!
//! The heart of the crate is [`sync::FrameSynchronizer`]: a state machine
//! that drives the acquire -> wait-on-fence -> submit -> present cycle,
//! owns per-image completion fences, and decides when the swapchain and
//! its derived per-frame resources must be rebuilt. The machine itself is
//! pure: every call into the windowing system or the graphics driver is an
//! [`sync::Action`] handed to the caller, and the caller reports what
//! happened as an [`sync::Event`]. The unverified binary around this
//! library performs the actions and feeds the events back.

pub mod device;
pub mod dispatch;
pub mod extent;
pub mod laws;
pub mod swapchain;
pub mod sync;
