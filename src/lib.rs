//! Frame presentation engine: the acquire / wait / submit / present cycle of a
//! swapchain-backed render loop, with its per-image fence table and the
//! resize coordinator that decides when the swapchain and the pipeline are
//! rebuilt.
//!
//! The engine makes no GPU call itself. Each step takes what the device
//! reported (an acquired image index, a finished fence wait, a flushed
//! submission) and answers with the next [`scheduler::Action`] that the host
//! must perform.

pub mod extent;
pub mod guarantees;
pub mod resize;
pub mod scheduler;
pub mod slots;
pub mod swapchain;
