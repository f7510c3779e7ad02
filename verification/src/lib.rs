//! Verified core of a tray-icon CPU animation.
//!
//! A background sampler measures host CPU utilization and publishes it into a
//! single-slot, latest-value-wins cell. An animator loop reads the freshest
//! sample without blocking, maps it to a per-frame delay, advances a cyclic
//! frame index, and emits a frame-change command. A small state machine
//! decides how menu and theme events change the tray's presentation state.
//!
//! This crate holds the data model and every decision of that pipeline; the
//! surrounding application owns the OS query, the timers and the tray widgets
//! and only performs what the functions here decide.

pub mod animator;
pub mod frame;
pub mod icon_resource;
pub mod latest;
pub mod rate;
pub mod tray_state;

pub use animator::AnimatorState;
pub use frame::MAX_RUN_ICON_INDEX;
pub use icon_resource::IconResourcePath;
pub use latest::LatestCell;
pub use rate::CpuSample;
