//! Verified decision logic of the Nephrite Vulkan front end: physical device
//! selection, queue family lookup, instance layer and extension planning,
//! debug message routing and the application life cycle.

pub mod debug;
pub mod device;
pub mod error;
pub mod icon;
pub mod instance;
pub mod lifecycle;
pub mod queue_family;
mod sealed;
pub mod state;
pub mod vkfacts;
