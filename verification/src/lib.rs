//! Helpers for writing Vulkan layers: the decoded form of a packed Vulkan
//! version number, and the function tags of the loader's layer create-info
//! chain.

pub mod layer;
pub mod version;

pub use crate::layer::LayerFunction;
pub use crate::version::{version_from_vulkan, Version};
