//! The decisions of a small Vulkan program that shows one texture on a quad:
//! which physical device and queue family to render with, how the swapchain
//! is set up, how the texture is decoded from PNG bytes, and how the window
//! events drive the frame loop.
pub mod device;
pub mod frame;
pub mod swapchain;
pub mod texture;
