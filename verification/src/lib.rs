//! Device lifecycle and frame presentation rules of a small real-time
//! renderer, stated over plain values and proved.
//!
//! The crate holds the decisions a renderer takes around a graphics API:
//! which physical device and queue families to use, how a swapchain is
//! negotiated against the capabilities of a surface, which memory type backs
//! an image, how frames in flight are bounded, in which order resources are
//! torn down and how the render loop reacts to window events. Beside them
//! stand the settings of the program and their text, the lines of its log
//! and what it tells of the machine it runs on.
//!
//! Nothing here opens a window, reads a file or talks to a device: the
//! program that embeds the crate does, and hands over plain values.

pub mod device_info;
pub mod error;
pub mod file;
pub mod ini;
pub mod ini_laws;
pub mod layer;
pub mod log_flags;
pub mod rendering;
pub mod sys_log;
pub mod text;
pub mod vulkan;
pub mod window;
