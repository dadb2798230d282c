//! Host-side rules of a Vulkan renderer.
//!
//! Everything a Vulkan renderer decides before, between and after its device calls lives here as
//! verified code over plain values: who owns an image that is shared with another queue family,
//! which barrier moves it, what a dmabuf must look like to be imported, which part of a damage
//! list is drawn, and when a client buffer may be released.

pub mod barrier;
pub mod capabilities;
pub mod cleanup;
pub mod commands;
pub mod copy;
pub mod damage;
pub mod device;
pub mod dmabuf;
pub mod dmabuf_image;
pub mod error;
pub mod evidence;
pub mod extensions;
pub mod external_state;
pub mod fixtures;
pub mod format;
pub mod frame;
pub mod geometry;
pub mod history;
pub mod identity;
pub mod image;
pub mod image_sync;
pub mod import;
pub mod lifecycle;
pub mod loopback;
pub mod obligation;
pub mod policy;
pub mod release;
pub mod renderer;
pub mod sampling;
pub mod shared_sync;
pub mod surface;
pub mod sync;
pub mod syncobj;
pub mod target;
pub mod transaction;
pub mod transfer;
pub mod uv;
pub mod vk;
pub mod wayland;
