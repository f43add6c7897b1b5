//! Typed construction, validation and ownership layer over a Direct3D 11
//! style native device API.
//!
//! Nothing in this crate touches the native subsystem itself. The builders
//! validate a configuration and assemble the request of the one native
//! creation call; the caller supplies that call and hands its reply back.

pub mod device;
pub mod device_child;
pub mod device_context;
pub mod enums;
pub mod error;
pub mod helpers;
pub mod interop;
pub mod resource;
pub mod texture2d;

pub use crate::device::Device;
pub use crate::device_context::DeviceContext;
pub use crate::texture2d::Texture2D;
