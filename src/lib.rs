//! Frame-pipelined GPU renderer core: the decisions a renderer makes around
//! its graphics device (device and swapchain negotiation, the frames-in-flight
//! cycle, deferred destruction of GPU resources, pipeline and descriptor
//! configuration, and the byte layouts shared with shaders), stated and
//! proved over plain values. The native graphics calls live with the caller.

pub mod version;
pub mod settings;
pub mod device;
pub mod swapchain;
pub mod resources;
pub mod frame;
pub mod pipeline;
pub mod descriptor;
pub mod gpu;
pub mod mesh;
pub mod renderer;
