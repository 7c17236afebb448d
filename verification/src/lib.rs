//! Verified planning core for a real-time GPU ray tracer.
//!
//! The renderer dispatches a compute pass that writes ray-traced colors into
//! an off-screen texture, then presents that texture with a full-screen quad.
//! Everything the GPU driver must be told — which bindings exist and in what
//! order, how large the camera buffers are, how many workgroups to dispatch,
//! how the swap chain reacts to a resize, and what to do after a failed
//! present — is decided here as plain data with proved contracts.  The
//! windowing and device plumbing interprets these plans.

pub mod bindings;
pub mod camera;
pub mod events;
pub mod frame;
pub mod surface;
pub mod texture;
