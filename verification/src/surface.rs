//! The swap-chain configuration the application owns.
//!
//! The surface's texel format, present mode and alpha mode come from the
//! adapter's capability lists (the first offered of each is taken); the
//! extent and the frame latency are the application's own decision, recorded
//! and maintained here.

use vstd::prelude::*;

verus! {

/// How many frames the presentation engine may queue ahead.
pub const DESIRED_MAXIMUM_FRAME_LATENCY: u32 = 2;

/// The decided fields of the surface configuration.
#[derive(Clone, Copy, Debug, PartialEq, Eq, Structural)]
pub struct SurfaceConfigPlan {
    pub width: u32,
    pub height: u32,
    pub desired_maximum_frame_latency: u32,
}

impl SurfaceConfigPlan {
    /// The configuration for a freshly created surface of the given extent.
    pub fn new(width: u32, height: u32) -> (p: SurfaceConfigPlan)
        ensures
            p.width == width,
            p.height == height,
            p.desired_maximum_frame_latency == DESIRED_MAXIMUM_FRAME_LATENCY,
    {
        SurfaceConfigPlan {
            width,
            height,
            desired_maximum_frame_latency: DESIRED_MAXIMUM_FRAME_LATENCY,
        }
    }

    /// Retargets the surface to a new extent; every other field is kept, so
    /// the surface only needs to be reconfigured, not recreated.
    pub fn resize_surface(&mut self, width: u32, height: u32)
        ensures
            final(self).width == width,
            final(self).height == height,
            final(self).desired_maximum_frame_latency == old(
                self,
            ).desired_maximum_frame_latency,
    {
        self.width = width;
        self.height = height;
    }
}

} // verus!
