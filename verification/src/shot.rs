use crate::scene::Scene;
use vstd::prelude::*;

verus! {

/// One rendering job: the pixel dimensions of the output raster and the scene
/// it will show. This state is fixed before the first pixel is rendered and
/// shared read-only by every per-pixel query; the floating-point camera that
/// turns pixels into rays lives with the unverified driver.
pub struct Shot {
    pub width_px: u32,
    pub height_px: u32,
    pub scene: Scene,
}

impl Shot {
    /// Packages the raster dimensions and the scene of one shot, unchanged.
    pub fn new(width_px: u32, height_px: u32, scene: Scene) -> (shot: Shot)
        ensures
            shot.width_px == width_px,
            shot.height_px == height_px,
            shot.scene == scene,
    {
        Shot { width_px, height_px, scene }
    }
}

} // verus!
