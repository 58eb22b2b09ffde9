//! Camera zoom limits. Zoom levels are in thousandths: 1000 is the default view.

use vstd::prelude::*;
use crate::entity::EntityId;

verus! {

/// The camera's zoom, its limits, and what it follows.
#[derive(Clone, Copy, PartialEq, Eq, Structural, Debug)]
pub struct CameraController {
    /// Current zoom level
    pub zoom: u32,
    /// Minimum zoom (zoomed in limit)
    pub min_zoom: u32,
    /// Maximum zoom (zoomed out limit)
    pub max_zoom: u32,
    /// Pan speed in world units per second
    pub pan_speed: u32,
    /// The entity the camera is locked to, if any
    pub locked_target: Option<EntityId>,
}

impl Default for CameraController {
    fn default() -> (r: CameraController)
        ensures
            r == (CameraController { zoom: 1000, min_zoom: 250, max_zoom: 4000, pan_speed: 500, locked_target: None }),
    {
        CameraController { zoom: 1000, min_zoom: 250, max_zoom: 4000, pan_speed: 500, locked_target: None }
    }
}

/// `z` held within `lo..=hi`.
pub open spec fn clamped(z: int, lo: int, hi: int) -> int {
    if z < lo {
        lo
    } else if z > hi {
        hi
    } else {
        z
    }
}

impl CameraController {
    /// Hold the zoom within its limits.
    pub fn clamp_zoom(&mut self)
        requires
            old(self).min_zoom <= old(self).max_zoom,
        ensures
            *final(self) == (CameraController {
                zoom: clamped(old(self).zoom as int, old(self).min_zoom as int, old(self).max_zoom as int) as u32,
                ..*old(self)
            }),
    {
        if self.zoom < self.min_zoom {
            self.zoom = self.min_zoom;
        } else if self.zoom > self.max_zoom {
            self.zoom = self.max_zoom;
        }
    }

    /// Change the zoom by `delta` thousandths, then hold it within its limits.
    pub fn apply_zoom_delta(&mut self, delta: i64)
        requires
            old(self).min_zoom <= old(self).max_zoom,
        ensures
            *final(self) == (CameraController {
                zoom: clamped(old(self).zoom + delta, old(self).min_zoom as int, old(self).max_zoom as int) as u32,
                ..*old(self)
            }),
    {
        let z: i128 = self.zoom as i128 + delta as i128;
        if z < self.min_zoom as i128 {
            self.zoom = self.min_zoom;
        } else if z > self.max_zoom as i128 {
            self.zoom = self.max_zoom;
        } else {
            self.zoom = z as u32;
        }
    }
}

/// Defaults for new cameras.
#[derive(Clone, Copy, PartialEq, Eq, Structural, Debug)]
pub struct CameraSettings {
    /// Default zoom level for new cameras
    pub default_zoom: u32,
    /// Zoom change per scroll step
    pub zoom_speed: u32,
}

impl Default for CameraSettings {
    fn default() -> (r: CameraSettings)
        ensures
            r == (CameraSettings { default_zoom: 1000, zoom_speed: 100 }),
    {
        CameraSettings { default_zoom: 1000, zoom_speed: 100 }
    }
}

} // verus!
