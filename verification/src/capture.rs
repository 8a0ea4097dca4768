//! Dual-camera capture.
//!
//! One scene is rendered twice: a full-resolution primary camera draws the
//! display layer straight to the surface, while a low-resolution camera
//! draws the pixel-art layer to a fixed-size offscreen target with a
//! transparent clear and a depth prepass, so the compositor can read its
//! color and depth.  The two cameras share one transform; the sync step
//! copies the primary camera's transform onto the pixel-art camera once per
//! frame, before either render pass runs.

use vstd::prelude::*;
use crate::color::Color;
use crate::fixed::FP_ONE;

verus! {

/// The display layer drawn by the full-resolution camera.
pub const FULL_RES_LAYER: u32 = 0;

/// The layer drawn by the low-resolution pixel-art camera.
pub const PIXEL_ART_LAYER: u32 = 1;

/// A handle to a color image owned by the host's asset store.
#[derive(Clone, Copy, Debug, PartialEq, Eq, Structural)]
pub struct ImageHandle {
    pub id: u32,
}

/// A camera pose: fixed-point translation and Euler angles.
#[derive(Clone, Copy, Debug, PartialEq, Eq, Structural)]
pub struct CameraTransform {
    pub tx: i64,
    pub ty: i64,
    pub tz: i64,
    pub yaw: i64,
    pub pitch: i64,
    pub roll: i64,
}

/// Where a camera renders to.
#[derive(Clone, Copy, Debug, PartialEq, Eq, Structural)]
pub enum CameraTarget {
    /// The native-resolution display surface.
    Display,
    /// A fixed-size offscreen color image.
    Offscreen(ImageHandle),
}

/// A fixed-size offscreen render surface: a color image with alpha plus an
/// associated depth buffer, sampled nearest-neighbor so the blocky look
/// survives upscaling.  Created once; never resized during a session.
pub struct OffscreenTarget {
    pub handle: ImageHandle,
    pub width: usize,
    pub height: usize,
    pub nearest_filter: bool,
}

impl OffscreenTarget {
    /// A target is well formed when it has area and keeps nearest-neighbor
    /// sampling.
    pub open spec fn is_valid(self) -> bool {
        self.width >= 1 && self.height >= 1 && self.nearest_filter
    }

    /// Create the low-resolution surface.
    pub fn new(handle: ImageHandle, width: usize, height: usize) -> (t: Option<OffscreenTarget>)
        ensures
            t.is_some() <==> width >= 1 && height >= 1,
            t.is_some() ==> {
                let target = t.unwrap();
                &&& target.handle == handle
                &&& target.width == width
                &&& target.height == height
                &&& target.is_valid()
            },
    {
        if width >= 1 && height >= 1 {
            Some(OffscreenTarget { handle, width, height, nearest_filter: true })
        } else {
            None
        }
    }
}

/// One camera's configuration.
pub struct CameraConfig {
    /// Render order; lower orders render first.
    pub order: i64,
    /// The visibility layer this camera draws.
    pub layer: u32,
    /// The clear color of the camera's target.
    pub clear_color: Color,
    /// Whether the camera runs a depth prepass, making its depth readable.
    pub depth_prepass: bool,
    /// The camera's output surface.
    pub target: CameraTarget,
    /// The camera's pose.
    pub transform: CameraTransform,
}

/// Build the two cameras of the rig from one shared pose: the primary
/// camera (order 0) draws the display layer to the surface with a depth
/// prepass for compositing; the pixel-art camera (order -1, so it finishes
/// first) draws the pixel-art layer to the offscreen target with a fully
/// transparent clear — unpainted texels must stay transparent — and a
/// depth prepass of its own.
pub fn dual_camera_rig(target: &OffscreenTarget, transform: &CameraTransform) -> (rig: (
    CameraConfig,
    CameraConfig,
))
    requires
        target.is_valid(),
    ensures
        rig.0.order == 0,
        rig.0.layer == FULL_RES_LAYER,
        rig.0.depth_prepass,
        rig.0.target == CameraTarget::Display,
        rig.0.transform == *transform,
        rig.1.order == -1,
        rig.1.layer == PIXEL_ART_LAYER,
        rig.1.depth_prepass,
        rig.1.target == CameraTarget::Offscreen(target.handle),
        rig.1.clear_color.a == 0,
        rig.1.transform == *transform,
{
    let full_res = CameraConfig {
        order: 0,
        layer: FULL_RES_LAYER,
        clear_color: Color { r: 614, g: 614, b: 737, a: FP_ONE },
        depth_prepass: true,
        target: CameraTarget::Display,
        transform: *transform,
    };
    let pixel_art = CameraConfig {
        order: -1,
        layer: PIXEL_ART_LAYER,
        clear_color: Color { r: 0, g: 0, b: 0, a: 0 },
        depth_prepass: true,
        target: CameraTarget::Offscreen(target.handle),
        transform: *transform,
    };
    (full_res, pixel_art)
}

/// Copy the primary camera's pose onto the pixel-art camera, so the two
/// views stay in lock-step.  Runs once per frame, after input handling and
/// strictly before either camera's render pass.
pub fn sync_pixel_art_camera(window_cam: &CameraConfig, pixel_art_cam: &mut CameraConfig)
    ensures
        final(pixel_art_cam).transform == window_cam.transform,
        final(pixel_art_cam).order == old(pixel_art_cam).order,
        final(pixel_art_cam).layer == old(pixel_art_cam).layer,
        final(pixel_art_cam).clear_color == old(pixel_art_cam).clear_color,
        final(pixel_art_cam).depth_prepass == old(pixel_art_cam).depth_prepass,
        final(pixel_art_cam).target == old(pixel_art_cam).target,
{
    pixel_art_cam.transform = window_cam.transform;
}

} // verus!
