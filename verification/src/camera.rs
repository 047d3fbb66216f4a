//! Orbit camera model.
//!
//! The camera orbits a target point on the grid diagonal: the eye position is
//! derived from an angle and a distance, its height is set independently, and
//! the projection is parameterized by a field of view and the viewport's
//! aspect ratio. The trigonometry that turns (angle, distance) into eye
//! coordinates is the renderer shell's business; this model owns the
//! parameters themselves and the exact bookkeeping around them, in
//! particular that the aspect ratio always has a non-zero denominator.

use vstd::prelude::*;

verus! {

/// Viewport aspect ratio kept as the exact width/height pair instead of a
/// quotient, so `resize` can promise `aspect == w / h` with no rounding.
#[derive(Clone, Copy, Debug, PartialEq, Eq, Structural)]
pub struct Aspect {
    pub width: u32,
    pub height: u32,
}

impl Aspect {
    /// A well-formed aspect ratio never divides by zero.
    pub open spec fn wf(self) -> bool {
        self.height > 0
    }
}

#[derive(Clone, Copy, Debug, PartialEq, Eq, Structural)]
pub enum CameraError {
    /// A viewport of zero height cannot yield an aspect ratio.
    ZeroHeight,
}

/// Default field of view, about a quarter turn, in milliradians.
pub const DEFAULT_FOV_MILLI: u32 = 1571;
/// Default eye height above the grid plane, in thousandths.
pub const DEFAULT_HEIGHT_MILLI: u32 = 3000;
/// Default orbit angle, in milliradians.
pub const DEFAULT_ANGLE_MILLI: u32 = 1571;
/// Default orbit distance from the target, in thousandths.
pub const DEFAULT_DISTANCE_MILLI: u32 = 6000;
/// The near clip plane, 0.1 in thousandths.
pub const ZNEAR_MILLI: u32 = 100;
/// The far clip plane, 100 in thousandths.
pub const ZFAR_MILLI: u32 = 100000;

/// The orbit camera: projection parameters plus the orbit parameters the eye
/// position is derived from. All lengths are thousandths, all angles
/// milliradians.
#[derive(Clone, Copy, Debug, PartialEq, Eq, Structural)]
pub struct Camera {
    /// Vertical field of view.
    pub fovy_milli: u32,
    /// Height of the eye above the grid plane (the eye's third coordinate,
    /// set independently of the orbit).
    pub height_milli: u32,
    /// Orbit angle around the target.
    pub angle_milli: u32,
    /// Orbit distance from the target.
    pub distance_milli: u32,
    /// The target point both coordinates at once: the camera looks at
    /// (target_milli, target_milli, 0).
    pub target_milli: u64,
    /// Viewport aspect ratio.
    pub aspect: Aspect,
    /// Near clip plane distance, fixed at construction.
    pub znear_milli: u32,
    /// Far clip plane distance, fixed at construction.
    pub zfar_milli: u32,
}

impl Camera {
    /// The camera invariant: the aspect ratio is well formed.
    pub open spec fn wf(self) -> bool {
        self.aspect.wf()
    }

    /// A fresh camera for a viewport of the given size. Every parameter
    /// starts at zero, as the scene syncs them from the control tabs each
    /// frame; a zero-height viewport falls back to a square aspect ratio.
    pub fn new(width: u32, height: u32) -> (c: Camera)
        ensures
            c.wf(),
            height > 0 ==> c.aspect == (Aspect { width, height }),
            height == 0 ==> c.aspect == (Aspect { width: 1, height: 1 }),
            c.fovy_milli == 0,
            c.height_milli == 0,
            c.angle_milli == 0,
            c.distance_milli == 0,
            c.target_milli == 0,
            c.znear_milli == ZNEAR_MILLI,
            c.zfar_milli == ZFAR_MILLI,
    {
        let mut c = Camera {
            fovy_milli: 0,
            height_milli: 0,
            angle_milli: 0,
            distance_milli: 0,
            target_milli: 0,
            aspect: Aspect { width: 1, height: 1 },
            znear_milli: ZNEAR_MILLI,
            zfar_milli: ZFAR_MILLI,
        };
        if height > 0 {
            let _ = c.resize(width, height);
        }
        c
    }

    /// Recompute the aspect ratio for a new viewport, and nothing else.
    /// A zero-height viewport is rejected and leaves the camera unchanged
    /// rather than poisoning the projection.
    pub fn resize(&mut self, width: u32, height: u32) -> (r: Result<(), CameraError>)
        requires
            old(self).wf(),
        ensures
            final(self).wf(),
            r is Ok <==> height > 0,
            height > 0 ==> *final(self) == (Camera {
                aspect: Aspect { width, height },
                ..*old(self)
            }),
            height == 0 ==> r == Err::<(), CameraError>(CameraError::ZeroHeight)
                && *final(self) == *old(self),
    {
        if height == 0 {
            Err(CameraError::ZeroHeight)
        } else {
            self.aspect = Aspect { width, height };
            Ok(())
        }
    }

    /// Place the eye on the orbit circle: record the angle and the distance
    /// the shell derives eye coordinates from. The eye height is untouched.
    pub fn set_angle(&mut self, angle_milli: u32, distance_milli: u32)
        ensures
            *final(self) == (Camera { angle_milli, distance_milli, ..*old(self) }),
    {
        self.angle_milli = angle_milli;
        self.distance_milli = distance_milli;
    }

    /// Set the eye height above the grid plane.
    pub fn set_height(&mut self, height_milli: u32)
        ensures
            *final(self) == (Camera { height_milli, ..*old(self) }),
    {
        self.height_milli = height_milli;
    }

    /// Set the vertical field of view.
    pub fn set_fov(&mut self, fovy_milli: u32)
        ensures
            *final(self) == (Camera { fovy_milli, ..*old(self) }),
    {
        self.fovy_milli = fovy_milli;
    }

    /// Aim at the centre of a grid of the given size: the target sits at
    /// size / 2 + 1 on both axes, here exactly in thousandths.
    pub fn set_target_for_grid(&mut self, size: u32)
        ensures
            final(self).target_milli == size as u64 * 500 + 1000,
            *final(self) == (Camera {
                target_milli: final(self).target_milli,
                ..*old(self)
            }),
    {
        self.target_milli = size as u64 * 500 + 1000;
    }
}

} // verus!
