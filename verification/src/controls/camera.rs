//! The camera tab: the four orbit/projection parameters the user drives
//! with sliders. Angles are milliradians, lengths thousandths.

use vstd::prelude::*;
use crate::camera::{
    DEFAULT_ANGLE_MILLI, DEFAULT_DISTANCE_MILLI, DEFAULT_FOV_MILLI, DEFAULT_HEIGHT_MILLI,
};

verus! {

/// Messages the camera tab reacts to: each replaces one parameter.
#[derive(Clone, Copy, Debug, PartialEq, Eq, Structural)]
pub enum Message {
    FovChanged(u32),
    HeightChanged(u32),
    AngleChanged(u32),
    DistanceChanged(u32),
}

/// The camera tab state: the parameters the scene feeds into its camera
/// every frame.
#[derive(Clone, Copy, Debug, PartialEq, Eq, Structural)]
pub struct CameraControls {
    /// Vertical field of view, milliradians.
    pub fov_milli: u32,
    /// Eye height above the grid plane, thousandths.
    pub height_milli: u32,
    /// Orbit angle, milliradians.
    pub angle_milli: u32,
    /// Orbit distance, thousandths.
    pub distance_milli: u32,
}

/// The default camera parameters: a quarter-turn field of view and orbit
/// angle, eye three units up and six units out.
pub open spec fn spec_default_camera_controls() -> CameraControls {
    CameraControls {
        fov_milli: DEFAULT_FOV_MILLI,
        height_milli: DEFAULT_HEIGHT_MILLI,
        angle_milli: DEFAULT_ANGLE_MILLI,
        distance_milli: DEFAULT_DISTANCE_MILLI,
    }
}

impl Default for CameraControls {
    fn default() -> (c: CameraControls)
        ensures
            c == spec_default_camera_controls(),
    {
        CameraControls {
            fov_milli: DEFAULT_FOV_MILLI,
            height_milli: DEFAULT_HEIGHT_MILLI,
            angle_milli: DEFAULT_ANGLE_MILLI,
            distance_milli: DEFAULT_DISTANCE_MILLI,
        }
    }
}

/// The tab's reaction to one message: the named parameter is replaced, the
/// rest are untouched.
pub open spec fn spec_camera_update(c: CameraControls, m: Message) -> CameraControls {
    match m {
        Message::FovChanged(v) => CameraControls { fov_milli: v, ..c },
        Message::HeightChanged(v) => CameraControls { height_milli: v, ..c },
        Message::AngleChanged(v) => CameraControls { angle_milli: v, ..c },
        Message::DistanceChanged(v) => CameraControls { distance_milli: v, ..c },
    }
}

impl CameraControls {
    /// Apply one message.
    pub fn update(&mut self, message: Message)
        ensures
            *final(self) == spec_camera_update(*old(self), message),
    {
        match message {
            Message::FovChanged(v) => self.fov_milli = v,
            Message::HeightChanged(v) => self.height_milli = v,
            Message::AngleChanged(v) => self.angle_milli = v,
            Message::DistanceChanged(v) => self.distance_milli = v,
        }
    }
}

} // verus!
