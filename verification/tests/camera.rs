use hexa::camera::{Aspect, Camera, CameraError};
use hexa::camera::{
    DEFAULT_ANGLE_MILLI, DEFAULT_DISTANCE_MILLI, DEFAULT_FOV_MILLI, DEFAULT_HEIGHT_MILLI,
    ZFAR_MILLI, ZNEAR_MILLI,
};

#[test]
fn new_records_viewport_aspect() {
    let c = Camera::new(800, 600);
    assert_eq!(c.aspect, Aspect { width: 800, height: 600 });
    assert_eq!(c.fovy_milli, 0);
    assert_eq!(c.height_milli, 0);
    assert_eq!(c.angle_milli, 0);
    assert_eq!(c.distance_milli, 0);
    assert_eq!(c.target_milli, 0);
    // clip planes are fixed at construction: 0.1 near, 100 far
    assert_eq!(c.znear_milli, 100);
    assert_eq!(c.zfar_milli, 100000);
}

#[test]
fn new_zero_height_falls_back_to_square() {
    let c = Camera::new(1920, 0);
    assert_eq!(c.aspect, Aspect { width: 1, height: 1 });
}

#[test]
fn resize_updates_aspect_exactly() {
    let mut c = Camera::new(800, 600);
    let r = c.resize(1920, 1080);
    assert_eq!(r, Ok(()));
    assert_eq!(c.aspect, Aspect { width: 1920, height: 1080 });
}

#[test]
fn resize_zero_height_rejected_and_ignored() {
    let mut c = Camera::new(800, 600);
    let r = c.resize(1024, 0);
    assert_eq!(r, Err(CameraError::ZeroHeight));
    assert_eq!(c.aspect, Aspect { width: 800, height: 600 });
}

#[test]
fn set_angle_stores_orbit_parameters_only() {
    let mut c = Camera::new(800, 600);
    c.set_height(2500);
    c.set_angle(3142, 7000);
    assert_eq!(c.angle_milli, 3142);
    assert_eq!(c.distance_milli, 7000);
    assert_eq!(c.height_milli, 2500);
    assert_eq!(c.aspect, Aspect { width: 800, height: 600 });
}

#[test]
fn set_target_aims_at_grid_centre() {
    let mut c = Camera::new(800, 600);
    c.set_target_for_grid(5);
    // size / 2 + 1 = 3.5 on both axes
    assert_eq!(c.target_milli, 3500);
    c.set_target_for_grid(0);
    assert_eq!(c.target_milli, 1000);
}

#[test]
fn default_parameters() {
    assert_eq!(DEFAULT_FOV_MILLI, 1571);
    assert_eq!(DEFAULT_HEIGHT_MILLI, 3000);
    assert_eq!(DEFAULT_ANGLE_MILLI, 1571);
    assert_eq!(DEFAULT_DISTANCE_MILLI, 6000);
    assert_eq!(ZNEAR_MILLI, 100);
    assert_eq!(ZFAR_MILLI, 100000);
}
