//! The camera update exchange: what is pushed to the native layer, and how
//! its reply is validated and read back.

use gfx::camera::{
    Camera3D, Camera3DError, Camera3DMode, Camera3DProjection, RawCamera3D, Scalar, Vector3,
};

fn scalar(v: f32) -> Scalar {
    Scalar { bits: v.to_bits() }
}

fn vec3(x: f32, y: f32, z: f32) -> Vector3 {
    Vector3 { x: scalar(x), y: scalar(y), z: scalar(z) }
}

fn demo_camera() -> Camera3D {
    Camera3D {
        position: vec3(10.0, 10.0, 10.0),
        target: vec3(0.0, 0.0, 0.0),
        up: vec3(0.0, 1.0, 0.0),
        fovy: scalar(45.0),
        projection: Camera3DProjection::Perspective,
    }
}

#[test]
fn update_request_carries_snapshot_and_mode_code() {
    let cam = demo_camera();
    let (raw, mode) = cam.update_request(Camera3DMode::Free);
    assert_eq!(raw, cam.to_raw());
    assert_eq!(raw.projection, 0);
    assert_eq!(raw.fovy, scalar(45.0));
    assert_eq!(raw.position, vec3(10.0, 10.0, 10.0));
    assert_eq!(mode, 1);
}

#[test]
fn identity_update_leaves_camera_unchanged() {
    let mut cam = demo_camera();
    let before = cam.clone();
    let (raw, _mode) = cam.update_request(Camera3DMode::Free);
    // A native layer that hands the camera back unchanged.
    assert_eq!(cam.update(raw), Ok(()));
    assert_eq!(cam, before);
}

#[test]
fn update_reads_back_what_the_native_layer_returns() {
    let mut cam = demo_camera();
    let reply = RawCamera3D {
        position: vec3(1.0, 2.0, 3.0),
        target: vec3(4.0, 5.0, 6.0),
        up: vec3(0.0, 0.0, 1.0),
        fovy: scalar(60.0),
        projection: 1,
    };
    assert_eq!(cam.update(reply), Ok(()));
    assert_eq!(cam.position, vec3(1.0, 2.0, 3.0));
    assert_eq!(cam.target, vec3(4.0, 5.0, 6.0));
    assert_eq!(cam.up, vec3(0.0, 0.0, 1.0));
    assert_eq!(cam.fovy, scalar(60.0));
    assert_eq!(cam.projection, Camera3DProjection::Orthographic);
}

#[test]
fn update_rejects_an_unknown_projection_and_keeps_the_camera() {
    let mut cam = demo_camera();
    let before = cam.clone();
    let mut reply = cam.to_raw();
    reply.projection = 999;
    assert_eq!(cam.update(reply), Err(Camera3DError::InvalidProjection(999)));
    assert_eq!(cam, before);
}

#[test]
fn raw_camera_decodes_through_try_from_raw() {
    let cam = demo_camera();
    assert_eq!(Camera3D::try_from_raw(cam.to_raw()), Ok(cam.clone()));
    let mut bad = cam.to_raw();
    bad.projection = 7;
    assert_eq!(
        Camera3D::try_from_raw(bad),
        Err(Camera3DError::InvalidProjection(7))
    );
}
