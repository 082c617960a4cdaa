//! Projection and movement-mode codes decode as a partial function: the
//! defined codes decode to their variants, everything else is a typed
//! error carrying the offending value, and variant -> code -> variant is
//! the identity.

use gfx::camera::{Camera3DError, Camera3DMode, Camera3DProjection};

#[test]
fn projection_codes_decode() {
    assert_eq!(Camera3DProjection::from_u32(0), Ok(Camera3DProjection::Perspective));
    assert_eq!(Camera3DProjection::from_u32(1), Ok(Camera3DProjection::Orthographic));
}

#[test]
fn unknown_projection_code_is_an_error_carrying_the_value() {
    assert_eq!(
        Camera3DProjection::from_u32(2),
        Err(Camera3DError::InvalidProjection(2))
    );
    assert_eq!(
        Camera3DProjection::from_u32(999),
        Err(Camera3DError::InvalidProjection(999))
    );
    assert_eq!(
        Camera3DProjection::from_u32(u32::MAX),
        Err(Camera3DError::InvalidProjection(u32::MAX))
    );
}

#[test]
fn projection_round_trips() {
    for p in [Camera3DProjection::Perspective, Camera3DProjection::Orthographic] {
        assert_eq!(Camera3DProjection::from_u32(p.to_u32()), Ok(p));
    }
}

#[test]
fn mode_codes_decode() {
    assert_eq!(Camera3DMode::from_u32(0), Ok(Camera3DMode::Custom));
    assert_eq!(Camera3DMode::from_u32(1), Ok(Camera3DMode::Free));
    assert_eq!(Camera3DMode::from_u32(2), Ok(Camera3DMode::Orbital));
    assert_eq!(Camera3DMode::from_u32(3), Ok(Camera3DMode::FirstPerson));
    assert_eq!(Camera3DMode::from_u32(4), Ok(Camera3DMode::ThirdPerson));
}

#[test]
fn unknown_mode_code_is_an_error_carrying_the_value() {
    assert_eq!(Camera3DMode::from_u32(5), Err(Camera3DError::InvalidMode(5)));
    assert_eq!(Camera3DMode::from_u32(999), Err(Camera3DError::InvalidMode(999)));
}

#[test]
fn mode_round_trips() {
    for m in [
        Camera3DMode::Free,
        Camera3DMode::Custom,
        Camera3DMode::Orbital,
        Camera3DMode::FirstPerson,
        Camera3DMode::ThirdPerson,
    ] {
        assert_eq!(Camera3DMode::from_u32(m.to_u32()), Ok(m));
    }
}
