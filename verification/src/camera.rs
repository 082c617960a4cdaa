//! The camera value, its projection and movement-mode enumerations, and the
//! raw form in which a camera crosses the native boundary.
//!
//! The native layer speaks in 32-bit scalars and small integer codes. A
//! [`Scalar`] carries one native 32-bit scalar opaquely, as its raw bit
//! pattern: this crate never does arithmetic on it, it only moves it across
//! the boundary and back. Projection and movement modes cross as integer
//! codes; decoding is partial, and an unknown code is a typed
//! [`Camera3DError`], never a silent coercion.

use vstd::prelude::*;

verus! {

/// What goes wrong when a camera value read back from the native layer does
/// not decode: the offending raw code is carried for diagnostics.
#[derive(Clone, Copy, PartialEq, Eq, Structural, Debug)]
pub enum Camera3DError {
    InvalidProjection(u32),
    InvalidMode(u32),
}

/// One native 32-bit scalar, held as its raw bit pattern. The crate treats
/// it as opaque; the driver at the boundary converts to and from the native
/// floating-point form bit for bit, so a value returned unchanged by the
/// native layer reads back equal.
#[derive(Clone, Copy, PartialEq, Eq, Structural, Debug)]
pub struct Scalar {
    pub bits: u32,
}

/// A three-component vector of native scalars.
#[derive(Clone, Copy, PartialEq, Eq, Structural, Debug)]
pub struct Vector3 {
    pub x: Scalar,
    pub y: Scalar,
    pub z: Scalar,
}

/// How positions are projected onto the screen.
#[derive(Clone, Copy, PartialEq, Eq, Structural, Debug)]
pub enum Camera3DProjection {
    Perspective,
    Orthographic,
}

/// Which built-in navigation logic the native layer applies when it updates
/// a camera.
#[derive(Clone, Copy, PartialEq, Eq, Structural, Debug)]
pub enum Camera3DMode {
    Free,
    Custom,
    Orbital,
    FirstPerson,
    ThirdPerson,
}

/// A 3D viewpoint: a plain value with no hidden state.
#[derive(Clone, PartialEq, Eq, Structural, Debug)]
pub struct Camera3D {
    pub position: Vector3,
    pub target: Vector3,
    pub up: Vector3,
    pub fovy: Scalar,
    pub projection: Camera3DProjection,
}

/// A camera in the exact shape the native layer takes and returns: the
/// projection is a raw integer code, not yet validated.
#[derive(Clone, Copy, PartialEq, Eq, Structural, Debug)]
pub struct RawCamera3D {
    pub position: Vector3,
    pub target: Vector3,
    pub up: Vector3,
    pub fovy: Scalar,
    pub projection: u32,
}

/// The native layer's integer code for each projection.
pub open spec fn projection_code(p: Camera3DProjection) -> u32 {
    match p {
        Camera3DProjection::Perspective => 0,
        Camera3DProjection::Orthographic => 1,
    }
}

/// Decoding a projection code is partial: the two defined codes decode, and
/// every other value is an error carrying that value.
pub open spec fn decode_projection(v: u32) -> Result<Camera3DProjection, Camera3DError> {
    if v == 0 {
        Ok(Camera3DProjection::Perspective)
    } else if v == 1 {
        Ok(Camera3DProjection::Orthographic)
    } else {
        Err(Camera3DError::InvalidProjection(v))
    }
}

/// The native layer's integer code for each movement mode.
pub open spec fn mode_code(m: Camera3DMode) -> u32 {
    match m {
        Camera3DMode::Custom => 0,
        Camera3DMode::Free => 1,
        Camera3DMode::Orbital => 2,
        Camera3DMode::FirstPerson => 3,
        Camera3DMode::ThirdPerson => 4,
    }
}

/// Decoding a movement-mode code is partial in the same way: five defined
/// codes, and every other value is an error carrying that value.
pub open spec fn decode_mode(v: u32) -> Result<Camera3DMode, Camera3DError> {
    if v == 0 {
        Ok(Camera3DMode::Custom)
    } else if v == 1 {
        Ok(Camera3DMode::Free)
    } else if v == 2 {
        Ok(Camera3DMode::Orbital)
    } else if v == 3 {
        Ok(Camera3DMode::FirstPerson)
    } else if v == 4 {
        Ok(Camera3DMode::ThirdPerson)
    } else {
        Err(Camera3DError::InvalidMode(v))
    }
}

/// The raw form of a camera: every field crosses unchanged, and the
/// projection crosses as its integer code.
pub open spec fn camera_raw(c: Camera3D) -> RawCamera3D {
    RawCamera3D {
        position: c.position,
        target: c.target,
        up: c.up,
        fovy: c.fovy,
        projection: projection_code(c.projection),
    }
}

/// Reading a raw camera back: the projection code must decode, and every
/// other field is taken as it came.
pub open spec fn decode_camera(raw: RawCamera3D) -> Result<Camera3D, Camera3DError> {
    match decode_projection(raw.projection) {
        Ok(p) => Ok(
            Camera3D {
                position: raw.position,
                target: raw.target,
                up: raw.up,
                fovy: raw.fovy,
                projection: p,
            },
        ),
        Err(e) => Err(e),
    }
}

impl Camera3DProjection {
    /// The integer code under which this projection crosses the boundary.
    pub fn to_u32(&self) -> (v: u32)
        ensures
            v == projection_code(*self),
    {
        match self {
            Camera3DProjection::Perspective => 0,
            Camera3DProjection::Orthographic => 1,
        }
    }

    /// Decodes a projection code read back from the native layer; a code
    /// outside the defined set fails with that code.
    pub fn from_u32(v: u32) -> (r: Result<Camera3DProjection, Camera3DError>)
        ensures
            r == decode_projection(v),
    {
        if v == 0 {
            Ok(Camera3DProjection::Perspective)
        } else if v == 1 {
            Ok(Camera3DProjection::Orthographic)
        } else {
            Err(Camera3DError::InvalidProjection(v))
        }
    }
}

impl Camera3DMode {
    /// The integer code under which this movement mode crosses the boundary.
    pub fn to_u32(&self) -> (v: u32)
        ensures
            v == mode_code(*self),
    {
        match self {
            Camera3DMode::Custom => 0,
            Camera3DMode::Free => 1,
            Camera3DMode::Orbital => 2,
            Camera3DMode::FirstPerson => 3,
            Camera3DMode::ThirdPerson => 4,
        }
    }

    /// Decodes a movement-mode code; a code outside the defined set fails
    /// with that code.
    pub fn from_u32(v: u32) -> (r: Result<Camera3DMode, Camera3DError>)
        ensures
            r == decode_mode(v),
    {
        if v == 0 {
            Ok(Camera3DMode::Custom)
        } else if v == 1 {
            Ok(Camera3DMode::Free)
        } else if v == 2 {
            Ok(Camera3DMode::Orbital)
        } else if v == 3 {
            Ok(Camera3DMode::FirstPerson)
        } else if v == 4 {
            Ok(Camera3DMode::ThirdPerson)
        } else {
            Err(Camera3DError::InvalidMode(v))
        }
    }
}

impl Camera3D {
    /// The raw form in which this camera crosses to the native layer.
    pub fn to_raw(&self) -> (raw: RawCamera3D)
        ensures
            raw == camera_raw(*self),
    {
        RawCamera3D {
            position: self.position,
            target: self.target,
            up: self.up,
            fovy: self.fovy,
            projection: self.projection.to_u32(),
        }
    }

    /// Validates a raw camera read back from the native layer; fails with
    /// the offending code when the projection does not decode.
    pub fn try_from_raw(raw: RawCamera3D) -> (r: Result<Camera3D, Camera3DError>)
        ensures
            r == decode_camera(raw),
    {
        match Camera3DProjection::from_u32(raw.projection) {
            Ok(p) => Ok(
                Camera3D {
                    position: raw.position,
                    target: raw.target,
                    up: raw.up,
                    fovy: raw.fovy,
                    projection: p,
                },
            ),
            Err(e) => Err(e),
        }
    }

    /// What an update hands to the native camera-update routine: the raw
    /// camera snapshot and the movement mode's integer code.
    pub fn update_request(&self, mode: Camera3DMode) -> (r: (RawCamera3D, u32))
        ensures
            r.0 == camera_raw(*self),
            r.1 == mode_code(mode),
    {
        (self.to_raw(), mode.to_u32())
    }

    /// Reads the native camera-update routine's result back into this
    /// camera. Succeeds, overwriting the whole value, exactly when the
    /// returned projection code decodes; on an unknown code the error
    /// carries that code and the camera is left as it was.
    pub fn update(&mut self, reply: RawCamera3D) -> (r: Result<(), Camera3DError>)
        ensures
            decode_camera(reply) is Ok ==> r is Ok && *final(self) == decode_camera(
                reply,
            )->Ok_0,
            decode_camera(reply) is Err ==> r == Result::<(), Camera3DError>::Err(
                decode_camera(reply)->Err_0,
            ) && *final(self) == *old(self),
    {
        match Camera3D::try_from_raw(reply) {
            Ok(c) => {
                *self = c;
                Ok(())
            },
            Err(e) => Err(e),
        }
    }
}

/// Law: encoding a camera for the boundary and decoding it again is the
/// identity — a native update that hands the raw camera back unchanged
/// leaves the value exactly as it was.
pub proof fn lemma_camera_raw_round_trip(c: Camera3D)
    ensures
        decode_camera(camera_raw(c)) == Ok::<Camera3D, Camera3DError>(c),
{
}

/// Law: every projection round-trips through its integer code.
pub proof fn lemma_projection_round_trip(p: Camera3DProjection)
    ensures
        decode_projection(projection_code(p)) == Ok::<Camera3DProjection, Camera3DError>(p),
{
}

/// Law: every movement mode round-trips through its integer code.
pub proof fn lemma_mode_round_trip(m: Camera3DMode)
    ensures
        decode_mode(mode_code(m)) == Ok::<Camera3DMode, Camera3DError>(m),
{
}

/// Law: decoding is injective into the code space — whatever code decodes
/// to a projection is that projection's own code, and likewise for modes.
pub proof fn lemma_decode_inverts_code(v: u32)
    ensures
        decode_projection(v) matches Ok(p) ==> projection_code(p) == v,
        decode_mode(v) matches Ok(m) ==> mode_code(m) == v,
{
}

} // verus!
