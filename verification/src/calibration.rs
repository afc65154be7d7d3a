//! The calibration profile: the rigid transform that carries poses from the
//! sensor's frame into the world frame.
//!
//! A profile is what the calibration tool leaves behind and what the streamer
//! reads: a translation of three numbers and a rotation of four. How it is
//! written to and read from a document is the caller's business.

use vstd::prelude::*;
use vstd::std_specs::convert::FromSpecImpl;
use crate::geometry::{Double, Quaternion, Vector3};

verus! {

/// The translation of a profile, as the document holds it.
#[derive(Clone, Copy, Debug, PartialEq, Eq, Structural)]
pub struct Translation {
    pub x: Double,
    pub y: Double,
    pub z: Double,
}

/// The rotation of a profile, as the document holds it: the components of a
/// quaternion, scalar part first.
#[derive(Clone, Copy, Debug, PartialEq, Eq, Structural)]
pub struct Rotation {
    pub w: Double,
    pub i: Double,
    pub j: Double,
    pub k: Double,
}

impl From<Translation> for Vector3 {
    fn from(transl: Translation) -> (v: Vector3) {
        Vector3 { x: transl.x, y: transl.y, z: transl.z }
    }
}

impl FromSpecImpl<Translation> for Vector3 {
    open spec fn obeys_from_spec() -> bool {
        true
    }

    open spec fn from_spec(transl: Translation) -> Vector3 {
        Vector3 { x: transl.x, y: transl.y, z: transl.z }
    }
}

impl From<Rotation> for Quaternion {
    fn from(rot: Rotation) -> (q: Quaternion) {
        Quaternion { w: rot.w, i: rot.i, j: rot.j, k: rot.k }
    }
}

impl FromSpecImpl<Rotation> for Quaternion {
    open spec fn obeys_from_spec() -> bool {
        true
    }

    open spec fn from_spec(rot: Rotation) -> Quaternion {
        Quaternion { w: rot.w, i: rot.i, j: rot.j, k: rot.k }
    }
}

impl From<Vector3> for Translation {
    fn from(transl3: Vector3) -> (t: Translation) {
        Translation { x: transl3.x, y: transl3.y, z: transl3.z }
    }
}

impl FromSpecImpl<Vector3> for Translation {
    open spec fn obeys_from_spec() -> bool {
        true
    }

    open spec fn from_spec(transl3: Vector3) -> Translation {
        Translation { x: transl3.x, y: transl3.y, z: transl3.z }
    }
}

impl From<Quaternion> for Rotation {
    fn from(unitq: Quaternion) -> (r: Rotation) {
        Rotation { w: unitq.w, i: unitq.i, j: unitq.j, k: unitq.k }
    }
}

impl FromSpecImpl<Quaternion> for Rotation {
    open spec fn obeys_from_spec() -> bool {
        true
    }

    open spec fn from_spec(unitq: Quaternion) -> Rotation {
        Rotation { w: unitq.w, i: unitq.i, j: unitq.j, k: unitq.k }
    }
}

/// A translation and a rotation. The rotation is meant to be a unit
/// quaternion; a reader that cannot be sure of it normalises what it reads.
#[derive(Clone, Copy, Debug, PartialEq, Eq, Structural)]
pub struct Profile {
    pub translation: Translation,
    pub rotation: Rotation,
}

impl Profile {
    /// The profile of the transform that moves nothing.
    pub open spec fn spec_default() -> Profile {
        Profile {
            translation: Translation {
                x: Double::spec_zero(),
                y: Double::spec_zero(),
                z: Double::spec_zero(),
            },
            rotation: Rotation {
                w: Double::spec_one(),
                i: Double::spec_zero(),
                j: Double::spec_zero(),
                k: Double::spec_zero(),
            },
        }
    }

    pub open spec fn spec_wfd_translation(&self) -> Vector3 {
        Vector3 { x: self.translation.x, y: self.translation.y, z: self.translation.z }
    }

    pub open spec fn spec_wfd_rotation(&self) -> Quaternion {
        Quaternion { w: self.rotation.w, i: self.rotation.i, j: self.rotation.j, k: self.rotation.k }
    }

    pub fn new(wfd_translation: Vector3, wfd_rotation: Quaternion) -> (profile: Profile)
        ensures
            profile.spec_wfd_translation() == wfd_translation,
            profile.spec_wfd_rotation() == wfd_rotation,
    {
        Profile {
            translation: Translation {
                x: wfd_translation.x,
                y: wfd_translation.y,
                z: wfd_translation.z,
            },
            rotation: Rotation {
                w: wfd_rotation.w,
                i: wfd_rotation.i,
                j: wfd_rotation.j,
                k: wfd_rotation.k,
            },
        }
    }

    /// The offset of the sensor's frame in the world frame.
    #[verifier::when_used_as_spec(spec_wfd_translation)]
    pub fn wfd_translation(&self) -> (v: Vector3)
        ensures
            v == self.spec_wfd_translation(),
    {
        Vector3 { x: self.translation.x, y: self.translation.y, z: self.translation.z }
    }

    /// The rotation that turns the sensor's frame into the world frame, with
    /// the components that the profile holds.
    #[verifier::when_used_as_spec(spec_wfd_rotation)]
    pub fn wfd_rotation(&self) -> (q: Quaternion)
        ensures
            q == self.spec_wfd_rotation(),
    {
        Quaternion { w: self.rotation.w, i: self.rotation.i, j: self.rotation.j, k: self.rotation.k }
    }
}

impl Default for Profile {
    /// The profile of the transform that moves nothing: no translation, and
    /// the identity as rotation.
    fn default() -> (profile: Profile)
        ensures
            profile == Profile::spec_default(),
            profile.spec_wfd_translation() == Vector3::spec_zeros(),
            profile.spec_wfd_rotation() == Quaternion::spec_identity(),
    {
        Profile::new(Vector3::zeros(), Quaternion::identity())
    }
}

} // verus!
