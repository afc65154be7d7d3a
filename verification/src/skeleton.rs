//! The joints of a tracked body, and one frame's worth of samples.
//!
//! Per-joint state lives in arrays of [`JOINT_COUNT`] entries. A [`JointId`]
//! names an entry, and its index is in range by construction.

use vstd::prelude::*;
use crate::filter::RawJointSample;

verus! {

/// How many joints the tracker reports for a body.
pub const JOINT_COUNT: usize = 32;

/// A joint of the body, in the tracker's order.
#[derive(Clone, Copy, Debug, PartialEq, Eq, Structural)]
pub enum JointId {
    Pelvis,
    SpineNavel,
    SpineChest,
    Neck,
    ClavicleLeft,
    ShoulderLeft,
    ElbowLeft,
    WristLeft,
    HandLeft,
    HandtipLeft,
    ThumbLeft,
    ClavicleRight,
    ShoulderRight,
    ElbowRight,
    WristRight,
    HandRight,
    HandtipRight,
    ThumbRight,
    HipLeft,
    KneeLeft,
    AnkleLeft,
    FootLeft,
    HipRight,
    KneeRight,
    AnkleRight,
    FootRight,
    Head,
    Nose,
    EyeLeft,
    EarLeft,
    EyeRight,
    EarRight,
}

impl JointId {
    pub open spec fn spec_index(self) -> usize {
        match self {
            JointId::Pelvis => 0,
            JointId::SpineNavel => 1,
            JointId::SpineChest => 2,
            JointId::Neck => 3,
            JointId::ClavicleLeft => 4,
            JointId::ShoulderLeft => 5,
            JointId::ElbowLeft => 6,
            JointId::WristLeft => 7,
            JointId::HandLeft => 8,
            JointId::HandtipLeft => 9,
            JointId::ThumbLeft => 10,
            JointId::ClavicleRight => 11,
            JointId::ShoulderRight => 12,
            JointId::ElbowRight => 13,
            JointId::WristRight => 14,
            JointId::HandRight => 15,
            JointId::HandtipRight => 16,
            JointId::ThumbRight => 17,
            JointId::HipLeft => 18,
            JointId::KneeLeft => 19,
            JointId::AnkleLeft => 20,
            JointId::FootLeft => 21,
            JointId::HipRight => 22,
            JointId::KneeRight => 23,
            JointId::AnkleRight => 24,
            JointId::FootRight => 25,
            JointId::Head => 26,
            JointId::Nose => 27,
            JointId::EyeLeft => 28,
            JointId::EarLeft => 29,
            JointId::EyeRight => 30,
            JointId::EarRight => 31,
        }
    }

    pub open spec fn spec_from_index(index: usize) -> Option<JointId> {
        match index {
            0 => Some(JointId::Pelvis),
            1 => Some(JointId::SpineNavel),
            2 => Some(JointId::SpineChest),
            3 => Some(JointId::Neck),
            4 => Some(JointId::ClavicleLeft),
            5 => Some(JointId::ShoulderLeft),
            6 => Some(JointId::ElbowLeft),
            7 => Some(JointId::WristLeft),
            8 => Some(JointId::HandLeft),
            9 => Some(JointId::HandtipLeft),
            10 => Some(JointId::ThumbLeft),
            11 => Some(JointId::ClavicleRight),
            12 => Some(JointId::ShoulderRight),
            13 => Some(JointId::ElbowRight),
            14 => Some(JointId::WristRight),
            15 => Some(JointId::HandRight),
            16 => Some(JointId::HandtipRight),
            17 => Some(JointId::ThumbRight),
            18 => Some(JointId::HipLeft),
            19 => Some(JointId::KneeLeft),
            20 => Some(JointId::AnkleLeft),
            21 => Some(JointId::FootLeft),
            22 => Some(JointId::HipRight),
            23 => Some(JointId::KneeRight),
            24 => Some(JointId::AnkleRight),
            25 => Some(JointId::FootRight),
            26 => Some(JointId::Head),
            27 => Some(JointId::Nose),
            28 => Some(JointId::EyeLeft),
            29 => Some(JointId::EarLeft),
            30 => Some(JointId::EyeRight),
            31 => Some(JointId::EarRight),
            _ => None,
        }
    }

    /// The joint's place in a per-joint array.
    #[verifier::when_used_as_spec(spec_index)]
    pub fn index(self) -> (i: usize)
        ensures
            i == self.spec_index(),
            i < JOINT_COUNT,
    {
        match self {
            JointId::Pelvis => 0,
            JointId::SpineNavel => 1,
            JointId::SpineChest => 2,
            JointId::Neck => 3,
            JointId::ClavicleLeft => 4,
            JointId::ShoulderLeft => 5,
            JointId::ElbowLeft => 6,
            JointId::WristLeft => 7,
            JointId::HandLeft => 8,
            JointId::HandtipLeft => 9,
            JointId::ThumbLeft => 10,
            JointId::ClavicleRight => 11,
            JointId::ShoulderRight => 12,
            JointId::ElbowRight => 13,
            JointId::WristRight => 14,
            JointId::HandRight => 15,
            JointId::HandtipRight => 16,
            JointId::ThumbRight => 17,
            JointId::HipLeft => 18,
            JointId::KneeLeft => 19,
            JointId::AnkleLeft => 20,
            JointId::FootLeft => 21,
            JointId::HipRight => 22,
            JointId::KneeRight => 23,
            JointId::AnkleRight => 24,
            JointId::FootRight => 25,
            JointId::Head => 26,
            JointId::Nose => 27,
            JointId::EyeLeft => 28,
            JointId::EarLeft => 29,
            JointId::EyeRight => 30,
            JointId::EarRight => 31,
        }
    }

    /// The joint at a place of a per-joint array, if the place exists.
    #[verifier::when_used_as_spec(spec_from_index)]
    pub fn from_index(index: usize) -> (joint: Option<JointId>)
        ensures
            joint == JointId::spec_from_index(index),
            joint is Some <==> index < JOINT_COUNT,
            joint matches Some(id) ==> id.spec_index() == index,
    {
        match index {
            0 => Some(JointId::Pelvis),
            1 => Some(JointId::SpineNavel),
            2 => Some(JointId::SpineChest),
            3 => Some(JointId::Neck),
            4 => Some(JointId::ClavicleLeft),
            5 => Some(JointId::ShoulderLeft),
            6 => Some(JointId::ElbowLeft),
            7 => Some(JointId::WristLeft),
            8 => Some(JointId::HandLeft),
            9 => Some(JointId::HandtipLeft),
            10 => Some(JointId::ThumbLeft),
            11 => Some(JointId::ClavicleRight),
            12 => Some(JointId::ShoulderRight),
            13 => Some(JointId::ElbowRight),
            14 => Some(JointId::WristRight),
            15 => Some(JointId::HandRight),
            16 => Some(JointId::HandtipRight),
            17 => Some(JointId::ThumbRight),
            18 => Some(JointId::HipLeft),
            19 => Some(JointId::KneeLeft),
            20 => Some(JointId::AnkleLeft),
            21 => Some(JointId::FootLeft),
            22 => Some(JointId::HipRight),
            23 => Some(JointId::KneeRight),
            24 => Some(JointId::AnkleRight),
            25 => Some(JointId::FootRight),
            26 => Some(JointId::Head),
            27 => Some(JointId::Nose),
            28 => Some(JointId::EyeLeft),
            29 => Some(JointId::EarLeft),
            30 => Some(JointId::EyeRight),
            31 => Some(JointId::EarRight),
            _ => None,
        }
    }
}

/// Every joint has a place below [`JOINT_COUNT`], and is the joint found at
/// that place.
pub proof fn law_joint_index_round_trip(id: JointId)
    ensures
        id.spec_index() < JOINT_COUNT,
        JointId::spec_from_index(id.spec_index()) == Some(id),
{
}

/// The samples of one body in one frame, one per joint.
#[derive(Clone, Copy, Debug)]
pub struct Skeleton {
    pub joints: [RawJointSample; JOINT_COUNT],
}

impl Skeleton {
    /// The sample of the named joint.
    pub fn joint(&self, id: JointId) -> (sample: &RawJointSample)
        ensures
            *sample == self.joints[id.spec_index() as int],
    {
        &self.joints[id.index()]
    }
}

} // verus!
