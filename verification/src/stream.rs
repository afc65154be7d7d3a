//! What is streamed, frame by frame, and when the stream ends.
//!
//! Of the bodies in a frame only the first is streamed, and of its joints
//! only a few. Each streamed joint has a slot, and the slot is the identifier
//! of its messages. An attempt that brings no frame is tried again, ends the
//! run or fails it, depending on why no frame came.

use vstd::prelude::*;
use crate::active_sensor::Error;
use crate::filter::FilteredJoint;
use crate::geometry::Point3;
use crate::osc::PoseMessage;
use crate::profile_provider::ProfileProvider;
use crate::skeleton::JointId;

verus! {

/// How many joints are streamed.
pub const STREAM_SLOTS: u32 = 5;

/// The joint streamed in a slot: the pelvis, the feet and the hands.
pub open spec fn spec_streamed_joint(slot: u32) -> Option<JointId> {
    match slot {
        0 => Some(JointId::Pelvis),
        1 => Some(JointId::FootLeft),
        2 => Some(JointId::FootRight),
        3 => Some(JointId::HandLeft),
        4 => Some(JointId::HandRight),
        _ => None,
    }
}

/// The joint streamed in a slot, for the slots below [`STREAM_SLOTS`].
#[verifier::when_used_as_spec(spec_streamed_joint)]
pub fn streamed_joint(slot: u32) -> (joint: Option<JointId>)
    ensures
        joint == spec_streamed_joint(slot),
        joint is Some <==> slot < STREAM_SLOTS,
{
    match slot {
        0 => Some(JointId::Pelvis),
        1 => Some(JointId::FootLeft),
        2 => Some(JointId::FootRight),
        3 => Some(JointId::HandLeft),
        4 => Some(JointId::HandRight),
        _ => None,
    }
}

/// The body to stream from a frame with `num_bodies` bodies: the first, if
/// there is any.
pub fn streamed_body(num_bodies: u32) -> (body: Option<u32>)
    ensures
        body == (if num_bodies == 0 {
            None
        } else {
            Some(0u32)
        }),
{
    if num_bodies == 0 {
        None
    } else {
        Some(0)
    }
}

/// The message for one joint.
///
/// `position` is the joint's predicted position, which the caller has
/// converted to metres. The orientation is the one last reported for the
/// joint. The message is valid while the joint is tracked, that is while its
/// filter counts at least one sample.
pub fn build_message_from_joint(
    profile: &ProfileProvider,
    joint: &FilteredJoint,
    position: Point3,
    id: u32,
) -> (message: PoseMessage)
    ensures
        message == (PoseMessage {
            id,
            is_valid: joint.frame_count > 0,
            wfd_rotation: profile.wfd_rotation,
            wfd_translation: profile.wfd_translation,
            position,
            orientation: joint.raw_orientation,
        }),
{
    PoseMessage {
        id,
        is_valid: joint.frame_count > 0,
        wfd_rotation: profile.wfd_rotation,
        wfd_translation: profile.wfd_translation,
        position,
        orientation: joint.raw_orientation,
    }
}

/// What the loop that drives the stream does after an attempt.
#[derive(Clone, Copy, Debug, PartialEq, Eq, Structural)]
pub enum LoopAction {
    /// Go on with the frame.
    Process,
    /// Nothing came in time: go round again.
    Retry,
    /// The recording is over: stop, with no fault.
    Stop,
    /// The device is unusable: stop with the fault.
    Abort,
}

pub open spec fn spec_loop_action<F>(frame: Result<F, Error>) -> LoopAction {
    match frame {
        Ok(_) => LoopAction::Process,
        Err(Error::Timeout) => LoopAction::Retry,
        Err(Error::End) => LoopAction::Stop,
        Err(Error::Fatal) => LoopAction::Abort,
    }
}

/// Sorts the end of an attempt: a frame is processed, a timeout is tried
/// again, the end of the stream ends the run cleanly, and a failure ends it
/// with an error.
pub fn loop_action<F>(frame: &Result<F, Error>) -> (action: LoopAction)
    ensures
        action == spec_loop_action(*frame),
{
    match frame {
        Ok(_) => LoopAction::Process,
        Err(Error::Timeout) => LoopAction::Retry,
        Err(Error::End) => LoopAction::Stop,
        Err(Error::Fatal) => LoopAction::Abort,
    }
}

/// No two slots stream the same joint.
pub proof fn law_slots_distinct(a: u32, b: u32)
    requires
        a < STREAM_SLOTS,
        b < STREAM_SLOTS,
        a != b,
    ensures
        spec_streamed_joint(a) != spec_streamed_joint(b),
{
}

} // verus!
