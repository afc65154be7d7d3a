//! The per-joint stabilising filter, as a state machine on `frame_count`.
//!
//! Each frame brings one raw sample per joint. How the sample is treated
//! depends on how many samples the joint has taken in since tracking began:
//! the first is adopted verbatim, the second is averaged with the first, and
//! from the third on the sample is damped, smoothed and extrapolated. A sample
//! without confidence means that tracking is lost: the count goes back to zero,
//! and the next tracked sample is a first sample again.
//!
//! The smoothing and extrapolation themselves are arithmetic on doubles and
//! are done by the caller, who hands the results in as an [`Estimate`]. This
//! module decides which branch a sample takes, which results are taken over
//! and how the count advances. It also holds the rules on the two radii: how
//! wide they are for a sample, and on which side of a radius a distance lies.

use vstd::prelude::*;
use crate::geometry::{Double, Point3, Quaternion, Rotation3, Vector3};
use crate::skeleton::{JointId, Skeleton, JOINT_COUNT};

verus! {

/// How sure the sensor is of a joint, in the order the sensor reports it.
#[derive(Clone, Copy, Debug, PartialEq, Eq, Structural)]
pub enum Confidence {
    /// The joint is out of range: there is no estimate.
    Absent,
    /// The joint is occluded and its pose was inferred.
    Low,
    Medium,
    High,
}

impl Confidence {
    pub open spec fn spec_from_level(level: u32) -> Confidence {
        if level == 0 {
            Confidence::Absent
        } else if level == 1 {
            Confidence::Low
        } else if level == 2 {
            Confidence::Medium
        } else {
            Confidence::High
        }
    }

    /// Reads the sensor's ordinal. Only the two lowest levels change how a
    /// sample is filtered, so every level above `Medium` counts as `High`.
    #[verifier::when_used_as_spec(spec_from_level)]
    pub fn from_level(level: u32) -> (c: Confidence)
        ensures
            c == Confidence::spec_from_level(level),
    {
        if level == 0 {
            Confidence::Absent
        } else if level == 1 {
            Confidence::Low
        } else if level == 2 {
            Confidence::Medium
        } else {
            Confidence::High
        }
    }

    pub open spec fn spec_is_tracked(self) -> bool {
        self != Confidence::Absent
    }

    /// Whether the sensor has any estimate of the joint.
    #[verifier::when_used_as_spec(spec_is_tracked)]
    pub fn is_tracked(self) -> (b: bool)
        ensures
            b == self.spec_is_tracked(),
    {
        match self {
            Confidence::Absent => false,
            _ => true,
        }
    }
}

/// One joint of one frame, as the tracker reports it.
#[derive(Clone, Copy, Debug, PartialEq, Eq, Structural)]
pub struct RawJointSample {
    /// Millimetres, in the device's frame.
    pub position: Point3,
    /// A unit quaternion, in the device's frame.
    pub orientation: Quaternion,
    pub confidence: Confidence,
}

/// The branch of the filter that a sample takes.
#[derive(Clone, Copy, Debug, PartialEq, Eq, Structural)]
pub enum Phase {
    /// Tracking is lost; the sample carries nothing to filter.
    Lost,
    /// First tracked sample: adopted as it is.
    ColdStart,
    /// Second tracked sample: averaged with the first.
    WarmUp,
    /// Every later sample: jitter gate, smoothing, trend.
    Steady,
}

/// The branch taken by a sample of the given confidence when the joint has
/// counted `frame_count` samples.
pub open spec fn phase_of(frame_count: u64, confidence: Confidence) -> Phase {
    if confidence == Confidence::Absent {
        Phase::Lost
    } else if frame_count == 0 {
        Phase::ColdStart
    } else if frame_count == 1 {
        Phase::WarmUp
    } else {
        Phase::Steady
    }
}

/// The count after a sample that took the given branch.
pub open spec fn next_frame_count(frame_count: u64, phase: Phase) -> u64 {
    match phase {
        Phase::Lost => 0,
        Phase::ColdStart => 1,
        Phase::WarmUp => 2,
        Phase::Steady => frame_count,
    }
}

/// The tuning of the filter. The three factors lie between zero and one, the
/// two radii are positive and in metres.
#[derive(Clone, Copy, Debug, PartialEq, Eq, Structural)]
pub struct SmoothParams {
    pub smoothing: Double,
    pub correction: Double,
    pub prediction: Double,
    pub jitter_radius: Double,
    pub max_deviation_radius: Double,
}

/// Bit pattern of one quarter.
pub const QUARTER_BITS: u64 = 0x3FD0_0000_0000_0000;

/// Bit pattern of the double nearest to three hundredths.
pub const DEFAULT_JITTER_RADIUS_BITS: u64 = 0x3F9E_B851_EB85_1EB8;

/// Bit pattern of the double nearest to five hundredths.
pub const DEFAULT_MAX_DEVIATION_RADIUS_BITS: u64 = 0x3FA9_9999_9999_999A;

impl SmoothParams {
    /// The three factors lie between zero and one, and the two radii are
    /// greater than zero.
    pub open spec fn wf(&self) -> bool {
        &&& self.smoothing.spec_is_in_unit_interval()
        &&& self.correction.spec_is_in_unit_interval()
        &&& self.prediction.spec_is_in_unit_interval()
        &&& self.jitter_radius.spec_is_positive()
        &&& self.max_deviation_radius.spec_is_positive()
    }

    /// The tuning with the given values, if they are in range.
    pub fn new(
        smoothing: Double,
        correction: Double,
        prediction: Double,
        jitter_radius: Double,
        max_deviation_radius: Double,
    ) -> (params: Option<SmoothParams>)
        ensures
            params is Some <==> (SmoothParams {
                smoothing,
                correction,
                prediction,
                jitter_radius,
                max_deviation_radius,
            }).wf(),
            params matches Some(p) ==> p == (SmoothParams {
                smoothing,
                correction,
                prediction,
                jitter_radius,
                max_deviation_radius,
            }),
    {
        if smoothing.is_in_unit_interval() && correction.is_in_unit_interval()
            && prediction.is_in_unit_interval() && jitter_radius.is_positive()
            && max_deviation_radius.is_positive() {
            Some(SmoothParams { smoothing, correction, prediction, jitter_radius, max_deviation_radius })
        } else {
            None
        }
    }

    /// The tuning for one sample: where the sensor is unsure of the sample,
    /// both radii are twice as wide.
    pub open spec fn spec_for_confidence(&self, confidence: Confidence) -> SmoothParams {
        if confidence == Confidence::Low {
            SmoothParams {
                jitter_radius: self.jitter_radius.spec_doubled(),
                max_deviation_radius: self.max_deviation_radius.spec_doubled(),
                ..*self
            }
        } else {
            *self
        }
    }

    /// The tuning for one sample of the given confidence. It holds for that
    /// sample only: the tuning itself does not change.
    #[verifier::when_used_as_spec(spec_for_confidence)]
    pub fn for_confidence(&self, confidence: Confidence) -> (params: SmoothParams)
        ensures
            params == self.spec_for_confidence(confidence),
            self.wf() ==> params.wf(),
    {
        match confidence {
            Confidence::Low => SmoothParams {
                smoothing: self.smoothing,
                correction: self.correction,
                prediction: self.prediction,
                jitter_radius: self.jitter_radius.doubled(),
                max_deviation_radius: self.max_deviation_radius.doubled(),
            },
            _ => *self,
        }
    }

    /// Whether a raw position at the distance `jitter` of the filtered
    /// position is damped as noise: it is where the distance is no more than
    /// the jitter radius. A greater distance is real motion, and the raw
    /// position is accepted outright. The distance is in metres, as the
    /// radius is.
    pub fn is_jitter(&self, jitter: Double) -> (damped: bool)
        ensures
            damped == jitter.spec_le(self.jitter_radius),
    {
        jitter.le(self.jitter_radius)
    }

    /// Whether a prediction at the distance `deviation` of the raw position
    /// is pulled back: it is where the distance is greater than the maximal
    /// deviation radius. The distance is in metres, as the radius is.
    pub fn exceeds_deviation(&self, deviation: Double) -> (clamped: bool)
        ensures
            clamped == deviation.spec_gt(self.max_deviation_radius),
    {
        deviation.gt(self.max_deviation_radius)
    }

    pub open spec fn spec_default() -> SmoothParams {
        SmoothParams {
            smoothing: Double { bits: QUARTER_BITS },
            correction: Double { bits: QUARTER_BITS },
            prediction: Double { bits: QUARTER_BITS },
            jitter_radius: Double { bits: DEFAULT_JITTER_RADIUS_BITS },
            max_deviation_radius: Double { bits: DEFAULT_MAX_DEVIATION_RADIUS_BITS },
        }
    }
}

impl Default for SmoothParams {
    /// A quarter for each factor, three centimetres of jitter, five of
    /// deviation.
    fn default() -> (params: SmoothParams)
        ensures
            params == SmoothParams::spec_default(),
            params.wf(),
    {
        SmoothParams {
            smoothing: Double::from_bits(QUARTER_BITS),
            correction: Double::from_bits(QUARTER_BITS),
            prediction: Double::from_bits(QUARTER_BITS),
            jitter_radius: Double::from_bits(DEFAULT_JITTER_RADIUS_BITS),
            max_deviation_radius: Double::from_bits(DEFAULT_MAX_DEVIATION_RADIUS_BITS),
        }
    }
}

/// What the arithmetic on one sample came to. The caller computes it from the
/// joint's state before the update, the sample and the parameters, for the
/// branch that [`FilteredJoint::phase`] names. Only the branches `WarmUp` and
/// `Steady` need any arithmetic.
#[derive(Clone, Copy, Debug, PartialEq, Eq, Structural)]
pub struct Estimate {
    pub filtered_position: Point3,
    pub trend: Vector3,
    pub filtered_orientation: Quaternion,
    pub orientation_trend: Rotation3,
    pub predicted_position: Point3,
    pub predicted_orientation: Quaternion,
}

/// The persistent state of one joint.
#[derive(Clone, Copy, Debug, PartialEq, Eq, Structural)]
pub struct FilteredJoint {
    pub raw_position: Point3,
    pub filtered_position: Point3,
    pub trend: Vector3,
    pub predicted_position: Point3,
    pub raw_orientation: Quaternion,
    pub filtered_orientation: Quaternion,
    pub orientation_trend: Rotation3,
    pub predicted_orientation: Quaternion,
    pub frame_count: u64,
}

impl FilteredJoint {
    pub open spec fn spec_default() -> FilteredJoint {
        FilteredJoint {
            raw_position: Point3::spec_origin(),
            filtered_position: Point3::spec_origin(),
            trend: Vector3::spec_zeros(),
            predicted_position: Point3::spec_origin(),
            raw_orientation: Quaternion::spec_identity(),
            filtered_orientation: Quaternion::spec_identity(),
            orientation_trend: Rotation3::spec_identity(),
            predicted_orientation: Quaternion::spec_identity(),
            frame_count: 0,
        }
    }

    /// The state of a joint whose first sample is `sample`: the raw, the
    /// filtered and the predicted pose are the sample's, the trends are those
    /// of a joint at rest, and one sample is counted.
    pub open spec fn started_with(sample: RawJointSample) -> FilteredJoint {
        FilteredJoint {
            raw_position: sample.position,
            filtered_position: sample.position,
            trend: Vector3::spec_zeros(),
            predicted_position: sample.position,
            raw_orientation: sample.orientation,
            filtered_orientation: sample.orientation,
            orientation_trend: Rotation3::spec_identity(),
            predicted_orientation: sample.orientation,
            frame_count: 1,
        }
    }

    pub open spec fn spec_phase(&self, confidence: Confidence) -> Phase {
        phase_of(self.frame_count, confidence)
    }

    /// The state after one sample.
    ///
    /// A lost sample only resets the count. A first sample is adopted as it
    /// is: with no trend there is nothing to smooth and nothing to
    /// extrapolate, so the filtered and the predicted pose are the raw pose.
    /// Later samples take the smoothed and the predicted values over from the
    /// estimate. Whenever the joint is tracked, the raw values are those of
    /// the sample.
    pub open spec fn step(self, sample: RawJointSample, estimate: Estimate) -> FilteredJoint {
        let phase = self.spec_phase(sample.confidence);
        let count = next_frame_count(self.frame_count, phase);
        match phase {
            Phase::Lost => FilteredJoint { frame_count: count, ..self },
            Phase::ColdStart => FilteredJoint::started_with(sample),
            _ => FilteredJoint {
                raw_position: sample.position,
                filtered_position: estimate.filtered_position,
                trend: estimate.trend,
                predicted_position: estimate.predicted_position,
                raw_orientation: sample.orientation,
                filtered_orientation: estimate.filtered_orientation,
                orientation_trend: estimate.orientation_trend,
                predicted_orientation: estimate.predicted_orientation,
                frame_count: count,
            },
        }
    }

    /// The branch that the next sample takes, given its confidence.
    #[verifier::when_used_as_spec(spec_phase)]
    pub fn phase(&self, confidence: Confidence) -> (phase: Phase)
        ensures
            phase == self.spec_phase(confidence),
    {
        match confidence {
            Confidence::Absent => Phase::Lost,
            _ => {
                if self.frame_count == 0 {
                    Phase::ColdStart
                } else if self.frame_count == 1 {
                    Phase::WarmUp
                } else {
                    Phase::Steady
                }
            },
        }
    }

    /// Takes one sample in.
    ///
    /// `estimate` holds what the caller computed for the branch that
    /// `self.phase(sample.confidence)` names. It is read in `WarmUp` and in
    /// `Steady` only.
    pub fn update(&mut self, sample: &RawJointSample, estimate: &Estimate)
        ensures
            *final(self) == old(self).step(*sample, *estimate),
            old(self).frame_count == 0 && sample.confidence.spec_is_tracked() ==> {
                &&& final(self).filtered_position == sample.position
                &&& final(self).raw_position == sample.position
                &&& final(self).predicted_position == sample.position
                &&& final(self).trend == Vector3::spec_zeros()
                &&& final(self).frame_count == 1
            },
            !sample.confidence.spec_is_tracked() ==> final(self).frame_count == 0,
    {
        match self.phase(sample.confidence) {
            Phase::Lost => {
                self.frame_count = 0;
            },
            Phase::ColdStart => {
                self.filtered_position = sample.position;
                self.trend = Vector3::zeros();
                self.filtered_orientation = sample.orientation;
                self.orientation_trend = Rotation3::identity();
                self.frame_count = 1;
                self.predicted_position = sample.position;
                self.predicted_orientation = sample.orientation;
                self.raw_position = sample.position;
                self.raw_orientation = sample.orientation;
            },
            Phase::WarmUp => {
                self.filtered_position = estimate.filtered_position;
                self.trend = estimate.trend;
                self.filtered_orientation = estimate.filtered_orientation;
                self.orientation_trend = estimate.orientation_trend;
                self.frame_count = self.frame_count + 1;
                self.predicted_position = estimate.predicted_position;
                self.predicted_orientation = estimate.predicted_orientation;
                self.raw_position = sample.position;
                self.raw_orientation = sample.orientation;
            },
            Phase::Steady => {
                self.filtered_position = estimate.filtered_position;
                self.trend = estimate.trend;
                self.filtered_orientation = estimate.filtered_orientation;
                self.orientation_trend = estimate.orientation_trend;
                self.predicted_position = estimate.predicted_position;
                self.predicted_orientation = estimate.predicted_orientation;
                self.raw_position = sample.position;
                self.raw_orientation = sample.orientation;
            },
        }
    }
}

impl Default for FilteredJoint {
    /// A joint that has seen no sample: at the origin, unrotated, count zero.
    fn default() -> (joint: FilteredJoint)
        ensures
            joint == FilteredJoint::spec_default(),
    {
        FilteredJoint {
            raw_position: Point3::origin(),
            filtered_position: Point3::origin(),
            trend: Vector3::zeros(),
            predicted_position: Point3::origin(),
            raw_orientation: Quaternion::identity(),
            filtered_orientation: Quaternion::identity(),
            orientation_trend: Rotation3::identity(),
            predicted_orientation: Quaternion::identity(),
            frame_count: 0,
        }
    }
}

/// The filters of all the joints of one body, under one tuning.
#[derive(Clone, Copy, Debug)]
pub struct KinectJointFilter {
    params: SmoothParams,
    joints: [FilteredJoint; JOINT_COUNT],
}

impl KinectJointFilter {
    pub closed spec fn spec_params(&self) -> SmoothParams {
        self.params
    }

    /// The joints' states, in the tracker's order.
    pub closed spec fn spec_joints(&self) -> Seq<FilteredJoint> {
        self.joints@
    }

    /// Filters in which no joint has seen a sample yet.
    pub fn new(params: SmoothParams) -> (filter: KinectJointFilter)
        ensures
            filter.spec_params() == params,
            filter.spec_joints() == Seq::new(
                JOINT_COUNT as nat,
                |i: int| FilteredJoint::spec_default(),
            ),
    {
        KinectJointFilter { params, joints: [FilteredJoint::default(); JOINT_COUNT] }
    }

    /// The tuning that every joint is filtered with.
    #[verifier::when_used_as_spec(spec_params)]
    pub fn params(&self) -> (params: SmoothParams)
        ensures
            params == self.spec_params(),
    {
        self.params
    }

    /// The state of the named joint.
    pub fn joint(&self, id: JointId) -> (joint: &FilteredJoint)
        ensures
            *joint == self.spec_joints()[id.spec_index() as int],
    {
        &self.joints[id.index()]
    }

    /// Takes one frame in: every joint takes its own sample, with the
    /// estimate computed for it, and no joint reads another's.
    pub fn update(&mut self, skeleton: &Skeleton, estimates: &[Estimate; JOINT_COUNT])
        ensures
            final(self).spec_params() == old(self).spec_params(),
            final(self).spec_joints() == Seq::new(
                JOINT_COUNT as nat,
                |i: int| old(self).spec_joints()[i].step(skeleton.joints[i], estimates[i]),
            ),
    {
        let mut idx: usize = 0;
        while idx < JOINT_COUNT
            invariant
                idx <= JOINT_COUNT,
                self.params == old(self).params,
                forall|i: int|
                    0 <= i < idx ==> #[trigger] self.joints[i] == old(self).joints[i].step(
                        skeleton.joints[i],
                        estimates[i],
                    ),
                forall|i: int| idx <= i < JOINT_COUNT ==> #[trigger] self.joints[i] == old(self).joints[i],
            decreases JOINT_COUNT - idx,
        {
            let mut joint = self.joints[idx];
            joint.update(&skeleton.joints[idx], &estimates[idx]);
            self.joints[idx] = joint;
            idx = idx + 1;
        }
    }
}

/// A first tracked sample is adopted as it is: the filtered position is the
/// raw position, the trend is zero and the count becomes one. Nothing of the
/// state before it and nothing of the estimate is read.
pub proof fn law_cold_start(joint: FilteredJoint, sample: RawJointSample, estimate: Estimate)
    requires
        joint.frame_count == 0,
        sample.confidence.spec_is_tracked(),
    ensures
        joint.step(sample, estimate).filtered_position == joint.step(sample, estimate).raw_position,
        joint.step(sample, estimate).raw_position == sample.position,
        joint.step(sample, estimate).trend == Vector3::spec_zeros(),
        joint.step(sample, estimate).frame_count == 1,
        joint.step(sample, estimate) == FilteredJoint::started_with(sample),
{
}

/// After a sample without confidence, the next tracked sample is treated as
/// the first sample of a joint that has never been tracked: whatever the
/// joint held before, the count goes to zero and then to one, and the state
/// is that of a fresh joint given the same sample.
pub proof fn law_confidence_loss_resets(
    joint: FilteredJoint,
    lost: RawJointSample,
    lost_estimate: Estimate,
    next: RawJointSample,
    next_estimate: Estimate,
)
    requires
        !lost.confidence.spec_is_tracked(),
        next.confidence.spec_is_tracked(),
    ensures
        joint.step(lost, lost_estimate).frame_count == 0,
        joint.step(lost, lost_estimate).step(next, next_estimate).frame_count == 1,
        joint.step(lost, lost_estimate).step(next, next_estimate)
            == FilteredJoint::spec_default().step(next, next_estimate),
        joint.step(lost, lost_estimate).step(next, next_estimate) == FilteredJoint::started_with(
            next,
        ),
{
}

/// A sample without confidence changes nothing but the count.
pub proof fn law_confidence_loss_keeps_state(
    joint: FilteredJoint,
    lost: RawJointSample,
    estimate: Estimate,
)
    requires
        !lost.confidence.spec_is_tracked(),
    ensures
        joint.step(lost, estimate) == (FilteredJoint { frame_count: 0, ..joint }),
{
}

} // verus!
