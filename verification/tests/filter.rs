use kinectosc::filter::{
    Confidence, Estimate, FilteredJoint, KinectJointFilter, Phase, RawJointSample, SmoothParams,
};
use kinectosc::geometry::{Double, Point3, Quaternion, Rotation3, Vector3};
use kinectosc::skeleton::{JointId, Skeleton, JOINT_COUNT};

fn d(x: f64) -> Double {
    Double::from_bits(x.to_bits())
}

fn p(x: f64, y: f64, z: f64) -> Point3 {
    Point3::new(d(x), d(y), d(z))
}

fn v(x: f64, y: f64, z: f64) -> Vector3 {
    Vector3::new(d(x), d(y), d(z))
}

fn q(w: f64, i: f64, j: f64, k: f64) -> Quaternion {
    Quaternion::new(d(w), d(i), d(j), d(k))
}

fn sample(x: f64, confidence: Confidence) -> RawJointSample {
    RawJointSample { position: p(x, 2.0 * x, 3.0 * x), orientation: q(0.0, 1.0, 0.0, 0.0), confidence }
}

fn estimate(seed: f64) -> Estimate {
    Estimate {
        filtered_position: p(seed, seed + 1.0, seed + 2.0),
        trend: v(seed + 3.0, seed + 4.0, seed + 5.0),
        filtered_orientation: q(0.0, 0.0, 1.0, 0.0),
        orientation_trend: Rotation3 {
            m11: d(0.0),
            m12: d(-1.0),
            m13: d(0.0),
            m21: d(1.0),
            m22: d(0.0),
            m23: d(0.0),
            m31: d(0.0),
            m32: d(0.0),
            m33: d(1.0),
        },
        predicted_position: p(seed + 6.0, seed + 7.0, seed + 8.0),
        predicted_orientation: q(0.0, 0.0, 0.0, 1.0),
    }
}

#[test]
fn default_params_are_the_documented_numbers() {
    let params = SmoothParams::default();
    assert_eq!(f64::from_bits(params.smoothing.to_bits()), 0.25);
    assert_eq!(f64::from_bits(params.correction.to_bits()), 0.25);
    assert_eq!(f64::from_bits(params.prediction.to_bits()), 0.25);
    assert_eq!(f64::from_bits(params.jitter_radius.to_bits()), 0.03);
    assert_eq!(f64::from_bits(params.max_deviation_radius.to_bits()), 0.05);
}

#[test]
fn default_joint_is_at_rest() {
    let joint = FilteredJoint::default();
    assert_eq!(joint.frame_count, 0);
    assert_eq!(joint.raw_position, p(0.0, 0.0, 0.0));
    assert_eq!(joint.filtered_position, p(0.0, 0.0, 0.0));
    assert_eq!(joint.predicted_position, p(0.0, 0.0, 0.0));
    assert_eq!(joint.trend, v(0.0, 0.0, 0.0));
    assert_eq!(joint.raw_orientation, q(1.0, 0.0, 0.0, 0.0));
    assert_eq!(joint.filtered_orientation, q(1.0, 0.0, 0.0, 0.0));
    assert_eq!(joint.predicted_orientation, q(1.0, 0.0, 0.0, 0.0));
    assert_eq!(joint.orientation_trend, Rotation3::identity());
    assert_eq!(f64::from_bits(joint.orientation_trend.m22.to_bits()), 1.0);
    assert_eq!(f64::from_bits(joint.orientation_trend.m12.to_bits()), 0.0);
}

#[test]
fn confidence_from_level() {
    assert_eq!(Confidence::from_level(0), Confidence::Absent);
    assert_eq!(Confidence::from_level(1), Confidence::Low);
    assert_eq!(Confidence::from_level(2), Confidence::Medium);
    assert_eq!(Confidence::from_level(3), Confidence::High);
    assert_eq!(Confidence::from_level(4), Confidence::High);
    assert_eq!(Confidence::from_level(u32::MAX), Confidence::High);
}

#[test]
fn low_confidence_doubles_the_radii() {
    let params = SmoothParams::default();
    let low = params.for_confidence(Confidence::Low);
    assert_eq!(f64::from_bits(low.jitter_radius.to_bits()), 0.06);
    assert_eq!(f64::from_bits(low.max_deviation_radius.to_bits()), 0.1);
    assert_eq!(f64::from_bits(low.jitter_radius.to_bits()), 0.03 * 2.0);
    assert_eq!(f64::from_bits(low.max_deviation_radius.to_bits()), 0.05 * 2.0);
    assert_eq!(low.smoothing, params.smoothing);
    assert_eq!(low.correction, params.correction);
    assert_eq!(low.prediction, params.prediction);
    assert_eq!(params, SmoothParams::default());
    for confidence in [Confidence::Absent, Confidence::Medium, Confidence::High] {
        assert_eq!(params.for_confidence(confidence), params);
    }
}

#[test]
fn jitter_is_a_distance_within_the_radius() {
    let params = SmoothParams::default();
    assert!(params.is_jitter(d(0.0)));
    assert!(params.is_jitter(d(0.029)));
    assert!(params.is_jitter(d(0.03)));
    assert!(!params.is_jitter(d(0.030_000_000_000_000_002)));
    assert!(!params.is_jitter(d(0.05)));
    assert!(!params.is_jitter(d(f64::NAN)));
    let low = params.for_confidence(Confidence::Low);
    assert!(low.is_jitter(d(0.05)));
    assert!(low.is_jitter(d(0.06)));
    assert!(!low.is_jitter(d(0.061)));
}

#[test]
fn deviation_is_clamped_beyond_the_radius() {
    let params = SmoothParams::default();
    assert!(!params.exceeds_deviation(d(0.0)));
    assert!(!params.exceeds_deviation(d(0.05)));
    assert!(params.exceeds_deviation(d(0.050_000_000_000_000_01)));
    assert!(params.exceeds_deviation(d(1.0)));
    assert!(params.exceeds_deviation(d(f64::INFINITY)));
    assert!(!params.exceeds_deviation(d(f64::NAN)));
    let low = params.for_confidence(Confidence::Low);
    assert!(!low.exceeds_deviation(d(0.1)));
    assert!(low.exceeds_deviation(d(0.100_000_000_000_000_02)));
}

#[test]
fn only_absent_confidence_is_untracked() {
    assert!(!Confidence::Absent.is_tracked());
    assert!(Confidence::Low.is_tracked());
    assert!(Confidence::Medium.is_tracked());
    assert!(Confidence::High.is_tracked());
}

#[test]
fn cold_start_adopts_the_raw_sample() {
    let mut joint = FilteredJoint::default();
    let s = sample(10.0, Confidence::High);
    let e = estimate(100.0);
    assert_eq!(joint.phase(s.confidence), Phase::ColdStart);
    joint.update(&s, &e);
    assert_eq!(joint.filtered_position, s.position);
    assert_eq!(joint.raw_position, s.position);
    assert_eq!(joint.filtered_position, joint.raw_position);
    assert_eq!(joint.trend, v(0.0, 0.0, 0.0));
    assert_eq!(joint.frame_count, 1);
    assert_eq!(joint.filtered_orientation, s.orientation);
    assert_eq!(joint.raw_orientation, s.orientation);
    assert_eq!(joint.orientation_trend, Rotation3::identity());
    assert_eq!(joint.predicted_position, s.position);
    assert_eq!(joint.predicted_orientation, s.orientation);
}

#[test]
fn cold_start_reads_nothing_of_the_estimate() {
    let s = sample(10.0, Confidence::Medium);
    let mut a = FilteredJoint::default();
    a.update(&s, &estimate(100.0));
    let mut b = FilteredJoint::default();
    b.update(&s, &estimate(-7.0));
    assert_eq!(a, b);
}

#[test]
fn warm_up_takes_the_estimate_and_counts_two() {
    let mut joint = FilteredJoint::default();
    joint.update(&sample(10.0, Confidence::High), &estimate(100.0));
    let s = sample(11.0, Confidence::Medium);
    let e = estimate(200.0);
    assert_eq!(joint.phase(s.confidence), Phase::WarmUp);
    joint.update(&s, &e);
    assert_eq!(joint.frame_count, 2);
    assert_eq!(joint.raw_position, s.position);
    assert_eq!(joint.raw_orientation, s.orientation);
    assert_eq!(joint.filtered_position, e.filtered_position);
    assert_eq!(joint.trend, e.trend);
    assert_eq!(joint.filtered_orientation, e.filtered_orientation);
    assert_eq!(joint.orientation_trend, e.orientation_trend);
    assert_eq!(joint.predicted_position, e.predicted_position);
    assert_eq!(joint.predicted_orientation, e.predicted_orientation);
}

#[test]
fn steady_state_keeps_the_count() {
    let mut joint = FilteredJoint::default();
    joint.update(&sample(10.0, Confidence::High), &estimate(100.0));
    joint.update(&sample(11.0, Confidence::High), &estimate(200.0));
    for round in 0..5 {
        let s = sample(12.0 + round as f64, Confidence::Low);
        let e = estimate(300.0 + round as f64);
        assert_eq!(joint.phase(s.confidence), Phase::Steady);
        joint.update(&s, &e);
        assert_eq!(joint.frame_count, 2);
        assert_eq!(joint.filtered_position, e.filtered_position);
        assert_eq!(joint.trend, e.trend);
        assert_eq!(joint.raw_position, s.position);
    }
}

#[test]
fn steady_state_from_a_large_count() {
    let mut joint = FilteredJoint::default();
    joint.frame_count = u64::MAX;
    let e = estimate(1.0);
    joint.update(&sample(1.0, Confidence::High), &e);
    assert_eq!(joint.frame_count, u64::MAX);
    assert_eq!(joint.filtered_position, e.filtered_position);
}

#[test]
fn lost_sample_resets_the_count_and_nothing_else() {
    let mut joint = FilteredJoint::default();
    joint.update(&sample(10.0, Confidence::High), &estimate(100.0));
    joint.update(&sample(11.0, Confidence::High), &estimate(200.0));
    let before = joint;
    let lost = sample(99.0, Confidence::Absent);
    assert_eq!(joint.phase(lost.confidence), Phase::Lost);
    joint.update(&lost, &estimate(900.0));
    assert_eq!(joint.frame_count, 0);
    assert_eq!(joint, FilteredJoint { frame_count: 0, ..before });
}

#[test]
fn confidence_loss_then_high_is_a_cold_start() {
    let mut joint = FilteredJoint::default();
    joint.update(&sample(10.0, Confidence::High), &estimate(100.0));
    joint.update(&sample(11.0, Confidence::High), &estimate(200.0));
    joint.update(&sample(12.0, Confidence::High), &estimate(300.0));
    joint.update(&sample(99.0, Confidence::Absent), &estimate(900.0));
    assert_eq!(joint.frame_count, 0);
    let s = sample(13.0, Confidence::High);
    let e = estimate(400.0);
    joint.update(&s, &e);
    assert_eq!(joint.frame_count, 1);

    let mut fresh = FilteredJoint::default();
    fresh.update(&s, &e);
    assert_eq!(joint, fresh);
    assert_eq!(joint.filtered_position, s.position);
    assert_eq!(joint.trend, v(0.0, 0.0, 0.0));
}

#[test]
fn lost_sample_on_a_fresh_joint_changes_nothing() {
    let mut joint = FilteredJoint::default();
    joint.update(&sample(5.0, Confidence::Absent), &estimate(1.0));
    assert_eq!(joint, FilteredJoint::default());
}

#[test]
fn body_filter_starts_with_fresh_joints() {
    let filter = KinectJointFilter::new(SmoothParams::default());
    assert_eq!(filter.params(), SmoothParams::default());
    assert_eq!(*filter.joint(JointId::Pelvis), FilteredJoint::default());
    assert_eq!(*filter.joint(JointId::EarRight), FilteredJoint::default());
}

#[test]
fn body_filter_updates_every_joint_with_its_own_sample() {
    let mut filter = KinectJointFilter::new(SmoothParams::default());
    let mut joints = [sample(0.0, Confidence::High); JOINT_COUNT];
    let mut estimates = [estimate(0.0); JOINT_COUNT];
    for i in 0..JOINT_COUNT {
        let confidence = if i % 4 == 0 { Confidence::Absent } else { Confidence::High };
        joints[i] = sample(i as f64, confidence);
        estimates[i] = estimate(1000.0 + i as f64);
    }
    let skeleton = Skeleton { joints };
    filter.update(&skeleton, &estimates);
    filter.update(&skeleton, &estimates);
    for i in 0..JOINT_COUNT {
        let id = JointId::from_index(i).unwrap();
        let mut alone = FilteredJoint::default();
        alone.update(&joints[i], &estimates[i]);
        alone.update(&joints[i], &estimates[i]);
        assert_eq!(*filter.joint(id), alone);
        if i % 4 == 0 {
            assert_eq!(filter.joint(id).frame_count, 0);
        } else {
            assert_eq!(filter.joint(id).frame_count, 2);
            assert_eq!(filter.joint(id).raw_position, joints[i].position);
            assert_eq!(filter.joint(id).filtered_position, estimates[i].filtered_position);
        }
    }
    assert_eq!(filter.params(), SmoothParams::default());
}

fn interesting_doubles() -> Vec<f64> {
    vec![
        0.0,
        -0.0,
        f64::MIN_POSITIVE,
        -f64::MIN_POSITIVE,
        5e-324,
        -5e-324,
        0.03,
        0.05,
        0.25,
        0.5,
        0.999_999_999_999_999_9,
        1.0,
        1.000_000_000_000_000_2,
        -1.0,
        2.0,
        -0.25,
        1e300,
        -1e300,
        f64::MAX,
        f64::MIN,
        f64::INFINITY,
        f64::NEG_INFINITY,
        f64::NAN,
        -f64::NAN,
        f64::from_bits(0x7FF0_0000_0000_0001),
        f64::from_bits(0xFFFF_FFFF_FFFF_FFFF),
    ]
}

#[test]
fn order_agrees_with_the_comparison_of_doubles() {
    for x in interesting_doubles() {
        assert_eq!(d(x).is_nan(), x.is_nan(), "{:?}", x);
        for y in interesting_doubles() {
            assert_eq!(d(x).le(d(y)), x <= y, "{:?} <= {:?}", x, y);
            assert_eq!(d(x).gt(d(y)), x > y, "{:?} > {:?}", x, y);
        }
    }
}

#[test]
fn doubled_agrees_with_the_product_by_two() {
    let mut values = interesting_doubles();
    values.extend_from_slice(&[
        f64::from_bits(0x000F_FFFF_FFFF_FFFF),
        f64::from_bits(0x0008_0000_0000_0000),
        f64::from_bits(0x0007_FFFF_FFFF_FFFF),
        f64::from_bits(0x0010_0000_0000_0000),
        f64::from_bits(0x7FDF_FFFF_FFFF_FFFF),
        f64::from_bits(0x7FE0_0000_0000_0000),
        f64::from_bits(0x7FEF_FFFF_FFFF_FFFF),
        f64::from_bits(0x7FCF_FFFF_FFFF_FFFF),
        -f64::MAX / 2.0,
        f64::MAX / 2.0,
        3.141_592_653_589_793,
        1e-310,
        -1e-310,
        1e-308,
    ]);
    for x in values {
        let twice = f64::from_bits(d(x).doubled().to_bits());
        if x.is_nan() {
            assert!(twice.is_nan());
        } else {
            assert_eq!(twice.to_bits(), (x * 2.0).to_bits(), "{:?}", x);
        }
    }
}

#[test]
fn unit_interval_agrees_with_the_comparison_of_doubles() {
    for x in interesting_doubles() {
        assert_eq!(d(x).is_in_unit_interval(), 0.0 <= x && x <= 1.0, "{:?}", x);
    }
}

#[test]
fn positive_agrees_with_the_comparison_of_doubles() {
    for x in interesting_doubles() {
        assert_eq!(d(x).is_positive(), x > 0.0, "{:?}", x);
    }
}

#[test]
fn params_are_checked_for_range() {
    let p = SmoothParams::new(d(0.5), d(0.0), d(1.0), d(0.01), d(0.02)).unwrap();
    assert_eq!(p.smoothing, d(0.5));
    assert_eq!(p.correction, d(0.0));
    assert_eq!(p.prediction, d(1.0));
    assert_eq!(p.jitter_radius, d(0.01));
    assert_eq!(p.max_deviation_radius, d(0.02));
    assert!(SmoothParams::new(d(1.5), d(0.0), d(1.0), d(0.01), d(0.02)).is_none());
    assert!(SmoothParams::new(d(0.5), d(-0.1), d(1.0), d(0.01), d(0.02)).is_none());
    assert!(SmoothParams::new(d(0.5), d(0.0), d(f64::NAN), d(0.01), d(0.02)).is_none());
    assert!(SmoothParams::new(d(0.5), d(0.0), d(1.0), d(0.0), d(0.02)).is_none());
    assert!(SmoothParams::new(d(0.5), d(0.0), d(1.0), d(0.01), d(-0.02)).is_none());
    let dflt = SmoothParams::default();
    assert_eq!(
        SmoothParams::new(
            dflt.smoothing,
            dflt.correction,
            dflt.prediction,
            dflt.jitter_radius,
            dflt.max_deviation_radius
        ),
        Some(dflt)
    );
}
