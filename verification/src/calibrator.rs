//! Collecting the landmarks of a calibration.
//!
//! A calibration needs the same three landmarks seen from two devices. Each
//! landmark is the mean of many raw samples, which gather in a scratch buffer
//! until the landmark is committed. Only the last three committed landmarks
//! are kept: a fourth pushes the oldest out.
//!
//! Taking the mean is arithmetic on doubles and is the caller's part; the
//! caller reads the scratch buffer and hands the mean in.

use vstd::prelude::*;
use vstd::std_specs::convert::FromSpecImpl;
use crate::geometry::{Point3, Vector3};

verus! {

/// How many landmarks make a triangle.
pub const LANDMARK_COUNT: usize = 3;

/// Three landmarks in the order in which they were taken: the origin first,
/// then the two points that span the edges from it.
#[derive(Clone, Copy, Debug)]
pub struct Triangle {
    vertices: [Point3; LANDMARK_COUNT],
}

impl Triangle {
    /// The three landmarks, in order.
    pub closed spec fn spec_vertices(&self) -> Seq<Point3> {
        self.vertices@
    }

    pub fn new(points: [Point3; LANDMARK_COUNT]) -> (triangle: Triangle)
        ensures
            triangle.spec_vertices() == points@,
    {
        Triangle { vertices: points }
    }

    /// The three landmarks, in order.
    pub fn vertices(&self) -> (points: [Point3; LANDMARK_COUNT])
        ensures
            points@ == self.spec_vertices(),
    {
        self.vertices
    }

    /// The first landmark, from which the two edges start.
    pub fn origin(&self) -> (point: Point3)
        ensures
            point == self.spec_vertices()[0],
    {
        self.vertices[0]
    }
}

impl From<[Point3; LANDMARK_COUNT]> for Triangle {
    fn from(points: [Point3; LANDMARK_COUNT]) -> (triangle: Triangle)
        ensures
            triangle.spec_vertices() == points@,
    {
        Triangle { vertices: points }
    }
}

impl FromSpecImpl<[Point3; LANDMARK_COUNT]> for Triangle {
    open spec fn obeys_from_spec() -> bool {
        true
    }

    closed spec fn from_spec(points: [Point3; LANDMARK_COUNT]) -> Triangle {
        Triangle { vertices: points }
    }
}

/// The landmarks kept after `point` is committed to `points`: `point` comes
/// last, and where three were held already the first of them leaves.
pub open spec fn commit(points: Seq<Point3>, point: Point3) -> Seq<Point3> {
    if points.len() >= LANDMARK_COUNT {
        points.subrange(points.len() - LANDMARK_COUNT + 1, points.len() as int).push(point)
    } else {
        points.push(point)
    }
}

/// The landmarks kept after all of `history` is committed to `points`, first
/// to last.
pub open spec fn commit_all(points: Seq<Point3>, history: Seq<Point3>) -> Seq<Point3>
    decreases history.len(),
{
    if history.len() == 0 {
        points
    } else {
        commit(commit_all(points, history.drop_last()), history.last())
    }
}

/// The last three of `history`, or all of it where it holds fewer.
pub open spec fn last_landmarks(history: Seq<Point3>) -> Seq<Point3> {
    if history.len() <= LANDMARK_COUNT {
        history
    } else {
        history.subrange(history.len() - LANDMARK_COUNT, history.len() as int)
    }
}

/// Gathers raw samples into landmarks, and keeps the last three landmarks.
pub struct AvgTriangle {
    sample_buf: Vec<Vector3>,
    points: Vec<Point3>,
}

impl AvgTriangle {
    /// The raw samples gathered since the last landmark was committed.
    pub closed spec fn spec_samples(&self) -> Seq<Vector3> {
        self.sample_buf@
    }

    /// The committed landmarks, oldest first.
    pub closed spec fn spec_points(&self) -> Seq<Point3> {
        self.points@
    }

    /// No more than three landmarks are held.
    pub open spec fn wf(&self) -> bool {
        self.spec_points().len() <= LANDMARK_COUNT
    }

    /// An accumulator with no sample and no landmark.
    pub fn new() -> (acc: AvgTriangle)
        ensures
            acc.wf(),
            acc.spec_samples().len() == 0,
            acc.spec_points().len() == 0,
    {
        AvgTriangle { sample_buf: Vec::with_capacity(1000), points: Vec::with_capacity(3) }
    }

    /// Adds a raw sample to the scratch buffer.
    pub fn push_sample(&mut self, sample: Point3)
        requires
            old(self).wf(),
        ensures
            final(self).wf(),
            final(self).spec_samples() == old(self).spec_samples().push(
                Vector3 { x: sample.x, y: sample.y, z: sample.z },
            ),
            final(self).spec_points() == old(self).spec_points(),
    {
        self.sample_buf.push(Vector3 { x: sample.x, y: sample.y, z: sample.z });
    }

    /// The scratch buffer, for the caller to average.
    pub fn samples(&self) -> (samples: &Vec<Vector3>)
        ensures
            samples@ == self.spec_samples(),
    {
        &self.sample_buf
    }

    /// The committed landmarks, oldest first.
    pub fn points(&self) -> (points: &Vec<Point3>)
        ensures
            points@ == self.spec_points(),
    {
        &self.points
    }

    /// Commits the mean of the scratch buffer as the next landmark and
    /// empties the buffer. `avg` is that mean, as the caller computed it.
    /// Where the buffer is empty there is no mean, and nothing changes.
    pub fn next_point(&mut self, avg: Option<Point3>)
        requires
            old(self).wf(),
        ensures
            final(self).wf(),
            old(self).spec_samples().len() == 0 || avg is None ==> {
                &&& final(self).spec_samples() == old(self).spec_samples()
                &&& final(self).spec_points() == old(self).spec_points()
            },
            old(self).spec_samples().len() > 0 && avg is Some ==> {
                &&& final(self).spec_samples().len() == 0
                &&& final(self).spec_points() == commit(old(self).spec_points(), avg->Some_0)
            },
    {
        if self.sample_buf.is_empty() {
            return ;
        }
        let point = match avg {
            Some(avg) => avg,
            None => {
                return ;
            },
        };
        self.sample_buf.clear();
        self.push_point(point);
    }

    /// Commits `point` as the next landmark. Where three are held already,
    /// the oldest leaves.
    pub fn push_point(&mut self, point: Point3)
        requires
            old(self).wf(),
        ensures
            final(self).wf(),
            final(self).spec_points() == commit(old(self).spec_points(), point),
            final(self).spec_samples() == old(self).spec_samples(),
    {
        if self.points.len() == 3 {
            self.points.remove(0);
        }
        self.points.push(point);
    }

    /// The triangle of the committed landmarks, once there are exactly three.
    pub fn triangle(&self) -> (triangle: Option<Triangle>)
        ensures
            triangle is Some <==> self.spec_points().len() == LANDMARK_COUNT,
            triangle matches Some(t) ==> t.spec_vertices() == self.spec_points(),
    {
        if self.points.len() != 3 {
            return None;
        }
        Some(Triangle::new([self.points[0], self.points[1], self.points[2]]))
    }
}

/// The controller button whose press takes a landmark.
pub const LANDMARK_BUTTON: u32 = 33;

/// Whether a press of `button` takes a landmark.
pub fn takes_landmark(button: u32) -> (b: bool)
    ensures
        b == (button == LANDMARK_BUTTON),
{
    button == LANDMARK_BUTTON
}

/// The hand that holds a controller.
#[derive(Clone, Copy, Debug, PartialEq, Eq, Structural)]
pub enum ControllerRole {
    LeftHand,
    RightHand,
}

/// The tracked device that is read together with a controller: the one worn
/// on the hand that holds the controller.
pub fn paired_device(role: ControllerRole, left_hand: usize, right_hand: usize) -> (device: usize)
    ensures
        device == (if role == ControllerRole::LeftHand {
            left_hand
        } else {
            right_hand
        }),
{
    match role {
        ControllerRole::LeftHand => left_hand,
        ControllerRole::RightHand => right_hand,
    }
}

/// Serial number of the tracker worn on the left hand: the letters `OSCTL`.
pub open spec fn left_tracker_serial() -> Seq<u8> {
    seq![0x4Fu8, 0x53u8, 0x43u8, 0x54u8, 0x4Cu8]
}

/// Serial number of the tracker worn on the right hand: the letters `OSCTR`.
pub open spec fn right_tracker_serial() -> Seq<u8> {
    seq![0x4Fu8, 0x53u8, 0x43u8, 0x54u8, 0x52u8]
}

/// Whether the device at `index` reported the serial number `serial`.
pub open spec fn has_serial(serials: Seq<Option<Vec<u8>>>, index: int, serial: Seq<u8>) -> bool {
    0 <= index < serials.len() && serials[index] is Some && serials[index]->Some_0@ == serial
}

/// Whether `found` is the last device that reported `serial`, or nothing
/// where no device did.
pub open spec fn is_last_with_serial(
    serials: Seq<Option<Vec<u8>>>,
    serial: Seq<u8>,
    found: Option<usize>,
) -> bool {
    match found {
        Some(index) => has_serial(serials, index as int, serial) && forall|later: int|
            index < later < serials.len() ==> !has_serial(serials, later, serial),
        None => forall|any: int| 0 <= any < serials.len() ==> !has_serial(serials, any, serial),
    }
}

fn same_bytes(a: &Vec<u8>, b: &[u8]) -> (same: bool)
    ensures
        same == (a@ == b@),
{
    if a.len() != b.len() {
        return false;
    }
    let mut i: usize = 0;
    while i < a.len()
        invariant
            i <= a.len(),
            a.len() == b.len(),
            forall|k: int| 0 <= k < i ==> a@[k] == b@[k],
        decreases a.len() - i,
    {
        if a[i] != b[i] {
            return false;
        }
        i = i + 1;
    }
    assert(a@ =~= b@);
    true
}

/// Finds a device by its serial number. `serials` holds, for every device
/// index, the serial number that the device reported, if it reported one.
/// Where several devices report the same number, the last one is taken.
pub fn find_device(serials: &Vec<Option<Vec<u8>>>, serial: &[u8]) -> (found: Option<usize>)
    ensures
        is_last_with_serial(serials@, serial@, found),
{
    let mut found: Option<usize> = None;
    let mut idx: usize = 0;
    while idx < serials.len()
        invariant
            idx <= serials.len(),
            is_last_with_serial(serials@.subrange(0, idx as int), serial@, found),
        decreases serials.len() - idx,
    {
        let hit = match &serials[idx] {
            Some(reported) => same_bytes(reported, serial),
            None => false,
        };
        proof {
            let before = serials@.subrange(0, idx as int);
            let after = serials@.subrange(0, idx + 1);
            assert(forall|k: int| 0 <= k < idx ==> before[k] == after[k]);
            assert(after[idx as int] == serials@[idx as int]);
            assert(forall|k: int|
                0 <= k < idx ==> has_serial(before, k, serial@) == has_serial(after, k, serial@));
            assert(hit == has_serial(after, idx as int, serial@));
        }
        if hit {
            found = Some(idx);
        }
        idx = idx + 1;
    }
    assert(serials@.subrange(0, idx as int) == serials@);
    found
}

/// The two trackers of a calibration, by device index: the one worn on the
/// left hand and the one worn on the right, where both are present.
pub fn find_trackers(serials: &Vec<Option<Vec<u8>>>) -> (trackers: Option<(usize, usize)>)
    ensures
        match trackers {
            Some((left, right)) => {
                &&& is_last_with_serial(serials@, left_tracker_serial(), Some(left))
                &&& is_last_with_serial(serials@, right_tracker_serial(), Some(right))
            },
            None => {
                ||| is_last_with_serial(serials@, left_tracker_serial(), None)
                ||| is_last_with_serial(serials@, right_tracker_serial(), None)
            },
        },
{
    let left_serial: [u8; 5] = [0x4F, 0x53, 0x43, 0x54, 0x4C];
    let right_serial: [u8; 5] = [0x4F, 0x53, 0x43, 0x54, 0x52];
    assert(left_serial@ == left_tracker_serial());
    assert(right_serial@ == right_tracker_serial());
    let left = find_device(serials, left_serial.as_slice());
    let right = find_device(serials, right_serial.as_slice());
    match (left, right) {
        (Some(l), Some(r)) => Some((l, r)),
        _ => None,
    }
}

/// The landmarks of one calibration, as the reference device and the target
/// device saw them. Both devices see every landmark, so both sides hold the
/// same number of them.
pub struct Calibrator {
    reference: AvgTriangle,
    target: AvgTriangle,
}

impl Calibrator {
    /// The landmarks in the reference device's frame, oldest first.
    pub closed spec fn spec_reference(&self) -> Seq<Point3> {
        self.reference.spec_points()
    }

    /// The landmarks in the target device's frame, oldest first.
    pub closed spec fn spec_target(&self) -> Seq<Point3> {
        self.target.spec_points()
    }

    /// Both sides hold the same number of landmarks, and no more than three.
    pub open spec fn wf(&self) -> bool {
        &&& self.spec_reference().len() == self.spec_target().len()
        &&& self.spec_reference().len() <= LANDMARK_COUNT
    }

    /// A calibration with no landmark yet.
    pub fn new() -> (calibrator: Calibrator)
        ensures
            calibrator.wf(),
            calibrator.spec_reference().len() == 0,
            calibrator.spec_target().len() == 0,
    {
        Calibrator { reference: AvgTriangle::new(), target: AvgTriangle::new() }
    }

    /// Takes one landmark in, as each device saw it. Returns the two
    /// triangles to calibrate on as soon as three landmarks are held; until
    /// then there is nothing to calibrate on, which is no fault.
    pub fn push_landmark(&mut self, reference: Point3, target: Point3) -> (triangles: Option<
        (Triangle, Triangle),
    >)
        requires
            old(self).wf(),
        ensures
            final(self).wf(),
            final(self).spec_reference() == commit(old(self).spec_reference(), reference),
            final(self).spec_target() == commit(old(self).spec_target(), target),
            triangles is Some <==> final(self).spec_reference().len() == LANDMARK_COUNT,
            triangles matches Some((r, t)) ==> {
                &&& r.spec_vertices() == final(self).spec_reference()
                &&& t.spec_vertices() == final(self).spec_target()
            },
    {
        self.reference.push_point(reference);
        self.target.push_point(target);
        match (self.reference.triangle(), self.target.triangle()) {
            (Some(r), Some(t)) => Some((r, t)),
            _ => None,
        }
    }
}

/// Committing never holds more than three landmarks, and the landmark just
/// committed is the last of them.
pub proof fn law_commit_bounded(points: Seq<Point3>, point: Point3)
    ensures
        1 <= commit(points, point).len() <= LANDMARK_COUNT,
        commit(points, point).last() == point,
{
}

/// What is kept is what was committed last: after any run of commits to an
/// empty accumulator, the landmarks held are the last three of the run, in
/// the order in which they came, or the whole run where it is shorter.
pub proof fn law_keeps_last_three(history: Seq<Point3>)
    ensures
        commit_all(Seq::empty(), history) == last_landmarks(history),
    decreases history.len(),
{
    if history.len() > 0 {
        law_keeps_last_three(history.drop_last());
        assert(commit_all(Seq::empty(), history) =~= last_landmarks(history));
    }
}

/// Whatever was held before, four commits leave the last three of the four,
/// in order: the first of them has left.
pub proof fn law_fourth_commit_evicts(
    points: Seq<Point3>,
    a: Point3,
    b: Point3,
    c: Point3,
    d: Point3,
)
    requires
        points.len() <= LANDMARK_COUNT,
    ensures
        commit(commit(commit(points, a), b), c) == seq![a, b, c],
        commit(commit(commit(commit(points, a), b), c), d) == seq![b, c, d],
{
    assert(commit(commit(commit(points, a), b), c) =~= seq![a, b, c]);
    assert(commit(seq![a, b, c], d) =~= seq![b, c, d]);
}

} // verus!
