//! Getting one tracked frame out of a sensor and a body tracker.
//!
//! A frame takes three calls: the sensor gives a capture, the capture is
//! queued in the tracker, and the tracker gives the frame. Each call may
//! fail, and the first failure ends the attempt. The sensor is reached
//! through [`ActiveSensor`]; the tracker is the caller's, who makes the two
//! tracker calls and reports what came back. What to do next, and with which
//! error an attempt ends, is decided here.

use vstd::prelude::*;
use vstd::std_specs::convert::FromSpec;
use crate::active_sensor::{ActiveSensor, Error};
use crate::k4a::WaitError;

verus! {

/// The timeout that waits without end.
pub const WAIT_INFINITE: i32 = -1;

/// What is to happen next on the way to a frame.
pub enum FrameStep<C, F> {
    /// Queue `capture` in the tracker, waiting up to `timeout` milliseconds.
    EnqueueCapture { capture: C, timeout: i32 },
    /// Take a frame from the tracker, waiting up to `timeout` milliseconds.
    PopResult { timeout: i32 },
    /// The attempt is over: here is the frame, or why there is none.
    Done(Result<F, Error>),
}

/// What follows the sensor's answer: a capture goes to the tracker, an error
/// ends the attempt unchanged.
pub open spec fn spec_after_capture<C, F>(captured: Result<C, Error>) -> FrameStep<C, F> {
    match captured {
        Ok(capture) => FrameStep::EnqueueCapture { capture, timeout: WAIT_INFINITE },
        Err(e) => FrameStep::Done(Err(e)),
    }
}

/// What follows the tracker's answer to a queued capture: the frame is asked
/// for, or the attempt ends with the tracker's error.
pub open spec fn spec_after_enqueue<C, F>(enqueued: Result<(), WaitError>) -> FrameStep<C, F> {
    match enqueued {
        Ok(_) => FrameStep::PopResult { timeout: WAIT_INFINITE },
        Err(e) => FrameStep::Done(Err(Error::from_spec(e))),
    }
}

/// How the attempt ends on the tracker's answer to the request for a frame.
pub open spec fn spec_after_pop<F>(popped: Result<F, WaitError>) -> Result<F, Error> {
    match popped {
        Ok(frame) => Ok(frame),
        Err(e) => Err(Error::from_spec(e)),
    }
}

pub fn after_capture<C, F>(captured: Result<C, Error>) -> (step: FrameStep<C, F>)
    ensures
        step == spec_after_capture::<C, F>(captured),
{
    match captured {
        Ok(capture) => FrameStep::EnqueueCapture { capture, timeout: WAIT_INFINITE },
        Err(e) => FrameStep::Done(Err(e)),
    }
}

pub fn after_enqueue<C, F>(enqueued: Result<(), WaitError>) -> (step: FrameStep<C, F>)
    ensures
        step == spec_after_enqueue::<C, F>(enqueued),
{
    match enqueued {
        Ok(_) => FrameStep::PopResult { timeout: WAIT_INFINITE },
        Err(e) => FrameStep::Done(Err(Error::from(e))),
    }
}

pub fn after_pop<F>(popped: Result<F, WaitError>) -> (frame: Result<F, Error>)
    ensures
        frame == spec_after_pop(popped),
{
    match popped {
        Ok(frame) => Ok(frame),
        Err(e) => Err(Error::from(e)),
    }
}

/// A sensor together with the tracker that its captures are fed to.
pub struct Kinect<S, T> {
    pub sensor: S,
    pub tracker: T,
}

impl<S: ActiveSensor, T> Kinect<S, T> {
    pub fn new(sensor: S, tracker: T) -> (kinect: Kinect<S, T>)
        ensures
            kinect.sensor == sensor,
            kinect.tracker == tracker,
    {
        Kinect { sensor, tracker }
    }

    /// Begins the attempt: asks the sensor for a capture, waiting without
    /// end, and says what follows from its answer.
    ///
    /// The step is the one that follows from what the sensor answered when
    /// it was asked with [`WAIT_INFINITE`]. Whatever the answer, the next
    /// step is never to take a frame, and a capture is queued waiting without
    /// end.
    pub fn next_frame<F>(&self) -> (step: FrameStep<S::Capture, F>)
        ensures
            exists|captured: Result<S::Capture, Error>|
                call_ensures(
                    <S as ActiveSensor>::get_capture,
                    (&self.sensor, WAIT_INFINITE),
                    captured,
                ) && step == spec_after_capture::<S::Capture, F>(captured),
            !(step is PopResult),
            step matches FrameStep::EnqueueCapture { timeout, .. } ==> timeout == WAIT_INFINITE,
            step matches FrameStep::Done(r) ==> r is Err,
    {
        let captured = self.sensor.get_capture(WAIT_INFINITE);
        after_capture(captured)
    }
}

/// An attempt ends in a timeout only where a call timed out, in the end of
/// the stream only where the sensor said so, and no tracker error is ever
/// taken for the end of the stream.
pub proof fn law_tracker_errors<F>(e: WaitError)
    ensures
        spec_after_pop::<F>(Err(e)) == Err::<F, Error>(
            if e == WaitError::Timeout {
                Error::Timeout
            } else {
                Error::Fatal
            },
        ),
        spec_after_pop::<F>(Err(e)) != Err::<F, Error>(Error::End),
{
}

} // verus!
