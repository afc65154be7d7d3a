//! One face for every source of captures.
//!
//! A live device and a replayed recording fail in different ways. Both are
//! brought to the same three outcomes, so that the loop that drives them need
//! not know which one it has: the stream has ended, nothing came in time, or
//! the source is unusable.
//!
//! A recording has no frame rate of its own. [`RealtimePlayback`] gives it
//! one: before each capture it says how long to wait so that captures come no
//! faster than the interval allows. Waiting and reading the clock are the
//! caller's part; times are nanoseconds on a clock that does not go back.

use vstd::prelude::*;
use vstd::std_specs::convert::FromSpecImpl;
use crate::k4a::{StreamError, WaitError};

verus! {

/// Why a source gave no capture.
#[derive(Clone, Copy, Debug, PartialEq, Eq, Structural)]
pub enum Error {
    /// The recording is exhausted. Not a fault: the run is over.
    End,
    /// Nothing came before the deadline. Not a fault: ask again.
    Timeout,
    /// The device or the tracker failed. There is no retry.
    Fatal,
}

impl From<crate::k4a::Error> for Error {
    fn from(k4a_err: crate::k4a::Error) -> (e: Error) {
        match k4a_err {
            crate::k4a::Error::Failed => Error::Fatal,
        }
    }
}

impl FromSpecImpl<crate::k4a::Error> for Error {
    open spec fn obeys_from_spec() -> bool {
        true
    }

    open spec fn from_spec(k4a_err: crate::k4a::Error) -> Error {
        Error::Fatal
    }
}

impl From<WaitError> for Error {
    fn from(wait_err: WaitError) -> (e: Error) {
        match wait_err {
            WaitError::Timeout => Error::Timeout,
            WaitError::Failed => Error::Fatal,
        }
    }
}

impl FromSpecImpl<WaitError> for Error {
    open spec fn obeys_from_spec() -> bool {
        true
    }

    open spec fn from_spec(wait_err: WaitError) -> Error {
        match wait_err {
            WaitError::Timeout => Error::Timeout,
            WaitError::Failed => Error::Fatal,
        }
    }
}

impl From<StreamError> for Error {
    fn from(stream_err: StreamError) -> (e: Error) {
        match stream_err {
            StreamError::Failed => Error::Fatal,
            StreamError::Eof => Error::End,
        }
    }
}

impl FromSpecImpl<StreamError> for Error {
    open spec fn obeys_from_spec() -> bool {
        true
    }

    open spec fn from_spec(stream_err: StreamError) -> Error {
        match stream_err {
            StreamError::Failed => Error::Fatal,
            StreamError::Eof => Error::End,
        }
    }
}

/// A source of captures: what the pipeline needs of a sensor, and no more.
pub trait ActiveSensor {
    /// One frame of raw sensor data.
    type Capture;

    /// The intrinsic calibration of the sensor.
    type Calibration;

    /// The next capture. `timeout` is in milliseconds; a negative one waits
    /// without end.
    fn get_capture(&self, timeout: i32) -> Result<Self::Capture, Error>;

    fn get_calibration(&self) -> Result<Self::Calibration, crate::k4a::Error>;
}

pub const NANOS_PER_SEC: u64 = 1_000_000_000;

/// The time from `last_time` to `now`, or nothing if the clock reads earlier.
pub open spec fn elapsed_since(last_time: u64, now: u64) -> u64 {
    if now >= last_time {
        (now - last_time) as u64
    } else {
        0
    }
}

/// How long to wait at `now` so that `interval` has passed since `last_time`,
/// if it has not passed yet.
pub open spec fn remaining_wait(interval: u64, last_time: u64, now: u64) -> Option<u64> {
    let elapsed = elapsed_since(last_time, now);
    if interval > elapsed {
        Some((interval - elapsed) as u64)
    } else {
        None
    }
}

/// A recording played back at a fixed frame rate.
pub struct RealtimePlayback<P> {
    playback: P,
    interval: u64,
    last_time: u64,
}

impl<P> RealtimePlayback<P> {
    /// The time between two captures, in nanoseconds.
    pub closed spec fn spec_interval(&self) -> u64 {
        self.interval
    }

    /// When the previous capture was taken, or when playback was set up.
    pub closed spec fn spec_last_time(&self) -> u64 {
        self.last_time
    }

    pub closed spec fn spec_playback(&self) -> P {
        self.playback
    }

    /// Playback of `playback` at `fps` captures a second, set up at `now`.
    pub fn new(playback: P, fps: u32, now: u64) -> (paced: RealtimePlayback<P>)
        requires
            fps > 0,
        ensures
            paced.spec_playback() == playback,
            paced.spec_interval() == NANOS_PER_SEC / (fps as u64),
            paced.spec_last_time() == now,
    {
        RealtimePlayback { playback, interval: NANOS_PER_SEC / (fps as u64), last_time: now }
    }

    /// The recording that is played back.
    pub fn playback(&self) -> (playback: &P)
        ensures
            *playback == self.spec_playback(),
    {
        &self.playback
    }

    #[verifier::when_used_as_spec(spec_interval)]
    pub fn interval(&self) -> (interval: u64)
        ensures
            interval == self.spec_interval(),
    {
        self.interval
    }

    /// How long the caller is to sleep at `now` before it asks the recording
    /// for the next capture: what is left of the interval since the previous
    /// capture, or `None` if the interval is over.
    pub fn wait_before_capture(&self, now: u64) -> (wait: Option<u64>)
        ensures
            wait == remaining_wait(self.spec_interval(), self.spec_last_time(), now),
    {
        let elapsed: u64 = if now >= self.last_time {
            now - self.last_time
        } else {
            0
        };
        if self.interval > elapsed {
            Some(self.interval - elapsed)
        } else {
            None
        }
    }

    /// Notes that a capture was asked for and that the answer came at `now`.
    pub fn captured_at(&mut self, now: u64)
        ensures
            final(self).spec_last_time() == now,
            final(self).spec_interval() == old(self).spec_interval(),
            final(self).spec_playback() == old(self).spec_playback(),
    {
        self.last_time = now;
    }
}

/// Sleeping for the time that is asked for brings the clock to a full
/// interval after the previous capture, and never takes longer than an
/// interval. Where nothing is asked for, the interval is over already.
pub proof fn law_pacing(interval: u64, last_time: u64, now: u64)
    requires
        last_time <= now,
    ensures
        match remaining_wait(interval, last_time, now) {
            Some(wait) => 0 < wait <= interval && now + wait - last_time == interval,
            None => now - last_time >= interval,
        },
{
}

} // verus!
