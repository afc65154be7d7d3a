use kinectosc::active_sensor::{ActiveSensor, Error, RealtimePlayback, NANOS_PER_SEC};
use kinectosc::k4a;
use kinectosc::k4a::{
    k4a_result, k4a_stream_result, k4a_wait_result, ResultCode, StreamError, StreamResultCode,
    WaitError, WaitResultCode,
};
use kinectosc::kinect::{
    after_capture, after_enqueue, after_pop, FrameStep, Kinect, WAIT_INFINITE,
};
use kinectosc::stream::{loop_action, LoopAction};

struct Scripted {
    answer: Result<u8, Error>,
}

impl ActiveSensor for Scripted {
    type Capture = u8;
    type Calibration = u16;

    fn get_capture(&self, timeout: i32) -> Result<u8, Error> {
        assert_eq!(timeout, -1);
        self.answer
    }

    fn get_calibration(&self) -> Result<u16, k4a::Error> {
        Ok(7)
    }
}

#[test]
fn result_codes() {
    assert_eq!(k4a_result(ResultCode(0)), Ok(()));
    assert_eq!(k4a_result(ResultCode(1)), Err(k4a::Error::Failed));
    assert!(ResultCode(0).is_defined());
    assert!(ResultCode(1).is_defined());
    assert!(!ResultCode(2).is_defined());
    assert!(!ResultCode(-1).is_defined());
    assert_eq!(k4a::Error::from(ResultCode(1)), k4a::Error::Failed);
}

#[test]
fn wait_result_codes() {
    assert_eq!(k4a_wait_result(WaitResultCode(0)), Ok(()));
    assert_eq!(k4a_wait_result(WaitResultCode(1)), Err(WaitError::Failed));
    assert_eq!(k4a_wait_result(WaitResultCode(2)), Err(WaitError::Timeout));
    assert!(WaitResultCode(2).is_defined());
    assert!(!WaitResultCode(3).is_defined());
    assert_eq!(WaitError::from(WaitResultCode(1)), WaitError::Failed);
    assert_eq!(WaitError::from(WaitResultCode(2)), WaitError::Timeout);
}

#[test]
fn stream_result_codes() {
    assert_eq!(k4a_stream_result(StreamResultCode(0)), Ok(()));
    assert_eq!(k4a_stream_result(StreamResultCode(1)), Err(StreamError::Failed));
    assert_eq!(k4a_stream_result(StreamResultCode(2)), Err(StreamError::Eof));
    assert!(StreamResultCode(2).is_defined());
    assert!(!StreamResultCode(3).is_defined());
    assert_eq!(StreamError::from(StreamResultCode(1)), StreamError::Failed);
    assert_eq!(StreamError::from(StreamResultCode(2)), StreamError::Eof);
}

#[test]
fn every_failure_has_one_of_three_outcomes() {
    assert_eq!(Error::from(k4a::Error::Failed), Error::Fatal);
    assert_eq!(Error::from(WaitError::Timeout), Error::Timeout);
    assert_eq!(Error::from(WaitError::Failed), Error::Fatal);
    assert_eq!(Error::from(StreamError::Failed), Error::Fatal);
    assert_eq!(Error::from(StreamError::Eof), Error::End);
    let e: Error = WaitError::Timeout.into();
    assert_eq!(e, Error::Timeout);
}

#[test]
fn playback_interval_is_a_second_divided_by_the_rate() {
    assert_eq!(RealtimePlayback::new((), 30, 0).interval(), 33_333_333);
    assert_eq!(RealtimePlayback::new((), 1, 0).interval(), NANOS_PER_SEC);
    assert_eq!(RealtimePlayback::new((), 60, 0).interval(), 16_666_666);
    assert_eq!(RealtimePlayback::new((), u32::MAX, 0).interval(), 0);
}

#[test]
fn playback_waits_out_the_rest_of_the_interval() {
    let paced = RealtimePlayback::new("recording", 30, 1_000);
    assert_eq!(*paced.playback(), "recording");
    assert_eq!(paced.wait_before_capture(1_000), Some(33_333_333));
    assert_eq!(paced.wait_before_capture(1_000 + 10_000_000), Some(23_333_333));
    assert_eq!(paced.wait_before_capture(1_000 + 33_333_332), Some(1));
    assert_eq!(paced.wait_before_capture(1_000 + 33_333_333), None);
    assert_eq!(paced.wait_before_capture(1_000 + 40_000_000), None);
}

#[test]
fn playback_counts_from_the_previous_capture() {
    let mut paced = RealtimePlayback::new((), 10, 0);
    assert_eq!(paced.wait_before_capture(250_000_000), None);
    paced.captured_at(260_000_000);
    assert_eq!(paced.wait_before_capture(300_000_000), Some(60_000_000));
    assert_eq!(paced.interval(), 100_000_000);
}

#[test]
fn playback_with_a_clock_that_reads_earlier_waits_a_full_interval() {
    let paced = RealtimePlayback::new((), 10, 5_000);
    assert_eq!(paced.wait_before_capture(4_000), Some(100_000_000));
}

#[test]
fn capture_goes_to_the_tracker() {
    match after_capture::<u8, u16>(Ok(5)) {
        FrameStep::EnqueueCapture { capture, timeout } => {
            assert_eq!(capture, 5);
            assert_eq!(timeout, WAIT_INFINITE);
            assert_eq!(timeout, -1);
        },
        _ => panic!("a capture is to be queued"),
    }
}

#[test]
fn sensor_error_ends_the_attempt_unchanged() {
    for e in [Error::End, Error::Timeout, Error::Fatal] {
        match after_capture::<u8, u16>(Err(e)) {
            FrameStep::Done(Err(got)) => assert_eq!(got, e),
            _ => panic!("the attempt is over"),
        }
    }
}

#[test]
fn queued_capture_is_followed_by_the_frame() {
    match after_enqueue::<u8, u16>(Ok(())) {
        FrameStep::PopResult { timeout } => assert_eq!(timeout, -1),
        _ => panic!("the frame is to be taken"),
    }
    match after_enqueue::<u8, u16>(Err(WaitError::Timeout)) {
        FrameStep::Done(Err(e)) => assert_eq!(e, Error::Timeout),
        _ => panic!("the attempt is over"),
    }
    match after_enqueue::<u8, u16>(Err(WaitError::Failed)) {
        FrameStep::Done(Err(e)) => assert_eq!(e, Error::Fatal),
        _ => panic!("the attempt is over"),
    }
}

#[test]
fn frame_or_tracker_error() {
    assert_eq!(after_pop::<u16>(Ok(9)), Ok(9));
    assert_eq!(after_pop::<u16>(Err(WaitError::Timeout)), Err(Error::Timeout));
    assert_eq!(after_pop::<u16>(Err(WaitError::Failed)), Err(Error::Fatal));
}

#[test]
fn kinect_asks_the_sensor_without_deadline() {
    let kinect = Kinect::new(Scripted { answer: Ok(42) }, ());
    match kinect.next_frame::<u16>() {
        FrameStep::EnqueueCapture { capture, timeout } => {
            assert_eq!(capture, 42);
            assert_eq!(timeout, -1);
        },
        _ => panic!("a capture is to be queued"),
    }
    let kinect = Kinect::new(Scripted { answer: Err(Error::End) }, ());
    match kinect.next_frame::<u16>() {
        FrameStep::Done(Err(e)) => assert_eq!(e, Error::End),
        _ => panic!("the attempt is over"),
    }
    assert_eq!(kinect.sensor.get_calibration(), Ok(7));
}

#[test]
fn loop_goes_on_stops_or_aborts() {
    assert_eq!(loop_action::<u8>(&Ok(1)), LoopAction::Process);
    assert_eq!(loop_action::<u8>(&Err(Error::Timeout)), LoopAction::Retry);
    assert_eq!(loop_action::<u8>(&Err(Error::End)), LoopAction::Stop);
    assert_eq!(loop_action::<u8>(&Err(Error::Fatal)), LoopAction::Abort);
}
