//! Result codes of the native sensor interface, and the errors they stand for.
//!
//! Every call into the device, the recording or the tracker answers with a
//! small integer. Zero is success; what the other values mean depends on the
//! kind of call. The functions here turn such a code into a `Result`. A code
//! that the interface does not define is outside their domain.

use vstd::prelude::*;

verus! {

/// The answer of a call that either works or fails.
#[derive(Clone, Copy, Debug, PartialEq, Eq, Structural)]
pub struct ResultCode(pub i32);

/// The answer of a call that waits for data up to a deadline.
#[derive(Clone, Copy, Debug, PartialEq, Eq, Structural)]
pub struct WaitResultCode(pub i32);

/// The answer of a call that reads on in a recording.
#[derive(Clone, Copy, Debug, PartialEq, Eq, Structural)]
pub struct StreamResultCode(pub i32);

pub const K4A_RESULT_SUCCEEDED: i32 = 0;

pub const K4A_RESULT_FAILED: i32 = 1;

pub const K4A_WAIT_RESULT_SUCCEEDED: i32 = 0;

pub const K4A_WAIT_RESULT_FAILED: i32 = 1;

pub const K4A_WAIT_RESULT_TIMEOUT: i32 = 2;

pub const K4A_STREAM_RESULT_SUCCEEDED: i32 = 0;

pub const K4A_STREAM_RESULT_FAILED: i32 = 1;

pub const K4A_STREAM_RESULT_EOF: i32 = 2;

impl ResultCode {
    pub open spec fn spec_is_defined(self) -> bool {
        self.0 == K4A_RESULT_SUCCEEDED || self.0 == K4A_RESULT_FAILED
    }

    /// Whether the interface defines this code.
    #[verifier::when_used_as_spec(spec_is_defined)]
    pub fn is_defined(self) -> (b: bool)
        ensures
            b == self.spec_is_defined(),
    {
        self.0 == K4A_RESULT_SUCCEEDED || self.0 == K4A_RESULT_FAILED
    }
}

impl WaitResultCode {
    pub open spec fn spec_is_defined(self) -> bool {
        self.0 == K4A_WAIT_RESULT_SUCCEEDED || self.0 == K4A_WAIT_RESULT_FAILED || self.0
            == K4A_WAIT_RESULT_TIMEOUT
    }

    /// Whether the interface defines this code.
    #[verifier::when_used_as_spec(spec_is_defined)]
    pub fn is_defined(self) -> (b: bool)
        ensures
            b == self.spec_is_defined(),
    {
        self.0 == K4A_WAIT_RESULT_SUCCEEDED || self.0 == K4A_WAIT_RESULT_FAILED || self.0
            == K4A_WAIT_RESULT_TIMEOUT
    }
}

impl StreamResultCode {
    pub open spec fn spec_is_defined(self) -> bool {
        self.0 == K4A_STREAM_RESULT_SUCCEEDED || self.0 == K4A_STREAM_RESULT_FAILED || self.0
            == K4A_STREAM_RESULT_EOF
    }

    /// Whether the interface defines this code.
    #[verifier::when_used_as_spec(spec_is_defined)]
    pub fn is_defined(self) -> (b: bool)
        ensures
            b == self.spec_is_defined(),
    {
        self.0 == K4A_STREAM_RESULT_SUCCEEDED || self.0 == K4A_STREAM_RESULT_FAILED || self.0
            == K4A_STREAM_RESULT_EOF
    }
}

/// Why a plain call did not work.
#[derive(Clone, Copy, Debug, Hash, PartialEq, Eq, Structural)]
pub enum Error {
    Failed,
}

impl Error {
    /// The error that a failure code stands for.
    pub fn from(result: ResultCode) -> (e: Error)
        requires
            result.0 == K4A_RESULT_FAILED,
        ensures
            e == Error::Failed,
    {
        Error::Failed
    }
}

/// Success is `Ok`, failure is `Err(Failed)`.
pub fn k4a_result(result: ResultCode) -> (r: Result<(), Error>)
    requires
        result.spec_is_defined(),
    ensures
        result.0 == K4A_RESULT_SUCCEEDED <==> r == Ok::<(), Error>(()),
        result.0 == K4A_RESULT_FAILED <==> r == Err::<(), Error>(Error::Failed),
{
    if result.0 == K4A_RESULT_SUCCEEDED {
        Ok(())
    } else {
        Err(Error::from(result))
    }
}

/// Why a call that waits brought nothing.
#[derive(Clone, Copy, Debug, Hash, PartialEq, Eq, Structural)]
pub enum WaitError {
    Failed,
    /// The deadline passed before anything came.
    Timeout,
}

impl WaitError {
    pub open spec fn spec_from(result: WaitResultCode) -> WaitError {
        if result.0 == K4A_WAIT_RESULT_TIMEOUT {
            WaitError::Timeout
        } else {
            WaitError::Failed
        }
    }

    /// The error that a failure or timeout code stands for.
    pub fn from(result: WaitResultCode) -> (e: WaitError)
        requires
            result.0 == K4A_WAIT_RESULT_FAILED || result.0 == K4A_WAIT_RESULT_TIMEOUT,
        ensures
            e == WaitError::spec_from(result),
            result.0 == K4A_WAIT_RESULT_FAILED <==> e == WaitError::Failed,
            result.0 == K4A_WAIT_RESULT_TIMEOUT <==> e == WaitError::Timeout,
    {
        if result.0 == K4A_WAIT_RESULT_TIMEOUT {
            WaitError::Timeout
        } else {
            WaitError::Failed
        }
    }
}

/// Success is `Ok`, failure is `Err(Failed)`, a passed deadline is
/// `Err(Timeout)`.
pub fn k4a_wait_result(wait_result: WaitResultCode) -> (r: Result<(), WaitError>)
    requires
        wait_result.spec_is_defined(),
    ensures
        wait_result.0 == K4A_WAIT_RESULT_SUCCEEDED <==> r == Ok::<(), WaitError>(()),
        wait_result.0 == K4A_WAIT_RESULT_FAILED <==> r == Err::<(), WaitError>(WaitError::Failed),
        wait_result.0 == K4A_WAIT_RESULT_TIMEOUT <==> r == Err::<(), WaitError>(
            WaitError::Timeout,
        ),
{
    if wait_result.0 == K4A_WAIT_RESULT_SUCCEEDED {
        Ok(())
    } else {
        Err(WaitError::from(wait_result))
    }
}

/// Why a recording gave no further capture.
#[derive(Clone, Copy, Debug, Hash, PartialEq, Eq, Structural)]
pub enum StreamError {
    Failed,
    /// The recording is at its end.
    Eof,
}

impl StreamError {
    pub open spec fn spec_from(result: StreamResultCode) -> StreamError {
        if result.0 == K4A_STREAM_RESULT_EOF {
            StreamError::Eof
        } else {
            StreamError::Failed
        }
    }

    /// The error that a failure or end-of-stream code stands for.
    pub fn from(result: StreamResultCode) -> (e: StreamError)
        requires
            result.0 == K4A_STREAM_RESULT_FAILED || result.0 == K4A_STREAM_RESULT_EOF,
        ensures
            e == StreamError::spec_from(result),
            result.0 == K4A_STREAM_RESULT_FAILED <==> e == StreamError::Failed,
            result.0 == K4A_STREAM_RESULT_EOF <==> e == StreamError::Eof,
    {
        if result.0 == K4A_STREAM_RESULT_EOF {
            StreamError::Eof
        } else {
            StreamError::Failed
        }
    }
}

/// Success is `Ok`, failure is `Err(Failed)`, the end of the recording is
/// `Err(Eof)`.
pub fn k4a_stream_result(wait_result: StreamResultCode) -> (r: Result<(), StreamError>)
    requires
        wait_result.spec_is_defined(),
    ensures
        wait_result.0 == K4A_STREAM_RESULT_SUCCEEDED <==> r == Ok::<(), StreamError>(()),
        wait_result.0 == K4A_STREAM_RESULT_FAILED <==> r == Err::<(), StreamError>(
            StreamError::Failed,
        ),
        wait_result.0 == K4A_STREAM_RESULT_EOF <==> r == Err::<(), StreamError>(StreamError::Eof),
{
    if wait_result.0 == K4A_STREAM_RESULT_SUCCEEDED {
        Ok(())
    } else {
        Err(StreamError::from(wait_result))
    }
}

} // verus!
