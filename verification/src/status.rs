use vstd::prelude::*;

verus! {

/// The status code the SDK returns when a call succeeded.
pub const QHYCCD_SUCCESS: u32 = 0;

/// The status code the SDK returns when a call failed.
pub const QHYCCD_ERROR: u32 = 0xFFFF_FFFF;

/// The status code with which a single-frame exposure request reports that
/// the frame can be read at once, without waiting for an exposure.
pub const QHYCCD_READ_DIRECTLY: u32 = 0x2001;

/// The error of every SDK call that did not succeed.
#[derive(Debug)]
pub struct QHYError {}

/// Turns an SDK status code into a `Result`: only `QHYCCD_SUCCESS` is success.
pub fn check_error(err: u32) -> (res: Result<(), QHYError>)
    ensures
        res is Ok <==> err == QHYCCD_SUCCESS,
{
    if err != QHYCCD_SUCCESS {
        return Err(QHYError {});
    }
    Ok(())
}


/// Turns the status of a single-frame exposure request into a `Result`: the
/// SDK reports success with any code other than `QHYCCD_ERROR`.
pub fn check_exposure_start(ret: u32) -> (res: Result<(), QHYError>)
    ensures
        res is Ok <==> ret != QHYCCD_ERROR,
{
    if ret == QHYCCD_ERROR {
        Err(QHYError {})
    } else {
        Ok(())
    }
}

/// What an accepted single-frame exposure request left to do.
#[derive(Debug, Clone, Copy, PartialEq, Eq, Structural)]
pub enum ExpResult {
    /// The camera is exposing; the frame can be read once it is done.
    Exposing,
    /// The frame can be read at once.
    ReadDirectly,
}

/// Classifies the status of a single-frame exposure request.
pub fn classify_exposure_start(ret: u32) -> (res: Result<ExpResult, QHYError>)
    ensures
        res is Err <==> ret == QHYCCD_ERROR,
        res matches Ok(r) ==> (r == ExpResult::ReadDirectly <==> ret == QHYCCD_READ_DIRECTLY),
{
    if ret == QHYCCD_ERROR {
        Err(QHYError {})
    } else if ret == QHYCCD_READ_DIRECTLY {
        Ok(ExpResult::ReadDirectly)
    } else {
        Ok(ExpResult::Exposing)
    }
}

/// Reads the answer of the SDK to whether a control is available: it
/// answers with the success code when it is.
pub fn control_available(ret: u32) -> (available: bool)
    ensures
        available <==> ret == QHYCCD_SUCCESS,
{
    ret == QHYCCD_SUCCESS
}

/// How the camera delivers frames.
#[derive(Debug, Clone, Copy, PartialEq, Eq, Structural)]
pub enum StreamMode {
    SingleFrame,
    Live,
}

impl StreamMode {
    /// The code of this mode in the SDK.
    pub open spec fn code_spec(self) -> u8 {
        match self {
            StreamMode::SingleFrame => 0,
            StreamMode::Live => 1,
        }
    }

    /// Returns the code of this mode in the SDK: 0 for single frames, 1 for live video.
    pub fn code(&self) -> (c: u8)
        ensures
            c == self.code_spec(),
    {
        match self {
            StreamMode::SingleFrame => 0,
            StreamMode::Live => 1,
        }
    }
}


/// The SDK's codes of the stream modes: 0 for single frames, 1 for live video.
pub proof fn lemma_stream_mode_codes()
    ensures
        StreamMode::SingleFrame.code_spec() == 0,
        StreamMode::Live.code_spec() == 1,
{
}

} // verus!
