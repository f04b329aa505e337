use vstd::prelude::*;

use crate::status::StreamMode;

verus! {

/// Why taking a dark frame failed.
#[derive(Debug, Clone, Copy, PartialEq, Eq, Structural)]
pub enum DarkCaptureError {
    StreamMode,
    ReadMode,
    InitCamera,
    ChipInfo,
    Binning,
    Resolution,
    ExposureTime,
    ExposureTrigger,
    FrameData,
    /// Fewer than 90 % of the pixels are dark.
    NotDark,
    CameraId,
    WriteFits,
}

/// The message of an error whose text does not depend on the frame or on
/// the file system, or `None` for the two that do (`NotDark`, `WriteFits`).
pub open spec fn fixed_message_spec(e: DarkCaptureError) -> Option<Seq<char>> {
    match e {
        DarkCaptureError::StreamMode => Some("Failed to set single-frame mode"@),
        DarkCaptureError::ReadMode => Some("Failed to set read mode 0"@),
        DarkCaptureError::InitCamera => Some("Failed to initialize camera"@),
        DarkCaptureError::ChipInfo => Some("Failed to read chip info"@),
        DarkCaptureError::Binning => Some("Failed to set 1x1 binning"@),
        DarkCaptureError::Resolution => Some("Failed to set full-frame resolution"@),
        DarkCaptureError::ExposureTime => Some("Failed to set exposure time"@),
        DarkCaptureError::ExposureTrigger => Some("Exposure trigger failed"@),
        DarkCaptureError::FrameData => Some("Failed to read frame data"@),
        DarkCaptureError::CameraId => Some("Failed to get camera id"@),
        DarkCaptureError::NotDark => None,
        DarkCaptureError::WriteFits => None,
    }
}

impl DarkCaptureError {
    /// Returns the message of this error where its text is fixed.
    pub fn fixed_message(&self) -> (m: Option<String>)
        ensures
            match m {
                Some(s) => fixed_message_spec(*self) == Some(s@),
                None => fixed_message_spec(*self) is None,
            },
    {
        let text = match self {
            DarkCaptureError::StreamMode => "Failed to set single-frame mode",
            DarkCaptureError::ReadMode => "Failed to set read mode 0",
            DarkCaptureError::InitCamera => "Failed to initialize camera",
            DarkCaptureError::ChipInfo => "Failed to read chip info",
            DarkCaptureError::Binning => "Failed to set 1x1 binning",
            DarkCaptureError::Resolution => "Failed to set full-frame resolution",
            DarkCaptureError::ExposureTime => "Failed to set exposure time",
            DarkCaptureError::ExposureTrigger => "Exposure trigger failed",
            DarkCaptureError::FrameData => "Failed to read frame data",
            DarkCaptureError::CameraId => "Failed to get camera id",
            DarkCaptureError::NotDark => {
                return None;
            },
            DarkCaptureError::WriteFits => {
                return None;
            },
        };
        Some(String::from_str(text))
    }
}

/// The exposure time of a dark frame, in microseconds (one second).
pub const DARK_EXPOSURE_US: u64 = 1_000_000;

/// Where taking a dark frame stands: which request it waits on the outcome of.
#[derive(Debug, Clone, Copy, PartialEq, Eq, Structural)]
pub enum CaptureStep {
    Start,
    AwaitPrompt,
    AwaitStreamMode,
    AwaitReadMode,
    AwaitInit,
    AwaitChipInfo,
    AwaitBinning { width: u32, height: u32 },
    AwaitResolution,
    AwaitExposureTime,
    AwaitControls,
    AwaitBuffer,
    AwaitExpose,
    AwaitFrame,
    AwaitAssessment,
    AwaitReleaseRejected,
    AwaitCameraId,
    AwaitWrite,
    AwaitRelease,
    Finished { error: Option<DarkCaptureError> },
}

/// The outcome of the last request, as the caller saw it.
#[derive(Debug, Clone, Copy, PartialEq, Eq, Structural)]
pub enum CaptureEvent {
    Succeeded,
    Failed,
    /// The chip geometry was read: the full image is this wide and high.
    ChipSize { width: u32, height: u32 },
}

/// What the caller is to do next.
#[derive(Debug, Clone, Copy, PartialEq, Eq, Structural)]
pub enum CaptureAction {
    /// Ask the user to cover the lens and wait for Enter.
    PromptCover,
    SetStreamMode(StreamMode),
    SetReadMode(u32),
    InitCamera,
    ReadChipInfo,
    SetBinMode { wbin: u32, hbin: u32 },
    SetResolution { x: u32, y: u32, width: u32, height: u32 },
    /// Set the exposure time, in microseconds.
    SetExposure(u64),
    /// Take a snapshot of the controls (for the sensor temperature).
    ReadControls,
    /// Allocate a buffer of the size the camera asks for.
    AllocateBuffer,
    /// Start the single-frame exposure.
    Expose,
    /// Read the frame into the buffer.
    ReadFrame,
    /// Check that the frame is dark (see `assess_dark_frame`).
    AssessFrame,
    /// Release the resources of the SDK.
    ReleaseResources,
    /// Read the camera id for the header.
    ReadCameraId,
    /// Write the FITS file.
    WriteFits,
    /// Taking the dark frame is over, with this error if it failed.
    Finish { error: Option<DarkCaptureError> },
}

/// The end with error `e`.
pub open spec fn fail_with(e: DarkCaptureError) -> (CaptureStep, CaptureAction) {
    (CaptureStep::Finished { error: Some(e) }, CaptureAction::Finish { error: Some(e) })
}

/// Taking a dark frame: prompt the user, then set single-frame mode, read
/// mode 0, initialise the camera, read the chip geometry, set 1x1 binning,
/// the full-frame resolution and an exposure of one second, snapshot the
/// controls, allocate the buffer, expose and read the frame, check that it is
/// dark, read the camera id, write the FITS file and release the SDK. The
/// first failure of a request ends it with the error of that request; a
/// frame that is not dark ends it after releasing the SDK.
pub open spec fn capture_next(step: CaptureStep, event: CaptureEvent) -> (CaptureStep, CaptureAction) {
    let failed = event == CaptureEvent::Failed;
    match step {
        CaptureStep::Start => (CaptureStep::AwaitPrompt, CaptureAction::PromptCover),
        CaptureStep::AwaitPrompt => (CaptureStep::AwaitStreamMode, CaptureAction::SetStreamMode(StreamMode::SingleFrame)),
        CaptureStep::AwaitStreamMode => if failed {
            fail_with(DarkCaptureError::StreamMode)
        } else {
            (CaptureStep::AwaitReadMode, CaptureAction::SetReadMode(0))
        },
        CaptureStep::AwaitReadMode => if failed {
            fail_with(DarkCaptureError::ReadMode)
        } else {
            (CaptureStep::AwaitInit, CaptureAction::InitCamera)
        },
        CaptureStep::AwaitInit => if failed {
            fail_with(DarkCaptureError::InitCamera)
        } else {
            (CaptureStep::AwaitChipInfo, CaptureAction::ReadChipInfo)
        },
        CaptureStep::AwaitChipInfo => match event {
            CaptureEvent::ChipSize { width, height } => (
                CaptureStep::AwaitBinning { width, height },
                CaptureAction::SetBinMode { wbin: 1, hbin: 1 },
            ),
            _ => fail_with(DarkCaptureError::ChipInfo),
        },
        CaptureStep::AwaitBinning { width, height } => if failed {
            fail_with(DarkCaptureError::Binning)
        } else {
            (CaptureStep::AwaitResolution, CaptureAction::SetResolution { x: 0, y: 0, width, height })
        },
        CaptureStep::AwaitResolution => if failed {
            fail_with(DarkCaptureError::Resolution)
        } else {
            (CaptureStep::AwaitExposureTime, CaptureAction::SetExposure(DARK_EXPOSURE_US))
        },
        CaptureStep::AwaitExposureTime => if failed {
            fail_with(DarkCaptureError::ExposureTime)
        } else {
            (CaptureStep::AwaitControls, CaptureAction::ReadControls)
        },
        CaptureStep::AwaitControls => (CaptureStep::AwaitBuffer, CaptureAction::AllocateBuffer),
        CaptureStep::AwaitBuffer => (CaptureStep::AwaitExpose, CaptureAction::Expose),
        CaptureStep::AwaitExpose => if failed {
            fail_with(DarkCaptureError::ExposureTrigger)
        } else {
            (CaptureStep::AwaitFrame, CaptureAction::ReadFrame)
        },
        CaptureStep::AwaitFrame => if failed {
            fail_with(DarkCaptureError::FrameData)
        } else {
            (CaptureStep::AwaitAssessment, CaptureAction::AssessFrame)
        },
        CaptureStep::AwaitAssessment => if failed {
            (CaptureStep::AwaitReleaseRejected, CaptureAction::ReleaseResources)
        } else {
            (CaptureStep::AwaitCameraId, CaptureAction::ReadCameraId)
        },
        CaptureStep::AwaitReleaseRejected => fail_with(DarkCaptureError::NotDark),
        CaptureStep::AwaitCameraId => if failed {
            fail_with(DarkCaptureError::CameraId)
        } else {
            (CaptureStep::AwaitWrite, CaptureAction::WriteFits)
        },
        CaptureStep::AwaitWrite => if failed {
            fail_with(DarkCaptureError::WriteFits)
        } else {
            (CaptureStep::AwaitRelease, CaptureAction::ReleaseResources)
        },
        CaptureStep::AwaitRelease => (CaptureStep::Finished { error: None }, CaptureAction::Finish { error: None }),
        CaptureStep::Finished { error } => (CaptureStep::Finished { error }, CaptureAction::Finish { error }),
    }
}

/// The place of a step in the sequence: how many steps at most are left.
pub open spec fn capture_rank(step: CaptureStep) -> int {
    match step {
        CaptureStep::Start => 19,
        CaptureStep::AwaitPrompt => 18,
        CaptureStep::AwaitStreamMode => 17,
        CaptureStep::AwaitReadMode => 16,
        CaptureStep::AwaitInit => 15,
        CaptureStep::AwaitChipInfo => 14,
        CaptureStep::AwaitBinning { .. } => 13,
        CaptureStep::AwaitResolution => 12,
        CaptureStep::AwaitExposureTime => 11,
        CaptureStep::AwaitControls => 10,
        CaptureStep::AwaitBuffer => 9,
        CaptureStep::AwaitExpose => 8,
        CaptureStep::AwaitFrame => 7,
        CaptureStep::AwaitAssessment => 6,
        CaptureStep::AwaitReleaseRejected => 1,
        CaptureStep::AwaitCameraId => 5,
        CaptureStep::AwaitWrite => 4,
        CaptureStep::AwaitRelease => 1,
        CaptureStep::Finished { .. } => 0,
    }
}

fn fail_step(e: DarkCaptureError) -> (res: (CaptureStep, CaptureAction))
    ensures
        res == fail_with(e),
{
    (CaptureStep::Finished { error: Some(e) }, CaptureAction::Finish { error: Some(e) })
}

/// Takes the capture of a dark frame one step: given the step it stands at
/// and the outcome of the request it waited on, returns the next step and
/// the request to make (or the end).
pub fn capture_step(step: CaptureStep, event: CaptureEvent) -> (res: (CaptureStep, CaptureAction))
    ensures
        res == capture_next(step, event),
{
    let failed = event == CaptureEvent::Failed;
    match step {
        CaptureStep::Start => (CaptureStep::AwaitPrompt, CaptureAction::PromptCover),
        CaptureStep::AwaitPrompt => (
            CaptureStep::AwaitStreamMode,
            CaptureAction::SetStreamMode(StreamMode::SingleFrame),
        ),
        CaptureStep::AwaitStreamMode => {
            if failed {
                fail_step(DarkCaptureError::StreamMode)
            } else {
                (CaptureStep::AwaitReadMode, CaptureAction::SetReadMode(0))
            }
        },
        CaptureStep::AwaitReadMode => {
            if failed {
                fail_step(DarkCaptureError::ReadMode)
            } else {
                (CaptureStep::AwaitInit, CaptureAction::InitCamera)
            }
        },
        CaptureStep::AwaitInit => {
            if failed {
                fail_step(DarkCaptureError::InitCamera)
            } else {
                (CaptureStep::AwaitChipInfo, CaptureAction::ReadChipInfo)
            }
        },
        CaptureStep::AwaitChipInfo => match event {
            CaptureEvent::ChipSize { width, height } => (
                CaptureStep::AwaitBinning { width, height },
                CaptureAction::SetBinMode { wbin: 1, hbin: 1 },
            ),
            _ => fail_step(DarkCaptureError::ChipInfo),
        },
        CaptureStep::AwaitBinning { width, height } => {
            if failed {
                fail_step(DarkCaptureError::Binning)
            } else {
                (
                    CaptureStep::AwaitResolution,
                    CaptureAction::SetResolution { x: 0, y: 0, width, height },
                )
            }
        },
        CaptureStep::AwaitResolution => {
            if failed {
                fail_step(DarkCaptureError::Resolution)
            } else {
                (CaptureStep::AwaitExposureTime, CaptureAction::SetExposure(DARK_EXPOSURE_US))
            }
        },
        CaptureStep::AwaitExposureTime => {
            if failed {
                fail_step(DarkCaptureError::ExposureTime)
            } else {
                (CaptureStep::AwaitControls, CaptureAction::ReadControls)
            }
        },
        CaptureStep::AwaitControls => (CaptureStep::AwaitBuffer, CaptureAction::AllocateBuffer),
        CaptureStep::AwaitBuffer => (CaptureStep::AwaitExpose, CaptureAction::Expose),
        CaptureStep::AwaitExpose => {
            if failed {
                fail_step(DarkCaptureError::ExposureTrigger)
            } else {
                (CaptureStep::AwaitFrame, CaptureAction::ReadFrame)
            }
        },
        CaptureStep::AwaitFrame => {
            if failed {
                fail_step(DarkCaptureError::FrameData)
            } else {
                (CaptureStep::AwaitAssessment, CaptureAction::AssessFrame)
            }
        },
        CaptureStep::AwaitAssessment => {
            if failed {
                (CaptureStep::AwaitReleaseRejected, CaptureAction::ReleaseResources)
            } else {
                (CaptureStep::AwaitCameraId, CaptureAction::ReadCameraId)
            }
        },
        CaptureStep::AwaitReleaseRejected => fail_step(DarkCaptureError::NotDark),
        CaptureStep::AwaitCameraId => {
            if failed {
                fail_step(DarkCaptureError::CameraId)
            } else {
                (CaptureStep::AwaitWrite, CaptureAction::WriteFits)
            }
        },
        CaptureStep::AwaitWrite => {
            if failed {
                fail_step(DarkCaptureError::WriteFits)
            } else {
                (CaptureStep::AwaitRelease, CaptureAction::ReleaseResources)
            }
        },
        CaptureStep::AwaitRelease => (
            CaptureStep::Finished { error: None },
            CaptureAction::Finish { error: None },
        ),
        CaptureStep::Finished { error } => (
            CaptureStep::Finished { error },
            CaptureAction::Finish { error },
        ),
    }
}

/// Taking a dark frame ends after finitely many steps, whatever the outcomes.
pub proof fn lemma_capture_progress(step: CaptureStep, event: CaptureEvent)
    ensures
        0 <= capture_rank(capture_next(step, event).0),
        !(step is Finished) ==> capture_rank(capture_next(step, event).0) < capture_rank(step),
{
}

/// The camera is set up before it exposes: the exposure is started only
/// after the buffer was allocated, which follows the controls snapshot, the
/// exposure time, the resolution, the binning, the chip geometry, the
/// initialisation, the read mode and the stream mode, in that order; the
/// full-frame resolution is the image size the chip geometry reported.
pub proof fn lemma_capture_order(step: CaptureStep, event: CaptureEvent, w: u32, h: u32)
    ensures
        capture_next(step, event).1 == CaptureAction::Expose ==> step == CaptureStep::AwaitBuffer,
        capture_next(step, event).1 == CaptureAction::AllocateBuffer ==> step
            == CaptureStep::AwaitControls,
        capture_next(step, event).1 == CaptureAction::ReadControls ==> step
            == CaptureStep::AwaitExposureTime && event != CaptureEvent::Failed,
        capture_next(step, event).1 == CaptureAction::SetExposure(DARK_EXPOSURE_US) ==> step
            == CaptureStep::AwaitResolution && event != CaptureEvent::Failed,
        capture_next(step, event).1 == (CaptureAction::SetResolution { x: 0, y: 0, width: w, height: h })
            ==> step == (CaptureStep::AwaitBinning { width: w, height: h }) && event
            != CaptureEvent::Failed,
        capture_next(step, event).1 == (CaptureAction::SetBinMode { wbin: 1, hbin: 1 }) ==> step
            == CaptureStep::AwaitChipInfo && event is ChipSize,
        step == CaptureStep::AwaitChipInfo && event == (CaptureEvent::ChipSize { width: w, height: h })
            ==> capture_next(step, event).0 == (CaptureStep::AwaitBinning { width: w, height: h }),
        capture_next(step, event).1 == CaptureAction::ReadChipInfo ==> step
            == CaptureStep::AwaitInit && event != CaptureEvent::Failed,
        capture_next(step, event).1 == CaptureAction::InitCamera ==> step
            == CaptureStep::AwaitReadMode && event != CaptureEvent::Failed,
        capture_next(step, event).1 == CaptureAction::SetReadMode(0) ==> step
            == CaptureStep::AwaitStreamMode && event != CaptureEvent::Failed,
{
}

/// Each failure ends the capture with the error of the request that failed,
/// and only a failure does; the SDK is released exactly when the frame was
/// found not dark or the file was written.
pub proof fn lemma_capture_errors(step: CaptureStep, event: CaptureEvent)
    ensures
        event == CaptureEvent::Failed ==> (step == CaptureStep::AwaitStreamMode
            ==> capture_next(step, event) == fail_with(DarkCaptureError::StreamMode)) && (step
            == CaptureStep::AwaitReadMode ==> capture_next(step, event) == fail_with(
            DarkCaptureError::ReadMode,
        )) && (step == CaptureStep::AwaitInit ==> capture_next(step, event) == fail_with(
            DarkCaptureError::InitCamera,
        )) && (step == CaptureStep::AwaitChipInfo ==> capture_next(step, event) == fail_with(
            DarkCaptureError::ChipInfo,
        )) && (step is AwaitBinning ==> capture_next(step, event) == fail_with(
            DarkCaptureError::Binning,
        )) && (step == CaptureStep::AwaitResolution ==> capture_next(step, event) == fail_with(
            DarkCaptureError::Resolution,
        )) && (step == CaptureStep::AwaitExposureTime ==> capture_next(step, event) == fail_with(
            DarkCaptureError::ExposureTime,
        )) && (step == CaptureStep::AwaitExpose ==> capture_next(step, event) == fail_with(
            DarkCaptureError::ExposureTrigger,
        )) && (step == CaptureStep::AwaitFrame ==> capture_next(step, event) == fail_with(
            DarkCaptureError::FrameData,
        )) && (step == CaptureStep::AwaitCameraId ==> capture_next(step, event) == fail_with(
            DarkCaptureError::CameraId,
        )) && (step == CaptureStep::AwaitWrite ==> capture_next(step, event) == fail_with(
            DarkCaptureError::WriteFits,
        )),
        capture_next(step, event).1 == (CaptureAction::Finish { error: None }) ==> step
            == CaptureStep::AwaitRelease || step == (CaptureStep::Finished { error: None }),
        capture_next(step, event).1 == CaptureAction::ReleaseResources ==> (step
            == CaptureStep::AwaitAssessment && event == CaptureEvent::Failed) || (step
            == CaptureStep::AwaitWrite && event != CaptureEvent::Failed),
{
}


/// A capture in which every request succeeds makes every request once, in
/// this order, and ends without error.
pub proof fn lemma_capture_succeeding_run(w: u32, h: u32)
    ensures
        capture_next(CaptureStep::Start, CaptureEvent::Succeeded) == (CaptureStep::AwaitPrompt, CaptureAction::PromptCover),
        capture_next(CaptureStep::AwaitPrompt, CaptureEvent::Succeeded) == (CaptureStep::AwaitStreamMode, CaptureAction::SetStreamMode(StreamMode::SingleFrame)),
        capture_next(CaptureStep::AwaitStreamMode, CaptureEvent::Succeeded) == (CaptureStep::AwaitReadMode, CaptureAction::SetReadMode(0)),
        capture_next(CaptureStep::AwaitReadMode, CaptureEvent::Succeeded) == (CaptureStep::AwaitInit, CaptureAction::InitCamera),
        capture_next(CaptureStep::AwaitInit, CaptureEvent::Succeeded) == (CaptureStep::AwaitChipInfo, CaptureAction::ReadChipInfo),
        capture_next(CaptureStep::AwaitChipInfo, CaptureEvent::ChipSize { width: w, height: h }) == (CaptureStep::AwaitBinning { width: w, height: h }, CaptureAction::SetBinMode { wbin: 1, hbin: 1 }),
        capture_next(CaptureStep::AwaitBinning { width: w, height: h }, CaptureEvent::Succeeded) == (CaptureStep::AwaitResolution, CaptureAction::SetResolution { x: 0, y: 0, width: w, height: h }),
        capture_next(CaptureStep::AwaitResolution, CaptureEvent::Succeeded) == (CaptureStep::AwaitExposureTime, CaptureAction::SetExposure(1_000_000)),
        capture_next(CaptureStep::AwaitExposureTime, CaptureEvent::Succeeded) == (CaptureStep::AwaitControls, CaptureAction::ReadControls),
        capture_next(CaptureStep::AwaitControls, CaptureEvent::Succeeded) == (CaptureStep::AwaitBuffer, CaptureAction::AllocateBuffer),
        capture_next(CaptureStep::AwaitBuffer, CaptureEvent::Succeeded) == (CaptureStep::AwaitExpose, CaptureAction::Expose),
        capture_next(CaptureStep::AwaitExpose, CaptureEvent::Succeeded) == (CaptureStep::AwaitFrame, CaptureAction::ReadFrame),
        capture_next(CaptureStep::AwaitFrame, CaptureEvent::Succeeded) == (CaptureStep::AwaitAssessment, CaptureAction::AssessFrame),
        capture_next(CaptureStep::AwaitAssessment, CaptureEvent::Succeeded) == (CaptureStep::AwaitCameraId, CaptureAction::ReadCameraId),
        capture_next(CaptureStep::AwaitCameraId, CaptureEvent::Succeeded) == (CaptureStep::AwaitWrite, CaptureAction::WriteFits),
        capture_next(CaptureStep::AwaitWrite, CaptureEvent::Succeeded) == (CaptureStep::AwaitRelease, CaptureAction::ReleaseResources),
        capture_next(CaptureStep::AwaitRelease, CaptureEvent::Succeeded) == (CaptureStep::Finished { error: None }, CaptureAction::Finish { error: None }),
        capture_next(CaptureStep::AwaitAssessment, CaptureEvent::Failed) == (CaptureStep::AwaitReleaseRejected, CaptureAction::ReleaseResources),
        capture_next(CaptureStep::AwaitReleaseRejected, CaptureEvent::Succeeded) == (CaptureStep::Finished { error: Some(DarkCaptureError::NotDark) }, CaptureAction::Finish { error: Some(DarkCaptureError::NotDark) }),
{
}

/// The messages of the errors whose text is fixed.
pub proof fn lemma_capture_messages()
    ensures
        fixed_message_spec(DarkCaptureError::StreamMode) == Some("Failed to set single-frame mode"@),
        fixed_message_spec(DarkCaptureError::ReadMode) == Some("Failed to set read mode 0"@),
        fixed_message_spec(DarkCaptureError::InitCamera) == Some("Failed to initialize camera"@),
        fixed_message_spec(DarkCaptureError::ChipInfo) == Some("Failed to read chip info"@),
        fixed_message_spec(DarkCaptureError::Binning) == Some("Failed to set 1x1 binning"@),
        fixed_message_spec(DarkCaptureError::Resolution) == Some("Failed to set full-frame resolution"@),
        fixed_message_spec(DarkCaptureError::ExposureTime) == Some("Failed to set exposure time"@),
        fixed_message_spec(DarkCaptureError::ExposureTrigger) == Some("Exposure trigger failed"@),
        fixed_message_spec(DarkCaptureError::FrameData) == Some("Failed to read frame data"@),
        fixed_message_spec(DarkCaptureError::CameraId) == Some("Failed to get camera id"@),
        fixed_message_spec(DarkCaptureError::NotDark) is None,
        fixed_message_spec(DarkCaptureError::WriteFits) is None,
{
}

} // verus!
