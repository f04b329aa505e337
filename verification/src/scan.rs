use vstd::prelude::*;

verus! {

/// Where the discovery of cameras stands: which request it waits on the
/// outcome of, with the index of the camera at hand and the number found.
#[derive(Debug, Clone, Copy, PartialEq, Eq, Structural)]
pub enum ScanStep {
    Start,
    AwaitInit,
    AwaitCount,
    AwaitId { idx: u32, count: u32 },
    AwaitOpen { idx: u32, count: u32 },
    AwaitKeep { idx: u32, count: u32 },
    Finished,
}

/// The outcome of the last request, as the caller saw it.
#[derive(Debug, Clone, Copy, PartialEq, Eq, Structural)]
pub enum ScanEvent {
    Succeeded,
    Failed,
    /// The SDK sees this many cameras.
    CameraCount(u32),
}

/// What the caller is to do next.
#[derive(Debug, Clone, Copy, PartialEq, Eq, Structural)]
pub enum ScanAction {
    /// Initialise the resources of the SDK.
    InitResources,
    /// Ask the SDK how many cameras are connected.
    CountCameras,
    /// Ask for the id of the camera at this index.
    GetCameraId(u32),
    /// Open the camera at this index, with the id just read.
    OpenCamera(u32),
    /// Keep the camera at this index, just opened, in the list of cameras.
    KeepCamera(u32),
    /// Discovery is over; the cameras kept are the result.
    Finish,
}

/// The step that asks for the camera after `idx`, or ends the discovery
/// where `idx` was the last one.
pub open spec fn next_camera(idx: u32, count: u32) -> (ScanStep, ScanAction) {
    if idx as int + 1 < count {
        (ScanStep::AwaitId { idx: (idx + 1) as u32, count }, ScanAction::GetCameraId((idx + 1) as u32))
    } else {
        (ScanStep::Finished, ScanAction::Finish)
    }
}

/// Camera discovery: initialise the SDK (a failure ends the discovery with
/// no camera), count the cameras, and for each index in turn read the id and
/// open the camera, keeping it where both succeed and skipping it where
/// either fails.
pub open spec fn scan_next(step: ScanStep, event: ScanEvent) -> (ScanStep, ScanAction) {
    match step {
        ScanStep::Start => (ScanStep::AwaitInit, ScanAction::InitResources),
        ScanStep::AwaitInit => if event == ScanEvent::Failed {
            (ScanStep::Finished, ScanAction::Finish)
        } else {
            (ScanStep::AwaitCount, ScanAction::CountCameras)
        },
        ScanStep::AwaitCount => match event {
            ScanEvent::CameraCount(n) => if n > 0 {
                (ScanStep::AwaitId { idx: 0, count: n }, ScanAction::GetCameraId(0))
            } else {
                (ScanStep::Finished, ScanAction::Finish)
            },
            _ => (ScanStep::Finished, ScanAction::Finish),
        },
        ScanStep::AwaitId { idx, count } => if event == ScanEvent::Failed {
            next_camera(idx, count)
        } else {
            (ScanStep::AwaitOpen { idx, count }, ScanAction::OpenCamera(idx))
        },
        ScanStep::AwaitOpen { idx, count } => if event == ScanEvent::Failed {
            next_camera(idx, count)
        } else {
            (ScanStep::AwaitKeep { idx, count }, ScanAction::KeepCamera(idx))
        },
        ScanStep::AwaitKeep { idx, count } => next_camera(idx, count),
        ScanStep::Finished => (ScanStep::Finished, ScanAction::Finish),
    }
}

/// Every step a discovery reaches: the camera at hand is one of those counted.
pub open spec fn scan_wf(step: ScanStep) -> bool {
    match step {
        ScanStep::AwaitId { idx, count } => idx < count,
        ScanStep::AwaitOpen { idx, count } => idx < count,
        ScanStep::AwaitKeep { idx, count } => idx < count,
        _ => true,
    }
}

/// How many steps at most the discovery has left.
pub open spec fn scan_rank(step: ScanStep) -> int {
    let most = 3 * 0x1_0000_0000int;
    match step {
        ScanStep::Finished => 0,
        ScanStep::AwaitKeep { idx, count } => 3 * (count - idx) - 2,
        ScanStep::AwaitOpen { idx, count } => 3 * (count - idx) - 1,
        ScanStep::AwaitId { idx, count } => 3 * (count - idx),
        ScanStep::AwaitCount => most + 1,
        ScanStep::AwaitInit => most + 2,
        ScanStep::Start => most + 3,
    }
}

/// Takes camera discovery one step: given the step it stands at and the
/// outcome of the request it waited on, returns the next step and the
/// request to make (or the end of the discovery).
pub fn discovery_step(step: ScanStep, event: ScanEvent) -> (res: (ScanStep, ScanAction))
    ensures
        res == scan_next(step, event),
{
    match step {
        ScanStep::Start => (ScanStep::AwaitInit, ScanAction::InitResources),
        ScanStep::AwaitInit => {
            if event == ScanEvent::Failed {
                (ScanStep::Finished, ScanAction::Finish)
            } else {
                (ScanStep::AwaitCount, ScanAction::CountCameras)
            }
        },
        ScanStep::AwaitCount => match event {
            ScanEvent::CameraCount(n) => {
                if n > 0 {
                    (ScanStep::AwaitId { idx: 0, count: n }, ScanAction::GetCameraId(0))
                } else {
                    (ScanStep::Finished, ScanAction::Finish)
                }
            },
            _ => (ScanStep::Finished, ScanAction::Finish),
        },
        ScanStep::AwaitId { idx, count } => {
            if event == ScanEvent::Failed {
                next_camera_step(idx, count)
            } else {
                (ScanStep::AwaitOpen { idx, count }, ScanAction::OpenCamera(idx))
            }
        },
        ScanStep::AwaitOpen { idx, count } => {
            if event == ScanEvent::Failed {
                next_camera_step(idx, count)
            } else {
                (ScanStep::AwaitKeep { idx, count }, ScanAction::KeepCamera(idx))
            }
        },
        ScanStep::AwaitKeep { idx, count } => next_camera_step(idx, count),
        ScanStep::Finished => (ScanStep::Finished, ScanAction::Finish),
    }
}

fn next_camera_step(idx: u32, count: u32) -> (res: (ScanStep, ScanAction))
    ensures
        res == next_camera(idx, count),
{
    if idx < count && count - idx > 1 {
        (ScanStep::AwaitId { idx: idx + 1, count }, ScanAction::GetCameraId(idx + 1))
    } else {
        (ScanStep::Finished, ScanAction::Finish)
    }
}

/// Every step of a discovery keeps it well formed and, short of the end,
/// brings it closer to the end: discovery ends after finitely many steps,
/// whatever the outcomes.
pub proof fn lemma_scan_progress(step: ScanStep, event: ScanEvent)
    requires
        scan_wf(step),
    ensures
        scan_wf(scan_next(step, event).0),
        0 <= scan_rank(scan_next(step, event).0),
        !(step is Finished) ==> scan_rank(scan_next(step, event).0) < scan_rank(step),
{
}

/// A camera is kept only right after it was opened, and opened only right
/// after its id was read, both with success; each index is asked for after
/// the one before it, starting from 0.
pub proof fn lemma_scan_keeps_opened(step: ScanStep, event: ScanEvent, i: u32)
    requires
        scan_wf(step),
    ensures
        scan_next(step, event).1 == ScanAction::KeepCamera(i) ==> (step matches ScanStep::AwaitOpen {
            idx,
            ..
        } && idx == i) && event != ScanEvent::Failed,
        scan_next(step, event).1 == ScanAction::OpenCamera(i) ==> (step matches ScanStep::AwaitId {
            idx,
            ..
        } && idx == i) && event != ScanEvent::Failed,
        scan_next(step, event).1 == ScanAction::GetCameraId(i) ==> (i == 0
            && step == ScanStep::AwaitCount) || (step matches ScanStep::AwaitId { idx, .. } && i
            == idx + 1) || (step matches ScanStep::AwaitOpen { idx, .. } && i == idx + 1) || (
        step matches ScanStep::AwaitKeep { idx, .. } && i == idx + 1),
        scan_next(step, event).1 == ScanAction::GetCameraId(i) ==> (scan_next(step, event).0 matches ScanStep::AwaitId { idx, count } && idx == i && i < count),
{
}


/// No camera stops the discovery: whatever the outcome for the camera at
/// `idx`, the camera at `idx + 1` is asked for next where there is one; a
/// camera is kept exactly when it opened; and discovery ends from a camera
/// only at the last index.
pub proof fn lemma_scan_tries_every_camera(idx: u32, count: u32, event: ScanEvent)
    requires
        idx < count,
    ensures
        idx + 1 < count ==> scan_next(ScanStep::AwaitId { idx, count }, ScanEvent::Failed) == (
            ScanStep::AwaitId { idx: (idx + 1) as u32, count },
            ScanAction::GetCameraId((idx + 1) as u32),
        ),
        idx + 1 < count ==> scan_next(ScanStep::AwaitOpen { idx, count }, ScanEvent::Failed) == (
            ScanStep::AwaitId { idx: (idx + 1) as u32, count },
            ScanAction::GetCameraId((idx + 1) as u32),
        ),
        idx + 1 < count ==> scan_next(ScanStep::AwaitKeep { idx, count }, event) == (
            ScanStep::AwaitId { idx: (idx + 1) as u32, count },
            ScanAction::GetCameraId((idx + 1) as u32),
        ),
        event != ScanEvent::Failed ==> scan_next(ScanStep::AwaitId { idx, count }, event) == (
            ScanStep::AwaitOpen { idx, count },
            ScanAction::OpenCamera(idx),
        ),
        event != ScanEvent::Failed ==> scan_next(ScanStep::AwaitOpen { idx, count }, event) == (
            ScanStep::AwaitKeep { idx, count },
            ScanAction::KeepCamera(idx),
        ),
        scan_next(ScanStep::AwaitId { idx, count }, event).1 == ScanAction::Finish ==> idx + 1
            == count,
        scan_next(ScanStep::AwaitOpen { idx, count }, event).1 == ScanAction::Finish ==> idx + 1
            == count,
        scan_next(ScanStep::AwaitKeep { idx, count }, event).1 == ScanAction::Finish ==> idx + 1
            == count,
        scan_next(ScanStep::AwaitCount, ScanEvent::CameraCount(count)) == (
            ScanStep::AwaitId { idx: 0, count },
            ScanAction::GetCameraId(0),
        ),
{
}

} // verus!
