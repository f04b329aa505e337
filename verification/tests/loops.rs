use qhy_core::capture::{capture_step, CaptureAction, CaptureEvent, CaptureStep, DarkCaptureError};
use qhy_core::control::ControlId;
use qhy_core::device::{device_step, TickAction, TickEvent, TickStep};
use qhy_core::gather::{gather_step, next_control, GatherAction, GatherStep};
use qhy_core::status::{StreamMode, QHYCCD_ERROR};

fn run_gather(mut answer: impl FnMut(GatherAction) -> u32) -> (Vec<ControlId>, usize) {
    let mut step = GatherStep::Start;
    let mut status = 0;
    let mut recorded = Vec::new();
    let mut queried = 0;
    loop {
        let (next, action) = gather_step(step, status);
        step = next;
        match action {
            GatherAction::QueryAvailable(_) => queried += 1,
            GatherAction::ReadCurrent(c) => recorded.push(c),
            GatherAction::Finish => return (recorded, queried),
            _ => {}
        }
        status = answer(action);
    }
}

#[test]
fn gathering_records_available_readable_controls_in_order() {
    let (recorded, queried) = run_gather(|a| match a {
        GatherAction::QueryAvailable(c) => {
            if [ControlId::Hdr, ControlId::Gain, ControlId::Offset, ControlId::CurTemp].contains(&c) { 0 } else { QHYCCD_ERROR }
        }
        GatherAction::QueryRange(ControlId::Offset) => QHYCCD_ERROR,
        _ => 0,
    });
    assert_eq!(queried, 104);
    assert_eq!(recorded, vec![ControlId::Gain, ControlId::CurTemp, ControlId::Hdr]);
}

#[test]
fn gathering_with_nothing_available() {
    let (recorded, queried) = run_gather(|_| 1);
    assert!(recorded.is_empty());
    assert_eq!(queried, 104);
}

#[test]
fn next_control_follows_code_order() {
    assert_eq!(next_control(ControlId::Brightness), Some(ControlId::Contrast));
    assert_eq!(next_control(ControlId::IgnoreOverscanInterface), Some(ControlId::AutoExposure3a));
    assert_eq!(next_control(ControlId::MaxId), Some(ControlId::AutoWhiteBalance));
    assert_eq!(next_control(ControlId::HdrShowKb), None);
}

#[test]
fn device_tick_drains_and_sleeps() {
    let interval = 1_000u128;
    let mut s = TickStep::Start;
    let mut seen = Vec::new();
    let events = [
        TickEvent::Done,
        TickEvent::Done,
        TickEvent::Done,
        TickEvent::Received { shutdown: false },
        TickEvent::Done,
        TickEvent::QueueEmpty,
        TickEvent::Elapsed(300),
        TickEvent::Done,
        TickEvent::Done,
    ];
    let mut ev = TickEvent::Done;
    for e in events {
        let (n, a) = device_step(interval, s, ev);
        seen.push(a);
        s = n;
        ev = e;
    }
    assert_eq!(
        seen,
        vec![
            TickAction::StartTick,
            TickAction::SyncState,
            TickAction::PublishState,
            TickAction::ReceiveCommand,
            TickAction::HandleCommand,
            TickAction::ReceiveCommand,
            TickAction::MeasureElapsed,
            TickAction::Sleep(700),
            TickAction::StartTick,
        ]
    );
}

#[test]
fn device_shutdown_and_late_tick() {
    assert_eq!(
        device_step(10, TickStep::AwaitCommand, TickEvent::Received { shutdown: true }),
        (TickStep::Stopped, TickAction::Stop)
    );
    assert_eq!(
        device_step(10, TickStep::AwaitElapsed, TickEvent::Elapsed(11)),
        (TickStep::AwaitTickStart, TickAction::StartTick)
    );
    assert_eq!(
        device_step(10, TickStep::AwaitElapsed, TickEvent::Elapsed(10)),
        (TickStep::AwaitSleep, TickAction::Sleep(0))
    );
}

fn run_capture(mut answer: impl FnMut(CaptureAction) -> CaptureEvent) -> Vec<CaptureAction> {
    let mut step = CaptureStep::Start;
    let mut event = CaptureEvent::Succeeded;
    let mut actions = Vec::new();
    loop {
        let (next, action) = capture_step(step, event);
        actions.push(action);
        if let CaptureAction::Finish { .. } = action {
            return actions;
        }
        step = next;
        event = answer(action);
    }
}

#[test]
fn dark_capture_sequence() {
    let actions = run_capture(|a| match a {
        CaptureAction::ReadChipInfo => CaptureEvent::ChipSize { width: 640, height: 480 },
        _ => CaptureEvent::Succeeded,
    });
    assert_eq!(
        actions,
        vec![
            CaptureAction::PromptCover,
            CaptureAction::SetStreamMode(StreamMode::SingleFrame),
            CaptureAction::SetReadMode(0),
            CaptureAction::InitCamera,
            CaptureAction::ReadChipInfo,
            CaptureAction::SetBinMode { wbin: 1, hbin: 1 },
            CaptureAction::SetResolution { x: 0, y: 0, width: 640, height: 480 },
            CaptureAction::SetExposure(1_000_000),
            CaptureAction::ReadControls,
            CaptureAction::AllocateBuffer,
            CaptureAction::Expose,
            CaptureAction::ReadFrame,
            CaptureAction::AssessFrame,
            CaptureAction::ReadCameraId,
            CaptureAction::WriteFits,
            CaptureAction::ReleaseResources,
            CaptureAction::Finish { error: None },
        ]
    );
}

#[test]
fn dark_capture_failures() {
    let actions = run_capture(|a| match a {
        CaptureAction::InitCamera => CaptureEvent::Failed,
        _ => CaptureEvent::Succeeded,
    });
    assert_eq!(*actions.last().unwrap(), CaptureAction::Finish { error: Some(DarkCaptureError::InitCamera) });
    let actions = run_capture(|a| match a {
        CaptureAction::ReadChipInfo => CaptureEvent::ChipSize { width: 1, height: 1 },
        CaptureAction::AssessFrame => CaptureEvent::Failed,
        _ => CaptureEvent::Succeeded,
    });
    let n = actions.len();
    assert_eq!(actions[n - 2], CaptureAction::ReleaseResources);
    assert_eq!(actions[n - 1], CaptureAction::Finish { error: Some(DarkCaptureError::NotDark) });
    let actions = run_capture(|_| CaptureEvent::Succeeded);
    assert_eq!(*actions.last().unwrap(), CaptureAction::Finish { error: Some(DarkCaptureError::ChipInfo) });
}

#[test]
fn dark_capture_messages() {
    assert_eq!(DarkCaptureError::StreamMode.fixed_message().as_deref(), Some("Failed to set single-frame mode"));
    assert_eq!(DarkCaptureError::FrameData.fixed_message().as_deref(), Some("Failed to read frame data"));
    assert_eq!(DarkCaptureError::NotDark.fixed_message(), None);
    assert_eq!(DarkCaptureError::WriteFits.fixed_message(), None);
}
