use qhy_core::probe::{probe_camera, ProbeAction, ProbeEvent, ProbeStep};
use qhy_core::scan::{discovery_step, ScanAction, ScanEvent, ScanStep};

fn run_probe(idx: u32, mut outcome: impl FnMut(ProbeAction) -> ProbeEvent) -> Vec<ProbeAction> {
    let mut step = ProbeStep::Start;
    let mut event = ProbeEvent::Succeeded;
    let mut actions = Vec::new();
    loop {
        let (next, action) = probe_camera(idx, step, event);
        actions.push(action);
        if let ProbeAction::Finish { .. } = action {
            return actions;
        }
        event = outcome(action);
        step = next;
    }
}

#[test]
fn probe_of_working_camera() {
    let actions = run_probe(3, |a| match a {
        ProbeAction::CountReadModes => ProbeEvent::ReadModeCount(2),
        _ => ProbeEvent::Succeeded,
    });
    assert_eq!(
        actions,
        vec![
            ProbeAction::GetCameraId(3),
            ProbeAction::OpenCamera,
            ProbeAction::ReadFirmware,
            ProbeAction::ReadSdkVersion,
            ProbeAction::ReadChipInfo,
            ProbeAction::ReportBufferSize,
            ProbeAction::CountReadModes,
            ProbeAction::ReadModeName(0),
            ProbeAction::ReadModeName(1),
            ProbeAction::ListControls,
            ProbeAction::AcquireDarkFrame,
            ProbeAction::CloseCamera,
            ProbeAction::Finish { ok: true },
        ]
    );
}

#[test]
fn probe_goes_on_after_read_failures() {
    let actions = run_probe(0, |a| match a {
        ProbeAction::GetCameraId(_) | ProbeAction::OpenCamera => ProbeEvent::Succeeded,
        _ => ProbeEvent::Failed,
    });
    assert_eq!(actions.len(), 11);
    assert_eq!(actions[6], ProbeAction::CountReadModes);
    assert_eq!(actions[7], ProbeAction::ListControls);
    assert_eq!(actions[9], ProbeAction::CloseCamera);
    assert_eq!(*actions.last().unwrap(), ProbeAction::Finish { ok: true });
}

#[test]
fn probe_stops_when_camera_cannot_open() {
    let actions = run_probe(1, |a| match a {
        ProbeAction::OpenCamera => ProbeEvent::Failed,
        _ => ProbeEvent::Succeeded,
    });
    assert_eq!(actions, vec![ProbeAction::GetCameraId(1), ProbeAction::OpenCamera, ProbeAction::Finish { ok: false }]);
    let actions = run_probe(1, |_| ProbeEvent::Failed);
    assert_eq!(actions, vec![ProbeAction::GetCameraId(1), ProbeAction::Finish { ok: false }]);
}

fn run_scan(mut outcome: impl FnMut(ScanAction) -> ScanEvent) -> Vec<ScanAction> {
    let mut step = ScanStep::Start;
    let mut event = ScanEvent::Succeeded;
    let mut actions = Vec::new();
    loop {
        let (next, action) = discovery_step(step, event);
        actions.push(action);
        if action == ScanAction::Finish {
            return actions;
        }
        event = outcome(action);
        step = next;
    }
}

#[test]
fn discovery_keeps_cameras_that_open() {
    let actions = run_scan(|a| match a {
        ScanAction::CountCameras => ScanEvent::CameraCount(3),
        ScanAction::GetCameraId(1) => ScanEvent::Failed,
        ScanAction::OpenCamera(2) => ScanEvent::Failed,
        _ => ScanEvent::Succeeded,
    });
    assert_eq!(
        actions,
        vec![
            ScanAction::InitResources,
            ScanAction::CountCameras,
            ScanAction::GetCameraId(0),
            ScanAction::OpenCamera(0),
            ScanAction::KeepCamera(0),
            ScanAction::GetCameraId(1),
            ScanAction::GetCameraId(2),
            ScanAction::OpenCamera(2),
            ScanAction::Finish,
        ]
    );
}

#[test]
fn discovery_without_sdk_or_cameras() {
    assert_eq!(run_scan(|_| ScanEvent::Failed), vec![ScanAction::InitResources, ScanAction::Finish]);
    let actions = run_scan(|a| match a {
        ScanAction::CountCameras => ScanEvent::CameraCount(0),
        _ => ScanEvent::Succeeded,
    });
    assert_eq!(actions, vec![ScanAction::InitResources, ScanAction::CountCameras, ScanAction::Finish]);
}
