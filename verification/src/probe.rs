use vstd::prelude::*;

verus! {

/// Where a camera probe stands: which request it waits on the outcome of.
#[derive(Debug, Clone, Copy, PartialEq, Eq, Structural)]
pub enum ProbeStep {
    Start,
    AwaitId,
    AwaitOpen,
    AwaitFirmware,
    AwaitSdkVersion,
    AwaitChipInfo,
    AwaitBufferSize,
    AwaitReadModeCount,
    AwaitReadModeName { mode: u32, count: u32 },
    AwaitControls,
    AwaitDarkFrame,
    AwaitClose,
    Finished { ok: bool },
}

/// The outcome of the last request, as the caller saw it.
#[derive(Debug, Clone, Copy, PartialEq, Eq, Structural)]
pub enum ProbeEvent {
    Succeeded,
    Failed,
    /// The camera has this many read modes.
    ReadModeCount(u32),
}

/// What the caller is to do next.
#[derive(Debug, Clone, Copy, PartialEq, Eq, Structural)]
pub enum ProbeAction {
    /// Ask the SDK for the id of the camera at this index.
    GetCameraId(u32),
    /// Open the camera with the id just read.
    OpenCamera,
    /// Read and report the firmware version.
    ReadFirmware,
    /// Read and report the SDK version.
    ReadSdkVersion,
    /// Read and report the chip geometry.
    ReadChipInfo,
    /// Report the size of the buffer a frame needs.
    ReportBufferSize,
    /// Ask for the number of read modes.
    CountReadModes,
    /// Read and report the name of this read mode.
    ReadModeName(u32),
    /// Read and report the available controls, in order of code.
    ListControls,
    /// Take and check a dark frame.
    AcquireDarkFrame,
    /// Close the camera.
    CloseCamera,
    /// The probe is over; `ok` tells whether the camera could be opened.
    Finish { ok: bool },
}

/// The step after the next one when the read mode `mode` of `count` was
/// the last one asked for.
pub open spec fn after_read_mode(mode: u32, count: u32) -> (ProbeStep, ProbeAction) {
    if mode as int + 1 < count {
        (ProbeStep::AwaitReadModeName { mode: (mode + 1) as u32, count }, ProbeAction::ReadModeName((mode + 1) as u32))
    } else {
        (ProbeStep::AwaitControls, ProbeAction::ListControls)
    }
}

/// The probe of the camera at index `idx`: read its id, open it, report its
/// firmware version, the SDK version, its chip geometry, its buffer size and
/// the name of each of its read modes, list its controls, take a dark frame
/// and close it. Only a failure to read the id or to open the camera ends
/// the probe early, and with an error; every other failure is reported and
/// the probe goes on.
pub open spec fn probe_next(idx: u32, step: ProbeStep, event: ProbeEvent) -> (ProbeStep, ProbeAction) {
    match step {
        ProbeStep::Start => (ProbeStep::AwaitId, ProbeAction::GetCameraId(idx)),
        ProbeStep::AwaitId => if event == ProbeEvent::Failed {
            (ProbeStep::Finished { ok: false }, ProbeAction::Finish { ok: false })
        } else {
            (ProbeStep::AwaitOpen, ProbeAction::OpenCamera)
        },
        ProbeStep::AwaitOpen => if event == ProbeEvent::Failed {
            (ProbeStep::Finished { ok: false }, ProbeAction::Finish { ok: false })
        } else {
            (ProbeStep::AwaitFirmware, ProbeAction::ReadFirmware)
        },
        ProbeStep::AwaitFirmware => (ProbeStep::AwaitSdkVersion, ProbeAction::ReadSdkVersion),
        ProbeStep::AwaitSdkVersion => (ProbeStep::AwaitChipInfo, ProbeAction::ReadChipInfo),
        ProbeStep::AwaitChipInfo => (ProbeStep::AwaitBufferSize, ProbeAction::ReportBufferSize),
        ProbeStep::AwaitBufferSize => (ProbeStep::AwaitReadModeCount, ProbeAction::CountReadModes),
        ProbeStep::AwaitReadModeCount => match event {
            ProbeEvent::ReadModeCount(n) => if n > 0 {
                (ProbeStep::AwaitReadModeName { mode: 0, count: n }, ProbeAction::ReadModeName(0))
            } else {
                (ProbeStep::AwaitControls, ProbeAction::ListControls)
            },
            _ => (ProbeStep::AwaitControls, ProbeAction::ListControls),
        },
        ProbeStep::AwaitReadModeName { mode, count } => after_read_mode(mode, count),
        ProbeStep::AwaitControls => (ProbeStep::AwaitDarkFrame, ProbeAction::AcquireDarkFrame),
        ProbeStep::AwaitDarkFrame => (ProbeStep::AwaitClose, ProbeAction::CloseCamera),
        ProbeStep::AwaitClose => (ProbeStep::Finished { ok: true }, ProbeAction::Finish { ok: true }),
        ProbeStep::Finished { ok } => (ProbeStep::Finished { ok }, ProbeAction::Finish { ok }),
    }
}

/// Every step a probe reaches: a read mode asked for is one the camera has.
pub open spec fn probe_wf(step: ProbeStep) -> bool {
    step matches ProbeStep::AwaitReadModeName { mode, count } ==> mode < count
}

/// Whether the probe has opened the camera and not yet closed it.
pub open spec fn camera_open(step: ProbeStep) -> bool {
    match step {
        ProbeStep::AwaitFirmware | ProbeStep::AwaitSdkVersion | ProbeStep::AwaitChipInfo
        | ProbeStep::AwaitBufferSize | ProbeStep::AwaitReadModeCount
        | ProbeStep::AwaitReadModeName { .. } | ProbeStep::AwaitControls
        | ProbeStep::AwaitDarkFrame => true,
        _ => false,
    }
}

/// How many steps at most the probe has left.
pub open spec fn probe_rank(step: ProbeStep) -> int {
    let modes = 0x1_0000_0000int;
    match step {
        ProbeStep::Finished { .. } => 0,
        ProbeStep::AwaitClose => 1,
        ProbeStep::AwaitDarkFrame => 2,
        ProbeStep::AwaitControls => 3,
        ProbeStep::AwaitReadModeName { mode, count } => 4 + (count - mode),
        ProbeStep::AwaitReadModeCount => 5 + modes,
        ProbeStep::AwaitBufferSize => 6 + modes,
        ProbeStep::AwaitChipInfo => 7 + modes,
        ProbeStep::AwaitSdkVersion => 8 + modes,
        ProbeStep::AwaitFirmware => 9 + modes,
        ProbeStep::AwaitOpen => 10 + modes,
        ProbeStep::AwaitId => 11 + modes,
        ProbeStep::Start => 12 + modes,
    }
}

/// Takes the probe of the camera at index `idx` one step: given the step it
/// stands at and the outcome of the request it waited on, returns the next
/// step and the request to make (or the end of the probe).
pub fn probe_camera(idx: u32, step: ProbeStep, event: ProbeEvent) -> (res: (ProbeStep, ProbeAction))
    ensures
        res == probe_next(idx, step, event),
{
    match step {
        ProbeStep::Start => (ProbeStep::AwaitId, ProbeAction::GetCameraId(idx)),
        ProbeStep::AwaitId => {
            if event == ProbeEvent::Failed {
                (ProbeStep::Finished { ok: false }, ProbeAction::Finish { ok: false })
            } else {
                (ProbeStep::AwaitOpen, ProbeAction::OpenCamera)
            }
        },
        ProbeStep::AwaitOpen => {
            if event == ProbeEvent::Failed {
                (ProbeStep::Finished { ok: false }, ProbeAction::Finish { ok: false })
            } else {
                (ProbeStep::AwaitFirmware, ProbeAction::ReadFirmware)
            }
        },
        ProbeStep::AwaitFirmware => (ProbeStep::AwaitSdkVersion, ProbeAction::ReadSdkVersion),
        ProbeStep::AwaitSdkVersion => (ProbeStep::AwaitChipInfo, ProbeAction::ReadChipInfo),
        ProbeStep::AwaitChipInfo => (ProbeStep::AwaitBufferSize, ProbeAction::ReportBufferSize),
        ProbeStep::AwaitBufferSize => (ProbeStep::AwaitReadModeCount, ProbeAction::CountReadModes),
        ProbeStep::AwaitReadModeCount => match event {
            ProbeEvent::ReadModeCount(n) => {
                if n > 0 {
                    (
                        ProbeStep::AwaitReadModeName { mode: 0, count: n },
                        ProbeAction::ReadModeName(0),
                    )
                } else {
                    (ProbeStep::AwaitControls, ProbeAction::ListControls)
                }
            },
            _ => (ProbeStep::AwaitControls, ProbeAction::ListControls),
        },
        ProbeStep::AwaitReadModeName { mode, count } => {
            if mode < count && count - mode > 1 {
                (
                    ProbeStep::AwaitReadModeName { mode: mode + 1, count },
                    ProbeAction::ReadModeName(mode + 1),
                )
            } else {
                (ProbeStep::AwaitControls, ProbeAction::ListControls)
            }
        },
        ProbeStep::AwaitControls => (ProbeStep::AwaitDarkFrame, ProbeAction::AcquireDarkFrame),
        ProbeStep::AwaitDarkFrame => (ProbeStep::AwaitClose, ProbeAction::CloseCamera),
        ProbeStep::AwaitClose => (ProbeStep::Finished { ok: true }, ProbeAction::Finish { ok: true }),
        ProbeStep::Finished { ok } => (ProbeStep::Finished { ok }, ProbeAction::Finish { ok }),
    }
}

/// Every step of a probe keeps it well formed, and every step short of the
/// end brings it closer to the end: a probe ends after finitely many steps,
/// whatever the outcomes.
pub proof fn lemma_probe_progress(idx: u32, step: ProbeStep, event: ProbeEvent)
    requires
        probe_wf(step),
    ensures
        probe_wf(probe_next(idx, step, event).0),
        0 <= probe_rank(probe_next(idx, step, event).0),
        !(step is Finished) ==> probe_rank(probe_next(idx, step, event).0) < probe_rank(step),
{
}

/// A probe that opened the camera closes it before it ends, and ends well:
/// from an open camera the probe either keeps it open or asks to close it,
/// and it ends only from the step after closing, with success. It ends with
/// an error only when the id could not be read or the camera not opened.
pub proof fn lemma_probe_closes_what_it_opens(idx: u32, step: ProbeStep, event: ProbeEvent)
    ensures
        camera_open(step) ==> camera_open(probe_next(idx, step, event).0) || (
        probe_next(idx, step, event) == (ProbeStep::AwaitClose, ProbeAction::CloseCamera)),
        probe_next(idx, step, event).1 == (ProbeAction::Finish { ok: true }) ==> step
            == ProbeStep::AwaitClose || step == (ProbeStep::Finished { ok: true }),
        probe_next(idx, step, event).1 == (ProbeAction::Finish { ok: false }) ==> (step
            == ProbeStep::AwaitId || step == ProbeStep::AwaitOpen) && event == ProbeEvent::Failed
            || step == (ProbeStep::Finished { ok: false }),
        probe_next(idx, step, event).1 == ProbeAction::CloseCamera ==> step
            == ProbeStep::AwaitDarkFrame,
{
}

/// The read modes are asked for in order, each once: the first is mode 0,
/// each next one follows the last, and every one asked for is below the
/// count the camera reported.
pub proof fn lemma_probe_read_modes(idx: u32, step: ProbeStep, event: ProbeEvent, m: u32)
    requires
        probe_wf(step),
        probe_next(idx, step, event).1 == ProbeAction::ReadModeName(m),
    ensures
        probe_next(idx, step, event).0 matches ProbeStep::AwaitReadModeName { mode, count } && mode
            == m && m < count,
        step == ProbeStep::AwaitReadModeCount ==> m == 0,
        step matches ProbeStep::AwaitReadModeName { mode, count } ==> m == mode + 1,
{
}


/// A probe in which every request succeeds and the camera has `n` read
/// modes makes every request once, in this order: id, open, firmware, SDK
/// version, chip geometry, buffer size, read-mode count, the name of each
/// mode, controls, dark frame, close; and it ends with success.
pub proof fn lemma_probe_succeeding_run(idx: u32, n: u32, m: u32)
    ensures
        probe_next(idx, ProbeStep::Start, ProbeEvent::Succeeded) == (ProbeStep::AwaitId, ProbeAction::GetCameraId(idx)),
        probe_next(idx, ProbeStep::AwaitId, ProbeEvent::Succeeded) == (ProbeStep::AwaitOpen, ProbeAction::OpenCamera),
        probe_next(idx, ProbeStep::AwaitOpen, ProbeEvent::Succeeded) == (ProbeStep::AwaitFirmware, ProbeAction::ReadFirmware),
        probe_next(idx, ProbeStep::AwaitFirmware, ProbeEvent::Succeeded) == (ProbeStep::AwaitSdkVersion, ProbeAction::ReadSdkVersion),
        probe_next(idx, ProbeStep::AwaitSdkVersion, ProbeEvent::Succeeded) == (ProbeStep::AwaitChipInfo, ProbeAction::ReadChipInfo),
        probe_next(idx, ProbeStep::AwaitChipInfo, ProbeEvent::Succeeded) == (ProbeStep::AwaitBufferSize, ProbeAction::ReportBufferSize),
        probe_next(idx, ProbeStep::AwaitBufferSize, ProbeEvent::Succeeded) == (ProbeStep::AwaitReadModeCount, ProbeAction::CountReadModes),
        n > 0 ==> probe_next(idx, ProbeStep::AwaitReadModeCount, ProbeEvent::ReadModeCount(n)) == (ProbeStep::AwaitReadModeName { mode: 0, count: n }, ProbeAction::ReadModeName(0)),
        n == 0 ==> probe_next(idx, ProbeStep::AwaitReadModeCount, ProbeEvent::ReadModeCount(n)) == (ProbeStep::AwaitControls, ProbeAction::ListControls),
        m + 1 < n ==> probe_next(idx, ProbeStep::AwaitReadModeName { mode: m, count: n }, ProbeEvent::Succeeded) == (ProbeStep::AwaitReadModeName { mode: (m + 1) as u32, count: n }, ProbeAction::ReadModeName((m + 1) as u32)),
        m + 1 == n ==> probe_next(idx, ProbeStep::AwaitReadModeName { mode: m, count: n }, ProbeEvent::Succeeded) == (ProbeStep::AwaitControls, ProbeAction::ListControls),
        probe_next(idx, ProbeStep::AwaitControls, ProbeEvent::Succeeded) == (ProbeStep::AwaitDarkFrame, ProbeAction::AcquireDarkFrame),
        probe_next(idx, ProbeStep::AwaitDarkFrame, ProbeEvent::Succeeded) == (ProbeStep::AwaitClose, ProbeAction::CloseCamera),
        probe_next(idx, ProbeStep::AwaitClose, ProbeEvent::Succeeded) == (ProbeStep::Finished { ok: true }, ProbeAction::Finish { ok: true }),
{
}

/// After the camera is open, a failed request only gets reported: the probe
/// goes on to the same next request as after a success (a failed count of
/// read modes skips the names).
pub proof fn lemma_probe_failure_after_open(idx: u32, step: ProbeStep)
    requires
        camera_open(step) || step == ProbeStep::AwaitClose,
        step != ProbeStep::AwaitReadModeCount,
    ensures
        probe_next(idx, step, ProbeEvent::Failed) == probe_next(idx, step, ProbeEvent::Succeeded),
        probe_next(idx, ProbeStep::AwaitReadModeCount, ProbeEvent::Failed) == (ProbeStep::AwaitControls, ProbeAction::ListControls),
{
}

} // verus!
