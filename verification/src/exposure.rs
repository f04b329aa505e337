use vstd::prelude::*;

use crate::frame::{Frame, FrameInfo, FrameType, ExposureValue, frame_byte_len};
use crate::status::{classify_exposure_start, ExpResult, QHYError, QHYCCD_ERROR, QHYCCD_READ_DIRECTLY};

verus! {

/// Where a device stands in taking a frame.
#[derive(Debug, Clone, Copy, PartialEq, Eq, Structural)]
pub enum ExposureState {
    Idle,
    Exposing(FrameType),
    ReadingOut,
}

/// The error a device reports when the camera refused a request.
#[derive(Debug, Clone, Copy, PartialEq, Eq, Structural)]
pub enum DeviceError {
    DeviceConnectionError,
}

/// The exposure cycle of a Lightspeed camera device: the state it reports,
/// whether a completion flag was handed to an exposure worker, whether a
/// readout worker holds the frame buffer, and the frame buffer itself while
/// the device holds it.
///
/// The workers run outside: this type decides when to start them and what
/// to hand them, and takes back what they report.
pub struct ExposureCycle {
    state: ExposureState,
    exposure_armed: bool,
    readout_pending: bool,
    frame_buf: Vec<u8>,
}

/// The model of an exposure cycle: state, flag handed out, readout pending,
/// buffer held.
pub type CycleView = (ExposureState, bool, bool, Seq<u8>);

impl View for ExposureCycle {
    type V = CycleView;

    closed spec fn view(&self) -> CycleView {
        (self.state, self.exposure_armed, self.readout_pending, self.frame_buf@)
    }
}

/// Every state a cycle reaches: a readout is pending while the device
/// reports reading out, and an exposure flag was handed out while it reports
/// exposing.
pub open spec fn cycle_wf(v: CycleView) -> bool {
    &&& v.0 == ExposureState::ReadingOut ==> v.2
    &&& v.0 is Exposing ==> v.1
}

/// The cycle after a request to expose a frame of type `ft`, where the camera
/// did (`camera_ok`) or did not accept the exposure time.
pub open spec fn after_start_exposure(v: CycleView, camera_ok: bool, ft: FrameType) -> CycleView {
    if camera_ok {
        (ExposureState::Exposing(ft), true, v.2, v.3)
    } else {
        v
    }
}

/// Whether polling with the completion flag reading `done` starts a readout.
pub open spec fn readout_starts(v: CycleView, done: bool) -> bool {
    v.0 is Exposing && v.1 && done
}

/// The cycle after polling the exposure with the flag reading `done`.
pub open spec fn after_poll_exposure(v: CycleView, done: bool) -> CycleView {
    if readout_starts(v, done) {
        (ExposureState::ReadingOut, v.1, true, Seq::<u8>::empty())
    } else {
        v
    }
}

/// Whether polling the readout with `received` (the buffer the readout
/// worker sent back, if any) ends the readout.
pub open spec fn readout_ends(v: CycleView, received: Option<Seq<u8>>) -> bool {
    v.2 && received is Some
}

/// The cycle after polling the readout with `received`.
pub open spec fn after_poll_readout(v: CycleView, received: Option<Seq<u8>>) -> CycleView {
    if readout_ends(v, received) {
        (ExposureState::Idle, v.1, false, received->0)
    } else {
        v
    }
}

impl ExposureCycle {
    /// A device at rest, holding a zeroed frame buffer of `buf_size` bytes.
    pub fn new(buf_size: usize) -> (c: ExposureCycle)
        ensures
            c@ == (ExposureState::Idle, false, false, Seq::new(buf_size as nat, |i: int| 0u8)),
            cycle_wf(c@),
    {
        let frame_buf = vec![0u8; buf_size];
        let c = ExposureCycle {
            state: ExposureState::Idle,
            exposure_armed: false,
            readout_pending: false,
            frame_buf,
        };
        assert(c.frame_buf@ =~= Seq::new(buf_size as nat, |i: int| 0u8));
        c
    }

    /// The state the device reports.
    pub fn exposure_state(&self) -> (s: ExposureState)
        ensures
            s == self@.0,
    {
        self.state
    }

    /// Whether a completion flag was handed to an exposure worker.
    pub fn exposure_armed(&self) -> (b: bool)
        ensures
            b == self@.1,
    {
        self.exposure_armed
    }

    /// Whether a readout worker holds the frame buffer.
    pub fn readout_pending(&self) -> (b: bool)
        ensures
            b == self@.2,
    {
        self.readout_pending
    }

    /// Starts an exposure, once the camera was asked to take the exposure
    /// time of `val`: where it refused (`camera_ok` false), the device reports
    /// a connection error and nothing changes; else the device reports
    /// exposing a frame of the requested type and hands out a new completion
    /// flag (the caller starts the exposure worker with it).
    pub fn start_exposure(&mut self, camera_ok: bool, val: &ExposureValue) -> (res: Result<(), DeviceError>)
        ensures
            res is Ok <==> camera_ok,
            res matches Err(e) ==> e == DeviceError::DeviceConnectionError,
            final(self)@ == after_start_exposure(old(self)@, camera_ok, val.frame_type),
            cycle_wf(old(self)@) ==> cycle_wf(final(self)@),
    {
        if !camera_ok {
            return Err(DeviceError::DeviceConnectionError);
        }
        self.exposure_armed = true;
        self.state = ExposureState::Exposing(val.frame_type);
        Ok(())
    }

    /// Polls the exposure, with `done` the value of the completion flag. When
    /// the device is exposing, a flag was handed out and it reads done, the
    /// device starts reading out: it hands the frame type and its frame
    /// buffer to the readout worker (the result) and reports reading out.
    /// Otherwise nothing changes.
    pub fn poll_exposure(&mut self, done: bool) -> (res: Option<(FrameType, Vec<u8>)>)
        ensures
            final(self)@ == after_poll_exposure(old(self)@, done),
            res is Some <==> readout_starts(old(self)@, done),
            res matches Some(r) ==> old(self)@.0 == ExposureState::Exposing(r.0) && r.1@ == old(
                self,
            )@.3,
            cycle_wf(old(self)@) ==> cycle_wf(final(self)@),
    {
        match self.state {
            ExposureState::Exposing(ft) => {
                if self.exposure_armed && done {
                    let mut buf: Vec<u8> = Vec::new();
                    std::mem::swap(&mut buf, &mut self.frame_buf);
                    self.readout_pending = true;
                    self.state = ExposureState::ReadingOut;
                    Some((ft, buf))
                } else {
                    None
                }
            },
            _ => None,
        }
    }

    /// Polls the readout, with `received` what the readout worker sent, if
    /// anything: the frame (if the readout succeeded) and the buffer. When a
    /// readout is pending and something was received, the device takes the
    /// buffer back, reports idle and returns the frame. Otherwise nothing
    /// changes and no frame is returned.
    pub fn poll_readout(&mut self, received: Option<(Option<Frame>, Vec<u8>)>) -> (res: Option<Frame>)
        ensures
            final(self)@ == after_poll_readout(
                old(self)@,
                match received {
                    Some(r) => Some(r.1@),
                    None => None,
                },
            ),
            readout_ends(
                old(self)@,
                match received {
                    Some(r) => Some(r.1@),
                    None => None,
                },
            ) ==> res == (received->0).0,
            !readout_ends(
                old(self)@,
                match received {
                    Some(r) => Some(r.1@),
                    None => None,
                },
            ) ==> res is None,
            cycle_wf(old(self)@) ==> cycle_wf(final(self)@),
    {
        if !self.readout_pending {
            return None;
        }
        match received {
            Some((frame, buf)) => {
                self.frame_buf = buf;
                self.readout_pending = false;
                self.state = ExposureState::Idle;
                frame
            },
            None => None,
        }
    }
}

/// What the readout worker sends back once the camera answered: the frame
/// where the readout succeeded, and the buffer in any case.
pub fn complete_readout(ft: FrameType, result: Result<FrameInfo, QHYError>, buf: Vec<u8>) -> (res: (
    Option<Frame>,
    Vec<u8>,
))
    requires
        result matches Ok(info) ==> frame_byte_len(info) <= buf@.len(),
    ensures
        res.1@ == buf@,
        result is Err ==> res.0 is None,
        result matches Ok(info) ==> {
            &&& res.0 matches Some(f)
            &&& f.frame_type == ft
            &&& f.width == info.width
            &&& f.height == info.height
            &&& f.bpp == info.bpp
            &&& f.channels == info.channels
            &&& f.data@ == buf@.take(frame_byte_len(info))
        },
{
    match result {
        Ok(info) => {
            let frame = Frame::from_readout(ft, &info, buf.as_slice());
            (Some(frame), buf)
        },
        Err(_) => (None, buf),
    }
}

/// A full cycle from rest: a start the camera accepts, a poll that finds
/// the exposure done and a poll that receives the buffer back hand the
/// requested frame type to the readout, lend out exactly the buffer the
/// device held, and leave the device at rest holding the buffer it got back.
pub proof fn lemma_full_cycle(v: CycleView, ft: FrameType, back: Seq<u8>)
    requires
        v.0 == ExposureState::Idle,
        !v.2,
    ensures
        ({
            let started = after_start_exposure(v, true, ft);
            let reading = after_poll_exposure(started, true);
            let done = after_poll_readout(reading, Some(back));
            &&& started.0 == ExposureState::Exposing(ft)
            &&& readout_starts(started, true)
            &&& started.3 == v.3
            &&& reading.0 == ExposureState::ReadingOut
            &&& readout_ends(reading, Some(back))
            &&& done == (ExposureState::Idle, true, false, back)
        }),
{
}

/// Nothing changes unless its condition holds: no exposure starts where the
/// camera refused it, no readout starts while the flag reads not done, and
/// none ends while nothing was received.
pub proof fn lemma_idle_polls(v: CycleView, ft: FrameType)
    ensures
        after_poll_exposure(v, false) == v,
        after_poll_readout(v, None) == v,
        after_start_exposure(v, false, ft) == v,
{
}

/// Every step keeps the cycle well formed.
pub proof fn lemma_steps_keep_wf(v: CycleView, camera_ok: bool, ft: FrameType, done: bool, received: Option<Seq<u8>>)
    requires
        cycle_wf(v),
    ensures
        cycle_wf(after_start_exposure(v, camera_ok, ft)),
        cycle_wf(after_poll_exposure(v, done)),
        cycle_wf(after_poll_readout(v, received)),
{
}


/// What the exposure worker does once the camera answered its request to
/// expose a single frame.
#[derive(Debug, Clone, Copy, PartialEq, Eq, Structural)]
pub enum WorkerPlan {
    /// The camera is exposing: wait until it no longer is, then set the
    /// completion flag.
    WaitThenSignal,
    /// The frame can be read at once: set the completion flag now.
    Signal,
    /// The request failed: stop without setting the flag, so that the
    /// device never starts a readout for this exposure.
    GiveUp,
}

/// Decides what the exposure worker does with the status the camera
/// answered to its request to expose.
pub fn exposure_worker_plan(ret: u32) -> (plan: WorkerPlan)
    ensures
        plan == WorkerPlan::GiveUp <==> ret == QHYCCD_ERROR,
        plan == WorkerPlan::Signal <==> ret == QHYCCD_READ_DIRECTLY,
        plan == WorkerPlan::WaitThenSignal <==> ret != QHYCCD_ERROR && ret != QHYCCD_READ_DIRECTLY,
{
    match classify_exposure_start(ret) {
        Ok(ExpResult::Exposing) => WorkerPlan::WaitThenSignal,
        Ok(ExpResult::ReadDirectly) => WorkerPlan::Signal,
        Err(_) => WorkerPlan::GiveUp,
    }
}

} // verus!
