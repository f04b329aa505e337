use vstd::prelude::*;

use crate::control::{control_from_code, is_control_code, lemma_code_round_trip, lemma_from_code_inverse, ControlId};
use crate::status::{control_available, QHYCCD_SUCCESS};

verus! {

/// The smallest SDK code of a control above `c`, or -1 where `c` is the
/// last one (1033). Code 38 is skipped, and 95 to 1023 are not codes.
pub open spec fn next_code(c: int) -> int {
    if c < 0 {
        0
    } else if c < 37 {
        c + 1
    } else if c < 39 {
        39
    } else if c < 94 {
        c + 1
    } else if c < 1024 {
        1024
    } else if c < 1033 {
        c + 1
    } else {
        -1
    }
}

/// `next_code(c)` is the least control code above `c`; where it is -1 no
/// control code lies above `c`.
pub proof fn lemma_next_code(c: int)
    ensures
        next_code(c) >= 0 ==> next_code(c) > c && is_control_code(next_code(c)),
        forall|k: int| c < k && is_control_code(k) ==> next_code(c) >= 0 && next_code(c) <= k,
{
}

/// Where gathering the controls of a camera stands: which SDK answer it
/// waits on, for which control.
#[derive(Debug, Clone, Copy, PartialEq, Eq, Structural)]
pub enum GatherStep {
    Start,
    AwaitAvailable(ControlId),
    AwaitRange(ControlId),
    AwaitCurrent(ControlId),
    Finished,
}

/// What the caller is to do next.
#[derive(Debug, Clone, Copy, PartialEq, Eq, Structural)]
pub enum GatherAction {
    /// Ask whether the camera has this control.
    QueryAvailable(ControlId),
    /// Ask for the minimum, maximum and step of this control.
    QueryRange(ControlId),
    /// Read the current value of this control and record the control, with
    /// the range just read, in the controls map.
    ReadCurrent(ControlId),
    /// All controls were asked for.
    Finish,
}

/// The step that asks for the control after `c` (in code order), or ends.
pub open spec fn after_control(c: ControlId) -> (GatherStep, GatherAction) {
    let n = next_code(c.code_spec() as int);
    if n >= 0 {
        let id = control_from_code(n as u32)->0;
        (GatherStep::AwaitAvailable(id), GatherAction::QueryAvailable(id))
    } else {
        (GatherStep::Finished, GatherAction::Finish)
    }
}

/// Gathering the controls of a camera: for each control in code order, ask
/// whether the camera has it; where it has, ask for its range; where the
/// range could be read (success status), read its current value and record
/// it. A control the camera lacks, or whose range cannot be read, is skipped.
pub open spec fn gather_next(step: GatherStep, status: u32) -> (GatherStep, GatherAction) {
    match step {
        GatherStep::Start => (
            GatherStep::AwaitAvailable(ControlId::Brightness),
            GatherAction::QueryAvailable(ControlId::Brightness),
        ),
        GatherStep::AwaitAvailable(c) => if status == QHYCCD_SUCCESS {
            (GatherStep::AwaitRange(c), GatherAction::QueryRange(c))
        } else {
            after_control(c)
        },
        GatherStep::AwaitRange(c) => if status == QHYCCD_SUCCESS {
            (GatherStep::AwaitCurrent(c), GatherAction::ReadCurrent(c))
        } else {
            after_control(c)
        },
        GatherStep::AwaitCurrent(c) => after_control(c),
        GatherStep::Finished => (GatherStep::Finished, GatherAction::Finish),
    }
}

/// How many steps at most gathering has left.
pub open spec fn gather_rank(step: GatherStep) -> int {
    match step {
        GatherStep::Start => 3105int,
        GatherStep::AwaitAvailable(c) => 3 * (1034 - c.code_spec()),
        GatherStep::AwaitRange(c) => 3 * (1034 - c.code_spec()) - 1,
        GatherStep::AwaitCurrent(c) => 3 * (1034 - c.code_spec()) - 2,
        GatherStep::Finished => 0,
    }
}

/// Returns the control that follows `c` in code order, or `None` after the last.
pub fn next_control(c: ControlId) -> (res: Option<ControlId>)
    ensures
        next_code(c.code_spec() as int) >= 0 ==> res == control_from_code(next_code(c.code_spec() as int) as u32),
        next_code(c.code_spec() as int) < 0 ==> res is None,
        res matches Some(n) ==> n.code_spec() == next_code(c.code_spec() as int),
{
    let code = c.code();
    proof {
        lemma_code_round_trip(c);
    }
    let next: u32 = if code < 37 {
        code + 1
    } else if code < 39 {
        39
    } else if code < 94 {
        code + 1
    } else if code < 1024 {
        1024
    } else if code < 1033 {
        code + 1
    } else {
        return None;
    };
    proof {
        lemma_next_code(code as int);
        lemma_from_code_inverse(next);
    }
    ControlId::from_code(next)
}

fn after_control_step(c: ControlId) -> (res: (GatherStep, GatherAction))
    ensures
        res == after_control(c),
{
    match next_control(c) {
        Some(id) => (GatherStep::AwaitAvailable(id), GatherAction::QueryAvailable(id)),
        None => (GatherStep::Finished, GatherAction::Finish),
    }
}

/// Takes the gathering of a camera's controls one step: given the step it
/// stands at and the status the SDK answered to the last request, returns
/// the next step and the request to make (or the end).
pub fn gather_step(step: GatherStep, status: u32) -> (res: (GatherStep, GatherAction))
    ensures
        res == gather_next(step, status),
{
    match step {
        GatherStep::Start => (
            GatherStep::AwaitAvailable(ControlId::Brightness),
            GatherAction::QueryAvailable(ControlId::Brightness),
        ),
        GatherStep::AwaitAvailable(c) => {
            if control_available(status) {
                (GatherStep::AwaitRange(c), GatherAction::QueryRange(c))
            } else {
                after_control_step(c)
            }
        },
        GatherStep::AwaitRange(c) => {
            if status == QHYCCD_SUCCESS {
                (GatherStep::AwaitCurrent(c), GatherAction::ReadCurrent(c))
            } else {
                after_control_step(c)
            }
        },
        GatherStep::AwaitCurrent(c) => after_control_step(c),
        GatherStep::Finished => (GatherStep::Finished, GatherAction::Finish),
    }
}

/// Gathering ends after finitely many steps, whatever the SDK answers.
pub proof fn lemma_gather_progress(step: GatherStep, status: u32)
    ensures
        0 <= gather_rank(gather_next(step, status).0),
        !(step is Finished) ==> gather_rank(gather_next(step, status).0) < gather_rank(step),
{
    match step {
        GatherStep::AwaitAvailable(c) => {
            lemma_code_round_trip(c);
            lemma_next_code(c.code_spec() as int);
            lemma_from_code_inverse(next_code(c.code_spec() as int) as u32);
        },
        GatherStep::AwaitRange(c) => {
            lemma_code_round_trip(c);
            lemma_next_code(c.code_spec() as int);
            lemma_from_code_inverse(next_code(c.code_spec() as int) as u32);
        },
        GatherStep::AwaitCurrent(c) => {
            lemma_code_round_trip(c);
            lemma_next_code(c.code_spec() as int);
            lemma_from_code_inverse(next_code(c.code_spec() as int) as u32);
        },
        _ => {},
    }
}

/// A control is recorded only right after the SDK read its range with
/// success, and its range is asked for only right after the SDK reported
/// it available; the controls are asked for in code order, each once: first
/// the control of code 0, then each time the one of the next code, so that
/// no control is passed over.
pub proof fn lemma_gather_records_available(step: GatherStep, status: u32, c: ControlId)
    ensures
        gather_next(step, status).1 == GatherAction::ReadCurrent(c) ==> step
            == GatherStep::AwaitRange(c) && status == QHYCCD_SUCCESS,
        gather_next(step, status).1 == GatherAction::QueryRange(c) ==> step
            == GatherStep::AwaitAvailable(c) && status == QHYCCD_SUCCESS,
        gather_next(step, status).1 == GatherAction::QueryAvailable(c) ==> (step
            == GatherStep::Start && c.code_spec() == 0) || (exists|p: ControlId|
            (step == GatherStep::AwaitAvailable(p) || step == GatherStep::AwaitRange(p) || step
                == GatherStep::AwaitCurrent(p)) && c.code_spec() == next_code(p.code_spec() as int)),
        gather_next(step, status).1 == GatherAction::Finish ==> step == GatherStep::Finished || (
        exists|p: ControlId|
            (step == GatherStep::AwaitAvailable(p) || step == GatherStep::AwaitRange(p) || step
                == GatherStep::AwaitCurrent(p)) && p.code_spec() == 1033),
{
    match step {
        GatherStep::AwaitAvailable(p) => {
            lemma_code_round_trip(p);
            lemma_from_code_inverse(next_code(p.code_spec() as int) as u32);
        },
        GatherStep::AwaitRange(p) => {
            lemma_code_round_trip(p);
            lemma_from_code_inverse(next_code(p.code_spec() as int) as u32);
        },
        GatherStep::AwaitCurrent(p) => {
            lemma_code_round_trip(p);
            lemma_from_code_inverse(next_code(p.code_spec() as int) as u32);
        },
        _ => {},
    }
}


/// A control the camera has gets its range asked for; a control whose range
/// was read gets its value read and is recorded; a control the camera lacks
/// or whose range cannot be read is passed over for the next one.
pub proof fn lemma_gather_control(c: ControlId, status: u32)
    ensures
        gather_next(GatherStep::AwaitAvailable(c), QHYCCD_SUCCESS) == (GatherStep::AwaitRange(c), GatherAction::QueryRange(c)),
        gather_next(GatherStep::AwaitRange(c), QHYCCD_SUCCESS) == (GatherStep::AwaitCurrent(c), GatherAction::ReadCurrent(c)),
        status != QHYCCD_SUCCESS ==> gather_next(GatherStep::AwaitAvailable(c), status) == after_control(c),
        status != QHYCCD_SUCCESS ==> gather_next(GatherStep::AwaitRange(c), status) == after_control(c),
        gather_next(GatherStep::AwaitCurrent(c), status) == after_control(c),
        gather_next(GatherStep::Start, status) == (GatherStep::AwaitAvailable(ControlId::Brightness), GatherAction::QueryAvailable(ControlId::Brightness)),
{
}

} // verus!
