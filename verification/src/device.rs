use vstd::prelude::*;

verus! {

/// Where the loop of a device thread stands: which piece of work of the
/// current tick it waits on.
#[derive(Debug, Clone, Copy, PartialEq, Eq, Structural)]
pub enum TickStep {
    Start,
    AwaitTickStart,
    AwaitSync,
    AwaitPublish,
    AwaitCommand,
    AwaitHandled,
    AwaitElapsed,
    AwaitSleep,
    Stopped,
}

/// What the caller saw of the last piece of work.
#[derive(Debug, Clone, Copy, PartialEq, Eq, Structural)]
pub enum TickEvent {
    /// The work is done.
    Done,
    /// A command came off the queue; `shutdown` tells whether it asks the
    /// device to stop.
    Received { shutdown: bool },
    /// The command queue is empty.
    QueueEmpty,
    /// This many nanoseconds went by since the tick started.
    Elapsed(u128),
}

/// What the caller is to do next.
#[derive(Debug, Clone, Copy, PartialEq, Eq, Structural)]
pub enum TickAction {
    /// Note the time: a new tick starts.
    StartTick,
    /// Read the live state of the camera into the device.
    SyncState,
    /// Publish the device state on its topic.
    PublishState,
    /// Take the oldest command off the queue, if any.
    ReceiveCommand,
    /// Apply the command just received.
    HandleCommand,
    /// Measure how long the tick has taken so far.
    MeasureElapsed,
    /// Sleep this many nanoseconds.
    Sleep(u128),
    /// End the device thread.
    Stop,
}

/// One tick of a device thread every `interval` nanoseconds: sync the state
/// from the camera, publish it, then apply the queued commands in the order
/// they came until the queue is empty, and sleep for what is left of the
/// interval (not at all where the tick took longer). A shutdown command
/// ends the thread at once.
pub open spec fn device_next(interval: u128, step: TickStep, event: TickEvent) -> (TickStep, TickAction) {
    match step {
        TickStep::Start => (TickStep::AwaitTickStart, TickAction::StartTick),
        TickStep::AwaitTickStart => (TickStep::AwaitSync, TickAction::SyncState),
        TickStep::AwaitSync => (TickStep::AwaitPublish, TickAction::PublishState),
        TickStep::AwaitPublish => (TickStep::AwaitCommand, TickAction::ReceiveCommand),
        TickStep::AwaitCommand => match event {
            TickEvent::Received { shutdown } => if shutdown {
                (TickStep::Stopped, TickAction::Stop)
            } else {
                (TickStep::AwaitHandled, TickAction::HandleCommand)
            },
            _ => (TickStep::AwaitElapsed, TickAction::MeasureElapsed),
        },
        TickStep::AwaitHandled => (TickStep::AwaitCommand, TickAction::ReceiveCommand),
        TickStep::AwaitElapsed => match event {
            TickEvent::Elapsed(e) => if e <= interval {
                (TickStep::AwaitSleep, TickAction::Sleep((interval - e) as u128))
            } else {
                (TickStep::AwaitTickStart, TickAction::StartTick)
            },
            _ => (TickStep::AwaitTickStart, TickAction::StartTick),
        },
        TickStep::AwaitSleep => (TickStep::AwaitTickStart, TickAction::StartTick),
        TickStep::Stopped => (TickStep::Stopped, TickAction::Stop),
    }
}

/// Takes the loop of a device thread one step: given the step it stands at
/// and what the caller saw of the last piece of work, returns the next step
/// and the work to do.
pub fn device_step(interval: u128, step: TickStep, event: TickEvent) -> (res: (TickStep, TickAction))
    ensures
        res == device_next(interval, step, event),
{
    match step {
        TickStep::Start => (TickStep::AwaitTickStart, TickAction::StartTick),
        TickStep::AwaitTickStart => (TickStep::AwaitSync, TickAction::SyncState),
        TickStep::AwaitSync => (TickStep::AwaitPublish, TickAction::PublishState),
        TickStep::AwaitPublish => (TickStep::AwaitCommand, TickAction::ReceiveCommand),
        TickStep::AwaitCommand => match event {
            TickEvent::Received { shutdown } => {
                if shutdown {
                    (TickStep::Stopped, TickAction::Stop)
                } else {
                    (TickStep::AwaitHandled, TickAction::HandleCommand)
                }
            },
            _ => (TickStep::AwaitElapsed, TickAction::MeasureElapsed),
        },
        TickStep::AwaitHandled => (TickStep::AwaitCommand, TickAction::ReceiveCommand),
        TickStep::AwaitElapsed => match event {
            TickEvent::Elapsed(e) => {
                if e <= interval {
                    (TickStep::AwaitSleep, TickAction::Sleep(interval - e))
                } else {
                    (TickStep::AwaitTickStart, TickAction::StartTick)
                }
            },
            _ => (TickStep::AwaitTickStart, TickAction::StartTick),
        },
        TickStep::AwaitSleep => (TickStep::AwaitTickStart, TickAction::StartTick),
        TickStep::Stopped => (TickStep::Stopped, TickAction::Stop),
    }
}

/// A shutdown command stops the thread at once and for good: nothing is
/// handled, published or slept after it. A thread stops only on a shutdown
/// command.
pub proof fn lemma_shutdown_stops(interval: u128, step: TickStep, event: TickEvent)
    ensures
        step == TickStep::AwaitCommand && event == (TickEvent::Received { shutdown: true })
            ==> device_next(interval, step, event) == (TickStep::Stopped, TickAction::Stop),
        step == TickStep::Stopped ==> device_next(interval, step, event) == (
            TickStep::Stopped,
            TickAction::Stop,
        ),
        device_next(interval, step, event).1 == TickAction::Stop ==> step == TickStep::Stopped
            || step == TickStep::AwaitCommand && event == (TickEvent::Received { shutdown: true }),
{
}

/// Commands are drained one after the other: each command other than a
/// shutdown is handled and then the next one is taken off the queue, and the
/// drain ends only when the queue answers that it is empty.
pub proof fn lemma_drain(interval: u128, step: TickStep, event: TickEvent)
    ensures
        step == TickStep::AwaitCommand && event == (TickEvent::Received { shutdown: false })
            ==> device_next(interval, step, event).1 == TickAction::HandleCommand,
        step == TickStep::AwaitHandled ==> device_next(interval, step, event).1
            == TickAction::ReceiveCommand,
        device_next(interval, step, event).1 == TickAction::HandleCommand ==> step
            == TickStep::AwaitCommand && event == (TickEvent::Received { shutdown: false }),
        device_next(interval, step, event).1 == TickAction::MeasureElapsed ==> step
            == TickStep::AwaitCommand && !(event is Received),
{
}

/// Every tick starts by syncing and then publishing the state, before it
/// takes any command; a thread sleeps only after a drain, and never longer
/// than what is left of the interval.
pub proof fn lemma_tick_order(interval: u128, step: TickStep, event: TickEvent, e: u128, d: u128)
    ensures
        step == TickStep::AwaitTickStart ==> device_next(interval, step, event).1
            == TickAction::SyncState,
        step == TickStep::AwaitSync ==> device_next(interval, step, event).1
            == TickAction::PublishState,
        device_next(interval, step, event).1 == TickAction::ReceiveCommand ==> step
            == TickStep::AwaitPublish || step == TickStep::AwaitHandled,
        device_next(interval, step, event).1 == TickAction::Sleep(d) ==> step
            == TickStep::AwaitElapsed && (event matches TickEvent::Elapsed(x) && x <= interval && d
            == interval - x),
        step == TickStep::AwaitElapsed && event == TickEvent::Elapsed(e) && e > interval
            ==> device_next(interval, step, event).1 == TickAction::StartTick,
{
}


/// The work of one tick, in order, whatever its outcome: note the time,
/// sync, publish, then take a command.
pub proof fn lemma_tick_sequence(interval: u128, event: TickEvent)
    ensures
        device_next(interval, TickStep::Start, event) == (TickStep::AwaitTickStart, TickAction::StartTick),
        device_next(interval, TickStep::AwaitTickStart, event) == (TickStep::AwaitSync, TickAction::SyncState),
        device_next(interval, TickStep::AwaitSync, event) == (TickStep::AwaitPublish, TickAction::PublishState),
        device_next(interval, TickStep::AwaitPublish, event) == (TickStep::AwaitCommand, TickAction::ReceiveCommand),
        device_next(interval, TickStep::AwaitHandled, event) == (TickStep::AwaitCommand, TickAction::ReceiveCommand),
        device_next(interval, TickStep::AwaitCommand, TickEvent::QueueEmpty) == (TickStep::AwaitElapsed, TickAction::MeasureElapsed),
        device_next(interval, TickStep::AwaitSleep, event) == (TickStep::AwaitTickStart, TickAction::StartTick),
{
}

} // verus!
