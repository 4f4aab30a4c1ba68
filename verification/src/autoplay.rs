use vstd::prelude::*;
use crate::error::RpcError;

verus! {

/// How many ticks pass between two progress heartbeats while something
/// is playing.
pub const HEARTBEAT_CADENCE: u64 = 60;

/// What one poll of the appliance taught the loop this tick.
#[derive(Clone, Copy, Debug, PartialEq, Eq, Structural)]
pub enum PollOutcome {
    /// Something is playing.
    Active,
    /// Nothing is playing.
    Idle,
    /// The poll itself failed at the transport: a transient condition.
    Unreachable,
}

/// What the loop must do before sleeping this tick.
#[derive(Clone, Copy, Debug, PartialEq, Eq, Structural)]
pub enum TickAction {
    /// Resolve a fresh random episode and start it.
    StartPlayback,
    /// Emit the progress heartbeat, for operator feedback only.
    Heartbeat,
    /// Nothing to do; playback continues.
    Quiet,
    /// Log the failed poll and keep polling on the next tick.
    LogAndContinue,
}

/// The loop's only mutable state: the countdown that throttles the
/// progress heartbeat. The idle-or-playing determination is never cached
/// here — it is asked of the appliance afresh on every tick.
#[derive(Clone, Copy, Debug, PartialEq, Eq, Structural)]
pub struct LoopState {
    pub ticks_until_heartbeat: u64,
}

impl LoopState {
    /// The state at loop entry: the first active tick heartbeats at once.
    pub fn new() -> (s: LoopState)
        ensures
            s.ticks_until_heartbeat == 0,
    {
        LoopState { ticks_until_heartbeat: 0 }
    }
}

/// One decision of the autoplay loop. Idle playback triggers autoplay;
/// active playback only drives the heartbeat countdown; and a failed
/// poll is logged and survived — no outcome ever stops the loop, so a
/// transient transport failure costs one tick, never the process.
pub fn next_action(state: &mut LoopState, outcome: PollOutcome) -> (a: TickAction)
    ensures
        outcome == PollOutcome::Idle ==> a == TickAction::StartPlayback
            && final(state).ticks_until_heartbeat == 0,
        outcome == PollOutcome::Active && old(state).ticks_until_heartbeat == 0
            ==> a == TickAction::Heartbeat && final(state).ticks_until_heartbeat
            == HEARTBEAT_CADENCE - 1,
        outcome == PollOutcome::Active && old(state).ticks_until_heartbeat > 0
            ==> a == TickAction::Quiet && final(state).ticks_until_heartbeat
            == old(state).ticks_until_heartbeat - 1,
        outcome == PollOutcome::Unreachable ==> a == TickAction::LogAndContinue
            && *final(state) == *old(state),
{
    match outcome {
        PollOutcome::Idle => {
            state.ticks_until_heartbeat = 0;
            TickAction::StartPlayback
        },
        PollOutcome::Active => {
            if state.ticks_until_heartbeat == 0 {
                state.ticks_until_heartbeat = HEARTBEAT_CADENCE - 1;
                TickAction::Heartbeat
            } else {
                state.ticks_until_heartbeat = state.ticks_until_heartbeat - 1;
                TickAction::Quiet
            }
        },
        PollOutcome::Unreachable => TickAction::LogAndContinue,
    }
}

/// Law: the whole tick decision, from the raw result of the idle poll.
/// A failed poll — the appliance unreachable, or its reply unreadable —
/// is transient whatever the error: the decision is to log and keep
/// polling with the throttle state untouched, never to stop the loop.
/// A successful poll decides as `next_action` does.
pub fn tick_decision(state: &mut LoopState, poll: Result<bool, RpcError>) -> (a: TickAction)
    ensures
        poll is Err ==> a == TickAction::LogAndContinue && *final(state) == *old(state),
        poll == Ok::<bool, RpcError>(false) ==> a == TickAction::StartPlayback
            && final(state).ticks_until_heartbeat == 0,
        poll == Ok::<bool, RpcError>(true) && old(state).ticks_until_heartbeat == 0
            ==> a == TickAction::Heartbeat && final(state).ticks_until_heartbeat
            == HEARTBEAT_CADENCE - 1,
        poll == Ok::<bool, RpcError>(true) && old(state).ticks_until_heartbeat > 0
            ==> a == TickAction::Quiet && final(state).ticks_until_heartbeat
            == old(state).ticks_until_heartbeat - 1,
{
    let outcome = match poll {
        Ok(true) => PollOutcome::Active,
        Ok(false) => PollOutcome::Idle,
        Err(_) => PollOutcome::Unreachable,
    };
    next_action(state, outcome)
}

} // verus!
