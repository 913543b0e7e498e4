use crate::dispatch::{phase_after, turn_for, Dispatcher, LoopPhase, Turn};
use crate::failure::Failure;
use vstd::prelude::*;

verus! {

/// The worker as its controller sees it.
#[derive(Clone, Copy, Debug, PartialEq, Eq, Structural)]
pub enum WorkerState {
    /// Not started: no background task exists.
    Created,
    /// The background loop is active.
    Running,
    /// A stop was signalled and the loop has not been seen to return.
    Stopping,
    /// The loop has returned and was joined.
    Stopped,
}

/// What a controller can be asked to do.
#[derive(Clone, Copy, Debug, PartialEq, Eq, Structural)]
pub enum Command {
    Start,
    SignalStop,
    Join,
}

/// The state that a command leads to, where the command is allowed.
pub open spec fn next_state(state: WorkerState, command: Command) -> Option<WorkerState> {
    match (state, command) {
        (WorkerState::Created, Command::Start) => Some(WorkerState::Running),
        (WorkerState::Running, Command::SignalStop) => Some(WorkerState::Stopping),
        (WorkerState::Stopping, Command::Join) => Some(WorkerState::Stopped),
        _ => None,
    }
}

/// The place of a state in the worker's life.
pub open spec fn rank(state: WorkerState) -> int {
    match state {
        WorkerState::Created => 0,
        WorkerState::Running => 1,
        WorkerState::Stopping => 2,
        WorkerState::Stopped => 3,
    }
}

/// What the stop flag holds in a state: `true` until a stop is signalled.
pub open spec fn flag_in(state: WorkerState) -> bool {
    state == WorkerState::Created || state == WorkerState::Running
}

/// What a join reports: nothing after a clean end, a failure otherwise.
pub open spec fn join_report(joined_cleanly: bool) -> Result<(), Failure> {
    if joined_cleanly {
        Ok(())
    } else {
        Err(Failure::JoinFailure)
    }
}

/// Starts and stops one worker. The controller decides; the caller spawns the
/// task, stores the flag and joins.
pub struct Converter {
    state: WorkerState,
}

impl Converter {
    pub closed spec fn state(&self) -> WorkerState {
        self.state
    }

    /// A controller whose worker has not been started.
    pub fn new() -> (c: Converter)
        ensures
            c.state() == WorkerState::Created,
    {
        Converter { state: WorkerState::Created }
    }

    pub fn current_state(&self) -> (s: WorkerState)
        ensures
            s == self.state(),
    {
        self.state
    }

    /// What the stop flag is to hold now.
    pub fn is_running(&self) -> (b: bool)
        ensures
            b == flag_in(self.state()),
    {
        match self.state {
            WorkerState::Created => true,
            WorkerState::Running => true,
            _ => false,
        }
    }

    /// Marks the worker as started. A controller starts its worker once.
    pub fn start(&mut self)
        requires
            old(self).state() == WorkerState::Created,
        ensures
            Some(final(self).state()) == next_state(old(self).state(), Command::Start),
    {
        self.state = WorkerState::Running;
    }

    /// Signals the stop and returns the value to store in the stop flag.
    pub fn signal_stop(&mut self) -> (flag: bool)
        requires
            old(self).state() == WorkerState::Running,
        ensures
            Some(final(self).state()) == next_state(old(self).state(), Command::SignalStop),
            flag == flag_in(final(self).state()),
            !flag,
    {
        self.state = WorkerState::Stopping;
        false
    }

    /// Takes the outcome of joining the worker and ends the controller's
    /// life: it cannot start a worker again. A worker that did not end
    /// cleanly is reported, not retried.
    pub fn stop(self, joined_cleanly: bool) -> (r: Result<(), Failure>)
        requires
            self.state() == WorkerState::Stopping,
        ensures
            r == join_report(joined_cleanly),
    {
        if joined_cleanly {
            Ok(())
        } else {
            Err(Failure::JoinFailure)
        }
    }
}

/// A stop ends the worker at the top of its next iteration, whether or not
/// an event has arrived: the flag that a running controller stores with the
/// signal makes the loop's next turn an exit, which leaves the loop finished
/// without a batch read or a message sent in that turn, and the controller
/// is left to join.
pub proof fn lemma_stop_ends_worker(controller: Converter, signalled: Converter, worker: Dispatcher)
    requires
        controller.state() == WorkerState::Running,
        Some(signalled.state()) == next_state(controller.state(), Command::SignalStop),
        worker.phase() == LoopPhase::Polling,
    ensures
        flag_in(controller.state()),
        !flag_in(signalled.state()),
        turn_for(flag_in(signalled.state())) == Turn::Exit,
        phase_after(turn_for(flag_in(signalled.state()))) == LoopPhase::Finished,
        next_state(signalled.state(), Command::Join) == Some(WorkerState::Stopped),
{
}

/// The states are passed in one direction only: no command leads back to an
/// earlier state, none leads out of `Stopped`, and each state allows at most
/// one command.
pub proof fn lemma_lifecycle_is_one_way(state: WorkerState, command: Command)
    ensures
        next_state(state, command) matches Some(next) ==> rank(next) == rank(state) + 1,
        next_state(WorkerState::Stopped, command).is_none(),
        forall|other: Command|
            next_state(state, command).is_some() && #[trigger] next_state(state, other).is_some()
                ==> other == command,
{
}

} // verus!
