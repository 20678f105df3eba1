use vstd::prelude::*;
use vstd::string::StringExecFns;

verus! {

/// What wakes the worker task: a command on its control channel, the periodic
/// timer, or a change of the watched value.
pub enum TaskEvent {
    Command(String),
    Tick,
    WatchChanged,
}

/// What the worker task does in answer to an event.
#[derive(Debug, Clone, Copy, PartialEq, Eq, Structural)]
pub enum TaskAction {
    /// Report the stop signal and leave the loop.
    Stop,
    /// Report a command other than the stop signal and go on.
    ReportCommand,
    /// Report that the task is still running and go on.
    ReportRunning,
    /// Report the watched value and go on.
    ReportWatched,
}

/// The command that stops the worker.
pub open spec fn stop_command() -> Seq<char> {
    seq!['S', 'T', 'O', 'P']
}

/// The worker's answer to `event`: exactly the command "STOP" (compared with case)
/// stops it; every other command, each tick and each change are reported.
pub open spec fn action_for(event: TaskEvent) -> TaskAction {
    match event {
        TaskEvent::Command(text) => if text@ == stop_command() {
            TaskAction::Stop
        } else {
            TaskAction::ReportCommand
        },
        TaskEvent::Tick => TaskAction::ReportRunning,
        TaskEvent::WatchChanged => TaskAction::ReportWatched,
    }
}

/// Decides what the worker does with one event.
pub fn next_action(event: &TaskEvent) -> (action: TaskAction)
    ensures
        action == action_for(*event),
{
    match event {
        TaskEvent::Command(text) => {
            let stop = String::from_str("STOP");
            proof {
                reveal_strlit("STOP");
                assert(stop@ =~= stop_command());
            }
            if *text == stop {
                TaskAction::Stop
            } else {
                TaskAction::ReportCommand
            }
        },
        TaskEvent::Tick => TaskAction::ReportRunning,
        TaskEvent::WatchChanged => TaskAction::ReportWatched,
    }
}

} // verus!
