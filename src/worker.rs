//! The decisions of the child side of a sandbox.
//!
//! The child reads one start command, loads its environment, runs one module
//! and reports how it ended. The reading, loading and running are done by the
//! caller; this module decides what comes next and writes the final event.
use vstd::prelude::*;
use crate::protocol::{encode_event, event_line, Event, EventView, ExitEvent, RecvError};

verus! {

/// Where the child stands.
#[derive(Clone, Copy, Debug, PartialEq, Eq, Structural)]
pub enum WorkerState {
    /// Waiting for the start command.
    AwaitStart,
    /// The start command came; the environment is being built.
    Loading,
    /// The module is running.
    Running,
    /// Nothing is left to do.
    Finished,
}

/// What the caller reports to the child's logic.
#[derive(Debug)]
pub enum WorkerInput {
    /// The start command was read, or why it could not be.
    Started(Result<(), RecvError>),
    /// The public suffix list was parsed (`true`) or found malformed.
    SuffixList(bool),
    /// The module returned; `holders` handles of the reporter are still alive,
    /// the caller's own included.
    ModuleReturned { result: Result<(), String>, holders: usize },
}

/// Why the child stops without reporting an exit.
#[derive(Clone, Copy, Debug, PartialEq, Eq, Structural)]
pub enum WorkerError {
    /// No start command could be read.
    Handshake(RecvError),
    /// The module left a handle of the reporter alive past its return: a
    /// broken contract, on which the child must stop loudly.
    ReporterShared,
}

/// What the child does next.
#[derive(Debug)]
pub enum WorkerAction {
    /// Build the environment from the start command.
    LoadEnvironment,
    /// Run the module.
    RunModule,
    /// Write this line to the parent; the child is then done.
    Send(String),
    /// Stop with this error.
    Fail(WorkerError),
    /// Nothing to do: the input does not belong to this state.
    Ignore,
}

/// The message reported when the public suffix list cannot be parsed.
pub const SUFFIX_LIST_FAILURE: &'static str = "Failed to load public suffix list";

/// The exit event that reports a module's result.
pub open spec fn exit_for(result: Result<(), String>) -> EventView {
    match result {
        Ok(()) => EventView::ExitOk,
        Err(m) => EventView::ExitErr(m@),
    }
}

/// One step of the child: from its state and what happened, its next state
/// and what it does.
///
/// It fails the handshake when the start command does not come, reports a
/// malformed suffix list as a failed exit, and reports the module's result
/// as its one exit event only when the module released every other handle of
/// the reporter; otherwise it fails and sends nothing.
pub fn run_worker(state: WorkerState, input: WorkerInput) -> (r: (WorkerState, WorkerAction))
    ensures
        match (state, input) {
            (WorkerState::AwaitStart, WorkerInput::Started(Err(e))) => r.0 == WorkerState::Finished
                && r.1 == WorkerAction::Fail(WorkerError::Handshake(e)),
            (WorkerState::AwaitStart, WorkerInput::Started(Ok(()))) => r.0 == WorkerState::Loading
                && r.1 is LoadEnvironment,
            (WorkerState::Loading, WorkerInput::SuffixList(true)) => r.0 == WorkerState::Running
                && r.1 is RunModule,
            (WorkerState::Loading, WorkerInput::SuffixList(false)) => r.0 == WorkerState::Finished
                && r.1 is Send && r.1->Send_0@ == event_line(
                EventView::ExitErr(SUFFIX_LIST_FAILURE@),
            ).push('\n'),
            (WorkerState::Running, WorkerInput::ModuleReturned { result, holders }) => r.0
                == WorkerState::Finished && if holders == 1 {
                r.1 is Send && r.1->Send_0@ == event_line(exit_for(result)).push('\n')
            } else {
                r.1 == WorkerAction::Fail(WorkerError::ReporterShared)
            },
            _ => r.0 == state && r.1 is Ignore,
        },
{
    match (state, input) {
        (WorkerState::AwaitStart, WorkerInput::Started(Err(e))) => (
            WorkerState::Finished,
            WorkerAction::Fail(WorkerError::Handshake(e)),
        ),
        (WorkerState::AwaitStart, WorkerInput::Started(Ok(()))) => (
            WorkerState::Loading,
            WorkerAction::LoadEnvironment,
        ),
        (WorkerState::Loading, WorkerInput::SuffixList(true)) => (
            WorkerState::Running,
            WorkerAction::RunModule,
        ),
        (WorkerState::Loading, WorkerInput::SuffixList(false)) => {
            let e = Event::Exit(ExitEvent::Failure(SUFFIX_LIST_FAILURE.to_owned()));
            (WorkerState::Finished, WorkerAction::Send(encode_event(&e)))
        },
        (WorkerState::Running, WorkerInput::ModuleReturned { result, holders }) => {
            if holders != 1 {
                (WorkerState::Finished, WorkerAction::Fail(WorkerError::ReporterShared))
            } else {
                let e = match result {
                    Ok(()) => Event::Exit(ExitEvent::Success),
                    Err(m) => Event::Exit(ExitEvent::Failure(m)),
                };
                (WorkerState::Finished, WorkerAction::Send(encode_event(&e)))
            }
        },
        (s, _) => (s, WorkerAction::Ignore),
    }
}

} // verus!
