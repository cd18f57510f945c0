//! One execution attempt, as a state machine.
//!
//! An attempt begins when a run has consumed a registry entry. From then on
//! it tells its driver what to do next (start the process, read a line, hand
//! a line to the sink, wait for the exit status, remove the handle's
//! directory) and the driver reports how each of these went. The attempt
//! itself touches neither processes nor files: it decides.
//!
//! The first failure that an attempt meets is the one it reports. Whatever
//! happens after the entry was consumed, the directory is removed before the
//! result is given, and removed once.

use crate::error::{failure_view, outcome_view, ServiceError, ServiceErrorView};
use vstd::prelude::*;

verus! {

/// Which report an attempt is waiting for.
#[derive(Clone, Copy, Debug, PartialEq, Eq, Structural)]
pub enum Phase {
    /// Whether the process could be started.
    Spawning,
    /// The next line of the process's output, or its end.
    Reading,
    /// Whether the sink took the line that was read last.
    Delivering,
    /// How the process ended.
    Waiting,
    /// That the handle's directory has been dealt with.
    Cleaning,
    /// Nothing: the result has been given.
    Done,
}

/// What the driver reports to an attempt.
#[derive(Debug)]
pub enum RunEvent {
    /// The process is running.
    Spawned,
    /// The process could not be started.
    SpawnFailed(std::io::Error),
    /// The process wrote this line.
    Line(String),
    /// The process's output has ended, or can no longer be read.
    EndOfOutput,
    /// The sink took the line.
    Delivered,
    /// The sink refused the line: nobody is listening any more.
    SinkClosed,
    /// The process ended, with this exit code if it has one.
    Exited(Option<i32>),
    /// Waiting for the process failed.
    WaitFailed(std::io::Error),
    /// The removal of the directory was tried; `removed` says whether it
    /// succeeded.
    CleanedUp { removed: bool },
}

/// What an attempt asks of its driver.
#[derive(Debug)]
pub enum RunAction {
    /// Start `program` with `argument` as its only argument and its standard
    /// output piped; report `Spawned` or `SpawnFailed`.
    Spawn { program: String, argument: String },
    /// Read one line of the output; report `Line` or `EndOfOutput`.
    ReadLine,
    /// Hand the line to the sink; report `Delivered` or `SinkClosed`.
    Deliver(String),
    /// Wait for the process to end; report `Exited` or `WaitFailed`.
    Wait,
    /// Remove this directory and all below it; report `CleanedUp`.
    RemoveDir(String),
    /// The run is over and this is its result.
    Finish(Result<(), ServiceError>),
    /// The report was not the one awaited: nothing changed, nothing to do.
    Ignored,
}

/// A [`RunEvent`] with its texts as character sequences.
pub enum RunEventView {
    Spawned,
    SpawnFailed(std::io::Error),
    Line(Seq<char>),
    EndOfOutput,
    Delivered,
    SinkClosed,
    Exited(Option<i32>),
    WaitFailed(std::io::Error),
    CleanedUp { removed: bool },
}

/// A [`RunAction`] with its texts as character sequences.
pub enum RunActionView {
    Spawn { program: Seq<char>, argument: Seq<char> },
    ReadLine,
    Deliver(Seq<char>),
    Wait,
    RemoveDir(Seq<char>),
    Finish(Result<(), ServiceErrorView>),
    Ignored,
}

impl View for RunEvent {
    type V = RunEventView;

    open spec fn view(&self) -> RunEventView {
        match *self {
            RunEvent::Spawned => RunEventView::Spawned,
            RunEvent::SpawnFailed(e) => RunEventView::SpawnFailed(e),
            RunEvent::Line(line) => RunEventView::Line(line@),
            RunEvent::EndOfOutput => RunEventView::EndOfOutput,
            RunEvent::Delivered => RunEventView::Delivered,
            RunEvent::SinkClosed => RunEventView::SinkClosed,
            RunEvent::Exited(code) => RunEventView::Exited(code),
            RunEvent::WaitFailed(e) => RunEventView::WaitFailed(e),
            RunEvent::CleanedUp { removed } => RunEventView::CleanedUp { removed },
        }
    }
}

impl View for RunAction {
    type V = RunActionView;

    open spec fn view(&self) -> RunActionView {
        match *self {
            RunAction::Spawn { program, argument } => RunActionView::Spawn {
                program: program@,
                argument: argument@,
            },
            RunAction::ReadLine => RunActionView::ReadLine,
            RunAction::Deliver(line) => RunActionView::Deliver(line@),
            RunAction::Wait => RunActionView::Wait,
            RunAction::RemoveDir(dir) => RunActionView::RemoveDir(dir@),
            RunAction::Finish(outcome) => RunActionView::Finish(outcome_view(outcome)),
            RunAction::Ignored => RunActionView::Ignored,
        }
    }
}

/// What an exit status means for the run: code 0 is success, any other code
/// is an execution error with that code, and no code at all is an error of
/// its own.
pub open spec fn exit_failure(code: Option<i32>) -> Option<ServiceErrorView> {
    match code {
        Some(c) => if c == 0 {
            None
        } else {
            Some(ServiceErrorView::ExecutionError(c))
        },
        None => Some(ServiceErrorView::NoStatusCode),
    }
}

/// Of two failures in the order in which they were met, the one to report.
pub open spec fn first_failure(
    earlier: Option<ServiceErrorView>,
    later: Option<ServiceErrorView>,
) -> Option<ServiceErrorView> {
    if earlier is Some {
        earlier
    } else {
        later
    }
}

/// The result of a run that met `failure`, or none.
pub open spec fn outcome_of(failure: Option<ServiceErrorView>) -> Result<(), ServiceErrorView> {
    match failure {
        Some(error) => Err(error),
        None => Ok(()),
    }
}

/// The state of one execution attempt.
#[derive(Debug)]
pub struct Attempt {
    phase: Phase,
    dir: String,
    failure: Option<ServiceError>,
}

/// An [`Attempt`] as a plain value.
pub struct AttemptView {
    /// The report that the attempt is waiting for.
    pub phase: Phase,
    /// The directory that the attempt has to remove.
    pub dir: Seq<char>,
    /// The first failure met so far.
    pub failure: Option<ServiceErrorView>,
}

impl AttemptView {
    /// An attempt that has just consumed its entry and asked for the process
    /// to be started.
    pub open spec fn started(dir: Seq<char>) -> AttemptView {
        AttemptView { phase: Phase::Spawning, dir, failure: None }
    }

    /// An attempt whose handle had no entry: it is over before it began.
    pub open spec fn rejected(dir: Seq<char>) -> AttemptView {
        AttemptView { phase: Phase::Done, dir, failure: None }
    }

    /// The same attempt in another phase.
    pub open spec fn moved_to(self, phase: Phase) -> AttemptView {
        AttemptView { phase, ..self }
    }

    /// The same attempt in another phase, having met `failure` now.
    pub open spec fn failed_to(self, phase: Phase, failure: Option<ServiceErrorView>) -> AttemptView {
        AttemptView { phase, failure: first_failure(self.failure, failure), ..self }
    }

    /// The attempt after `event`, and what it asks of the driver next.
    pub open spec fn step(self, event: RunEventView) -> (AttemptView, RunActionView) {
        match self.phase {
            Phase::Spawning => match event {
                RunEventView::Spawned => (self.moved_to(Phase::Reading), RunActionView::ReadLine),
                RunEventView::SpawnFailed(e) => (
                    self.failed_to(Phase::Cleaning, Some(ServiceErrorView::SpawnError(e))),
                    RunActionView::RemoveDir(self.dir),
                ),
                _ => (self, RunActionView::Ignored),
            },
            Phase::Reading => match event {
                RunEventView::Line(line) => (
                    self.moved_to(Phase::Delivering),
                    RunActionView::Deliver(line),
                ),
                RunEventView::EndOfOutput => (self.moved_to(Phase::Waiting), RunActionView::Wait),
                _ => (self, RunActionView::Ignored),
            },
            Phase::Delivering => match event {
                RunEventView::Delivered => (self.moved_to(Phase::Reading), RunActionView::ReadLine),
                RunEventView::SinkClosed => (
                    self.failed_to(Phase::Waiting, Some(ServiceErrorView::StreamError)),
                    RunActionView::Wait,
                ),
                _ => (self, RunActionView::Ignored),
            },
            Phase::Waiting => match event {
                RunEventView::Exited(code) => (
                    self.failed_to(Phase::Cleaning, exit_failure(code)),
                    RunActionView::RemoveDir(self.dir),
                ),
                RunEventView::WaitFailed(e) => (
                    self.failed_to(Phase::Cleaning, Some(ServiceErrorView::SpawnError(e))),
                    RunActionView::RemoveDir(self.dir),
                ),
                _ => (self, RunActionView::Ignored),
            },
            Phase::Cleaning => match event {
                RunEventView::CleanedUp { .. } => (
                    AttemptView { phase: Phase::Done, failure: None, ..self },
                    RunActionView::Finish(outcome_of(self.failure)),
                ),
                _ => (self, RunActionView::Ignored),
            },
            Phase::Done => (self, RunActionView::Ignored),
        }
    }
}

impl View for Attempt {
    type V = AttemptView;

    closed spec fn view(&self) -> AttemptView {
        AttemptView { phase: self.phase, dir: self.dir@, failure: failure_view(self.failure) }
    }
}

/// The failure that an exit status stands for, if any.
pub fn exit_status_failure(code: Option<i32>) -> (failure: Option<ServiceError>)
    ensures
        failure_view(failure) == exit_failure(code),
{
    match code {
        Some(c) => if c == 0 {
            None
        } else {
            Some(ServiceError::ExecutionError(c))
        },
        None => Some(ServiceError::NoStatusCode),
    }
}

impl Attempt {
    /// The attempt of a run that has consumed its entry; `dir` is the
    /// directory of the handle. The driver is to start the process next.
    pub(crate) fn started(dir: String) -> (attempt: Attempt)
        ensures
            attempt@ == AttemptView::started(dir@),
    {
        Attempt { phase: Phase::Spawning, dir, failure: None }
    }

    /// The attempt of a run whose handle had no entry.
    pub(crate) fn rejected(dir: String) -> (attempt: Attempt)
        ensures
            attempt@ == AttemptView::rejected(dir@),
    {
        Attempt { phase: Phase::Done, dir, failure: None }
    }

    /// The report that the attempt is waiting for.
    pub fn phase(&self) -> (phase: Phase)
        ensures
            phase == self@.phase,
    {
        self.phase
    }

    /// Whether the result has been given.
    pub fn is_done(&self) -> (done: bool)
        ensures
            done == (self@.phase == Phase::Done),
    {
        match self.phase {
            Phase::Done => true,
            _ => false,
        }
    }

    /// The directory that the attempt removes before it gives its result.
    pub fn dir(&self) -> (dir: &str)
        ensures
            dir@ == self@.dir,
    {
        self.dir.as_str()
    }

    /// Takes the driver's report and says what to do next.
    ///
    /// A report that the attempt is not waiting for changes nothing and is
    /// answered with `Ignored`.
    pub fn step(&mut self, event: RunEvent) -> (action: RunAction)
        ensures
            (final(self)@, action@) == old(self)@.step(event@),
    {
        match self.phase {
            Phase::Spawning => match event {
                RunEvent::Spawned => {
                    self.phase = Phase::Reading;
                    RunAction::ReadLine
                },
                RunEvent::SpawnFailed(e) => {
                    self.fail(Some(ServiceError::SpawnError(e)));
                    self.clean_up()
                },
                _ => RunAction::Ignored,
            },
            Phase::Reading => match event {
                RunEvent::Line(line) => {
                    self.phase = Phase::Delivering;
                    RunAction::Deliver(line)
                },
                RunEvent::EndOfOutput => {
                    self.phase = Phase::Waiting;
                    RunAction::Wait
                },
                _ => RunAction::Ignored,
            },
            Phase::Delivering => match event {
                RunEvent::Delivered => {
                    self.phase = Phase::Reading;
                    RunAction::ReadLine
                },
                RunEvent::SinkClosed => {
                    self.fail(Some(ServiceError::StreamError));
                    self.phase = Phase::Waiting;
                    RunAction::Wait
                },
                _ => RunAction::Ignored,
            },
            Phase::Waiting => match event {
                RunEvent::Exited(code) => {
                    self.fail(exit_status_failure(code));
                    self.clean_up()
                },
                RunEvent::WaitFailed(e) => {
                    self.fail(Some(ServiceError::SpawnError(e)));
                    self.clean_up()
                },
                _ => RunAction::Ignored,
            },
            Phase::Cleaning => match event {
                RunEvent::CleanedUp { .. } => {
                    self.phase = Phase::Done;
                    match self.failure.take() {
                        Some(error) => RunAction::Finish(Err(error)),
                        None => RunAction::Finish(Ok(())),
                    }
                },
                _ => RunAction::Ignored,
            },
            Phase::Done => RunAction::Ignored,
        }
    }

    /// Keeps `failure` unless an earlier one is already kept.
    fn fail(&mut self, failure: Option<ServiceError>)
        ensures
            final(self)@ == old(self)@.failed_to(old(self)@.phase, failure_view(failure)),
    {
        if self.failure.is_none() {
            self.failure = failure;
        }
    }

    /// Moves on to the removal of the directory.
    fn clean_up(&mut self) -> (action: RunAction)
        ensures
            final(self)@ == old(self)@.moved_to(Phase::Cleaning),
            action@ == RunActionView::RemoveDir(old(self)@.dir),
    {
        self.phase = Phase::Cleaning;
        RunAction::RemoveDir(self.dir.clone())
    }
}

} // verus!
