//! Runs against a script in place of a process, a sink and a disk.
//!
//! A [`Script`] says in advance how everything outside an attempt behaves:
//! whether the process starts, which lines it writes, when the sink stops
//! listening, how the process ends. `run_scripted` leads an attempt through
//! such a script, step by step as a driver would, and reports what the
//! outside got to see. What it reports is stated without reference to the
//! steps, so the statement is at once the account of what any run does when
//! its driver does as it is asked.

use crate::attempt::{exit_failure, outcome_of, Phase, RunAction, RunActionView, RunEvent};
use crate::error::{outcome_view, ServiceError, ServiceErrorView};
use crate::paths::artifact_dir_of;
use crate::service::{ProdServices, ProdServicesView};
use vstd::prelude::*;

verus! {

/// How everything outside an attempt behaves.
#[derive(Debug)]
pub struct Script {
    /// The failure to start the process, if it is to fail.
    pub spawn_error: Option<std::io::Error>,
    /// The lines that the process writes, in order.
    pub lines: Vec<String>,
    /// The number of lines after which the sink stops taking any; `None` for
    /// a sink that takes them all.
    pub sink_closes_after: Option<usize>,
    /// The failure to wait for the process, if waiting is to fail.
    pub wait_error: Option<std::io::Error>,
    /// The exit code of the process, if it ends with one.
    pub exit_code: Option<i32>,
    /// Whether the removal of the directory fails.
    pub cleanup_fails: bool,
}

/// What the outside saw of a run.
#[derive(Debug)]
pub struct Report {
    /// The program and the argument with which a process was asked for.
    pub spawned: Option<(String, String)>,
    /// The number of lines read from the process.
    pub lines_read: usize,
    /// The lines that the sink took, in order.
    pub delivered: Vec<String>,
    /// Whether the end of the process was waited for.
    pub waited: bool,
    /// The directories whose removal was asked for, in order.
    pub removed: Vec<String>,
    /// The result of the run.
    pub outcome: Result<(), ServiceError>,
}

/// The texts of some strings.
pub open spec fn texts(strings: Seq<String>) -> Seq<Seq<char>> {
    strings.map_values(|s: String| s@)
}

/// The texts of a program and its argument.
pub open spec fn command_view(command: Option<(String, String)>) -> Option<(Seq<char>, Seq<char>)> {
    match command {
        Some((program, argument)) => Some((program@, argument@)),
        None => None,
    }
}

/// A [`Script`] as a plain value.
pub struct ScriptView {
    pub spawn_error: Option<std::io::Error>,
    pub lines: Seq<Seq<char>>,
    pub sink_closes_after: Option<usize>,
    pub wait_error: Option<std::io::Error>,
    pub exit_code: Option<i32>,
    pub cleanup_fails: bool,
}

/// A [`Report`] as a plain value.
pub struct ReportView {
    pub spawned: Option<(Seq<char>, Seq<char>)>,
    pub lines_read: int,
    pub delivered: Seq<Seq<char>>,
    pub waited: bool,
    pub removed: Seq<Seq<char>>,
    pub outcome: Result<(), ServiceErrorView>,
}

impl View for Script {
    type V = ScriptView;

    open spec fn view(&self) -> ScriptView {
        ScriptView {
            spawn_error: self.spawn_error,
            lines: texts(self.lines@),
            sink_closes_after: self.sink_closes_after,
            wait_error: self.wait_error,
            exit_code: self.exit_code,
            cleanup_fails: self.cleanup_fails,
        }
    }
}

impl View for Report {
    type V = ReportView;

    open spec fn view(&self) -> ReportView {
        ReportView {
            spawned: command_view(self.spawned),
            lines_read: self.lines_read as int,
            delivered: texts(self.delivered@),
            waited: self.waited,
            removed: texts(self.removed@),
            outcome: outcome_view(self.outcome),
        }
    }
}

impl ScriptView {
    /// The number of lines that the sink takes: all that the process
    /// writes, or as many as the sink has room for.
    pub open spec fn lines_taken(self) -> int {
        match self.sink_closes_after {
            Some(room) => if room < self.lines.len() {
                room as int
            } else {
                self.lines.len() as int
            },
            None => self.lines.len() as int,
        }
    }

    /// Whether the sink refuses a line: the process writes more lines than
    /// the sink takes.
    pub open spec fn sink_refuses(self) -> bool {
        self.lines_taken() < self.lines.len()
    }

    /// The failure of a run whose process was started: the sink's refusal
    /// before anything the end of the process has to say.
    pub open spec fn failure_once_spawned(self) -> Option<ServiceErrorView> {
        if self.sink_refuses() {
            Some(ServiceErrorView::StreamError)
        } else {
            match self.wait_error {
                Some(e) => Some(ServiceErrorView::SpawnError(e)),
                None => exit_failure(self.exit_code),
            }
        }
    }
}

/// What the outside sees of the run of `id` with `cmd` against `script`.
///
/// A handle without an entry gives the failure and nothing else: no process,
/// no directory removed. With an entry, the process is asked for with the
/// stored path as its argument. If it does not start, that is the failure.
/// If it does, the sink gets the lines in the order written, up to the first
/// that it refuses, after which no line is read; then the process is waited
/// for. Either way the handle's directory is removed, once, and a failure to
/// remove it changes nothing in the result.
pub open spec fn expected_report(
    services: ProdServicesView,
    id: Seq<char>,
    cmd: Seq<char>,
    script: ScriptView,
) -> ReportView {
    if !services.files.contains_key(id) {
        ReportView {
            spawned: None,
            lines_read: 0,
            delivered: Seq::empty(),
            waited: false,
            removed: Seq::empty(),
            outcome: Err(ServiceErrorView::UploadedFileNotFound { id }),
        }
    } else if script.spawn_error is Some {
        ReportView {
            spawned: Some((cmd, services.files[id])),
            lines_read: 0,
            delivered: Seq::empty(),
            waited: false,
            removed: seq![artifact_dir_of(services.uploads_dir, id)],
            outcome: Err(ServiceErrorView::SpawnError(script.spawn_error->0)),
        }
    } else {
        ReportView {
            spawned: Some((cmd, services.files[id])),
            lines_read: if script.sink_refuses() {
                script.lines_taken() + 1
            } else {
                script.lines.len() as int
            },
            delivered: script.lines.take(script.lines_taken()),
            waited: true,
            removed: seq![artifact_dir_of(services.uploads_dir, id)],
            outcome: outcome_of(script.failure_once_spawned()),
        }
    }
}

/// The number of steps that an attempt in `phase` has left at most, when
/// `unread` lines of the script have not been read yet.
spec fn steps_left(phase: Phase, unread: int) -> int {
    match phase {
        Phase::Spawning => 2 * unread + 4,
        Phase::Delivering => 2 * unread + 4,
        Phase::Reading => 2 * unread + 3,
        Phase::Waiting => 2,
        Phase::Cleaning => 1,
        Phase::Done => 0,
    }
}

/// What the driver of a scripted run has seen and done so far.
struct Progress {
    spawn_error: Option<std::io::Error>,
    wait_error: Option<std::io::Error>,
    spawned: Option<(Seq<char>, Seq<char>)>,
    lines_read: int,
    delivered: Seq<Seq<char>>,
    waited: bool,
    removed: Seq<Seq<char>>,
}

/// The attempt, the action it last asked for and what was done so far fit
/// together, and lead to the report that is expected.
spec fn on_track(
    services: ProdServicesView,
    id: Seq<char>,
    cmd: Seq<char>,
    script: ScriptView,
    attempt: crate::attempt::AttemptView,
    action: RunActionView,
    so_far: Progress,
) -> bool {
    let expected = expected_report(services, id, cmd, script);
    let dir = artifact_dir_of(services.uploads_dir, id);
    let found = services.files.contains_key(id);
    let lines = script.lines;
    let read = so_far.lines_read;
    let fresh = so_far.spawn_error == script.spawn_error && so_far.spawned is None;
    let running = found && script.spawn_error is None && so_far.spawned == expected.spawned;
    let unwaited = so_far.wait_error == script.wait_error && !so_far.waited;
    let uncleaned = so_far.removed == Seq::<Seq<char>>::empty();
    &&& attempt.dir == dir
    &&& 0 <= read <= lines.len()
    &&& match attempt.phase {
        Phase::Spawning => {
            &&& found && fresh && unwaited && uncleaned
            &&& action == RunActionView::Spawn { program: cmd, argument: services.files[id] }
            &&& read == 0
            &&& so_far.delivered == Seq::<Seq<char>>::empty()
            &&& attempt.failure is None
        },
        Phase::Reading => {
            &&& running && unwaited && uncleaned
            &&& action == RunActionView::ReadLine
            &&& so_far.delivered == lines.take(read)
            &&& script.sink_closes_after matches Some(room) ==> read <= room
            &&& attempt.failure is None
        },
        Phase::Delivering => {
            &&& running && unwaited && uncleaned
            &&& 1 <= read
            &&& action == RunActionView::Deliver(lines[read - 1])
            &&& so_far.delivered == lines.take(read - 1)
            &&& script.sink_closes_after matches Some(room) ==> read - 1 <= room
            &&& attempt.failure is None
        },
        Phase::Waiting => {
            &&& running && unwaited && uncleaned
            &&& action == RunActionView::Wait
            &&& read == expected.lines_read
            &&& so_far.delivered == expected.delivered
            &&& attempt.failure == if script.sink_refuses() {
                Some(ServiceErrorView::StreamError)
            } else {
                None
            }
        },
        Phase::Cleaning => {
            &&& found && uncleaned
            &&& action == RunActionView::RemoveDir(dir)
            &&& so_far.spawned == expected.spawned
            &&& read == expected.lines_read
            &&& so_far.delivered == expected.delivered
            &&& so_far.waited == expected.waited
            &&& outcome_of(attempt.failure) == expected.outcome
        },
        Phase::Done => {
            &&& action == RunActionView::Finish(expected.outcome)
            &&& so_far.spawned == expected.spawned
            &&& read == expected.lines_read
            &&& so_far.delivered == expected.delivered
            &&& so_far.waited == expected.waited
            &&& so_far.removed == expected.removed
        },
    }
}

impl ProdServices {
    /// Runs the artifact of `id` with `cmd` against `script` and reports
    /// what the outside saw of the run.
    ///
    /// The entry of `id` is consumed as by any run.
    pub fn run_scripted(&mut self, id: &str, cmd: &str, script: Script) -> (report: Report)
        ensures
            final(self)@ == old(self)@.consumed(id@),
            report@ == expected_report(old(self)@, id@, cmd@, script@),
    {
        let ghost plan = script@;
        let Script { spawn_error, lines, sink_closes_after, wait_error, exit_code, cleanup_fails } =
            script;
        let mut spawn_error = spawn_error;
        let mut wait_error = wait_error;
        let mut spawned: Option<(String, String)> = None;
        let mut lines_read: usize = 0;
        let mut delivered: Vec<String> = Vec::new();
        let mut waited = false;
        let mut removed: Vec<String> = Vec::new();
        let (attempt, first) = self.run_cmd(id, cmd);
        let mut attempt = attempt;
        let mut action = first;
        proof {
            assert(texts(delivered@) =~= Seq::<Seq<char>>::empty());
        }
        loop
            invariant
                self@ == old(self)@.consumed(id@),
                plan == script@,
                plan.lines == texts(lines@),
                plan.sink_closes_after == sink_closes_after,
                plan.exit_code == exit_code,
                on_track(
                    old(self)@,
                    id@,
                    cmd@,
                    plan,
                    attempt@,
                    action@,
                    Progress {
                        spawn_error,
                        wait_error,
                        spawned: command_view(spawned),
                        lines_read: lines_read as int,
                        delivered: texts(delivered@),
                        waited,
                        removed: texts(removed@),
                    },
                ),
            decreases steps_left(attempt@.phase, lines.len() - lines_read),
        {
            let event = match action {
                RunAction::Spawn { program, argument } => {
                    spawned = Some((program, argument));
                    proof {
                        assert(plan.lines.take(0) =~= Seq::<Seq<char>>::empty());
                    }
                    match spawn_error.take() {
                        Some(e) => RunEvent::SpawnFailed(e),
                        None => RunEvent::Spawned,
                    }
                },
                RunAction::ReadLine => {
                    if lines_read < lines.len() {
                        let line = lines[lines_read].clone();
                        lines_read += 1;
                        RunEvent::Line(line)
                    } else {
                        RunEvent::EndOfOutput
                    }
                },
                RunAction::Deliver(line) => {
                    let room_left = match sink_closes_after {
                        Some(room) => delivered.len() < room,
                        None => true,
                    };
                    if room_left {
                        proof {
                            assert(texts(delivered@.push(line)) =~= texts(delivered@).push(line@));
                            assert(plan.lines.take(lines_read as int) =~= plan.lines.take(
                                lines_read - 1,
                            ).push(line@));
                        }
                        delivered.push(line);
                        RunEvent::Delivered
                    } else {
                        RunEvent::SinkClosed
                    }
                },
                RunAction::Wait => {
                    waited = true;
                    match wait_error.take() {
                        Some(e) => RunEvent::WaitFailed(e),
                        None => RunEvent::Exited(exit_code),
                    }
                },
                RunAction::RemoveDir(dir) => {
                    proof {
                        assert(texts(removed@.push(dir)) =~= seq![dir@]);
                    }
                    removed.push(dir);
                    RunEvent::CleanedUp { removed: !cleanup_fails }
                },
                RunAction::Finish(outcome) => {
                    return Report { spawned, lines_read, delivered, waited, removed, outcome };
                },
                RunAction::Ignored => {
                    // An attempt ignores only what it does not await, and it
                    // is told nothing else than what it asked for.
                    return Report { spawned, lines_read, delivered, waited, removed, outcome: Ok(()) };
                },
            };
            action = attempt.step(event);
        }
    }
}

} // verus!
