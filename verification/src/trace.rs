//! What holds of attempts over whole sequences of reports.
//!
//! The first laws hold under every sequence of reports, whether or not the
//! driver keeps to what it is asked: the directory is removed at most once,
//! the result comes after the request to remove it, and nothing follows the
//! result. The next hold when the driver is faithful, that is when each of
//! its reports is on what the attempt asked for last: then nothing is
//! ignored and the lines reach the sink as they were written. The last says
//! that attempts which run side by side do not mix.

use crate::attempt::{outcome_of, AttemptView, Phase, RunActionView, RunEventView};
use vstd::prelude::*;

verus! {

/// The attempt after all of `events`, first to last.
pub open spec fn state_after(start: AttemptView, events: Seq<RunEventView>) -> AttemptView
    decreases events.len(),
{
    if events.len() == 0 {
        start
    } else {
        state_after(start, events.drop_last()).step(events.last()).0
    }
}

/// The attempt at the moment at which it is given `events[at]`.
pub open spec fn state_before(start: AttemptView, events: Seq<RunEventView>, at: int) -> AttemptView {
    state_after(start, events.take(at))
}

/// What the attempt asks for in answer to `events[at]`.
pub open spec fn action_at(start: AttemptView, events: Seq<RunEventView>, at: int) -> RunActionView {
    state_before(start, events, at).step(events[at]).1
}

/// How far an attempt has come. A step never lowers it.
pub open spec fn progress(phase: Phase) -> int {
    match phase {
        Phase::Spawning => 0,
        Phase::Reading => 1,
        Phase::Delivering => 1,
        Phase::Waiting => 2,
        Phase::Cleaning => 3,
        Phase::Done => 4,
    }
}

/// The state before a report is the state before the previous report,
/// stepped by that report.
pub proof fn lemma_state_before_next(start: AttemptView, events: Seq<RunEventView>, at: int)
    requires
        0 <= at < events.len(),
    ensures
        state_before(start, events, at + 1) == state_before(start, events, at).step(events[at]).0,
        state_before(start, events, 0) == start,
{
    assert(events.take(at + 1).drop_last() =~= events.take(at));
}

/// An attempt never goes back to an earlier phase, and keeps its directory.
pub proof fn lemma_no_way_back(
    start: AttemptView,
    events: Seq<RunEventView>,
    earlier: int,
    later: int,
)
    requires
        0 <= earlier <= later <= events.len(),
    ensures
        progress(state_before(start, events, earlier).phase) <= progress(
            state_before(start, events, later).phase,
        ),
        state_before(start, events, later).dir == start.dir,
    decreases later,
{
    if later > 0 {
        lemma_state_before_next(start, events, later - 1);
        if earlier < later {
            lemma_no_way_back(start, events, earlier, later - 1);
        } else {
            lemma_no_way_back(start, events, 0, later - 1);
        }
    }
}

/// The directory that an attempt asks to remove is its own.
pub proof fn lemma_removes_own_directory(start: AttemptView, events: Seq<RunEventView>, at: int)
    requires
        0 <= at < events.len(),
        action_at(start, events, at) is RemoveDir,
    ensures
        action_at(start, events, at) == RunActionView::RemoveDir(start.dir),
{
    lemma_no_way_back(start, events, at, at);
}

/// An attempt asks for its directory to be removed at most once.
pub proof fn lemma_removes_directory_once(
    start: AttemptView,
    events: Seq<RunEventView>,
    first: int,
    second: int,
)
    requires
        0 <= first < second < events.len(),
        action_at(start, events, first) is RemoveDir,
    ensures
        !(action_at(start, events, second) is RemoveDir),
{
    lemma_state_before_next(start, events, first);
    lemma_no_way_back(start, events, first + 1, second);
}

/// An attempt that has come as far as its cleanup, and had not when it
/// began, has asked for its directory to be removed on the way. The index
/// returned is that of the request.
proof fn lemma_cleanup_was_asked_for(
    start: AttemptView,
    events: Seq<RunEventView>,
    at: int,
) -> (cleanup: int)
    requires
        0 <= at <= events.len(),
        progress(start.phase) < progress(Phase::Cleaning),
        progress(state_before(start, events, at).phase) >= progress(Phase::Cleaning),
    ensures
        0 <= cleanup < at,
        action_at(start, events, cleanup) == RunActionView::RemoveDir(start.dir),
    decreases at,
{
    if at == 0 {
        0
    } else {
        lemma_state_before_next(start, events, at - 1);
        if progress(state_before(start, events, at - 1).phase) >= progress(Phase::Cleaning) {
            lemma_cleanup_was_asked_for(start, events, at - 1)
        } else {
            lemma_no_way_back(start, events, at - 1, at - 1);
            at - 1
        }
    }
}

/// An attempt that began with the start of a process gives no result before
/// it has asked for its directory to be removed: whatever the result, the
/// request came first. The index returned is that of the request.
pub proof fn lemma_result_follows_cleanup(
    start: AttemptView,
    events: Seq<RunEventView>,
    at: int,
) -> (cleanup: int)
    requires
        0 <= at < events.len(),
        progress(start.phase) < progress(Phase::Cleaning),
        action_at(start, events, at) is Finish,
    ensures
        0 <= cleanup < at,
        action_at(start, events, cleanup) == RunActionView::RemoveDir(start.dir),
{
    lemma_cleanup_was_asked_for(start, events, at)
}

/// A result is given only in answer to the report on the cleanup, and it is
/// the first failure that the attempt had met by then; a cleanup that failed
/// changes nothing in it.
pub proof fn lemma_result_is_first_failure(
    start: AttemptView,
    events: Seq<RunEventView>,
    at: int,
)
    requires
        0 <= at < events.len(),
        action_at(start, events, at) is Finish,
    ensures
        state_before(start, events, at).phase == Phase::Cleaning,
        events[at] is CleanedUp,
        action_at(start, events, at) == RunActionView::Finish(
            outcome_of(state_before(start, events, at).failure),
        ),
{
}

/// A failure that an attempt has met stays the one it reports: no later
/// report replaces it.
pub proof fn lemma_failure_is_kept(
    start: AttemptView,
    events: Seq<RunEventView>,
    earlier: int,
    later: int,
)
    requires
        0 <= earlier <= later <= events.len(),
        state_before(start, events, earlier).failure is Some,
        state_before(start, events, later).phase != Phase::Done,
    ensures
        state_before(start, events, later).failure == state_before(start, events, earlier).failure,
    decreases later,
{
    if earlier < later {
        lemma_state_before_next(start, events, later - 1);
        lemma_no_way_back(start, events, later - 1, later);
        lemma_failure_is_kept(start, events, earlier, later - 1);
    }
}

/// Once the result has been given, every further report is ignored.
pub proof fn lemma_nothing_after_result(
    start: AttemptView,
    events: Seq<RunEventView>,
    result: int,
    later: int,
)
    requires
        0 <= result < later < events.len(),
        action_at(start, events, result) is Finish,
    ensures
        action_at(start, events, later) is Ignored,
{
    lemma_state_before_next(start, events, result);
    lemma_no_way_back(start, events, result + 1, later);
}

/// A line is handed to the sink only in answer to the report that the
/// process wrote it, and it is that line. So the lines handed over are lines
/// that were read, each at most once and in the order in which they were
/// read.
pub proof fn lemma_delivers_what_was_read(start: AttemptView, events: Seq<RunEventView>, at: int)
    requires
        0 <= at < events.len(),
        action_at(start, events, at) is Deliver,
    ensures
        state_before(start, events, at).phase == Phase::Reading,
        events[at] == RunEventView::Line(action_at(start, events, at)->Deliver_0),
{
}

/// After a line was handed to the sink, no other line is until the sink has
/// taken it; and once the sink has refused a line, none is handed over again.
pub proof fn lemma_no_line_after_refusal(
    start: AttemptView,
    events: Seq<RunEventView>,
    refusal: int,
    later: int,
)
    requires
        0 <= refusal < later < events.len(),
        state_before(start, events, refusal).phase == Phase::Delivering,
        events[refusal] is SinkClosed,
    ensures
        !(action_at(start, events, later) is Deliver),
        !(action_at(start, events, later) is ReadLine),
{
    lemma_state_before_next(start, events, refusal);
    lemma_no_way_back(start, events, refusal + 1, later);
}

/// Whether `event` is a report on how `action` went.
pub open spec fn answers(action: RunActionView, event: RunEventView) -> bool {
    match action {
        RunActionView::Spawn { .. } => event is Spawned || event is SpawnFailed,
        RunActionView::ReadLine => event is Line || event is EndOfOutput,
        RunActionView::Deliver(_) => event is Delivered || event is SinkClosed,
        RunActionView::Wait => event is Exited || event is WaitFailed,
        RunActionView::RemoveDir(_) => event is CleanedUp,
        RunActionView::Finish(_) => false,
        RunActionView::Ignored => false,
    }
}

/// Whether `action` is what an attempt in `phase` has asked for.
pub open spec fn awaits(phase: Phase, action: RunActionView) -> bool {
    match phase {
        Phase::Spawning => action is Spawn,
        Phase::Reading => action is ReadLine,
        Phase::Delivering => action is Deliver,
        Phase::Waiting => action is Wait,
        Phase::Cleaning => action is RemoveDir,
        Phase::Done => action is Finish,
    }
}

/// What the attempt asked for last before it is given `events[at]`, where
/// `first` is what it asked for when it began.
pub open spec fn asked_before(
    first: RunActionView,
    start: AttemptView,
    events: Seq<RunEventView>,
    at: int,
) -> RunActionView {
    if at == 0 {
        first
    } else {
        action_at(start, events, at - 1)
    }
}

/// The driver does as it is asked: each report is on what the attempt asked
/// for last.
pub open spec fn faithful(
    first: RunActionView,
    start: AttemptView,
    events: Seq<RunEventView>,
) -> bool {
    forall|at: int|
        0 <= at < events.len() ==> answers(
            #[trigger] asked_before(first, start, events, at),
            events[at],
        )
}

/// The lines that the process wrote according to `events`, in order.
pub open spec fn lines_read(events: Seq<RunEventView>) -> Seq<Seq<char>>
    decreases events.len(),
{
    if events.len() == 0 {
        Seq::empty()
    } else {
        match events.last() {
            RunEventView::Line(line) => lines_read(events.drop_last()).push(line),
            _ => lines_read(events.drop_last()),
        }
    }
}

/// The lines that the attempt handed to the sink in answer to `events`, in
/// order.
pub open spec fn lines_handed_over(start: AttemptView, events: Seq<RunEventView>) -> Seq<Seq<char>>
    decreases events.len(),
{
    if events.len() == 0 {
        Seq::empty()
    } else {
        match state_after(start, events.drop_last()).step(events.last()).1 {
            RunActionView::Deliver(line) => lines_handed_over(start, events.drop_last()).push(line),
            _ => lines_handed_over(start, events.drop_last()),
        }
    }
}

/// A driver that was faithful up to some report was faithful up to every
/// earlier one.
pub proof fn lemma_faithful_so_far(
    first: RunActionView,
    start: AttemptView,
    events: Seq<RunEventView>,
    upto: int,
)
    requires
        faithful(first, start, events),
        0 <= upto <= events.len(),
    ensures
        faithful(first, start, events.take(upto)),
{
    let front = events.take(upto);
    assert forall|at: int| 0 <= at < front.len() implies answers(
        #[trigger] asked_before(first, start, front, at),
        front[at],
    ) by {
        assert(answers(asked_before(first, start, events, at), events[at]));
        if at > 0 {
            assert(front.take(at - 1) =~= events.take(at - 1));
        }
    }
}

/// With a faithful driver an attempt is always in the phase of what it
/// asked for last, and ignores nothing.
pub proof fn lemma_faithful_driver_is_heard(
    first: RunActionView,
    start: AttemptView,
    events: Seq<RunEventView>,
    at: int,
)
    requires
        awaits(start.phase, first),
        faithful(first, start, events),
        0 <= at < events.len(),
    ensures
        awaits(state_before(start, events, at).phase, asked_before(first, start, events, at)),
        !(action_at(start, events, at) is Ignored),
        awaits(state_before(start, events, at + 1).phase, action_at(start, events, at)),
    decreases at,
{
    lemma_state_before_next(start, events, at);
    if at > 0 {
        lemma_faithful_driver_is_heard(first, start, events, at - 1);
    }
}

/// With a faithful driver every line that the process wrote is handed to
/// the sink, once, and the lines are handed over in the order in which they
/// were written: none is dropped, doubled or moved.
pub proof fn lemma_lines_keep_their_order(
    first: RunActionView,
    start: AttemptView,
    events: Seq<RunEventView>,
)
    requires
        awaits(start.phase, first),
        faithful(first, start, events),
    ensures
        lines_handed_over(start, events) == lines_read(events),
    decreases events.len(),
{
    if events.len() > 0 {
        let last = events.len() - 1;
        let front = events.drop_last();
        lemma_faithful_so_far(first, start, events, last);
        lemma_lines_keep_their_order(first, start, front);
        lemma_faithful_driver_is_heard(first, start, events, last);
    }
}

/// With a faithful driver, once the sink has refused a line the process's
/// output is left alone: no further line is read.
pub proof fn lemma_refusal_ends_reading(
    first: RunActionView,
    start: AttemptView,
    events: Seq<RunEventView>,
    refusal: int,
    later: int,
)
    requires
        awaits(start.phase, first),
        faithful(first, start, events),
        0 <= refusal < later < events.len(),
        events[refusal] is SinkClosed,
    ensures
        !(events[later] is Line),
{
    lemma_faithful_driver_is_heard(first, start, events, refusal);
    lemma_faithful_driver_is_heard(first, start, events, later);
    lemma_no_line_after_refusal(start, events, refusal, later);
}

/// The number of lines that the sink took according to `events`.
pub open spec fn lines_taken(events: Seq<RunEventView>) -> nat
    decreases events.len(),
{
    if events.len() == 0 {
        0
    } else if events.last() is Delivered {
        lines_taken(events.drop_last()) + 1
    } else {
        lines_taken(events.drop_last())
    }
}

/// With a faithful driver an attempt never reads ahead of the sink: every
/// line but the last one read has been taken by the sink before the next is
/// read. A sink that is slow to take a line so holds the reading up.
pub proof fn lemma_one_line_in_flight(
    first: RunActionView,
    start: AttemptView,
    events: Seq<RunEventView>,
)
    requires
        start.phase == Phase::Spawning,
        awaits(start.phase, first),
        faithful(first, start, events),
    ensures
        lines_taken(events) <= lines_read(events).len() <= lines_taken(events) + 1,
        state_after(start, events).phase == Phase::Spawning ==> lines_read(events).len() == 0,
        state_after(start, events).phase == Phase::Reading ==> lines_read(events).len()
            == lines_taken(events),
        state_after(start, events).phase == Phase::Delivering ==> lines_read(events).len()
            == lines_taken(events) + 1,
    decreases events.len(),
{
    if events.len() > 0 {
        let last = events.len() - 1;
        let front = events.drop_last();
        lemma_faithful_so_far(first, start, events, last);
        lemma_one_line_in_flight(first, start, front);
        lemma_faithful_driver_is_heard(first, start, events, last);
    }
}

/// A report and the attempt it is for, among several that run side by side.
pub struct Addressed {
    /// The place of the attempt among the others.
    pub to: int,
    /// The report.
    pub event: RunEventView,
}

/// Several attempts after a sequence of reports, each given to the attempt
/// that it is addressed to. A report addressed to no attempt is dropped.
pub open spec fn side_by_side(attempts: Seq<AttemptView>, reports: Seq<Addressed>) -> Seq<
    AttemptView,
>
    decreases reports.len(),
{
    if reports.len() == 0 {
        attempts
    } else {
        let before = side_by_side(attempts, reports.drop_last());
        let report = reports.last();
        if 0 <= report.to < before.len() {
            before.update(report.to, before[report.to].step(report.event).0)
        } else {
            before
        }
    }
}

/// The reports among `reports` that are addressed to `who`, in order.
pub open spec fn reports_to(reports: Seq<Addressed>, who: int) -> Seq<RunEventView>
    decreases reports.len(),
{
    if reports.len() == 0 {
        Seq::empty()
    } else if reports.last().to == who {
        reports_to(reports.drop_last(), who).push(reports.last().event)
    } else {
        reports_to(reports.drop_last(), who)
    }
}

/// Attempts that run side by side do not mix: however the reports to them
/// are interleaved, each attempt is where its own reports alone would have
/// brought it, and so asks for what it would have asked for alone.
pub proof fn lemma_attempts_do_not_mix(
    attempts: Seq<AttemptView>,
    reports: Seq<Addressed>,
    who: int,
)
    requires
        0 <= who < attempts.len(),
    ensures
        side_by_side(attempts, reports).len() == attempts.len(),
        side_by_side(attempts, reports)[who] == state_after(
            attempts[who],
            reports_to(reports, who),
        ),
    decreases reports.len(),
{
    if reports.len() > 0 {
        let front = reports.drop_last();
        lemma_attempts_do_not_mix(attempts, front, who);
        if reports.last().to == who {
            let mine = reports_to(reports, who);
            assert(mine.drop_last() =~= reports_to(front, who));
        }
    }
}

} // verus!
