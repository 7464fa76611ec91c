//! The course of one invocation of a test case.
//!
//! A test case is announced on the console, the clock is read, the logic
//! runs, the clock is read again and the elapsed time is reported:
//!
//! ```text
//! Registered --announce, start--> Running --finish--> Completed
//!                                         --abort---> Aborted
//! ```
//!
//! The logic runs at most once. An invocation whose logic fails is never
//! given a closing line.

use crate::util::marker::end_line;
use crate::util::marker::format_end;
use crate::util::marker::format_start;
use crate::util::marker::start_line;
use crate::util::timing::Clock;
use crate::util::timing::ExecutionRecord;
use crate::util::timing::Timestamp;
use vstd::prelude::*;

verus! {

/// Where a test case stands.
#[derive(Clone, Copy, Debug, PartialEq, Eq, Structural)]
pub enum Phase {
    /// Known by its name; its logic has not begun.
    Registered,
    /// Its logic has begun and has not ended.
    Running,
    /// Its logic ended normally and its elapsed time was reported.
    Completed,
    /// Its logic failed; no elapsed time is reported.
    Aborted,
}

/// How far an invocation has come, with the readings of the clock taken
/// on the way.
#[derive(Clone, Copy, Debug, PartialEq, Eq, Structural)]
pub enum Progress {
    /// Nothing has been reported.
    Fresh,
    /// The opening line has been handed out; the clock has not been read.
    Announced,
    /// The logic began at `since`.
    Running { since: Timestamp },
    /// The logic ran for the time in `record`; the closing line has been
    /// handed out.
    Completed { record: ExecutionRecord },
    /// The logic failed.
    Aborted,
}

/// What may happen to an invocation.
#[derive(Clone, Copy, Debug, PartialEq, Eq, Structural)]
pub enum Event {
    /// The opening line is asked for.
    Announce,
    /// The logic is let run at the given reading of the clock.
    Start(Timestamp),
    /// The logic ended normally at the given reading of the clock.
    Finish(Timestamp),
    /// The logic failed.
    Abort,
}

/// An invocation as contracts see it: the name of the test case and how
/// far the invocation has come.
pub struct Course {
    pub name: Seq<char>,
    pub progress: Progress,
}

impl Course {
    /// The course of an invocation of which nothing has happened yet.
    pub open spec fn fresh(name: Seq<char>) -> Course {
        Course { name, progress: Progress::Fresh }
    }

    /// Where the test case stands.
    pub open spec fn phase(self) -> Phase {
        match self.progress {
            Progress::Fresh | Progress::Announced => Phase::Registered,
            Progress::Running { .. } => Phase::Running,
            Progress::Completed { .. } => Phase::Completed,
            Progress::Aborted => Phase::Aborted,
        }
    }

    /// The readings that bracket the logic, once it has ended normally.
    pub open spec fn record(self) -> Option<ExecutionRecord> {
        match self.progress {
            Progress::Completed { record } => Some(record),
            _ => None,
        }
    }

    /// The lines that the invocation has handed out for the console so
    /// far, the oldest first.
    pub open spec fn transcript(self) -> Seq<Seq<char>> {
        match self.progress {
            Progress::Fresh => seq![],
            Progress::Announced | Progress::Running { .. } | Progress::Aborted => seq![
                start_line(self.name),
            ],
            Progress::Completed { record } => seq![
                start_line(self.name),
                end_line(self.name, record.elapsed()),
            ],
        }
    }

    /// The course after the opening line is asked for. Only a fresh
    /// invocation is announced; any other stays as it is.
    pub open spec fn announce(self) -> Course {
        match self.progress {
            Progress::Fresh => Course { progress: Progress::Announced, ..self },
            _ => self,
        }
    }

    /// The course after the logic is let run at the reading `now`. Only an
    /// announced invocation whose logic has not begun starts; any other
    /// stays as it is.
    pub open spec fn start(self, now: Timestamp) -> Course {
        match self.progress {
            Progress::Announced => Course { progress: Progress::Running { since: now }, ..self },
            _ => self,
        }
    }

    /// The course after the logic ended normally at the reading `now`.
    /// Only a running invocation finishes; any other stays as it is.
    pub open spec fn finish(self, now: Timestamp) -> Course {
        match self.progress {
            Progress::Running { since } => Course {
                progress: Progress::Completed { record: ExecutionRecord { start: since, end: now } },
                ..self
            },
            _ => self,
        }
    }

    /// The course after the logic failed. Only a running invocation
    /// aborts; any other stays as it is.
    pub open spec fn abort(self) -> Course {
        match self.progress {
            Progress::Running { .. } => Course { progress: Progress::Aborted, ..self },
            _ => self,
        }
    }

    /// The course after `event`.
    pub open spec fn step(self, event: Event) -> Course {
        match event {
            Event::Announce => self.announce(),
            Event::Start(now) => self.start(now),
            Event::Finish(now) => self.finish(now),
            Event::Abort => self.abort(),
        }
    }

    /// The course after `events`, the first of them first.
    pub open spec fn after(self, events: Seq<Event>) -> Course
        decreases events.len(),
    {
        if events.len() == 0 {
            self
        } else {
            self.step(events.first()).after(events.drop_first())
        }
    }
}

/// An invocation whose logic ends normally hands out exactly two lines:
/// the opening line of its test case, then the closing line of the same
/// test case with the time that elapsed between the two readings.
pub proof fn completed_invocation_reports_two_lines(
    name: Seq<char>,
    since: Timestamp,
    until: Timestamp,
)
    ensures
        ({
            let course = Course::fresh(name).announce().start(since).finish(until);
            let record = ExecutionRecord { start: since, end: until };
            &&& course.phase() == Phase::Completed
            &&& course.record() == Some(record)
            &&& course.transcript() == seq![start_line(name), end_line(name, record.elapsed())]
        }),
{
}

/// An invocation whose logic fails hands out its opening line and nothing
/// else.
pub proof fn failed_invocation_reports_one_line(name: Seq<char>, since: Timestamp)
    ensures
        ({
            let course = Course::fresh(name).announce().start(since).abort();
            &&& course.phase() == Phase::Aborted
            &&& course.record() is None
            &&& course.transcript() == seq![start_line(name)]
        }),
{
}

/// Whatever happens to an invocation that has completed or aborted, it
/// stays as it is: a failed invocation is never given a closing line, and
/// no logic runs twice.
pub proof fn ended_invocation_stays(course: Course, events: Seq<Event>)
    requires
        course.phase() == Phase::Completed || course.phase() == Phase::Aborted,
    ensures
        course.after(events) == course,
    decreases events.len(),
{
    if events.len() > 0 {
        ended_invocation_stays(course, events.drop_first());
    }
}

/// Whatever happens to an invocation, it keeps its name, it never loses a
/// line that it has handed out, and it never returns to a phase that it
/// has left.
pub proof fn invocation_moves_forward(course: Course, events: Seq<Event>)
    ensures
        course.after(events).name == course.name,
        course.transcript().is_prefix_of(course.after(events).transcript()),
        course.phase() != Phase::Registered ==> course.after(events).phase() != Phase::Registered,
    decreases events.len(),
{
    if events.len() > 0 {
        let next = course.step(events.first());
        invocation_moves_forward(next, events.drop_first());
    }
}

/// The logic of an invocation begins at most once: whatever happens to a
/// running invocation, the reading at which its logic began is the one that
/// its elapsed time is counted from.
pub proof fn logic_begins_once(course: Course, events: Seq<Event>)
    requires
        course.progress is Running,
    ensures
        (match course.after(events).progress {
            Progress::Running { since } => since == course.progress->since,
            Progress::Completed { record } => record.start == course.progress->since,
            Progress::Aborted => true,
            _ => false,
        }),
    decreases events.len(),
{
    if events.len() > 0 {
        let next = course.step(events.first());
        if next.progress is Running {
            logic_begins_once(next, events.drop_first());
        } else {
            ended_invocation_stays(next, events.drop_first());
        }
    }
}

/// One invocation of a test case: its name and how far it has come.
#[derive(Debug)]
pub struct Invocation {
    name: String,
    progress: Progress,
}

impl View for Invocation {
    type V = Course;

    closed spec fn view(&self) -> Course {
        Course { name: self.name@, progress: self.progress }
    }
}

impl Invocation {
    /// An invocation of the test case `name` of which nothing has happened
    /// yet.
    pub fn new(name: &str) -> (fresh: Invocation)
        ensures
            fresh@ == Course::fresh(name@),
    {
        Invocation { name: name.to_owned(), progress: Progress::Fresh }
    }

    /// The name of the test case.
    pub fn name(&self) -> (name: &str)
        ensures
            name@ == self@.name,
    {
        self.name.as_str()
    }

    /// How far the invocation has come.
    pub fn progress(&self) -> (progress: Progress)
        ensures
            progress == self@.progress,
    {
        self.progress
    }

    /// Where the test case stands.
    pub fn phase(&self) -> (phase: Phase)
        ensures
            phase == self@.phase(),
    {
        match self.progress {
            Progress::Fresh | Progress::Announced => Phase::Registered,
            Progress::Running { .. } => Phase::Running,
            Progress::Completed { .. } => Phase::Completed,
            Progress::Aborted => Phase::Aborted,
        }
    }

    /// The readings that bracket the logic, once it has ended normally.
    pub fn record(&self) -> (record: Option<ExecutionRecord>)
        ensures
            record == self@.record(),
    {
        match self.progress {
            Progress::Completed { record } => Some(record),
            _ => None,
        }
    }

    /// Hands out the opening line, once: a fresh invocation becomes
    /// announced and gives its opening line; any other stays as it is and
    /// gives nothing.
    pub fn announce(&mut self) -> (line: Option<String>)
        ensures
            final(self)@ == old(self)@.announce(),
            line is Some <==> old(self)@.progress is Fresh,
            line is Some ==> line->0@ == start_line(old(self)@.name),
            line is Some ==> final(self)@.transcript() == old(self)@.transcript().push(line->0@),
    {
        match self.progress {
            Progress::Fresh => {
                self.progress = Progress::Announced;
                Some(format_start(self.name.as_str()))
            },
            _ => None,
        }
    }

    /// Records the reading `now` as the beginning of the logic and tells
    /// whether the logic may run: it may where the invocation was announced
    /// and its logic had not begun. Any other invocation stays as it is.
    pub fn start(&mut self, now: Timestamp) -> (may_run: bool)
        ensures
            final(self)@ == old(self)@.start(now),
            may_run == (old(self)@.progress is Announced),
    {
        match self.progress {
            Progress::Announced => {
                self.progress = Progress::Running { since: now };
                true
            },
            _ => false,
        }
    }

    /// Records the reading `now` as the end of the logic and hands out the
    /// closing line with the elapsed time. Only a running invocation
    /// completes; any other stays as it is and gives nothing.
    pub fn finish(&mut self, now: Timestamp) -> (line: Option<String>)
        ensures
            final(self)@ == old(self)@.finish(now),
            line is Some <==> old(self)@.progress is Running,
            line is Some ==> final(self)@.record() is Some && line->0@ == end_line(
                old(self)@.name,
                final(self)@.record()->0.elapsed(),
            ),
            line is Some ==> final(self)@.transcript() == old(self)@.transcript().push(line->0@),
    {
        match self.progress {
            Progress::Running { since } => {
                let record = ExecutionRecord { start: since, end: now };
                self.progress = Progress::Completed { record };
                Some(format_end(self.name.as_str(), record.elapsed_millis()))
            },
            _ => None,
        }
    }

    /// Records that the logic failed and tells whether it did so while
    /// running. Nothing is handed out: a failed invocation has no closing
    /// line. Any invocation that is not running stays as it is.
    pub fn abort(&mut self) -> (was_running: bool)
        ensures
            final(self)@ == old(self)@.abort(),
            was_running == (old(self)@.progress is Running),
    {
        match self.progress {
            Progress::Running { .. } => {
                self.progress = Progress::Aborted;
                true
            },
            _ => false,
        }
    }
}

/// Invokes the test case `name`: hands its opening line to `sink`, reads
/// the clock, runs `logic` once, and, where the logic ends with `Ok`, reads
/// the clock again and hands the closing line with the elapsed time to
/// `sink`. Where the logic ends with `Err`, nothing more is handed to
/// `sink`. Either way the outcome of the logic is returned as the logic
/// gave it, beside the invocation as it stands at the end.
///
/// The readings come from a clock of the invocation's own, so the elapsed
/// time is whatever that clock measured between the two readings.
pub fn run<T, E, L, S>(name: &str, logic: L, sink: S) -> (done: (Result<T, E>, Invocation))
    where
        L: FnOnce() -> Result<T, E>,
        S: Fn(&str),
    requires
        call_requires(logic, ()),
        forall|line: &str| call_requires(sink, (line,)),
    ensures
        call_ensures(logic, (), done.0),
        done.1@.name == name@,
        done.0 is Ok <==> done.1@.progress is Completed,
        done.0 is Err <==> done.1@.progress is Aborted,
        done.0 is Ok ==> done.1@.transcript() == seq![
            start_line(name@),
            end_line(name@, done.1@.record()->0.elapsed()),
        ],
        done.0 is Err ==> done.1@.transcript() == seq![start_line(name@)],
{
    let clock = Clock::new();
    let mut invocation = Invocation::new(name);
    if let Some(line) = invocation.announce() {
        sink(line.as_str());
    }
    invocation.start(clock.now());
    match logic() {
        Ok(value) => {
            if let Some(line) = invocation.finish(clock.now()) {
                sink(line.as_str());
            }
            (Ok(value), invocation)
        },
        Err(error) => {
            invocation.abort();
            (Err(error), invocation)
        },
    }
}

} // verus!
