//! The life of one command sequence: it is recorded command by command,
//! built, submitted once, and waited for; only then may the host read what
//! the device wrote. The caller performs each step on the device and
//! reports it back; this module decides what comes next and refuses a step
//! that is out of turn.

use vstd::prelude::*;
use crate::commands::Command;

verus! {

/// How far a command sequence has come.
#[derive(Clone, Copy, Debug, PartialEq, Eq, Structural)]
pub enum Phase {
    /// Commands are still being recorded.
    Recording,
    /// The sequence is built and can no longer change.
    Built,
    /// The sequence was handed to the queue; the device may be working.
    Submitted,
    /// The completion signal was observed.
    Complete,
}

/// What the caller is to do next.
#[derive(Clone, Copy, Debug, PartialEq, Eq, Structural)]
pub enum Action {
    /// Record this command.
    Record(Command),
    /// Build the recorded commands into a sequence.
    Build,
    /// Submit the sequence to the queue.
    Submit,
    /// Block until the completion signal fires.
    Wait,
    /// Read what the device wrote.
    Read,
}

/// What the caller reports once a step is done.
#[derive(Clone, Copy, Debug, PartialEq, Eq, Structural)]
pub enum Event {
    /// The command last handed out was recorded.
    Recorded,
    /// The sequence was built.
    Built,
    /// The sequence was submitted.
    Submitted,
    /// The completion signal fired.
    Signalled,
}

/// A report that does not answer the step that was due.
#[derive(Clone, Copy, Debug, PartialEq, Eq, Structural)]
pub struct OutOfTurn {
    /// The step that was due.
    pub due: Action,
    /// The report that came instead.
    pub reported: Event,
}

/// The state of a submission as contracts see it.
pub struct Progress {
    /// The commands to record, in order.
    pub plan: Seq<Command>,
    /// How many of them were recorded.
    pub recorded: nat,
    /// How far the sequence has come.
    pub phase: Phase,
}

/// A command sequence on its way through recording, submission and
/// completion.
pub struct Submission {
    plan: Vec<Command>,
    recorded: usize,
    phase: Phase,
}

/// The state in which nothing of `plan` is recorded yet.
pub open spec fn start(plan: Seq<Command>) -> Progress {
    Progress { plan, recorded: 0, phase: Phase::Recording }
}

/// The step that is due in state `progress`.
pub open spec fn due(progress: Progress) -> Action {
    match progress.phase {
        Phase::Recording => if progress.recorded < progress.plan.len() {
            Action::Record(progress.plan[progress.recorded as int])
        } else {
            Action::Build
        },
        Phase::Built => Action::Submit,
        Phase::Submitted => Action::Wait,
        Phase::Complete => Action::Read,
    }
}

/// Whether `event` reports the step that is due in state `progress`.
pub open spec fn answers(progress: Progress, event: Event) -> bool {
    match due(progress) {
        Action::Record(_) => event == Event::Recorded,
        Action::Build => event == Event::Built,
        Action::Submit => event == Event::Submitted,
        Action::Wait => event == Event::Signalled,
        Action::Read => false,
    }
}

/// The state that follows `progress` once `event` is accepted.
pub open spec fn after(progress: Progress, event: Event) -> Progress {
    match event {
        Event::Recorded => Progress { recorded: progress.recorded + 1, ..progress },
        Event::Built => Progress { phase: Phase::Built, ..progress },
        Event::Submitted => Progress { phase: Phase::Submitted, ..progress },
        Event::Signalled => Progress { phase: Phase::Complete, ..progress },
    }
}

/// The state reached from `progress` by the reports `events` in order, or
/// `None` if one of them is out of turn.
pub open spec fn replay(progress: Progress, events: Seq<Event>) -> Option<Progress>
    decreases events.len(),
{
    if events.len() == 0 {
        Some(progress)
    } else if answers(progress, events[0]) {
        replay(after(progress, events[0]), events.drop_first())
    } else {
        None
    }
}

/// The one full run of reports for a plan of `commands` commands: each
/// command recorded, then built, submitted, signalled.
pub open spec fn script(commands: nat) -> Seq<Event> {
    Seq::new(
        commands + 3,
        |i: int|
            if i < commands {
                Event::Recorded
            } else if i == commands {
                Event::Built
            } else if i == commands + 1 {
                Event::Submitted
            } else {
                Event::Signalled
            },
    )
}

impl Progress {
    /// Whether the state can arise: no more is recorded than planned, and
    /// recording is over only when all of it is.
    pub open spec fn well_formed(self) -> bool {
        &&& self.recorded <= self.plan.len()
        &&& self.phase != Phase::Recording ==> self.recorded == self.plan.len()
    }

    /// How many reports were accepted on the way to this state.
    pub open spec fn position(self) -> nat {
        match self.phase {
            Phase::Recording => self.recorded,
            Phase::Built => self.plan.len() + 1,
            Phase::Submitted => self.plan.len() + 2,
            Phase::Complete => self.plan.len() + 3,
        }
    }
}

impl View for Submission {
    type V = Progress;

    closed spec fn view(&self) -> Progress {
        Progress { plan: self.plan@, recorded: self.recorded as nat, phase: self.phase }
    }
}

impl Submission {
    /// A submission of `plan` with nothing recorded yet.
    pub fn new(plan: Vec<Command>) -> (submission: Submission)
        ensures
            submission@ == start(plan@),
    {
        Submission { plan, recorded: 0, phase: Phase::Recording }
    }

    /// The step that is due.
    pub fn next_action(&self) -> (action: Action)
        ensures
            action == due(self@),
    {
        match self.phase {
            Phase::Recording => if self.recorded < self.plan.len() {
                Action::Record(self.plan[self.recorded])
            } else {
                Action::Build
            },
            Phase::Built => Action::Submit,
            Phase::Submitted => Action::Wait,
            Phase::Complete => Action::Read,
        }
    }

    /// Takes the report of a finished step. A report that answers the step
    /// that was due moves the submission on; any other is refused and
    /// changes nothing.
    pub fn advance(&mut self, event: Event) -> (outcome: Result<(), OutOfTurn>)
        ensures
            answers(old(self)@, event) ==> outcome is Ok && final(self)@ == after(
                old(self)@,
                event,
            ),
            !answers(old(self)@, event) ==> outcome == Err::<(), OutOfTurn>(
                OutOfTurn { due: due(old(self)@), reported: event },
            ) && final(self)@ == old(self)@,
    {
        let action = self.next_action();
        match action {
            Action::Record(_) => match event {
                Event::Recorded => {
                    assert(self.recorded < self.plan.len());
                    self.recorded = self.recorded + 1;
                    Ok(())
                },
                _ => Err(OutOfTurn { due: action, reported: event }),
            },
            Action::Build => match event {
                Event::Built => {
                    self.phase = Phase::Built;
                    Ok(())
                },
                _ => Err(OutOfTurn { due: action, reported: event }),
            },
            Action::Submit => match event {
                Event::Submitted => {
                    self.phase = Phase::Submitted;
                    Ok(())
                },
                _ => Err(OutOfTurn { due: action, reported: event }),
            },
            Action::Wait => match event {
                Event::Signalled => {
                    self.phase = Phase::Complete;
                    Ok(())
                },
                _ => Err(OutOfTurn { due: action, reported: event }),
            },
            Action::Read => Err(OutOfTurn { due: action, reported: event }),
        }
    }

    /// Whether the host may read what the device wrote: only once the
    /// completion signal was observed.
    pub fn may_read(&self) -> (allowed: bool)
        ensures
            allowed == (self@.phase == Phase::Complete),
    {
        match self.phase {
            Phase::Complete => true,
            _ => false,
        }
    }

    /// How far the sequence has come.
    pub fn phase(&self) -> (phase: Phase)
        ensures
            phase == self@.phase,
    {
        self.phase
    }
}

/// An accepted report never changes the plan, and leaves a state that can
/// arise one report further along.
pub proof fn accepted_report_keeps_plan(progress: Progress, event: Event)
    requires
        progress.well_formed(),
        answers(progress, event),
    ensures
        after(progress, event).plan == progress.plan,
        after(progress, event).well_formed(),
        after(progress, event).position() == progress.position() + 1,
        event == script(progress.plan.len())[progress.position() as int],
{
}

/// Whatever reports are accepted from a state follow the one script from
/// where that state stands: commands are recorded in order, the sequence
/// is built once, submitted once and signalled once, and nothing comes
/// after.
pub proof fn accepted_reports_follow_script(progress: Progress, events: Seq<Event>)
    requires
        progress.well_formed(),
        replay(progress, events) is Some,
    ensures
        progress.position() + events.len() <= progress.plan.len() + 3,
        forall|i: int|
            0 <= i < events.len() ==> #[trigger] events[i] == script(progress.plan.len())[
                progress.position() + i
            ],
        replay(progress, events)->0.plan == progress.plan,
        replay(progress, events)->0.well_formed(),
        replay(progress, events)->0.position() == progress.position() + events.len(),
    decreases events.len(),
{
    if events.len() > 0 {
        let next = after(progress, events[0]);
        accepted_report_keeps_plan(progress, events[0]);
        accepted_reports_follow_script(next, events.drop_first());
        assert forall|i: int| 0 <= i < events.len() implies #[trigger] events[i] == script(
            progress.plan.len(),
        )[progress.position() + i] by {
            if i > 0 {
                assert(events[i] == events.drop_first()[i - 1]);
            }
        }
    }
}

/// Commands are handed out for recording in the order of the plan: after
/// `k` accepted reports, with `k` less than the length of the plan, the
/// step that is due is to record the plan's command number `k`.
pub proof fn commands_are_recorded_in_plan_order(plan: Seq<Command>, events: Seq<Event>)
    requires
        replay(start(plan), events) is Some,
        events.len() < plan.len(),
    ensures
        due(replay(start(plan), events)->0) == Action::Record(plan[events.len() as int]),
{
    accepted_reports_follow_script(start(plan), events);
}

/// The host is told to read only after the completion signal: from the
/// start of a plan, reading is due exactly when the whole script was
/// reported, and its last report is the signal.
pub proof fn read_follows_completion(plan: Seq<Command>, events: Seq<Event>)
    requires
        replay(start(plan), events) is Some,
    ensures
        due(replay(start(plan), events)->0) == Action::Read <==> events == script(plan.len()),
        due(replay(start(plan), events)->0) == Action::Read ==> events.last()
            == Event::Signalled,
{
    accepted_reports_follow_script(start(plan), events);
    let reached = replay(start(plan), events)->0;
    if due(reached) == Action::Read {
        assert(events =~= script(plan.len()));
    }
}

} // verus!
