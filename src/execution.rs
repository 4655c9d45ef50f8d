//! The steps of one execution of a testcase.
//!
//! An [`Execution`] decides what happens next; the caller carries it out
//! (starts the process, writes its input, waits, kills it, collects its
//! output) and reports the outcome back as an [`Event`]. A fresh execution
//! waits for the outcome of starting the process.
use vstd::prelude::*;
use vstd::utf8::encode_utf8;

use crate::output::outputs_match;
use crate::test_result::{classify, launch_message, program_label, CommandExit, TestResult, Verdict};
use crate::testcase::Testcase;

verus! {

/// Where an execution stands.
#[derive(Clone, Copy, Debug, PartialEq, Eq, Structural)]
pub enum Phase {
    /// Waiting for the process to be started.
    Spawning,
    /// The process runs; its input is being written.
    Feeding,
    /// Its input was written; waiting, up to the deadline, for it to finish.
    Waiting,
    /// The deadline passed; the process is being killed.
    Killing,
    /// The process concluded as `exit`; its output is being collected.
    Collecting { exit: CommandExit },
    /// The verdict was reported.
    Finished,
}

/// What the caller observed while carrying out the last action.
#[derive(Clone, Debug, PartialEq, Eq)]
pub enum Event {
    /// The process could not be started. `program` is its name, where that is
    /// valid text.
    SpawnFailed { program: Option<String>, error: String },
    /// The process was started with all three streams piped.
    Spawned,
    /// The whole input was written and the input stream closed.
    InputWritten,
    /// The process finished before the deadline, with a success status or not.
    Exited { success: bool },
    /// The deadline passed with the process still running.
    DeadlinePassed,
    /// The process was killed.
    Killed,
    /// All that the process wrote on its output and error streams.
    Collected { stdout: Vec<u8>, stderr: Vec<u8> },
}

/// What the caller is to do next.
#[derive(Clone, Debug, PartialEq, Eq)]
pub enum Action {
    /// Write the testcase's input to the process and close its input stream.
    WriteInput,
    /// Wait for the process to finish, up to the deadline.
    Wait,
    /// Kill the process.
    Kill,
    /// Wait for the process to end and collect its output and error streams.
    Collect,
    /// The execution is over with this verdict.
    Report(TestResult),
}

/// The mathematical value of an [`Action`].
pub enum Step {
    WriteInput,
    Wait,
    Kill,
    Collect,
    Report(Verdict),
}

impl View for Action {
    type V = Step;

    open spec fn view(&self) -> Step {
        match self {
            Action::WriteInput => Step::WriteInput,
            Action::Wait => Step::Wait,
            Action::Kill => Step::Kill,
            Action::Collect => Step::Collect,
            Action::Report(r) => Step::Report(r@),
        }
    }
}

/// Whether `event` can come in `phase`.
pub open spec fn accepts(phase: Phase, event: Event) -> bool {
    match phase {
        Phase::Spawning => event is SpawnFailed || event is Spawned,
        Phase::Feeding => event is InputWritten,
        Phase::Waiting => event is Exited || event is DeadlinePassed,
        Phase::Killing => event is Killed,
        Phase::Collecting { .. } => event is Collected,
        Phase::Finished => false,
    }
}

/// The exit of a process that finished before the deadline.
pub open spec fn exit_of(success: bool) -> CommandExit {
    if success {
        CommandExit::Success
    } else {
        CommandExit::Error
    }
}

/// The phase that follows `phase` on `event`.
pub open spec fn next_phase(phase: Phase, event: Event) -> Phase {
    match event {
        Event::SpawnFailed { .. } => Phase::Finished,
        Event::Spawned => Phase::Feeding,
        Event::InputWritten => Phase::Waiting,
        Event::Exited { success } => Phase::Collecting { exit: exit_of(success) },
        Event::DeadlinePassed => Phase::Killing,
        Event::Killed => Phase::Collecting { exit: CommandExit::Timeout },
        Event::Collected { .. } => Phase::Finished,
    }
}

/// The step that follows `event` in `phase`, for an execution that expects
/// the output `expected`.
pub open spec fn next_step(expected: Seq<u8>, phase: Phase, event: Event) -> Step {
    match event {
        Event::SpawnFailed { program, error } => Step::Report(
            Verdict::UnableToRun {
                error_msg: launch_message(program_label(program.deep_view()), error@),
            },
        ),
        Event::Spawned => Step::WriteInput,
        Event::InputWritten => Step::Wait,
        Event::Exited { .. } => Step::Collect,
        Event::DeadlinePassed => Step::Kill,
        Event::Killed => Step::Collect,
        Event::Collected { stdout, stderr } => Step::Report(
            classify(
                expected,
                stdout@,
                stderr@,
                match phase {
                    Phase::Collecting { exit } => exit,
                    // output is collected only in `Collecting`
                    _ => CommandExit::Error,
                },
            ),
        ),
    }
}

/// An execution reports a verdict exactly when it finishes, and a finished
/// execution takes no further event: each execution yields one verdict.
pub proof fn lemma_one_verdict(expected: Seq<u8>, phase: Phase, event: Event)
    requires
        accepts(phase, event),
    ensures
        next_step(expected, phase, event) is Report <==> next_phase(phase, event) == Phase::Finished,
        forall|later: Event| !accepts(Phase::Finished, later),
{
}

/// The steps that an execution in `phase`, expecting `expected`, takes on `events`,
/// as far as each event can come.
pub open spec fn steps_of(expected: Seq<u8>, phase: Phase, events: Seq<Event>) -> Seq<Step>
    decreases events.len(),
{
    if events.len() == 0 || !accepts(phase, events[0]) {
        Seq::empty()
    } else {
        seq![next_step(expected, phase, events[0])] + steps_of(
            expected,
            next_phase(phase, events[0]),
            events.drop_first(),
        )
    }
}

/// The events of a process that starts, reads its input and exits with a
/// success status before the deadline, having written `stdout` and `stderr`.
pub open spec fn clean_run(stdout: Vec<u8>, stderr: Vec<u8>) -> Seq<Event> {
    seq![
        Event::Spawned,
        Event::InputWritten,
        Event::Exited { success: true },
        Event::Collected { stdout, stderr },
    ]
}

/// The events of a process that is still running at the deadline, is killed,
/// and had written `stdout` and `stderr` by then.
pub open spec fn overdue_run(stdout: Vec<u8>, stderr: Vec<u8>) -> Seq<Event> {
    seq![
        Event::Spawned,
        Event::InputWritten,
        Event::DeadlinePassed,
        Event::Killed,
        Event::Collected { stdout, stderr },
    ]
}

/// A process still running at the deadline is killed and judged as timed out,
/// with what it had written so far, whatever that output is.
pub proof fn lemma_deadline_reports_timed_out(expected: Seq<u8>, stdout: Vec<u8>, stderr: Vec<u8>)
    ensures
        steps_of(expected, Phase::Spawning, overdue_run(stdout, stderr)) == seq![
            Step::WriteInput,
            Step::Wait,
            Step::Kill,
            Step::Collect,
            Step::Report(Verdict::TimedOut { stdout: stdout@, stderr: stderr@ }),
        ],
{
    let ev = overdue_run(stdout, stderr);
    reveal_with_fuel(steps_of, 6);
    assert(ev.drop_first().drop_first().drop_first().drop_first().drop_first().len() == 0);
    assert(steps_of(expected, Phase::Spawning, ev) =~= seq![
        Step::WriteInput,
        Step::Wait,
        Step::Kill,
        Step::Collect,
        Step::Report(Verdict::TimedOut { stdout: stdout@, stderr: stderr@ }),
    ]);
}

/// A program that cannot be started is judged unable to run, with a message
/// that begins with the program's name.
pub proof fn lemma_spawn_failure_names_program(expected: Seq<u8>, program: String, error: String)
    ensures
        ({
            let step = next_step(
                expected,
                Phase::Spawning,
                Event::SpawnFailed { program: Some(program), error },
            );
            &&& step is Report
            &&& step->Report_0 is UnableToRun
            &&& step->Report_0->error_msg.subrange(0, program@.len() as int) == program@
        }),
        next_phase(Phase::Spawning, Event::SpawnFailed { program: Some(program), error })
            == Phase::Finished,
{
    let msg = launch_message(program@, error@);
    assert(msg.subrange(0, program@.len() as int) =~= program@);
}

/// Two fresh executions of one testcase, each driven by a process that exits
/// cleanly with matching output, both succeed: nothing of one run carries over
/// into another.
pub proof fn lemma_fresh_runs_agree(
    testcase: Testcase,
    first: Execution,
    second: Execution,
    stdout: Vec<u8>,
    stderr: Vec<u8>,
)
    requires
        first.phase() == Phase::Spawning,
        second.phase() == Phase::Spawning,
        first.expected() == encode_utf8(testcase.test_out@),
        second.expected() == encode_utf8(testcase.test_out@),
        outputs_match(encode_utf8(testcase.test_out@), stdout@),
    ensures
        steps_of(first.expected(), first.phase(), clean_run(stdout, stderr)) == steps_of(
            second.expected(),
            second.phase(),
            clean_run(stdout, stderr),
        ),
        steps_of(first.expected(), first.phase(), clean_run(stdout, stderr)).last()
            == Step::Report(Verdict::Success),
{
    let ev = clean_run(stdout, stderr);
    reveal_with_fuel(steps_of, 5);
    assert(ev.drop_first().drop_first().drop_first().drop_first().len() == 0);
    assert(steps_of(first.expected(), Phase::Spawning, ev) =~= seq![
        Step::WriteInput,
        Step::Wait,
        Step::Collect,
        Step::Report(Verdict::Success),
    ]);
}

/// One execution of a testcase.
pub struct Execution {
    expected: String,
    phase: Phase,
}

impl Execution {
    /// The output that this execution expects, as bytes.
    pub closed spec fn expected(&self) -> Seq<u8> {
        encode_utf8(self.expected@)
    }

    /// Where this execution stands.
    pub closed spec fn phase(&self) -> Phase {
        self.phase
    }

    /// A fresh execution of `testcase`, waiting for the process to be started.
    pub fn new(testcase: &Testcase) -> (r: Execution)
        ensures
            r.expected() == encode_utf8(testcase.test_out@),
            r.phase() == Phase::Spawning,
    {
        Execution { expected: testcase.test_out.clone(), phase: Phase::Spawning }
    }

    /// Where this execution stands.
    pub fn current_phase(&self) -> (r: Phase)
        ensures
            r == self.phase(),
    {
        self.phase
    }

    /// Whether `event` can come now.
    pub fn can_take(&self, event: &Event) -> (r: bool)
        ensures
            r == accepts(self.phase(), *event),
    {
        match self.phase {
            Phase::Spawning => match event {
                Event::SpawnFailed { .. } | Event::Spawned => true,
                _ => false,
            },
            Phase::Feeding => match event {
                Event::InputWritten => true,
                _ => false,
            },
            Phase::Waiting => match event {
                Event::Exited { .. } | Event::DeadlinePassed => true,
                _ => false,
            },
            Phase::Killing => match event {
                Event::Killed => true,
                _ => false,
            },
            Phase::Collecting { .. } => match event {
                Event::Collected { .. } => true,
                _ => false,
            },
            Phase::Finished => false,
        }
    }

    /// Moves on by `event` and returns what the caller is to do next.
    pub fn step(&mut self, event: Event) -> (a: Action)
        requires
            accepts(old(self).phase(), event),
        ensures
            final(self).expected() == old(self).expected(),
            final(self).phase() == next_phase(old(self).phase(), event),
            a@ == next_step(old(self).expected(), old(self).phase(), event),
    {
        match event {
            Event::SpawnFailed { program, error } => {
                self.phase = Phase::Finished;
                let name: Option<&str> = match &program {
                    Some(p) => Some(p.as_str()),
                    None => None,
                };
                Action::Report(TestResult::unable_to_run(name, error.as_str()))
            },
            Event::Spawned => {
                self.phase = Phase::Feeding;
                Action::WriteInput
            },
            Event::InputWritten => {
                self.phase = Phase::Waiting;
                Action::Wait
            },
            Event::Exited { success } => {
                let exit = if success {
                    CommandExit::Success
                } else {
                    CommandExit::Error
                };
                self.phase = Phase::Collecting { exit };
                Action::Collect
            },
            Event::DeadlinePassed => {
                self.phase = Phase::Killing;
                Action::Kill
            },
            Event::Killed => {
                self.phase = Phase::Collecting { exit: CommandExit::Timeout };
                Action::Collect
            },
            Event::Collected { stdout, stderr } => {
                // `accepts` lets output be collected only in `Collecting`
                let exit = match self.phase {
                    Phase::Collecting { exit } => exit,
                    _ => CommandExit::Error,
                };
                self.phase = Phase::Finished;
                Action::Report(TestResult::from_output(self.expected.as_str(), stdout, stderr, exit))
            },
        }
    }
}

} // verus!
