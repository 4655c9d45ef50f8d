//! Classification of one execution into a verdict.
use vstd::prelude::*;
use vstd::string::StringSliceAdditionalSpecFns;

use crate::output::{output_matches, outputs_match};

verus! {

/// How the process of one execution concluded.
#[derive(Clone, Copy, Debug, PartialEq, Eq, Structural)]
pub enum CommandExit {
    /// Exited with a success status within the deadline.
    Success,
    /// Exited with any other status within the deadline.
    Error,
    /// Still running at the deadline, and killed.
    Timeout,
}

/// The verdict for one testcase.
#[derive(Clone, Debug, PartialEq, Eq)]
pub enum TestResult {
    /// The output matched the expected output.
    Success,
    /// The process finished, but its output did not match.
    Failed { stdout: Vec<u8>, stderr: Vec<u8> },
    /// The process did not finish before the deadline; what it had written so far.
    TimedOut { stdout: Vec<u8>, stderr: Vec<u8> },
    /// The process could not be started.
    UnableToRun { error_msg: String },
}

/// The mathematical value of a [`TestResult`].
pub enum Verdict {
    Success,
    Failed { stdout: Seq<u8>, stderr: Seq<u8> },
    TimedOut { stdout: Seq<u8>, stderr: Seq<u8> },
    UnableToRun { error_msg: Seq<char> },
}

impl View for TestResult {
    type V = Verdict;

    open spec fn view(&self) -> Verdict {
        match self {
            TestResult::Success => Verdict::Success,
            TestResult::Failed { stdout, stderr } => Verdict::Failed {
                stdout: stdout@,
                stderr: stderr@,
            },
            TestResult::TimedOut { stdout, stderr } => Verdict::TimedOut {
                stdout: stdout@,
                stderr: stderr@,
            },
            TestResult::UnableToRun { error_msg } => Verdict::UnableToRun { error_msg: error_msg@ },
        }
    }
}

/// The verdict for captured `stdout` and `stderr` of a process that concluded as `exit`,
/// judged against `expected`.
///
/// A timeout decides alone. Otherwise the output decides: a process whose output
/// matches succeeds whatever its exit status, and one whose output differs fails.
pub open spec fn classify(
    expected: Seq<u8>,
    stdout: Seq<u8>,
    stderr: Seq<u8>,
    exit: CommandExit,
) -> Verdict {
    match exit {
        CommandExit::Timeout => Verdict::TimedOut { stdout, stderr },
        _ => if outputs_match(expected, stdout) {
            Verdict::Success
        } else {
            Verdict::Failed { stdout, stderr }
        },
    }
}

/// The name under which a program that could not be started is reported.
pub open spec fn program_label(program: Option<Seq<char>>) -> Seq<char> {
    match program {
        Some(p) => p,
        None => "Unable to run command"@,
    }
}

/// The message of a launch failure: the program's name, a colon, and the error.
pub open spec fn launch_message(program: Seq<char>, error: Seq<char>) -> Seq<char> {
    program + seq![':', ' '] + error
}

/// Relies on `format!("{}: {}", ..)`: `Display` of a `str` writes it unchanged,
/// so the result is the two texts joined by a colon and a space.
#[verifier::external_body]
fn join_with_colon(left: &str, right: &str) -> (r: String)
    ensures
        r@ == launch_message(left@, right@),
{
    format!("{}: {}", left, right)
}

/// A process that exits with a success status before the deadline, having
/// written output that matches, succeeds.
pub proof fn lemma_matching_output_succeeds(expected: Seq<u8>, stdout: Seq<u8>, stderr: Seq<u8>)
    requires
        outputs_match(expected, stdout),
    ensures
        classify(expected, stdout, stderr, CommandExit::Success) == Verdict::Success,
{
}

/// A process that finishes before the deadline with output that does not match
/// fails, whatever its exit status, and the verdict holds exactly what it wrote.
pub proof fn lemma_differing_output_fails(
    expected: Seq<u8>,
    stdout: Seq<u8>,
    stderr: Seq<u8>,
    exit: CommandExit,
)
    requires
        !outputs_match(expected, stdout),
        exit != CommandExit::Timeout,
    ensures
        classify(expected, stdout, stderr, exit) == (Verdict::Failed { stdout, stderr }),
        !(classify(expected, stdout, stderr, exit) is Success),
{
}

impl TestResult {
    /// Classifies the captured output of one execution against `expected`.
    pub fn from_output(
        expected: &str,
        stdout: Vec<u8>,
        stderr: Vec<u8>,
        exit_status: CommandExit,
    ) -> (r: TestResult)
        ensures
            r@ == classify(expected.spec_bytes(), stdout@, stderr@, exit_status),
    {
        match exit_status {
            CommandExit::Timeout => TestResult::TimedOut { stdout, stderr },
            _ => {
                if output_matches(expected.as_bytes(), stdout.as_slice()) {
                    TestResult::Success
                } else {
                    TestResult::Failed { stdout, stderr }
                }
            },
        }
    }

    /// The verdict for a process that could not be started. `program` is the
    /// program's name, where it is valid text; `error` describes the failure.
    pub fn unable_to_run(program: Option<&str>, error: &str) -> (r: TestResult)
        ensures
            r@ == (Verdict::UnableToRun { error_msg: launch_message(program_label(program.deep_view()), error@) }),
    {
        let name: &str = match program {
            Some(p) => p,
            None => "Unable to run command",
        };
        let error_msg = join_with_colon(name, error);
        TestResult::UnableToRun { error_msg }
    }

    /// Whether this verdict is a success.
    pub fn is_success(&self) -> (r: bool)
        ensures
            r == (self@ is Success),
    {
        match self {
            TestResult::Success => true,
            _ => false,
        }
    }
}

} // verus!
