//! Running a script as a child process.
//!
//! Spawning and waiting is the caller's business. This module decides what
//! is around it: which program to launch for a script and with which
//! arguments, which diagnostic lines go to the console, and what is handed
//! back once the child has finished or could not be started.

use vstd::prelude::*;

verus! {

/// What a finished child process left behind: the text of its two streams
/// and its exit status.
///
/// A value is made once, after the child has ended, and never changes.
#[derive(Debug)]
pub struct Output {
    stdout: String,
    stderr: String,
    status: i32,
}

/// Mathematical model of an [`Output`].
pub struct OutputView {
    pub stdout: Seq<char>,
    pub stderr: Seq<char>,
    pub status: int,
}

impl View for Output {
    type V = OutputView;

    closed spec fn view(&self) -> OutputView {
        OutputView { stdout: self.stdout@, stderr: self.stderr@, status: self.status as int }
    }
}

/// What was collected from a child that was started and ran to its end.
pub struct Captured {
    /// Everything the child wrote to standard output, as text.
    pub stdout: String,
    /// Everything the child wrote to standard error, as text.
    pub stderr: String,
    /// The exit code, or `None` where the child ended without one
    /// (it was killed by a signal).
    pub code: Option<i32>,
}

/// What to do before the child is started.
pub struct Launch {
    /// The line to write to the console first.
    pub notice: String,
    /// The program to spawn.
    pub program: String,
    /// The arguments to spawn it with.
    pub args: Vec<String>,
}

/// What to do once the child has finished or could not be started.
pub struct Completion {
    /// The line to write to the console, if any.
    pub notice: Option<String>,
    /// What the caller gets: the record of the run, or the message of the
    /// failure.
    pub result: Result<Output, String>,
}

impl PartialEq for Output {
    /// Two records are equal when both streams and the status are.
    fn eq(&self, other: &Output) -> (same: bool) {
        self.status == other.status && self.stdout == other.stdout && self.stderr == other.stderr
    }
}

impl vstd::std_specs::cmp::PartialEqSpecImpl for Output {
    open spec fn obeys_eq_spec() -> bool {
        true
    }

    open spec fn eq_spec(&self, other: &Output) -> bool {
        self@ == other@
    }
}

/// The status reported for an exit code: the code itself, and 0 where
/// there is none.
pub open spec fn status_of(code: Option<i32>) -> int {
    match code {
        Some(c) => c as int,
        None => 0,
    }
}

/// The record that stands for what was captured.
pub open spec fn output_of(captured: Captured) -> OutputView {
    OutputView {
        stdout: captured.stdout@,
        stderr: captured.stderr@,
        status: status_of(captured.code),
    }
}

/// The console line that announces a script.
pub open spec fn start_notice(script: Seq<char>) -> Seq<char> {
    "Running shell script: "@ + script
}

/// The console line that reports a failure.
pub open spec fn failure_notice(message: Seq<char>) -> Seq<char> {
    "Shell script error: "@ + message
}

/// Whatever ran to its end with an exit code is reported as it was
/// captured: both streams unchanged, and the status equal to that code.
pub proof fn lemma_exit_code_is_reported(captured: Captured, code: i32)
    requires
        captured.code == Some(code),
    ensures
        output_of(captured).stdout == captured.stdout@,
        output_of(captured).stderr == captured.stderr@,
        output_of(captured).status == code,
{
}

/// The status depends on the exit code alone: two runs that ended with the
/// same code report the same status, whatever they wrote.
pub proof fn lemma_status_ignores_streams(first: Captured, second: Captured)
    requires
        first.code == second.code,
    ensures
        output_of(first).status == output_of(second).status,
{
}

/// A run that wrote nothing is reported with two empty streams, and its
/// status is still the one that belongs to its exit code.
pub proof fn lemma_silent_run(captured: Captured)
    requires
        captured.stdout@.len() == 0,
        captured.stderr@.len() == 0,
    ensures
        output_of(captured).stdout =~= Seq::<char>::empty(),
        output_of(captured).stderr =~= Seq::<char>::empty(),
        output_of(captured).status == status_of(captured.code),
{
}

/// The record is a function of what was captured: two runs that wrote the
/// same text and ended alike are reported by equal records.
pub proof fn lemma_same_capture_same_output(first: Captured, second: Captured)
    requires
        first.stdout@ == second.stdout@,
        first.stderr@ == second.stderr@,
        first.code == second.code,
    ensures
        output_of(first) == output_of(second),
{
}

/// A child that ended without an exit code is reported like one that
/// ended with code 0.
pub proof fn lemma_missing_code_reads_as_zero(captured: Captured)
    requires
        captured.code is None,
    ensures
        output_of(captured).status == 0,
        output_of(captured).status == status_of(Some(0i32)),
{
}

impl Output {
    /// Builds the record of a finished child.
    ///
    /// Both streams are kept as they were captured. The status is the exit
    /// code, and 0 where the child ended without one.
    pub fn from_captured(captured: Captured) -> (out: Output)
        ensures
            out@ == output_of(captured),
    {
        let status: i32 = match captured.code {
            Some(code) => code,
            None => 0,
        };
        Output { stdout: captured.stdout, stderr: captured.stderr, status }
    }

    /// The text captured from standard output.
    pub fn stdout(&self) -> (text: &str)
        ensures
            text@ == self@.stdout,
    {
        self.stdout.as_str()
    }

    /// The text captured from standard error.
    pub fn stderr(&self) -> (text: &str)
        ensures
            text@ == self@.stderr,
    {
        self.stderr.as_str()
    }

    /// The exit status.
    pub fn status(&self) -> (code: i32)
        ensures
            code == self@.status,
    {
        self.status
    }

    /// Takes the record apart: standard output, standard error, status.
    pub fn into_parts(self) -> (parts: (String, String, i32))
        ensures
            parts.0@ == self@.stdout,
            parts.1@ == self@.stderr,
            parts.2 == self@.status,
    {
        (self.stdout, self.stderr, self.status)
    }
}

/// Says how a script is launched: the script itself is the program, taken
/// as it is given, and it never gets an argument.
pub fn prepare(script: String) -> (launch: Launch)
    ensures
        launch.program@ == script@,
        launch.args@ == Seq::<String>::empty(),
        launch.notice@ == start_notice(script@),
{
    let mut notice = String::from_str("Running shell script: ");
    notice.append(script.as_str());
    Launch { notice, program: script, args: Vec::new() }
}

/// Says what comes of a launch.
///
/// A child that ran to its end gives its record and nothing for the
/// console. A launch that failed gives the failure's message, unchanged,
/// and a console line that carries it.
pub fn complete(spawned: Result<Captured, String>) -> (done: Completion)
    ensures
        match spawned {
            Ok(captured) => {
                &&& done.notice is None
                &&& done.result matches Ok(out)
                &&& out@ == output_of(captured)
            },
            Err(message) => {
                &&& done.notice matches Some(line)
                &&& line@ == failure_notice(message@)
                &&& done.result matches Err(reason)
                &&& reason@ == message@
            },
        },
{
    match spawned {
        Ok(captured) => Completion { notice: None, result: Ok(Output::from_captured(captured)) },
        Err(message) => {
            let mut line = String::from_str("Shell script error: ");
            line.append(message.as_str());
            Completion { notice: Some(line), result: Err(message) }
        },
    }
}

} // verus!
