//! The vocabulary the workflow machines share with their driver: the
//! actions they request, the events the driver reports back, and the
//! transition a single step yields.
//!
//! The driver performs each action — spawning a process, touching a file —
//! and answers with the matching event; the machines themselves never do
//! I/O.

use vstd::prelude::*;
use crate::errors::KpError;
use crate::errors::KpErrorV;

verus! {

/// One external command: a program, its arguments, and the directory to
/// run it in (the invoker's own directory when absent).
pub struct CmdSpec {
    pub program: String,
    pub args: Vec<String>,
    pub cwd: Option<String>,
}

/// The mathematical value of a `CmdSpec`.
pub struct CmdSpecV {
    pub program: Seq<char>,
    pub args: Seq<Seq<char>>,
    pub cwd: Option<Seq<char>>,
}

impl View for CmdSpec {
    type V = CmdSpecV;

    open spec fn view(&self) -> CmdSpecV {
        CmdSpecV {
            program: self.program@,
            args: self.args.deep_view(),
            cwd: match self.cwd {
                Option::Some(ref c) => Option::Some(c@),
                Option::None => Option::None,
            },
        }
    }
}

/// What a workflow machine asks its driver to do next.
pub enum Action {
    /// Spawn the command and wait for it.
    Run(CmdSpec),
    /// Spawn the command, wait, and capture its standard output.
    RunCapture(CmdSpec),
    /// Report whether the path exists.
    CheckPath(String),
    /// Read the file as text; a file that cannot be read is reported missing.
    ReadText(String),
    /// Read the file as text, or report that it does not exist yet.
    ReadTextOptional(String),
    /// List the sample input stems (`sample-1`, ...) found in the
    /// directory, sorted by name.
    ListSamples(String),
    /// Launch the binary, feed `input` to its standard input, and capture
    /// its standard output and the elapsed wall-clock time.
    RunBinary { path: String, input: String },
    /// Write the text to the file.
    WriteText { path: String, content: String },
    /// Write the text to a temporary file, then rename it over the path.
    WriteTextAtomic { path: String, content: String },
    /// The workflow finished; exit with status 0.
    Finish,
    /// The workflow failed; report the error and exit with status 1.
    Abort(KpError),
}

/// The mathematical value of an `Action`.
pub enum ActionV {
    Run(CmdSpecV),
    RunCapture(CmdSpecV),
    CheckPath(Seq<char>),
    ReadText(Seq<char>),
    ReadTextOptional(Seq<char>),
    ListSamples(Seq<char>),
    RunBinary { path: Seq<char>, input: Seq<char> },
    WriteText { path: Seq<char>, content: Seq<char> },
    WriteTextAtomic { path: Seq<char>, content: Seq<char> },
    Finish,
    Abort(KpErrorV),
}

impl View for Action {
    type V = ActionV;

    open spec fn view(&self) -> ActionV {
        match self {
            Action::Run(c) => ActionV::Run(c@),
            Action::RunCapture(c) => ActionV::RunCapture(c@),
            Action::CheckPath(p) => ActionV::CheckPath(p@),
            Action::ReadText(p) => ActionV::ReadText(p@),
            Action::ReadTextOptional(p) => ActionV::ReadTextOptional(p@),
            Action::ListSamples(p) => ActionV::ListSamples(p@),
            Action::RunBinary { path, input } => ActionV::RunBinary {
                path: path@,
                input: input@,
            },
            Action::WriteText { path, content } => ActionV::WriteText {
                path: path@,
                content: content@,
            },
            Action::WriteTextAtomic { path, content } => ActionV::WriteTextAtomic {
                path: path@,
                content: content@,
            },
            Action::Finish => ActionV::Finish,
            Action::Abort(e) => ActionV::Abort(e@),
        }
    }
}

/// How a waited-on command ended.
pub enum RunOutcome {
    /// The program could not be started.
    SpawnFailed,
    /// The program ran; `ok` is whether its exit status was zero, and
    /// `code` its exit code when it exited normally.
    Exited { ok: bool, code: Option<u64> },
}

/// How a captured command ended.
pub enum CaptureOutcome {
    /// The program could not be started.
    SpawnFailed,
    /// The program wrote output that is not UTF-8 text.
    NotText,
    /// The program ran to an exit status, producing `stdout`.
    Exited { ok: bool, code: Option<u64>, stdout: String },
}

/// What a file read produced.
pub enum ReadOutcome {
    /// The file does not exist or could not be read.
    Missing,
    /// The file's text.
    Text(String),
}

/// What the driver reports back after performing an action.
pub enum Event {
    /// Nothing yet: the first step of every workflow.
    Begin,
    /// Answer to `Run`.
    Ran(RunOutcome),
    /// Answer to `RunCapture`.
    Captured(CaptureOutcome),
    /// Answer to `CheckPath`.
    PathChecked(bool),
    /// Answer to `ReadText`.
    TextRead(ReadOutcome),
    /// Answer to `ReadTextOptional`; the file may not exist yet.
    OptionalRead(Option<String>),
    /// Answer to `ListSamples`: the sample stems, sorted by name.
    SamplesListed(Vec<String>),
    /// Answer to `RunBinary`: the captured output, or nothing when the
    /// binary could not be run, and the elapsed milliseconds.
    BinaryFinished { output: Option<String>, millis: u64 },
    /// Answer to `WriteText` and `WriteTextAtomic`: whether it succeeded.
    Written(bool),
}

/// One step of a workflow machine: the state to continue from, lines to
/// print, and the next action to perform.
pub struct Transition<S> {
    pub next: S,
    pub output: Vec<String>,
    pub action: Action,
}

/// The mathematical value of a `Transition`.
pub struct TransitionV<SV> {
    pub next: SV,
    pub output: Seq<Seq<char>>,
    pub action: ActionV,
}

impl<S: View> View for Transition<S> {
    type V = TransitionV<<S as View>::V>;

    open spec fn view(&self) -> TransitionV<<S as View>::V> {
        TransitionV { next: self.next@, output: self.output.deep_view(), action: self.action@ }
    }
}

} // verus!
