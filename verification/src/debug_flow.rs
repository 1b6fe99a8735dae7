//! The `debug` workflow: rebuild the problem in both profiles, then for
//! the selected sample — or for every sample pair found in the sample
//! directory, in name order — print a five-part report: the input, the
//! debug binary's output, the release binary's output with its elapsed
//! time, the expected output, and a verdict comparing the release output
//! to the expected output after trimming whitespace. A mismatch is
//! reported, never fatal: the loop walks on to the next sample.

use vstd::prelude::*;
use vstd::string::StringExecFns;
use crate::BuildMode;
use crate::action::Action;
use crate::action::ActionV;
use crate::action::Event;
use crate::action::ReadOutcome;
use crate::action::RunOutcome;
use crate::action::Transition;
use crate::action::TransitionV;
use crate::commands::build_cmd;
use crate::commands::build_cmd_v;
use crate::commands::exec_time_line;
use crate::commands::exec_time_line_v;
use crate::commands::msg_binary_failed;
use crate::commands::msg_binary_failed_v;
use crate::commands::msg_exit_failure;
use crate::commands::msg_exit_failure_v;
use crate::commands::msg_expected_unreadable;
use crate::commands::msg_expected_unreadable_v;
use crate::commands::msg_input_unreadable;
use crate::commands::msg_input_unreadable_v;
use crate::commands::msg_missing;
use crate::commands::msg_missing_v;
use crate::commands::msg_no_samples;
use crate::commands::msg_no_samples_v;
use crate::commands::msg_spawn_failed;
use crate::commands::msg_spawn_failed_v;
use crate::commands::no_lines;
use crate::commands::sample_header;
use crate::commands::sample_header_v;
use crate::commands::string_vec2;
use crate::commands::string_vec4;
use crate::commands::string_vec5;
use crate::commands::verdict_banner;
use crate::commands::verdict_banner_v;
use crate::errors::ErrorKind;
use crate::errors::KpError;
use crate::errors::KpErrorV;
use crate::paths::executable_path;
use crate::paths::executable_path_spec;
use crate::paths::problem_dir;
use crate::paths::problem_dir_spec;
use crate::paths::sample_dir;
use crate::paths::sample_dir_spec;
use crate::paths::sample_stem;
use crate::paths::sample_stem_spec;
use crate::paths::stem_in_path;
use crate::paths::stem_in_path_spec;
use crate::paths::stem_out_path;
use crate::paths::stem_out_path_spec;
use crate::paths::workspace_name;
use crate::paths::workspace_name_spec;
use crate::present::HighlightMode;
use crate::text::strip_bom;
use crate::text::strip_bom_spec;
use crate::text::outputs_match;
use crate::text::trimmed;

verus! {

/// What the `debug` workflow carries along: the contest identifier, the
/// problem label, the selected sample number (every sample in the
/// directory when absent), the platform's executable naming, and the
/// highlight mode the verdict is painted in.
pub struct DebugCtx {
    pub contest: String,
    pub problem: String,
    pub sample: Option<u64>,
    pub windows: bool,
    pub highlight: HighlightMode,
}

/// The mathematical value of a `DebugCtx`.
pub struct DebugCtxV {
    pub contest: Seq<char>,
    pub problem: Seq<char>,
    pub sample: Option<u64>,
    pub windows: bool,
    pub highlight: HighlightMode,
}

impl View for DebugCtx {
    type V = DebugCtxV;

    open spec fn view(&self) -> DebugCtxV {
        DebugCtxV {
            contest: self.contest@,
            problem: self.problem@,
            sample: self.sample,
            windows: self.windows,
            highlight: self.highlight,
        }
    }
}

/// Where the `debug` workflow stands; the per-sample loop carries the
/// current sample's stem and the stems still to visit.
pub enum DebugSt {
    Start { ctx: DebugCtx },
    AwaitWsCheck { ctx: DebugCtx },
    AwaitSampleDirCheck { ctx: DebugCtx },
    AwaitBuildDev { ctx: DebugCtx },
    AwaitBuildRelease { ctx: DebugCtx },
    AwaitList { ctx: DebugCtx },
    AwaitInput { ctx: DebugCtx, stem: String, rest: Vec<String> },
    AwaitDevRun { ctx: DebugCtx, stem: String, rest: Vec<String>, input: String },
    AwaitReleaseRun { ctx: DebugCtx, stem: String, rest: Vec<String>, input: String },
    AwaitExpected { ctx: DebugCtx, stem: String, rest: Vec<String>, release_out: String },
    Halted,
}

/// The mathematical value of a `DebugSt`.
pub enum DebugStV {
    Start { ctx: DebugCtxV },
    AwaitWsCheck { ctx: DebugCtxV },
    AwaitSampleDirCheck { ctx: DebugCtxV },
    AwaitBuildDev { ctx: DebugCtxV },
    AwaitBuildRelease { ctx: DebugCtxV },
    AwaitList { ctx: DebugCtxV },
    AwaitInput { ctx: DebugCtxV, stem: Seq<char>, rest: Seq<Seq<char>> },
    AwaitDevRun { ctx: DebugCtxV, stem: Seq<char>, rest: Seq<Seq<char>>, input: Seq<char> },
    AwaitReleaseRun { ctx: DebugCtxV, stem: Seq<char>, rest: Seq<Seq<char>>, input: Seq<char> },
    AwaitExpected {
        ctx: DebugCtxV,
        stem: Seq<char>,
        rest: Seq<Seq<char>>,
        release_out: Seq<char>,
    },
    Halted,
}

impl View for DebugSt {
    type V = DebugStV;

    open spec fn view(&self) -> DebugStV {
        match self {
            DebugSt::Start { ctx } => DebugStV::Start { ctx: ctx@ },
            DebugSt::AwaitWsCheck { ctx } => DebugStV::AwaitWsCheck { ctx: ctx@ },
            DebugSt::AwaitSampleDirCheck { ctx } => DebugStV::AwaitSampleDirCheck { ctx: ctx@ },
            DebugSt::AwaitBuildDev { ctx } => DebugStV::AwaitBuildDev { ctx: ctx@ },
            DebugSt::AwaitBuildRelease { ctx } => DebugStV::AwaitBuildRelease { ctx: ctx@ },
            DebugSt::AwaitList { ctx } => DebugStV::AwaitList { ctx: ctx@ },
            DebugSt::AwaitInput { ctx, stem, rest } => DebugStV::AwaitInput {
                ctx: ctx@,
                stem: stem@,
                rest: rest.deep_view(),
            },
            DebugSt::AwaitDevRun { ctx, stem, rest, input } => DebugStV::AwaitDevRun {
                ctx: ctx@,
                stem: stem@,
                rest: rest.deep_view(),
                input: input@,
            },
            DebugSt::AwaitReleaseRun { ctx, stem, rest, input } => DebugStV::AwaitReleaseRun {
                ctx: ctx@,
                stem: stem@,
                rest: rest.deep_view(),
                input: input@,
            },
            DebugSt::AwaitExpected { ctx, stem, rest, release_out } => DebugStV::AwaitExpected {
                ctx: ctx@,
                stem: stem@,
                rest: rest.deep_view(),
                release_out: release_out@,
            },
            DebugSt::Halted => DebugStV::Halted,
        }
    }
}

/// The workspace directory.
pub open spec fn debug_ws_v(ctx: DebugCtxV) -> Seq<char> {
    workspace_name_spec(ctx.contest)
}

/// The problem directory.
pub open spec fn debug_pd_v(ctx: DebugCtxV) -> Seq<char> {
    problem_dir_spec(Option::None, ctx.contest, ctx.problem)
}

/// The sample directory.
pub open spec fn debug_sd_v(ctx: DebugCtxV) -> Seq<char> {
    sample_dir_spec(debug_pd_v(ctx))
}

/// The executable the given profile produces.
pub open spec fn debug_exe_v(ctx: DebugCtxV, mode: BuildMode) -> Seq<char> {
    executable_path_spec(debug_pd_v(ctx), mode, ctx.problem, ctx.windows)
}

pub open spec fn debug_abort_v(kind: ErrorKind, message: Seq<char>) -> TransitionV<DebugStV> {
    TransitionV {
        next: DebugStV::Halted,
        output: Seq::<Seq<char>>::empty(),
        action: ActionV::Abort(KpErrorV { kind, message }),
    }
}

pub open spec fn debug_go_v(next: DebugStV, action: ActionV) -> TransitionV<DebugStV> {
    TransitionV { next, output: Seq::<Seq<char>>::empty(), action }
}

pub open spec fn debug_unexpected_v() -> TransitionV<DebugStV> {
    debug_abort_v(
        ErrorKind::Internal,
        "the debug workflow was driven with an unexpected event"@,
    )
}

/// The step that opens one sample's report: read its input file.
pub open spec fn debug_next_sample_v(
    ctx: DebugCtxV,
    stem: Seq<char>,
    rest: Seq<Seq<char>>,
    output: Seq<Seq<char>>,
) -> TransitionV<DebugStV> {
    TransitionV {
        next: DebugStV::AwaitInput { ctx, stem, rest },
        output,
        action: ActionV::ReadText(stem_in_path_spec(debug_sd_v(ctx), stem)),
    }
}

/// The report lines printed once a sample's expected output is read: the
/// expected text and the verdict of the trim-insensitive comparison.
pub open spec fn debug_report_tail_v(
    release_out: Seq<char>,
    expected: Seq<char>,
    highlight: HighlightMode,
) -> Seq<Seq<char>> {
    seq![
        "[expect]"@,
        expected,
        "[comparison result]"@,
        verdict_banner_v(trimmed(release_out) == trimmed(expected), highlight),
        ""@,
    ]
}

/// The transition relation of the `debug` workflow.
pub open spec fn debug_step_spec(s: DebugSt, ev: Event) -> TransitionV<DebugStV> {
    match s {
        DebugSt::Start { ctx } => match ev {
            Event::Begin => debug_go_v(
                DebugStV::AwaitWsCheck { ctx: ctx@ },
                ActionV::CheckPath(debug_ws_v(ctx@)),
            ),
            _ => debug_unexpected_v(),
        },
        DebugSt::AwaitWsCheck { ctx } => match ev {
            Event::PathChecked(exists) => if exists {
                debug_go_v(
                    DebugStV::AwaitSampleDirCheck { ctx: ctx@ },
                    ActionV::CheckPath(debug_sd_v(ctx@)),
                )
            } else {
                debug_abort_v(ErrorKind::Io, msg_missing_v(debug_ws_v(ctx@)))
            },
            _ => debug_unexpected_v(),
        },
        DebugSt::AwaitSampleDirCheck { ctx } => match ev {
            Event::PathChecked(exists) => if exists {
                debug_go_v(
                    DebugStV::AwaitBuildDev { ctx: ctx@ },
                    ActionV::Run(build_cmd_v(debug_pd_v(ctx@), BuildMode::Dev)),
                )
            } else {
                debug_abort_v(ErrorKind::Io, msg_missing_v(debug_sd_v(ctx@)))
            },
            _ => debug_unexpected_v(),
        },
        DebugSt::AwaitBuildDev { ctx } => match ev {
            Event::Ran(o) => match o {
                RunOutcome::SpawnFailed => debug_abort_v(
                    ErrorKind::Spawn,
                    msg_spawn_failed_v("cargo build"@),
                ),
                RunOutcome::Exited { ok, code } => if ok {
                    debug_go_v(
                        DebugStV::AwaitBuildRelease { ctx: ctx@ },
                        ActionV::Run(build_cmd_v(debug_pd_v(ctx@), BuildMode::Release)),
                    )
                } else {
                    debug_abort_v(ErrorKind::ExitStatus, msg_exit_failure_v("cargo build"@, code))
                },
            },
            _ => debug_unexpected_v(),
        },
        DebugSt::AwaitBuildRelease { ctx } => match ev {
            Event::Ran(o) => match o {
                RunOutcome::SpawnFailed => debug_abort_v(
                    ErrorKind::Spawn,
                    msg_spawn_failed_v("cargo build --release"@),
                ),
                RunOutcome::Exited { ok, code } => if !ok {
                    debug_abort_v(
                        ErrorKind::ExitStatus,
                        msg_exit_failure_v("cargo build --release"@, code),
                    )
                } else {
                    match ctx.sample {
                        Option::Some(n) => debug_next_sample_v(
                            ctx@,
                            sample_stem_spec(n as nat),
                            Seq::<Seq<char>>::empty(),
                            Seq::<Seq<char>>::empty(),
                        ),
                        Option::None => debug_go_v(
                            DebugStV::AwaitList { ctx: ctx@ },
                            ActionV::ListSamples(debug_sd_v(ctx@)),
                        ),
                    }
                },
            },
            _ => debug_unexpected_v(),
        },
        DebugSt::AwaitList { ctx } => match ev {
            Event::SamplesListed(stems) => if stems.deep_view().len() == 0 {
                debug_abort_v(ErrorKind::Io, msg_no_samples_v(debug_sd_v(ctx@)))
            } else {
                debug_next_sample_v(
                    ctx@,
                    stems.deep_view()[0],
                    stems.deep_view().subrange(1, stems.deep_view().len() as int),
                    Seq::<Seq<char>>::empty(),
                )
            },
            _ => debug_unexpected_v(),
        },
        DebugSt::AwaitInput { ctx, stem, rest } => match ev {
            Event::TextRead(o) => match o {
                ReadOutcome::Missing => debug_abort_v(
                    ErrorKind::Io,
                    msg_input_unreadable_v(stem_in_path_spec(debug_sd_v(ctx@), stem@)),
                ),
                ReadOutcome::Text(raw) => TransitionV {
                    next: DebugStV::AwaitDevRun {
                        ctx: ctx@,
                        stem: stem@,
                        rest: rest.deep_view(),
                        input: strip_bom_spec(raw@),
                    },
                    output: seq![
                        sample_header_v(stem@),
                        "[input]"@,
                        strip_bom_spec(raw@),
                        "[debug output]"@,
                    ],
                    action: ActionV::RunBinary {
                        path: debug_exe_v(ctx@, BuildMode::Dev),
                        input: strip_bom_spec(raw@),
                    },
                },
            },
            _ => debug_unexpected_v(),
        },
        DebugSt::AwaitDevRun { ctx, stem, rest, input } => match ev {
            Event::BinaryFinished { output, millis } => match output {
                Option::None => debug_abort_v(
                    ErrorKind::Spawn,
                    msg_binary_failed_v(debug_exe_v(ctx@, BuildMode::Dev)),
                ),
                Option::Some(out) => TransitionV {
                    next: DebugStV::AwaitReleaseRun {
                        ctx: ctx@,
                        stem: stem@,
                        rest: rest.deep_view(),
                        input: input@,
                    },
                    output: seq![out@, "[output]"@],
                    action: ActionV::RunBinary {
                        path: debug_exe_v(ctx@, BuildMode::Release),
                        input: input@,
                    },
                },
            },
            _ => debug_unexpected_v(),
        },
        DebugSt::AwaitReleaseRun { ctx, stem, rest, input } => match ev {
            Event::BinaryFinished { output, millis } => match output {
                Option::None => debug_abort_v(
                    ErrorKind::Spawn,
                    msg_binary_failed_v(debug_exe_v(ctx@, BuildMode::Release)),
                ),
                Option::Some(out) => TransitionV {
                    next: DebugStV::AwaitExpected {
                        ctx: ctx@,
                        stem: stem@,
                        rest: rest.deep_view(),
                        release_out: out@,
                    },
                    output: seq![out@, exec_time_line_v(millis)],
                    action: ActionV::ReadText(stem_out_path_spec(debug_sd_v(ctx@), stem@)),
                },
            },
            _ => debug_unexpected_v(),
        },
        DebugSt::AwaitExpected { ctx, stem, rest, release_out } => match ev {
            Event::TextRead(o) => match o {
                ReadOutcome::Missing => debug_abort_v(
                    ErrorKind::Io,
                    msg_expected_unreadable_v(stem_out_path_spec(debug_sd_v(ctx@), stem@)),
                ),
                ReadOutcome::Text(raw) => {
                    let report = debug_report_tail_v(
                        release_out@,
                        strip_bom_spec(raw@),
                        ctx.highlight,
                    );
                    if rest.deep_view().len() == 0 {
                        TransitionV {
                            next: DebugStV::Halted,
                            output: report,
                            action: ActionV::Finish,
                        }
                    } else {
                        debug_next_sample_v(
                            ctx@,
                            rest.deep_view()[0],
                            rest.deep_view().subrange(1, rest.deep_view().len() as int),
                            report,
                        )
                    }
                },
            },
            _ => debug_unexpected_v(),
        },
        DebugSt::Halted => debug_unexpected_v(),
    }
}

fn debug_abort(kind: ErrorKind, message: String) -> (t: Transition<DebugSt>)
    ensures
        t@ == debug_abort_v(kind, message@),
{
    Transition {
        next: DebugSt::Halted,
        output: no_lines(),
        action: Action::Abort(KpError::new(kind, message)),
    }
}

fn debug_unexpected() -> (t: Transition<DebugSt>)
    ensures
        t@ == debug_unexpected_v(),
{
    debug_abort(
        ErrorKind::Internal,
        String::from_str("the debug workflow was driven with an unexpected event"),
    )
}

fn debug_pd(ctx: &DebugCtx) -> (r: String)
    ensures
        r@ == debug_pd_v(ctx@),
{
    problem_dir(Option::None, ctx.contest.as_str(), ctx.problem.as_str())
}

fn debug_sd(ctx: &DebugCtx) -> (r: String)
    ensures
        r@ == debug_sd_v(ctx@),
{
    let pd = debug_pd(ctx);
    sample_dir(pd.as_str())
}

fn debug_exe(ctx: &DebugCtx, mode: BuildMode) -> (r: String)
    ensures
        r@ == debug_exe_v(ctx@, mode),
{
    let pd = debug_pd(ctx);
    executable_path(pd.as_str(), mode, ctx.problem.as_str(), ctx.windows)
}

/// Opens the report of the sample named `stem`: request its input file.
fn debug_next_sample(ctx: DebugCtx, stem: String, rest: Vec<String>, output: Vec<String>) -> (t:
    Transition<DebugSt>)
    ensures
        t@ == debug_next_sample_v(ctx@, stem@, rest.deep_view(), output.deep_view()),
{
    let sd = debug_sd(&ctx);
    let in_path = stem_in_path(sd.as_str(), stem.as_str());
    Transition {
        next: DebugSt::AwaitInput { ctx, stem, rest },
        output,
        action: Action::ReadText(in_path),
    }
}

/// One step of the `debug` workflow, exactly as `debug_step_spec` lays
/// down.
pub fn debug_step(s: DebugSt, ev: Event) -> (t: Transition<DebugSt>)
    ensures
        t@ == debug_step_spec(s, ev),
{
    match s {
        DebugSt::Start { ctx } => match ev {
            Event::Begin => {
                let ws = workspace_name(ctx.contest.as_str());
                Transition {
                    next: DebugSt::AwaitWsCheck { ctx },
                    output: no_lines(),
                    action: Action::CheckPath(ws),
                }
            },
            _ => debug_unexpected(),
        },
        DebugSt::AwaitWsCheck { ctx } => match ev {
            Event::PathChecked(exists) => if exists {
                let sd = debug_sd(&ctx);
                Transition {
                    next: DebugSt::AwaitSampleDirCheck { ctx },
                    output: no_lines(),
                    action: Action::CheckPath(sd),
                }
            } else {
                let ws = workspace_name(ctx.contest.as_str());
                debug_abort(ErrorKind::Io, msg_missing(ws.as_str()))
            },
            _ => debug_unexpected(),
        },
        DebugSt::AwaitSampleDirCheck { ctx } => match ev {
            Event::PathChecked(exists) => if exists {
                let pd = debug_pd(&ctx);
                Transition {
                    next: DebugSt::AwaitBuildDev { ctx },
                    output: no_lines(),
                    action: Action::Run(build_cmd(pd, BuildMode::Dev)),
                }
            } else {
                let sd = debug_sd(&ctx);
                debug_abort(ErrorKind::Io, msg_missing(sd.as_str()))
            },
            _ => debug_unexpected(),
        },
        DebugSt::AwaitBuildDev { ctx } => match ev {
            Event::Ran(o) => match o {
                RunOutcome::SpawnFailed => debug_abort(
                    ErrorKind::Spawn,
                    msg_spawn_failed("cargo build"),
                ),
                RunOutcome::Exited { ok, code } => if ok {
                    let pd = debug_pd(&ctx);
                    Transition {
                        next: DebugSt::AwaitBuildRelease { ctx },
                        output: no_lines(),
                        action: Action::Run(build_cmd(pd, BuildMode::Release)),
                    }
                } else {
                    debug_abort(ErrorKind::ExitStatus, msg_exit_failure("cargo build", code))
                },
            },
            _ => debug_unexpected(),
        },
        DebugSt::AwaitBuildRelease { ctx } => match ev {
            Event::Ran(o) => match o {
                RunOutcome::SpawnFailed => debug_abort(
                    ErrorKind::Spawn,
                    msg_spawn_failed("cargo build --release"),
                ),
                RunOutcome::Exited { ok, code } => if !ok {
                    debug_abort(
                        ErrorKind::ExitStatus,
                        msg_exit_failure("cargo build --release", code),
                    )
                } else {
                    match ctx.sample {
                        Option::Some(n) => {
                            let stem = sample_stem(n);
                            debug_next_sample(ctx, stem, no_lines(), no_lines())
                        },
                        Option::None => {
                            let sd = debug_sd(&ctx);
                            Transition {
                                next: DebugSt::AwaitList { ctx },
                                output: no_lines(),
                                action: Action::ListSamples(sd),
                            }
                        },
                    }
                },
            },
            _ => debug_unexpected(),
        },
        DebugSt::AwaitList { ctx } => match ev {
            Event::SamplesListed(stems) => if stems.len() == 0 {
                let sd = debug_sd(&ctx);
                debug_abort(ErrorKind::Io, msg_no_samples(sd.as_str()))
            } else {
                let mut stems = stems;
                let ghost all = stems.deep_view();
                let stem = stems.remove(0);
                proof {
                    assert(stems.deep_view() =~= all.subrange(1, all.len() as int));
                }
                debug_next_sample(ctx, stem, stems, no_lines())
            },
            _ => debug_unexpected(),
        },
        DebugSt::AwaitInput { ctx, stem, rest } => match ev {
            Event::TextRead(o) => match o {
                ReadOutcome::Missing => {
                    let sd = debug_sd(&ctx);
                    let in_path = stem_in_path(sd.as_str(), stem.as_str());
                    debug_abort(ErrorKind::Io, msg_input_unreadable(in_path.as_str()))
                },
                ReadOutcome::Text(raw) => {
                    let input = strip_bom(raw.as_str());
                    let header = sample_header(stem.as_str());
                    let exe = debug_exe(&ctx, BuildMode::Dev);
                    let output = string_vec4(
                        header,
                        String::from_str("[input]"),
                        input.clone(),
                        String::from_str("[debug output]"),
                    );
                    Transition {
                        next: DebugSt::AwaitDevRun { ctx, stem, rest, input: input.clone() },
                        output,
                        action: Action::RunBinary { path: exe, input },
                    }
                },
            },
            _ => debug_unexpected(),
        },
        DebugSt::AwaitDevRun { ctx, stem, rest, input } => match ev {
            Event::BinaryFinished { output, millis } => match output {
                Option::None => {
                    let exe = debug_exe(&ctx, BuildMode::Dev);
                    debug_abort(ErrorKind::Spawn, msg_binary_failed(exe.as_str()))
                },
                Option::Some(out) => {
                    let exe = debug_exe(&ctx, BuildMode::Release);
                    let lines = string_vec2(out, String::from_str("[output]"));
                    Transition {
                        next: DebugSt::AwaitReleaseRun { ctx, stem, rest, input: input.clone() },
                        output: lines,
                        action: Action::RunBinary { path: exe, input },
                    }
                },
            },
            _ => debug_unexpected(),
        },
        DebugSt::AwaitReleaseRun { ctx, stem, rest, input } => match ev {
            Event::BinaryFinished { output, millis } => match output {
                Option::None => {
                    let exe = debug_exe(&ctx, BuildMode::Release);
                    debug_abort(ErrorKind::Spawn, msg_binary_failed(exe.as_str()))
                },
                Option::Some(out) => {
                    let sd = debug_sd(&ctx);
                    let out_path = stem_out_path(sd.as_str(), stem.as_str());
                    let lines = string_vec2(out.clone(), exec_time_line(millis));
                    Transition {
                        next: DebugSt::AwaitExpected { ctx, stem, rest, release_out: out },
                        output: lines,
                        action: Action::ReadText(out_path),
                    }
                },
            },
            _ => debug_unexpected(),
        },
        DebugSt::AwaitExpected { ctx, stem, rest, release_out } => match ev {
            Event::TextRead(o) => match o {
                ReadOutcome::Missing => {
                    let sd = debug_sd(&ctx);
                    let out_path = stem_out_path(sd.as_str(), stem.as_str());
                    debug_abort(ErrorKind::Io, msg_expected_unreadable(out_path.as_str()))
                },
                ReadOutcome::Text(raw) => {
                    let expected = strip_bom(raw.as_str());
                    let matched = outputs_match(release_out.as_str(), expected.as_str());
                    let report = string_vec5(
                        String::from_str("[expect]"),
                        expected,
                        String::from_str("[comparison result]"),
                        verdict_banner(matched, ctx.highlight),
                        String::from_str(""),
                    );
                    if rest.len() == 0 {
                        Transition {
                            next: DebugSt::Halted,
                            output: report,
                            action: Action::Finish,
                        }
                    } else {
                        let mut rest = rest;
                        let ghost all = rest.deep_view();
                        let next_stem = rest.remove(0);
                        proof {
                            assert(rest.deep_view() =~= all.subrange(1, all.len() as int));
                        }
                        debug_next_sample(ctx, next_stem, rest, report)
                    }
                },
            },
            _ => debug_unexpected(),
        },
        DebugSt::Halted => debug_unexpected(),
    }
}

} // verus!
