//! The `test` and `submit` workflows: rebuild the problem in both
//! profiles, hand the release executable and the sample directory to the
//! test runner, and — for `submit` only, and only when the runner
//! succeeded — invoke the submission tool. A failing test step can never
//! be followed by the submission step.

use vstd::prelude::*;
use crate::BuildMode;
use crate::action::Action;
use crate::action::ActionV;
use crate::action::Event;
use crate::action::RunOutcome;
use crate::action::Transition;
use crate::action::TransitionV;
use crate::commands::build_cmd;
use crate::commands::build_cmd_v;
use crate::commands::msg_exit_failure;
use crate::commands::msg_exit_failure_v;
use crate::commands::msg_missing;
use crate::commands::msg_missing_v;
use crate::commands::msg_spawn_failed;
use crate::commands::msg_spawn_failed_v;
use crate::commands::no_lines;
use crate::commands::oj_test_cmd;
use crate::commands::oj_test_cmd_v;
use crate::commands::one_line;
use crate::commands::submit_cmd;
use crate::commands::submit_cmd_v;
use crate::errors::ErrorKind;
use crate::errors::KpError;
use crate::errors::KpErrorV;
use crate::paths::executable_path;
use crate::paths::executable_path_spec;
use crate::paths::joined;
use crate::paths::path_join;
use crate::paths::problem_dir;
use crate::paths::problem_dir_spec;
use crate::paths::workspace_name;
use crate::paths::workspace_name_spec;
use vstd::string::StringExecFns;

verus! {

/// What the `test` and `submit` workflows carry along: the contest
/// identifier, the problem label, whether a successful test run is to be
/// followed by a submission, and whether executables carry the Windows
/// suffix.
pub struct TestCtx {
    pub contest: String,
    pub problem: String,
    pub submit: bool,
    pub windows: bool,
}

/// The mathematical value of a `TestCtx`.
pub struct TestCtxV {
    pub contest: Seq<char>,
    pub problem: Seq<char>,
    pub submit: bool,
    pub windows: bool,
}

impl View for TestCtx {
    type V = TestCtxV;

    open spec fn view(&self) -> TestCtxV {
        TestCtxV {
            contest: self.contest@,
            problem: self.problem@,
            submit: self.submit,
            windows: self.windows,
        }
    }
}

/// Where the `test`/`submit` workflow stands.
pub enum TestSt {
    Start { ctx: TestCtx },
    AwaitWsCheck { ctx: TestCtx },
    AwaitBuildDev { ctx: TestCtx },
    AwaitBuildRelease { ctx: TestCtx },
    AwaitRunner { ctx: TestCtx },
    AwaitSubmit { ctx: TestCtx },
    Halted,
}

/// The mathematical value of a `TestSt`.
pub enum TestStV {
    Start { ctx: TestCtxV },
    AwaitWsCheck { ctx: TestCtxV },
    AwaitBuildDev { ctx: TestCtxV },
    AwaitBuildRelease { ctx: TestCtxV },
    AwaitRunner { ctx: TestCtxV },
    AwaitSubmit { ctx: TestCtxV },
    Halted,
}

impl View for TestSt {
    type V = TestStV;

    open spec fn view(&self) -> TestStV {
        match self {
            TestSt::Start { ctx } => TestStV::Start { ctx: ctx@ },
            TestSt::AwaitWsCheck { ctx } => TestStV::AwaitWsCheck { ctx: ctx@ },
            TestSt::AwaitBuildDev { ctx } => TestStV::AwaitBuildDev { ctx: ctx@ },
            TestSt::AwaitBuildRelease { ctx } => TestStV::AwaitBuildRelease { ctx: ctx@ },
            TestSt::AwaitRunner { ctx } => TestStV::AwaitRunner { ctx: ctx@ },
            TestSt::AwaitSubmit { ctx } => TestStV::AwaitSubmit { ctx: ctx@ },
            TestSt::Halted => TestStV::Halted,
        }
    }
}

/// The workspace directory the workflow works under.
pub open spec fn test_ws_v(ctx: TestCtxV) -> Seq<char> {
    workspace_name_spec(ctx.contest)
}

/// The problem directory under the workspace.
pub open spec fn test_pd_v(ctx: TestCtxV) -> Seq<char> {
    problem_dir_spec(Option::None, ctx.contest, ctx.problem)
}

pub open spec fn test_abort_v(kind: ErrorKind, message: Seq<char>) -> TransitionV<TestStV> {
    TransitionV {
        next: TestStV::Halted,
        output: Seq::<Seq<char>>::empty(),
        action: ActionV::Abort(KpErrorV { kind, message }),
    }
}

pub open spec fn test_go_v(next: TestStV, action: ActionV) -> TransitionV<TestStV> {
    TransitionV { next, output: Seq::<Seq<char>>::empty(), action }
}

pub open spec fn test_unexpected_v() -> TransitionV<TestStV> {
    test_abort_v(
        ErrorKind::Internal,
        "the test workflow was driven with an unexpected event"@,
    )
}

/// One `Ran` outcome handled uniformly: spawn failures and non-zero exits
/// abort with the command's description, success takes the given step.
pub open spec fn test_ran_v(o: RunOutcome, desc: Seq<char>, onward: TransitionV<TestStV>) -> TransitionV<
    TestStV,
> {
    match o {
        RunOutcome::SpawnFailed => test_abort_v(ErrorKind::Spawn, msg_spawn_failed_v(desc)),
        RunOutcome::Exited { ok, code } => if ok {
            onward
        } else {
            test_abort_v(ErrorKind::ExitStatus, msg_exit_failure_v(desc, code))
        },
    }
}

/// The transition relation of the `test`/`submit` workflow.
pub open spec fn test_step_spec(s: TestSt, ev: Event) -> TransitionV<TestStV> {
    match s {
        TestSt::Start { ctx } => match ev {
            Event::Begin => test_go_v(
                TestStV::AwaitWsCheck { ctx: ctx@ },
                ActionV::CheckPath(test_ws_v(ctx@)),
            ),
            _ => test_unexpected_v(),
        },
        TestSt::AwaitWsCheck { ctx } => match ev {
            Event::PathChecked(exists) => if exists {
                test_go_v(
                    TestStV::AwaitBuildDev { ctx: ctx@ },
                    ActionV::Run(build_cmd_v(test_pd_v(ctx@), BuildMode::Dev)),
                )
            } else {
                test_abort_v(ErrorKind::Io, msg_missing_v(test_ws_v(ctx@)))
            },
            _ => test_unexpected_v(),
        },
        TestSt::AwaitBuildDev { ctx } => match ev {
            Event::Ran(o) => test_ran_v(
                o,
                "cargo build"@,
                test_go_v(
                    TestStV::AwaitBuildRelease { ctx: ctx@ },
                    ActionV::Run(build_cmd_v(test_pd_v(ctx@), BuildMode::Release)),
                ),
            ),
            _ => test_unexpected_v(),
        },
        TestSt::AwaitBuildRelease { ctx } => match ev {
            Event::Ran(o) => test_ran_v(
                o,
                "cargo build --release"@,
                TransitionV {
                    next: TestStV::AwaitRunner { ctx: ctx@ },
                    output: seq!["oj test"@],
                    action: ActionV::Run(
                        oj_test_cmd_v(
                            test_ws_v(ctx@),
                            executable_path_spec(
                                test_pd_v(ctx@),
                                BuildMode::Release,
                                ctx.problem@,
                                ctx.windows,
                            ),
                            joined(ctx.problem@, "tests"@),
                            ctx.windows,
                        ),
                    ),
                },
            ),
            _ => test_unexpected_v(),
        },
        TestSt::AwaitRunner { ctx } => match ev {
            Event::Ran(o) => test_ran_v(
                o,
                "oj test"@,
                if ctx.submit {
                    test_go_v(
                        TestStV::AwaitSubmit { ctx: ctx@ },
                        ActionV::Run(submit_cmd_v(test_pd_v(ctx@))),
                    )
                } else {
                    TransitionV {
                        next: TestStV::Halted,
                        output: Seq::<Seq<char>>::empty(),
                        action: ActionV::Finish,
                    }
                },
            ),
            _ => test_unexpected_v(),
        },
        TestSt::AwaitSubmit { ctx } => match ev {
            Event::Ran(o) => test_ran_v(
                o,
                "npx atcoder-cli submit"@,
                TransitionV {
                    next: TestStV::Halted,
                    output: Seq::<Seq<char>>::empty(),
                    action: ActionV::Finish,
                },
            ),
            _ => test_unexpected_v(),
        },
        TestSt::Halted => test_unexpected_v(),
    }
}

fn test_abort(kind: ErrorKind, message: String) -> (t: Transition<TestSt>)
    ensures
        t@ == test_abort_v(kind, message@),
{
    Transition {
        next: TestSt::Halted,
        output: no_lines(),
        action: Action::Abort(KpError::new(kind, message)),
    }
}

fn test_unexpected() -> (t: Transition<TestSt>)
    ensures
        t@ == test_unexpected_v(),
{
    test_abort(
        ErrorKind::Internal,
        String::from_str("the test workflow was driven with an unexpected event"),
    )
}

fn test_finish() -> (t: Transition<TestSt>)
    ensures
        t@ == (TransitionV {
            next: TestStV::Halted,
            output: Seq::<Seq<char>>::empty(),
            action: ActionV::Finish,
        }),
{
    Transition { next: TestSt::Halted, output: no_lines(), action: Action::Finish }
}

/// One step of the `test`/`submit` workflow, exactly as `test_step_spec`
/// lays down.
pub fn test_step(s: TestSt, ev: Event) -> (t: Transition<TestSt>)
    ensures
        t@ == test_step_spec(s, ev),
{
    match s {
        TestSt::Start { ctx } => match ev {
            Event::Begin => {
                let ws = workspace_name(ctx.contest.as_str());
                Transition {
                    next: TestSt::AwaitWsCheck { ctx },
                    output: no_lines(),
                    action: Action::CheckPath(ws),
                }
            },
            _ => test_unexpected(),
        },
        TestSt::AwaitWsCheck { ctx } => match ev {
            Event::PathChecked(exists) => if exists {
                let pd = problem_dir(Option::None, ctx.contest.as_str(), ctx.problem.as_str());
                Transition {
                    next: TestSt::AwaitBuildDev { ctx },
                    output: no_lines(),
                    action: Action::Run(build_cmd(pd, BuildMode::Dev)),
                }
            } else {
                let ws = workspace_name(ctx.contest.as_str());
                test_abort(ErrorKind::Io, msg_missing(ws.as_str()))
            },
            _ => test_unexpected(),
        },
        TestSt::AwaitBuildDev { ctx } => match ev {
            Event::Ran(o) => match o {
                RunOutcome::SpawnFailed => test_abort(
                    ErrorKind::Spawn,
                    msg_spawn_failed("cargo build"),
                ),
                RunOutcome::Exited { ok, code } => if ok {
                    let pd = problem_dir(Option::None, ctx.contest.as_str(), ctx.problem.as_str());
                    Transition {
                        next: TestSt::AwaitBuildRelease { ctx },
                        output: no_lines(),
                        action: Action::Run(build_cmd(pd, BuildMode::Release)),
                    }
                } else {
                    test_abort(ErrorKind::ExitStatus, msg_exit_failure("cargo build", code))
                },
            },
            _ => test_unexpected(),
        },
        TestSt::AwaitBuildRelease { ctx } => match ev {
            Event::Ran(o) => match o {
                RunOutcome::SpawnFailed => test_abort(
                    ErrorKind::Spawn,
                    msg_spawn_failed("cargo build --release"),
                ),
                RunOutcome::Exited { ok, code } => if ok {
                    let ws = workspace_name(ctx.contest.as_str());
                    let pd = problem_dir(Option::None, ctx.contest.as_str(), ctx.problem.as_str());
                    let exe = executable_path(
                        pd.as_str(),
                        BuildMode::Release,
                        ctx.problem.as_str(),
                        ctx.windows,
                    );
                    let data_dir = path_join(ctx.problem.as_str(), "tests");
                    let windows = ctx.windows;
                    Transition {
                        next: TestSt::AwaitRunner { ctx },
                        output: one_line(String::from_str("oj test")),
                        action: Action::Run(oj_test_cmd(ws, exe.as_str(), data_dir, windows)),
                    }
                } else {
                    test_abort(
                        ErrorKind::ExitStatus,
                        msg_exit_failure("cargo build --release", code),
                    )
                },
            },
            _ => test_unexpected(),
        },
        TestSt::AwaitRunner { ctx } => match ev {
            Event::Ran(o) => match o {
                RunOutcome::SpawnFailed => test_abort(ErrorKind::Spawn, msg_spawn_failed("oj test")),
                RunOutcome::Exited { ok, code } => if ok {
                    if ctx.submit {
                        let pd = problem_dir(
                            Option::None,
                            ctx.contest.as_str(),
                            ctx.problem.as_str(),
                        );
                        Transition {
                            next: TestSt::AwaitSubmit { ctx },
                            output: no_lines(),
                            action: Action::Run(submit_cmd(pd)),
                        }
                    } else {
                        test_finish()
                    }
                } else {
                    test_abort(ErrorKind::ExitStatus, msg_exit_failure("oj test", code))
                },
            },
            _ => test_unexpected(),
        },
        TestSt::AwaitSubmit { ctx } => match ev {
            Event::Ran(o) => match o {
                RunOutcome::SpawnFailed => test_abort(
                    ErrorKind::Spawn,
                    msg_spawn_failed("npx atcoder-cli submit"),
                ),
                RunOutcome::Exited { ok, code } => if ok {
                    test_finish()
                } else {
                    test_abort(
                        ErrorKind::ExitStatus,
                        msg_exit_failure("npx atcoder-cli submit", code),
                    )
                },
            },
            _ => test_unexpected(),
        },
        TestSt::Halted => test_unexpected(),
    }
}

/// Whether an action invokes the submission tool.
pub open spec fn is_submission(a: ActionV) -> bool {
    a matches ActionV::Run(c) && c.args == seq!["submit"@]
}

/// The submission step is reached only from the state that awaits the
/// test runner's outcome, only when the workflow was asked to submit, and
/// only on an event that reports the test step succeeded: a failing test
/// step can never lead to a submission.
pub proof fn lemma_no_submission_without_passing_tests(s: TestSt, ev: Event)
    ensures
        is_submission(test_step_spec(s, ev).action) ==> (s matches TestSt::AwaitRunner { ctx }
            && ctx.submit && ev matches Event::Ran(RunOutcome::Exited { ok: true, .. })),
{
    reveal_strlit("build");
    reveal_strlit("submit");
    assert("build"@.len() == 5 && "submit"@.len() == 6);
    assert(seq!["build"@] != seq!["submit"@]) by {
        if seq!["build"@] == seq!["submit"@] {
            assert(seq!["build"@][0] == seq!["submit"@][0]);
        }
    }
    let t = test_step_spec(s, ev);
    match s {
        TestSt::Start { ctx } => {
            assert(!is_submission(t.action));
        },
        TestSt::AwaitWsCheck { ctx } => {
            assert(!is_submission(t.action));
        },
        TestSt::AwaitBuildDev { ctx } => {
            assert(!is_submission(t.action));
        },
        TestSt::AwaitBuildRelease { ctx } => {
            match ev {
                Event::Ran(o) => match o {
                    RunOutcome::Exited { ok, code } => {
                        if ok {
                            let c = oj_test_cmd_v(
                                test_ws_v(ctx@),
                                executable_path_spec(
                                    test_pd_v(ctx@),
                                    BuildMode::Release,
                                    ctx.problem@,
                                    ctx.windows,
                                ),
                                joined(ctx.problem@, "tests"@),
                                ctx.windows,
                            );
                            assert(c.args.len() == 5);
                            assert(seq!["submit"@].len() == 1);
                            assert(!is_submission(t.action));
                        } else {
                            assert(!is_submission(t.action));
                        }
                    },
                    RunOutcome::SpawnFailed => {
                        assert(!is_submission(t.action));
                    },
                },
                _ => {
                    assert(!is_submission(t.action));
                },
            }
        },
        TestSt::AwaitRunner { ctx } => {
        },
        TestSt::AwaitSubmit { ctx } => {
            assert(!is_submission(t.action));
        },
        TestSt::Halted => {
            assert(!is_submission(t.action));
        },
    }
}

} // verus!
