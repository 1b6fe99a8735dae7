//! The `init` workflow: resolve the scaffolding tool's configuration
//! directory (the captured line scrubbed of surrounding whitespace and of
//! every line break), bring the solution template repository up to date
//! (pull or clone), and point three of the tool's configuration options
//! at it. Every sub-step's failure is fatal.
//!
//! The machine decides; its driver performs each requested action and
//! reports the outcome. One step is one decision.

use vstd::prelude::*;
use vstd::string::StringExecFns;
use crate::action::Action;
use crate::action::ActionV;
use crate::action::CaptureOutcome;
use crate::action::Event;
use crate::action::RunOutcome;
use crate::action::Transition;
use crate::action::TransitionV;
use crate::commands::config_dir_cmd;
use crate::commands::config_dir_cmd_v;
use crate::commands::git_clone_cmd;
use crate::commands::git_clone_cmd_v;
use crate::commands::git_pull_cmd;
use crate::commands::git_pull_cmd_v;
use crate::commands::msg_exit_failure;
use crate::commands::msg_exit_failure_v;
use crate::commands::msg_not_text;
use crate::commands::msg_not_text_v;
use crate::commands::msg_spawn_failed;
use crate::commands::msg_spawn_failed_v;
use crate::commands::no_lines;
use crate::commands::query_template_cmd;
use crate::commands::query_template_cmd_v;
use crate::commands::set_dir_format_cmd;
use crate::commands::set_dir_format_cmd_v;
use crate::commands::set_task_choice_cmd;
use crate::commands::set_task_choice_cmd_v;
use crate::commands::set_template_cmd;
use crate::commands::set_template_cmd_v;
use crate::errors::ErrorKind;
use crate::errors::KpError;
use crate::errors::KpErrorV;
use crate::paths::joined;
use crate::paths::path_join;
use crate::text::scrub_line;
use crate::text::scrubbed_line;
use crate::text::trim_str;
use crate::text::trimmed;

verus! {

/// Where the `init` workflow stands: each state waits for the outcome of
/// the one action it has requested.
pub enum InitSt {
    Start,
    AwaitConfigDir,
    AwaitRepoCheck { config_dir: String },
    AwaitSync { pulled: bool },
    AwaitTemplateName,
    AwaitTemplateSet,
    AwaitDirFormat,
    AwaitTaskChoice,
    Halted,
}

/// The mathematical value of an `InitSt`.
pub enum InitStV {
    Start,
    AwaitConfigDir,
    AwaitRepoCheck { config_dir: Seq<char> },
    AwaitSync { pulled: bool },
    AwaitTemplateName,
    AwaitTemplateSet,
    AwaitDirFormat,
    AwaitTaskChoice,
    Halted,
}

impl View for InitSt {
    type V = InitStV;

    open spec fn view(&self) -> InitStV {
        match self {
            InitSt::Start => InitStV::Start,
            InitSt::AwaitConfigDir => InitStV::AwaitConfigDir,
            InitSt::AwaitRepoCheck { config_dir } => InitStV::AwaitRepoCheck {
                config_dir: config_dir@,
            },
            InitSt::AwaitSync { pulled } => InitStV::AwaitSync { pulled: *pulled },
            InitSt::AwaitTemplateName => InitStV::AwaitTemplateName,
            InitSt::AwaitTemplateSet => InitStV::AwaitTemplateSet,
            InitSt::AwaitDirFormat => InitStV::AwaitDirFormat,
            InitSt::AwaitTaskChoice => InitStV::AwaitTaskChoice,
            InitSt::Halted => InitStV::Halted,
        }
    }
}

/// A failing step: halt with an error and no output.
pub open spec fn init_abort_v(kind: ErrorKind, message: Seq<char>) -> TransitionV<InitStV> {
    TransitionV {
        next: InitStV::Halted,
        output: Seq::<Seq<char>>::empty(),
        action: ActionV::Abort(KpErrorV { kind, message }),
    }
}

/// A silent step to the next state.
pub open spec fn init_go_v(next: InitStV, action: ActionV) -> TransitionV<InitStV> {
    TransitionV { next, output: Seq::<Seq<char>>::empty(), action }
}

/// The step every state takes on an event it cannot answer.
pub open spec fn init_unexpected_v() -> TransitionV<InitStV> {
    init_abort_v(ErrorKind::Internal, "the init workflow was driven with an unexpected event"@)
}

/// The transition relation of the `init` workflow, one state and one
/// event at a time; every sub-step's failure is fatal.
pub open spec fn init_step_spec(s: InitSt, ev: Event) -> TransitionV<InitStV> {
    match s {
        InitSt::Start => match ev {
            Event::Begin => init_go_v(
                InitStV::AwaitConfigDir,
                ActionV::RunCapture(config_dir_cmd_v()),
            ),
            _ => init_unexpected_v(),
        },
        InitSt::AwaitConfigDir => match ev {
            Event::Captured(o) => match o {
                CaptureOutcome::SpawnFailed => init_abort_v(
                    ErrorKind::Spawn,
                    msg_spawn_failed_v("npx atcoder-cli config-dir"@),
                ),
                CaptureOutcome::NotText => init_abort_v(
                    ErrorKind::Encoding,
                    msg_not_text_v("npx atcoder-cli config-dir"@),
                ),
                CaptureOutcome::Exited { ok, code, stdout } => if ok {
                    init_go_v(
                        InitStV::AwaitRepoCheck { config_dir: scrubbed_line(stdout@) },
                        ActionV::CheckPath(joined(scrubbed_line(stdout@), "kp-rust"@)),
                    )
                } else {
                    init_abort_v(
                        ErrorKind::ExitStatus,
                        msg_exit_failure_v("npx atcoder-cli config-dir"@, code),
                    )
                },
            },
            _ => init_unexpected_v(),
        },
        InitSt::AwaitRepoCheck { config_dir } => match ev {
            Event::PathChecked(exists) => if exists {
                init_go_v(
                    InitStV::AwaitSync { pulled: true },
                    ActionV::Run(git_pull_cmd_v(joined(config_dir@, "kp-rust"@))),
                )
            } else {
                init_go_v(
                    InitStV::AwaitSync { pulled: false },
                    ActionV::Run(git_clone_cmd_v(config_dir@)),
                )
            },
            _ => init_unexpected_v(),
        },
        InitSt::AwaitSync { pulled } => match ev {
            Event::Ran(o) => match o {
                RunOutcome::SpawnFailed => init_abort_v(
                    ErrorKind::Spawn,
                    msg_spawn_failed_v(
                        if pulled {
                            "git pull"@
                        } else {
                            "git clone"@
                        },
                    ),
                ),
                RunOutcome::Exited { ok, code } => if ok {
                    init_go_v(
                        InitStV::AwaitTemplateName,
                        ActionV::RunCapture(query_template_cmd_v()),
                    )
                } else {
                    init_abort_v(
                        ErrorKind::ExitStatus,
                        msg_exit_failure_v(
                            if pulled {
                                "git pull"@
                            } else {
                                "git clone"@
                            },
                            code,
                        ),
                    )
                },
            },
            _ => init_unexpected_v(),
        },
        InitSt::AwaitTemplateName => match ev {
            Event::Captured(o) => match o {
                CaptureOutcome::SpawnFailed => init_abort_v(
                    ErrorKind::Spawn,
                    msg_spawn_failed_v("npx atcoder-cli config default-template"@),
                ),
                CaptureOutcome::NotText => init_abort_v(
                    ErrorKind::Encoding,
                    msg_not_text_v("npx atcoder-cli config default-template"@),
                ),
                CaptureOutcome::Exited { ok, code, stdout } => if !ok {
                    init_abort_v(
                        ErrorKind::ExitStatus,
                        msg_exit_failure_v("npx atcoder-cli config default-template"@, code),
                    )
                } else if trimmed(stdout@) == "kp-rust"@ {
                    init_go_v(InitStV::AwaitDirFormat, ActionV::Run(set_dir_format_cmd_v()))
                } else {
                    init_go_v(InitStV::AwaitTemplateSet, ActionV::Run(set_template_cmd_v()))
                },
            },
            _ => init_unexpected_v(),
        },
        InitSt::AwaitTemplateSet => match ev {
            Event::Ran(o) => match o {
                RunOutcome::SpawnFailed => init_abort_v(
                    ErrorKind::Spawn,
                    msg_spawn_failed_v("npx atcoder-cli config default-template kp-rust"@),
                ),
                RunOutcome::Exited { ok, code } => if ok {
                    init_go_v(InitStV::AwaitDirFormat, ActionV::Run(set_dir_format_cmd_v()))
                } else {
                    init_abort_v(
                        ErrorKind::ExitStatus,
                        msg_exit_failure_v(
                            "npx atcoder-cli config default-template kp-rust"@,
                            code,
                        ),
                    )
                },
            },
            _ => init_unexpected_v(),
        },
        InitSt::AwaitDirFormat => match ev {
            Event::Ran(o) => match o {
                RunOutcome::SpawnFailed => init_abort_v(
                    ErrorKind::Spawn,
                    msg_spawn_failed_v("npx atcoder-cli config default-task-dirname-format ./"@),
                ),
                RunOutcome::Exited { ok, code } => if ok {
                    init_go_v(InitStV::AwaitTaskChoice, ActionV::Run(set_task_choice_cmd_v()))
                } else {
                    init_abort_v(
                        ErrorKind::ExitStatus,
                        msg_exit_failure_v(
                            "npx atcoder-cli config default-task-dirname-format ./"@,
                            code,
                        ),
                    )
                },
            },
            _ => init_unexpected_v(),
        },
        InitSt::AwaitTaskChoice => match ev {
            Event::Ran(o) => match o {
                RunOutcome::SpawnFailed => init_abort_v(
                    ErrorKind::Spawn,
                    msg_spawn_failed_v("npx atcoder-cli config default-task-choice all"@),
                ),
                RunOutcome::Exited { ok, code } => if ok {
                    TransitionV {
                        next: InitStV::Halted,
                        output: Seq::<Seq<char>>::empty(),
                        action: ActionV::Finish,
                    }
                } else {
                    init_abort_v(
                        ErrorKind::ExitStatus,
                        msg_exit_failure_v("npx atcoder-cli config default-task-choice all"@, code),
                    )
                },
            },
            _ => init_unexpected_v(),
        },
        InitSt::Halted => init_unexpected_v(),
    }
}

fn init_abort(kind: ErrorKind, message: String) -> (t: Transition<InitSt>)
    ensures
        t@ == init_abort_v(kind, message@),
{
    Transition {
        next: InitSt::Halted,
        output: no_lines(),
        action: Action::Abort(KpError::new(kind, message)),
    }
}

fn init_unexpected() -> (t: Transition<InitSt>)
    ensures
        t@ == init_unexpected_v(),
{
    init_abort(
        ErrorKind::Internal,
        String::from_str("the init workflow was driven with an unexpected event"),
    )
}

fn init_go(next: InitSt, action: Action) -> (t: Transition<InitSt>)
    ensures
        t@ == init_go_v(next@, action@),
{
    Transition { next, output: no_lines(), action }
}

/// One step of the `init` workflow: from the state and the latest event
/// to the next state and action, exactly as `init_step_spec` lays down.
pub fn init_template(s: InitSt, ev: Event) -> (t: Transition<InitSt>)
    ensures
        t@ == init_step_spec(s, ev),
{
    match s {
        InitSt::Start => match ev {
            Event::Begin => init_go(
                InitSt::AwaitConfigDir,
                Action::RunCapture(config_dir_cmd()),
            ),
            _ => init_unexpected(),
        },
        InitSt::AwaitConfigDir => match ev {
            Event::Captured(o) => match o {
                CaptureOutcome::SpawnFailed => init_abort(
                    ErrorKind::Spawn,
                    msg_spawn_failed("npx atcoder-cli config-dir"),
                ),
                CaptureOutcome::NotText => init_abort(
                    ErrorKind::Encoding,
                    msg_not_text("npx atcoder-cli config-dir"),
                ),
                CaptureOutcome::Exited { ok, code, stdout } => if ok {
                    let config_dir: String = scrub_line(stdout.as_str());
                    let repo = path_join(config_dir.as_str(), "kp-rust");
                    init_go(
                        InitSt::AwaitRepoCheck { config_dir },
                        Action::CheckPath(repo),
                    )
                } else {
                    init_abort(
                        ErrorKind::ExitStatus,
                        msg_exit_failure("npx atcoder-cli config-dir", code),
                    )
                },
            },
            _ => init_unexpected(),
        },
        InitSt::AwaitRepoCheck { config_dir } => match ev {
            Event::PathChecked(exists) => if exists {
                let repo = path_join(config_dir.as_str(), "kp-rust");
                init_go(InitSt::AwaitSync { pulled: true }, Action::Run(git_pull_cmd(repo)))
            } else {
                init_go(
                    InitSt::AwaitSync { pulled: false },
                    Action::Run(git_clone_cmd(config_dir)),
                )
            },
            _ => init_unexpected(),
        },
        InitSt::AwaitSync { pulled } => match ev {
            Event::Ran(o) => {
                let desc: &'static str = if pulled {
                    "git pull"
                } else {
                    "git clone"
                };
                match o {
                    RunOutcome::SpawnFailed => init_abort(ErrorKind::Spawn, msg_spawn_failed(desc)),
                    RunOutcome::Exited { ok, code } => if ok {
                        init_go(
                            InitSt::AwaitTemplateName,
                            Action::RunCapture(query_template_cmd()),
                        )
                    } else {
                        init_abort(ErrorKind::ExitStatus, msg_exit_failure(desc, code))
                    },
                }
            },
            _ => init_unexpected(),
        },
        InitSt::AwaitTemplateName => match ev {
            Event::Captured(o) => match o {
                CaptureOutcome::SpawnFailed => init_abort(
                    ErrorKind::Spawn,
                    msg_spawn_failed("npx atcoder-cli config default-template"),
                ),
                CaptureOutcome::NotText => init_abort(
                    ErrorKind::Encoding,
                    msg_not_text("npx atcoder-cli config default-template"),
                ),
                CaptureOutcome::Exited { ok, code, stdout } => if !ok {
                    init_abort(
                        ErrorKind::ExitStatus,
                        msg_exit_failure("npx atcoder-cli config default-template", code),
                    )
                } else {
                    let current: String = trim_str(stdout.as_str()).to_owned();
                    if current == String::from_str("kp-rust") {
                        init_go(InitSt::AwaitDirFormat, Action::Run(set_dir_format_cmd()))
                    } else {
                        init_go(InitSt::AwaitTemplateSet, Action::Run(set_template_cmd()))
                    }
                },
            },
            _ => init_unexpected(),
        },
        InitSt::AwaitTemplateSet => match ev {
            Event::Ran(o) => match o {
                RunOutcome::SpawnFailed => init_abort(
                    ErrorKind::Spawn,
                    msg_spawn_failed("npx atcoder-cli config default-template kp-rust"),
                ),
                RunOutcome::Exited { ok, code } => if ok {
                    init_go(InitSt::AwaitDirFormat, Action::Run(set_dir_format_cmd()))
                } else {
                    init_abort(
                        ErrorKind::ExitStatus,
                        msg_exit_failure("npx atcoder-cli config default-template kp-rust", code),
                    )
                },
            },
            _ => init_unexpected(),
        },
        InitSt::AwaitDirFormat => match ev {
            Event::Ran(o) => match o {
                RunOutcome::SpawnFailed => init_abort(
                    ErrorKind::Spawn,
                    msg_spawn_failed("npx atcoder-cli config default-task-dirname-format ./"),
                ),
                RunOutcome::Exited { ok, code } => if ok {
                    init_go(InitSt::AwaitTaskChoice, Action::Run(set_task_choice_cmd()))
                } else {
                    init_abort(
                        ErrorKind::ExitStatus,
                        msg_exit_failure(
                            "npx atcoder-cli config default-task-dirname-format ./",
                            code,
                        ),
                    )
                },
            },
            _ => init_unexpected(),
        },
        InitSt::AwaitTaskChoice => match ev {
            Event::Ran(o) => match o {
                RunOutcome::SpawnFailed => init_abort(
                    ErrorKind::Spawn,
                    msg_spawn_failed("npx atcoder-cli config default-task-choice all"),
                ),
                RunOutcome::Exited { ok, code } => if ok {
                    Transition { next: InitSt::Halted, output: no_lines(), action: Action::Finish }
                } else {
                    init_abort(
                        ErrorKind::ExitStatus,
                        msg_exit_failure("npx atcoder-cli config default-task-choice all", code),
                    )
                },
            },
            _ => init_unexpected(),
        },
        InitSt::Halted => init_unexpected(),
    }
}

} // verus!
