//! The `new` workflow: scaffold a contest workspace, then synchronize the
//! workspace's build manifest (one `[[bin]]` entry per task, keyed by
//! name) and the editor settings file (the workspace's manifest linked
//! exactly once). Both edits are idempotent; the settings file is written
//! atomically, by a temporary file renamed into place.

use vstd::prelude::*;
use vstd::string::StringExecFns;
use crate::action::Action;
use crate::action::ActionV;
use crate::action::Event;
use crate::action::ReadOutcome;
use crate::action::RunOutcome;
use crate::action::Transition;
use crate::action::TransitionV;
use crate::commands::msg_cannot_open;
use crate::commands::msg_cannot_open_v;
use crate::commands::msg_dir_exists;
use crate::commands::msg_dir_exists_v;
use crate::commands::msg_exit_failure;
use crate::commands::msg_exit_failure_v;
use crate::commands::msg_spawn_failed;
use crate::commands::msg_spawn_failed_v;
use crate::commands::msg_write_failed;
use crate::commands::msg_write_failed_v;
use crate::commands::no_lines;
use crate::commands::one_line;
use crate::commands::scaffold_cmd;
use crate::commands::scaffold_cmd_v;
use crate::errors::ErrorKind;
use crate::errors::KpError;
use crate::errors::KpErrorV;
use crate::jsondoc::doc_with_linked;
use crate::jsondoc::json_of;
use crate::jsondoc::json_parse;
use crate::jsondoc::json_parseable;
use crate::jsondoc::linked_projects;
use crate::jsondoc::read_task_list;
use crate::jsondoc::rendered_json;
use crate::jsondoc::task_list;
use crate::jsondoc::task_list_readable;
use crate::manifest::TaskEntry;
use crate::manifest::TaskEntryV;
use crate::manifest::doc_bins_editable;
use crate::manifest::lowered_pairs;
use crate::manifest::rendered_toml;
use crate::manifest::sync_manifest_text;
use crate::manifest::synced_doc;
use crate::manifest::toml_of;
use crate::manifest::toml_parseable;
use crate::paths::joined;
use crate::paths::path_join;
use crate::paths::workspace_name;
use crate::paths::workspace_name_spec;
use crate::settings::linked_after;
use crate::settings::settings_base_of;
use crate::settings::settings_text_editable;
use crate::settings::update_settings_text;

verus! {

/// Where the `new` workflow stands.
pub enum NewSt {
    Start { contest: String },
    AwaitWsCheck { contest: String },
    AwaitScaffold { ws: String },
    AwaitTasksFile { ws: String },
    AwaitManifest { ws: String, tasks: Vec<TaskEntry> },
    AwaitManifestWrite { ws: String },
    AwaitSettings { ws: String },
    AwaitSettingsWrite,
    Halted,
}

/// The mathematical value of a `NewSt`.
pub enum NewStV {
    Start { contest: Seq<char> },
    AwaitWsCheck { contest: Seq<char> },
    AwaitScaffold { ws: Seq<char> },
    AwaitTasksFile { ws: Seq<char> },
    AwaitManifest { ws: Seq<char>, tasks: Seq<TaskEntryV> },
    AwaitManifestWrite { ws: Seq<char> },
    AwaitSettings { ws: Seq<char> },
    AwaitSettingsWrite,
    Halted,
}

impl View for NewSt {
    type V = NewStV;

    open spec fn view(&self) -> NewStV {
        match self {
            NewSt::Start { contest } => NewStV::Start { contest: contest@ },
            NewSt::AwaitWsCheck { contest } => NewStV::AwaitWsCheck { contest: contest@ },
            NewSt::AwaitScaffold { ws } => NewStV::AwaitScaffold { ws: ws@ },
            NewSt::AwaitTasksFile { ws } => NewStV::AwaitTasksFile { ws: ws@ },
            NewSt::AwaitManifest { ws, tasks } => NewStV::AwaitManifest {
                ws: ws@,
                tasks: tasks.deep_view(),
            },
            NewSt::AwaitManifestWrite { ws } => NewStV::AwaitManifestWrite { ws: ws@ },
            NewSt::AwaitSettings { ws } => NewStV::AwaitSettings { ws: ws@ },
            NewSt::AwaitSettingsWrite => NewStV::AwaitSettingsWrite,
            NewSt::Halted => NewStV::Halted,
        }
    }
}

/// The scaffolder's contest description inside the workspace.
pub open spec fn tasks_json_path_v(ws: Seq<char>) -> Seq<char> {
    joined(ws, "contest.acc.json"@)
}

/// The workspace's build manifest.
pub open spec fn manifest_path_v(ws: Seq<char>) -> Seq<char> {
    joined(ws, "Cargo.toml"@)
}

/// The editor settings file.
pub open spec fn settings_path_v() -> Seq<char> {
    ".vscode/settings.json"@
}

/// The linked-project entry recorded for the workspace.
pub open spec fn linked_entry_v(ws: Seq<char>) -> Seq<char> {
    "./"@ + ws + "/Cargo.toml"@
}

pub fn linked_entry(ws: &str) -> (r: String)
    ensures
        r@ == linked_entry_v(ws@),
{
    let mut r = String::from_str("./");
    r.append(ws);
    r.append("/Cargo.toml");
    r
}

pub open spec fn new_abort_v(kind: ErrorKind, message: Seq<char>) -> TransitionV<NewStV> {
    TransitionV {
        next: NewStV::Halted,
        output: Seq::<Seq<char>>::empty(),
        action: ActionV::Abort(KpErrorV { kind, message }),
    }
}

pub open spec fn new_go_v(next: NewStV, action: ActionV) -> TransitionV<NewStV> {
    TransitionV { next, output: Seq::<Seq<char>>::empty(), action }
}

pub open spec fn new_unexpected_v() -> TransitionV<NewStV> {
    new_abort_v(ErrorKind::Internal, "the new workflow was driven with an unexpected event"@)
}

/// What the step on the contest description yields: when the text parses
/// and carries a task list, the machine moves on to reading the build
/// manifest holding exactly those tasks; otherwise it aborts with a parse
/// error (the parser's own words when the text is not JSON, a fixed
/// message when the task list is missing).
pub open spec fn new_tasks_ok(ws: Seq<char>, text: Seq<char>, t: TransitionV<NewStV>) -> bool {
    if !json_parseable(text) {
        exists|rest: Seq<char>|
            t == new_abort_v(
                ErrorKind::ParseData,
                tasks_json_path_v(ws) + " is not valid JSON: "@ + rest,
            )
    } else if !task_list_readable(json_of(text)) {
        t == new_abort_v(
            ErrorKind::ParseData,
            "the contest description does not carry the expected task list"@,
        )
    } else {
        &&& t.action == ActionV::ReadText(manifest_path_v(ws))
        &&& t.output == Seq::<Seq<char>>::empty()
        &&& (t.next matches NewStV::AwaitManifest { ws: w, tasks } && w == ws
            && tasks.map_values(|tv: TaskEntryV| (tv.label, tv.submit)) == task_list(
            json_of(text),
        ))
    }
}

/// What the step on the build manifest yields: when the text parses and
/// its `bin` key is editable, exactly the synchronized document's
/// rendering is written back in place; otherwise the machine aborts with
/// a parse error.
pub open spec fn new_manifest_ok(
    ws: Seq<char>,
    tasks: Seq<TaskEntry>,
    text: Seq<char>,
    t: TransitionV<NewStV>,
) -> bool {
    if !toml_parseable(text) {
        exists|rest: Seq<char>|
            t == new_abort_v(
                ErrorKind::ParseData,
                "the build manifest is not valid TOML: "@ + rest,
            )
    } else if !doc_bins_editable(toml_of(text)) {
        t == new_abort_v(
            ErrorKind::ParseData,
            "`bin` in the build manifest must be an array of tables"@,
        )
    } else {
        t == (TransitionV {
            next: NewStV::AwaitManifestWrite { ws },
            output: Seq::<Seq<char>>::empty(),
            action: ActionV::WriteText {
                path: manifest_path_v(ws),
                content: rendered_toml(synced_doc(toml_of(text), lowered_pairs(tasks))),
            },
        })
    }
}

/// What the step on the settings file yields: when the previous text (an
/// absent file reads as an empty document) is an editable settings
/// document, either the entry is already linked and the workflow finishes
/// without rewriting the file, or exactly the updated document's
/// rendering is written atomically; otherwise the machine aborts with a
/// parse error.
pub open spec fn new_settings_ok(ws: Seq<char>, prev: Option<String>, t: TransitionV<NewStV>) -> bool {
    let pv = match prev {
        Option::Some(p) => Option::Some(p@),
        Option::None => Option::None,
    };
    if !settings_text_editable(pv) {
        if pv matches Option::Some(p) && json_parseable(p) {
            t == new_abort_v(
                ErrorKind::ParseData,
                "the settings file must be a JSON object whose linked-project list is an array of strings"@,
            )
        } else {
            exists|rest: Seq<char>|
                t == new_abort_v(
                    ErrorKind::ParseData,
                    "the settings file is not valid JSON: "@ + rest,
                )
        }
    } else {
        let base = settings_base_of(pv);
        let entry = linked_entry_v(ws);
        if linked_projects(base).contains(entry) {
            t == (TransitionV {
                next: NewStV::Halted,
                output: seq!["Entry already present; nothing to do."@],
                action: ActionV::Finish,
            })
        } else {
            t == (TransitionV {
                next: NewStV::AwaitSettingsWrite,
                output: Seq::<Seq<char>>::empty(),
                action: ActionV::WriteTextAtomic {
                    path: settings_path_v(),
                    content: rendered_json(
                        doc_with_linked(base, linked_after(linked_projects(base), entry)),
                    ),
                },
            })
        }
    }
}

/// What each step of the `new` workflow must yield: deterministic but for
/// the steps whose outcome turns on parsing persisted data.
pub open spec fn new_step_ok(s: NewSt, ev: Event, t: TransitionV<NewStV>) -> bool {
    match s {
        NewSt::Start { contest } => match ev {
            Event::Begin => t == new_go_v(
                NewStV::AwaitWsCheck { contest: contest@ },
                ActionV::CheckPath(workspace_name_spec(contest@)),
            ),
            _ => t == new_unexpected_v(),
        },
        NewSt::AwaitWsCheck { contest } => match ev {
            Event::PathChecked(exists_already) => if exists_already {
                t == new_abort_v(
                    ErrorKind::Io,
                    msg_dir_exists_v(workspace_name_spec(contest@)),
                )
            } else {
                t == new_go_v(
                    NewStV::AwaitScaffold { ws: workspace_name_spec(contest@) },
                    ActionV::Run(scaffold_cmd_v(workspace_name_spec(contest@))),
                )
            },
            _ => t == new_unexpected_v(),
        },
        NewSt::AwaitScaffold { ws } => match ev {
            Event::Ran(o) => match o {
                RunOutcome::SpawnFailed => t == new_abort_v(
                    ErrorKind::Spawn,
                    msg_spawn_failed_v("npx atcoder-cli new "@ + ws@),
                ),
                RunOutcome::Exited { ok, code } => if ok {
                    t == new_go_v(
                        NewStV::AwaitTasksFile { ws: ws@ },
                        ActionV::ReadText(tasks_json_path_v(ws@)),
                    )
                } else {
                    t == new_abort_v(
                        ErrorKind::ExitStatus,
                        msg_exit_failure_v("npx atcoder-cli new "@ + ws@, code),
                    )
                },
            },
            _ => t == new_unexpected_v(),
        },
        NewSt::AwaitTasksFile { ws } => match ev {
            Event::TextRead(o) => match o {
                ReadOutcome::Missing => t == new_abort_v(
                    ErrorKind::Io,
                    msg_cannot_open_v(tasks_json_path_v(ws@)),
                ),
                ReadOutcome::Text(text) => new_tasks_ok(ws@, text@, t),
            },
            _ => t == new_unexpected_v(),
        },
        NewSt::AwaitManifest { ws, tasks } => match ev {
            Event::TextRead(o) => match o {
                ReadOutcome::Missing => t == new_abort_v(
                    ErrorKind::Io,
                    msg_cannot_open_v(manifest_path_v(ws@)),
                ),
                ReadOutcome::Text(text) => new_manifest_ok(ws@, tasks@, text@, t),
            },
            _ => t == new_unexpected_v(),
        },
        NewSt::AwaitManifestWrite { ws } => match ev {
            Event::Written(done) => if done {
                t == new_go_v(
                    NewStV::AwaitSettings { ws: ws@ },
                    ActionV::ReadTextOptional(settings_path_v()),
                )
            } else {
                t == new_abort_v(ErrorKind::Io, msg_write_failed_v(manifest_path_v(ws@)))
            },
            _ => t == new_unexpected_v(),
        },
        NewSt::AwaitSettings { ws } => match ev {
            Event::OptionalRead(prev) => new_settings_ok(ws@, prev, t),
            _ => t == new_unexpected_v(),
        },
        NewSt::AwaitSettingsWrite => match ev {
            Event::Written(done) => if done {
                t == (TransitionV {
                    next: NewStV::Halted,
                    output: seq!["Added new linked project successfully."@],
                    action: ActionV::Finish,
                })
            } else {
                t == new_abort_v(ErrorKind::Io, msg_write_failed_v(settings_path_v()))
            },
            _ => t == new_unexpected_v(),
        },
        NewSt::Halted => t == new_unexpected_v(),
    }
}

fn new_abort(kind: ErrorKind, message: String) -> (t: Transition<NewSt>)
    ensures
        t@ == new_abort_v(kind, message@),
{
    Transition {
        next: NewSt::Halted,
        output: no_lines(),
        action: Action::Abort(KpError::new(kind, message)),
    }
}

fn new_unexpected() -> (t: Transition<NewSt>)
    ensures
        t@ == new_unexpected_v(),
{
    new_abort(
        ErrorKind::Internal,
        String::from_str("the new workflow was driven with an unexpected event"),
    )
}

/// One step of the `new` workflow, within what `new_step_ok` lays down.
pub fn new_step(s: NewSt, ev: Event) -> (t: Transition<NewSt>)
    ensures
        new_step_ok(s, ev, t@),
{
    match s {
        NewSt::Start { contest } => match ev {
            Event::Begin => {
                let ws = workspace_name(contest.as_str());
                Transition {
                    next: NewSt::AwaitWsCheck { contest },
                    output: no_lines(),
                    action: Action::CheckPath(ws),
                }
            },
            _ => new_unexpected(),
        },
        NewSt::AwaitWsCheck { contest } => match ev {
            Event::PathChecked(exists_already) => {
                let ws = workspace_name(contest.as_str());
                if exists_already {
                    new_abort(ErrorKind::Io, msg_dir_exists(ws.as_str()))
                } else {
                    let cmd = scaffold_cmd(ws.clone());
                    Transition {
                        next: NewSt::AwaitScaffold { ws },
                        output: no_lines(),
                        action: Action::Run(cmd),
                    }
                }
            },
            _ => new_unexpected(),
        },
        NewSt::AwaitScaffold { ws } => match ev {
            Event::Ran(o) => match o {
                RunOutcome::SpawnFailed => {
                    let mut desc = String::from_str("npx atcoder-cli new ");
                    desc.append(ws.as_str());
                    new_abort(ErrorKind::Spawn, msg_spawn_failed(desc.as_str()))
                },
                RunOutcome::Exited { ok, code } => if ok {
                    let json_path = path_join(ws.as_str(), "contest.acc.json");
                    Transition {
                        next: NewSt::AwaitTasksFile { ws },
                        output: no_lines(),
                        action: Action::ReadText(json_path),
                    }
                } else {
                    let mut desc = String::from_str("npx atcoder-cli new ");
                    desc.append(ws.as_str());
                    new_abort(ErrorKind::ExitStatus, msg_exit_failure(desc.as_str(), code))
                },
            },
            _ => new_unexpected(),
        },
        NewSt::AwaitTasksFile { ws } => match ev {
            Event::TextRead(o) => match o {
                ReadOutcome::Missing => {
                    let json_path = path_join(ws.as_str(), "contest.acc.json");
                    new_abort(ErrorKind::Io, msg_cannot_open(json_path.as_str()))
                },
                ReadOutcome::Text(text) => {
                    let ghost wsv = ws@;
                    let ghost textv = text@;
                    let parsed = match json_parse(text.as_str()) {
                        Err(e) => {
                            let reason = e.to_string();
                            let ghost rest = reason@;
                            let mut message = path_join(ws.as_str(), "contest.acc.json");
                            message.append(" is not valid JSON: ");
                            message.append(reason.as_str());
                            proof {
                                assert(message@ == tasks_json_path_v(wsv) + " is not valid JSON: "@
                                    + rest);
                            }
                            let t = new_abort(ErrorKind::ParseData, message);
                            proof {
                                assert(new_tasks_ok(wsv, textv, t@));
                            }
                            return t;
                        },
                        Ok(v) => v,
                    };
                    let tasks = match read_task_list(&parsed) {
                        None => {
                            let t = new_abort(
                                ErrorKind::ParseData,
                                String::from_str(
                                    "the contest description does not carry the expected task list",
                                ),
                            );
                            proof {
                                assert(new_tasks_ok(wsv, textv, t@));
                            }
                            return t;
                        },
                        Some(tasks) => tasks,
                    };
                    let manifest_path = path_join(ws.as_str(), "Cargo.toml");
                    let t = Transition {
                        next: NewSt::AwaitManifest { ws, tasks },
                        output: no_lines(),
                        action: Action::ReadText(manifest_path),
                    };
                    proof {
                        let mapped = t@.next->AwaitManifest_tasks.map_values(
                            |tv: TaskEntryV| (tv.label, tv.submit),
                        );
                        assert forall|i: int|
                            0 <= i < mapped.len() implies mapped[i] == task_list(json_of(textv))[i] by {
                            assert(mapped[i] == (t@.next->AwaitManifest_tasks[i].label,
                                t@.next->AwaitManifest_tasks[i].submit));
                        }
                        assert(mapped =~= task_list(json_of(textv)));
                        assert(new_tasks_ok(wsv, textv, t@));
                    }
                    t
                },
            },
            _ => new_unexpected(),
        },
        NewSt::AwaitManifest { ws, tasks } => match ev {
            Event::TextRead(o) => match o {
                ReadOutcome::Missing => {
                    let manifest_path = path_join(ws.as_str(), "Cargo.toml");
                    new_abort(ErrorKind::Io, msg_cannot_open(manifest_path.as_str()))
                },
                ReadOutcome::Text(text) => {
                    let ghost wsv = ws@;
                    let ghost textv = text@;
                    let ghost tasksv = tasks@;
                    match sync_manifest_text(text.as_str(), &tasks) {
                        Err(e) => {
                            let ghost ev_ = e@;
                            let t = Transition {
                                next: NewSt::Halted,
                                output: no_lines(),
                                action: Action::Abort(e),
                            };
                            proof {
                                assert(t@ == new_abort_v(ErrorKind::ParseData, ev_.message));
                                assert(new_manifest_ok(wsv, tasksv, textv, t@));
                            }
                            t
                        },
                        Ok(sync) => {
                            let manifest_path = path_join(ws.as_str(), "Cargo.toml");
                            let t = Transition {
                                next: NewSt::AwaitManifestWrite { ws },
                                output: no_lines(),
                                action: Action::WriteText {
                                    path: manifest_path,
                                    content: sync.content,
                                },
                            };
                            proof {
                                assert(new_manifest_ok(wsv, tasksv, textv, t@));
                            }
                            t
                        },
                    }
                },
            },
            _ => new_unexpected(),
        },
        NewSt::AwaitManifestWrite { ws } => match ev {
            Event::Written(done) => if done {
                Transition {
                    next: NewSt::AwaitSettings { ws },
                    output: no_lines(),
                    action: Action::ReadTextOptional(String::from_str(".vscode/settings.json")),
                }
            } else {
                let manifest_path = path_join(ws.as_str(), "Cargo.toml");
                new_abort(ErrorKind::Io, msg_write_failed(manifest_path.as_str()))
            },
            _ => new_unexpected(),
        },
        NewSt::AwaitSettings { ws } => match ev {
            Event::OptionalRead(prev) => {
                let ghost wsv = ws@;
                let entry = linked_entry(ws.as_str());
                let prev_text = match &prev {
                    Option::Some(text) => Option::Some(text.as_str()),
                    Option::None => Option::None,
                };
                proof {
                    assert(crate::settings::opt_text_view(prev_text) == (match prev {
                        Option::Some(p) => Option::Some(p@),
                        Option::None => Option::<Seq<char>>::None,
                    }));
                }
                match update_settings_text(prev_text, &entry) {
                    Err(e) => {
                        let ghost ev_ = e@;
                        let t = Transition {
                            next: NewSt::Halted,
                            output: no_lines(),
                            action: Action::Abort(e),
                        };
                        proof {
                            assert(t@ == new_abort_v(ev_.kind, ev_.message));
                            assert(new_settings_ok(wsv, prev, t@));
                        }
                        t
                    },
                    Ok(update) => match update.content {
                        Option::Some(content) => {
                            let t = Transition {
                                next: NewSt::AwaitSettingsWrite,
                                output: no_lines(),
                                action: Action::WriteTextAtomic {
                                    path: String::from_str(".vscode/settings.json"),
                                    content,
                                },
                            };
                            proof {
                                assert(new_settings_ok(wsv, prev, t@));
                            }
                            t
                        },
                        Option::None => {
                            let t = Transition {
                                next: NewSt::Halted,
                                output: one_line(
                                    String::from_str("Entry already present; nothing to do."),
                                ),
                                action: Action::Finish,
                            };
                            proof {
                                assert(new_settings_ok(wsv, prev, t@));
                            }
                            t
                        },
                    },
                }
            },
            _ => new_unexpected(),
        },
        NewSt::AwaitSettingsWrite => match ev {
            Event::Written(done) => if done {
                Transition {
                    next: NewSt::Halted,
                    output: one_line(String::from_str("Added new linked project successfully.")),
                    action: Action::Finish,
                }
            } else {
                new_abort(
                    ErrorKind::Io,
                    msg_write_failed(".vscode/settings.json"),
                )
            },
            _ => new_unexpected(),
        },
        NewSt::Halted => new_unexpected(),
    }
}

} // verus!
