use kp::action::Action;
use kp::action::CaptureOutcome;
use kp::action::Event;
use kp::action::ReadOutcome;
use kp::action::RunOutcome;
use kp::action::Transition;
use kp::debug_flow::DebugCtx;
use kp::debug_flow::DebugSt;
use kp::debug_flow::debug_step;
use kp::errors::ErrorKind;
use kp::init_flow::InitSt;
use kp::init_flow::init_template;
use kp::new_flow::NewSt;
use kp::new_flow::new_step;
use kp::present::HighlightMode;
use kp::test_flow::TestSt;
use kp::test_flow::test_step;
use kp::workflow::RunConfig;
use kp::workflow::St;
use kp::workflow::Verb;
use kp::workflow::run;

fn ran_ok() -> Event {
    Event::Ran(RunOutcome::Exited { ok: true, code: Some(0) })
}

fn expect_run(t: &Transition<impl Sized>) -> (&str, Vec<&str>, Option<&str>) {
    match &t.action {
        Action::Run(c) => (
            c.program.as_str(),
            c.args.iter().map(|a| a.as_str()).collect(),
            c.cwd.as_deref(),
        ),
        _ => panic!("expected a Run action"),
    }
}

fn expect_abort(t: &Transition<impl Sized>) -> (ErrorKind, &str) {
    match &t.action {
        Action::Abort(e) => (e.kind, e.message.as_str()),
        _ => panic!("expected an Abort action"),
    }
}

#[test]
fn run_dispatches_each_verb_to_its_machine() {
    let config = RunConfig { windows: false, highlight: HighlightMode::Plain };
    assert!(matches!(run(Verb::Init, config), St::Init(InitSt::Start)));
    let config = RunConfig { windows: false, highlight: HighlightMode::Plain };
    match run(Verb::New { contest: "300".to_string() }, config) {
        St::New(NewSt::Start { contest }) => assert_eq!(contest, "300"),
        _ => panic!("expected the new machine"),
    }
    let config = RunConfig { windows: true, highlight: HighlightMode::TrueColor };
    match run(
        Verb::Submit { contest: "300".to_string(), problem: "a".to_string() },
        config,
    ) {
        St::Test(TestSt::Start { ctx }) => {
            assert!(ctx.submit);
            assert!(ctx.windows);
        },
        _ => panic!("expected the test machine"),
    }
}

#[test]
fn init_flow_pulls_when_the_template_is_checked_out() {
    let t = init_template(InitSt::Start, Event::Begin);
    match &t.action {
        Action::RunCapture(c) => {
            assert_eq!(c.program, "npx atcoder-cli");
            assert_eq!(c.args, vec!["config-dir".to_string()]);
        },
        _ => panic!("expected a captured command"),
    }
    // The captured directory is trimmed of its trailing newline.
    let t = init_template(
        t.next,
        Event::Captured(CaptureOutcome::Exited {
            ok: true,
            code: Some(0),
            stdout: "/cfg/dir\n".to_string(),
        }),
    );
    match &t.action {
        Action::CheckPath(p) => assert_eq!(p, "/cfg/dir/kp-rust"),
        _ => panic!("expected a path check"),
    }
    let t = init_template(t.next, Event::PathChecked(true));
    let (program, args, cwd) = expect_run(&t);
    assert_eq!(program, "git");
    assert_eq!(args, vec!["pull"]);
    assert_eq!(cwd, Some("/cfg/dir/kp-rust"));
    // The template is already the default: the setting step is skipped.
    let t = init_template(t.next, ran_ok());
    assert!(matches!(&t.action, Action::RunCapture(_)));
    let t = init_template(
        t.next,
        Event::Captured(CaptureOutcome::Exited {
            ok: true,
            code: Some(0),
            stdout: "kp-rust\n".to_string(),
        }),
    );
    let (_, args, _) = expect_run(&t);
    assert_eq!(args, vec!["config", "default-task-dirname-format", "./"]);
    let t = init_template(t.next, ran_ok());
    let (_, args, _) = expect_run(&t);
    assert_eq!(args, vec!["config", "default-task-choice", "all"]);
    let t = init_template(t.next, ran_ok());
    assert!(matches!(t.action, Action::Finish));
}

#[test]
fn init_flow_clones_and_sets_the_template_otherwise() {
    let t = init_template(InitSt::Start, Event::Begin);
    let t = init_template(
        t.next,
        Event::Captured(CaptureOutcome::Exited {
            ok: true,
            code: Some(0),
            stdout: "/cfg\n".to_string(),
        }),
    );
    let t = init_template(t.next, Event::PathChecked(false));
    let (program, args, cwd) = expect_run(&t);
    assert_eq!(program, "git");
    assert_eq!(args, vec!["clone", "https://github.com/wogikaze/kp-rust"]);
    assert_eq!(cwd, Some("/cfg"));
    let t = init_template(t.next, ran_ok());
    let t = init_template(
        t.next,
        Event::Captured(CaptureOutcome::Exited {
            ok: true,
            code: Some(0),
            stdout: "other\n".to_string(),
        }),
    );
    let (_, args, _) = expect_run(&t);
    assert_eq!(args, vec!["config", "default-template", "kp-rust"]);
}

#[test]
fn init_flow_scrubs_line_breaks_from_the_config_dir() {
    let t = init_template(InitSt::Start, Event::Begin);
    let t = init_template(
        t.next,
        Event::Captured(CaptureOutcome::Exited {
            ok: true,
            code: Some(0),
            stdout: "  /cfg\r\n/dir\n".to_string(),
        }),
    );
    match &t.action {
        Action::CheckPath(p) => assert_eq!(p, "/cfg/dir/kp-rust"),
        _ => panic!("expected a path check"),
    }
}

#[test]
fn init_flow_treats_a_failing_configuration_step_as_fatal() {
    let t = init_template(InitSt::Start, Event::Begin);
    let t = init_template(
        t.next,
        Event::Captured(CaptureOutcome::Exited {
            ok: true,
            code: Some(0),
            stdout: "/cfg\n".to_string(),
        }),
    );
    let t = init_template(t.next, Event::PathChecked(true));
    let t = init_template(t.next, ran_ok());
    let t = init_template(
        t.next,
        Event::Captured(CaptureOutcome::Exited {
            ok: true,
            code: Some(0),
            stdout: "kp-rust\n".to_string(),
        }),
    );
    // The dirname-format step exits non-zero: the workflow aborts.
    let t = init_template(t.next, Event::Ran(RunOutcome::Exited { ok: false, code: Some(2) }));
    let (kind, message) = expect_abort(&t);
    assert_eq!(kind, ErrorKind::ExitStatus);
    assert_eq!(
        message,
        "`npx atcoder-cli config default-task-dirname-format ./` failed with status 2"
    );
}

#[test]
fn init_flow_reports_output_that_is_not_text() {
    let t = init_template(InitSt::Start, Event::Begin);
    let t = init_template(t.next, Event::Captured(CaptureOutcome::NotText));
    let (kind, message) = expect_abort(&t);
    assert_eq!(kind, ErrorKind::Encoding);
    assert_eq!(
        message,
        "`npx atcoder-cli config-dir` produced output that is not UTF-8 text"
    );
}

#[test]
fn init_flow_rejects_an_event_it_did_not_ask_for() {
    let t = init_template(InitSt::Halted, Event::Begin);
    let (kind, _) = expect_abort(&t);
    assert_eq!(kind, ErrorKind::Internal);
}

#[test]
fn init_flow_reports_a_spawn_failure() {
    let t = init_template(InitSt::Start, Event::Begin);
    let t = init_template(t.next, Event::Captured(CaptureOutcome::SpawnFailed));
    let (kind, message) = expect_abort(&t);
    assert_eq!(kind, ErrorKind::Spawn);
    assert_eq!(message, "failed to start `npx atcoder-cli config-dir`");
}

fn test_start(submit: bool) -> TestSt {
    let config = RunConfig { windows: false, highlight: HighlightMode::Plain };
    match run(
        if submit {
            Verb::Submit { contest: "300".to_string(), problem: "a".to_string() }
        } else {
            Verb::Test { contest: "300".to_string(), problem: "a".to_string() }
        },
        config,
    ) {
        St::Test(s) => s,
        _ => panic!("expected the test machine"),
    }
}

#[test]
fn test_flow_builds_then_runs_the_sample_runner() {
    let t = test_step(test_start(false), Event::Begin);
    match &t.action {
        Action::CheckPath(p) => assert_eq!(p, "abc300"),
        _ => panic!("expected a path check"),
    }
    let t = test_step(t.next, Event::PathChecked(true));
    let (program, args, cwd) = expect_run(&t);
    assert_eq!((program, args, cwd), ("cargo", vec!["build"], Some("abc300/a")));
    let t = test_step(t.next, ran_ok());
    let (program, args, _) = expect_run(&t);
    assert_eq!((program, args), ("cargo", vec!["build", "--release"]));
    let t = test_step(t.next, ran_ok());
    assert_eq!(t.output, vec!["oj test".to_string()]);
    let (program, args, cwd) = expect_run(&t);
    assert_eq!(program, "oj");
    assert_eq!(cwd, Some("abc300"));
    assert_eq!(
        args,
        vec!["test", "-c", "abc300/a/target/release/a", "-d", "a/tests"]
    );
    let t = test_step(t.next, ran_ok());
    assert!(matches!(t.action, Action::Finish));
}

#[test]
fn test_flow_rejects_a_missing_workspace() {
    let t = test_step(test_start(false), Event::Begin);
    let t = test_step(t.next, Event::PathChecked(false));
    let (kind, message) = expect_abort(&t);
    assert_eq!(kind, ErrorKind::Io);
    assert_eq!(message, "abc300 does not exist");
}

#[test]
fn submit_flow_submits_only_after_passing_tests() {
    let t = test_step(test_start(true), Event::Begin);
    let t = test_step(t.next, Event::PathChecked(true));
    let t = test_step(t.next, ran_ok());
    let t = test_step(t.next, ran_ok());
    // The runner succeeded: the submission step follows.
    let t = test_step(t.next, ran_ok());
    let (program, args, cwd) = expect_run(&t);
    assert_eq!((program, args, cwd), ("npx atcoder-cli", vec!["submit"], Some("abc300/a")));
    let t = test_step(t.next, ran_ok());
    assert!(matches!(t.action, Action::Finish));
}

#[test]
fn submit_flow_never_submits_after_failing_tests() {
    let t = test_step(test_start(true), Event::Begin);
    let t = test_step(t.next, Event::PathChecked(true));
    let t = test_step(t.next, ran_ok());
    let t = test_step(t.next, ran_ok());
    // The runner failed: no submit command is constructed.
    let t = test_step(t.next, Event::Ran(RunOutcome::Exited { ok: false, code: Some(1) }));
    let (kind, message) = expect_abort(&t);
    assert_eq!(kind, ErrorKind::ExitStatus);
    assert_eq!(message, "`oj test` failed with status 1");
}

fn debug_start(sample: Option<u64>) -> DebugSt {
    DebugSt::Start {
        ctx: DebugCtx {
            contest: "300".to_string(),
            problem: "a".to_string(),
            sample,
            windows: false,
            highlight: HighlightMode::Plain,
        },
    }
}

fn debug_through_builds(sample: Option<u64>) -> Transition<DebugSt> {
    let t = debug_step(debug_start(sample), Event::Begin);
    let t = debug_step(t.next, Event::PathChecked(true));
    let t = debug_step(t.next, Event::PathChecked(true));
    let t = debug_step(t.next, ran_ok());
    debug_step(t.next, ran_ok())
}

#[test]
fn debug_flow_reports_a_matching_sample() {
    let t = debug_through_builds(None);
    match &t.action {
        Action::ListSamples(dir) => assert_eq!(dir, "abc300/a/tests"),
        _ => panic!("expected a sample listing"),
    }
    let t = debug_step(t.next, Event::SamplesListed(vec!["sample-1".to_string()]));
    match &t.action {
        Action::ReadText(p) => assert_eq!(p, "abc300/a/tests/sample-1.in"),
        _ => panic!("expected an input read"),
    }
    let t = debug_step(t.next, Event::TextRead(ReadOutcome::Text("3\n".to_string())));
    assert_eq!(
        t.output,
        vec![
            "==================== [sample-1] ====================".to_string(),
            "[input]".to_string(),
            "3\n".to_string(),
            "[debug output]".to_string(),
        ]
    );
    match &t.action {
        Action::RunBinary { path, input } => {
            assert_eq!(path, "abc300/a/target/debug/a");
            assert_eq!(input, "3\n");
        },
        _ => panic!("expected the debug binary"),
    }
    let t = debug_step(
        t.next,
        Event::BinaryFinished { output: Some("9".to_string()), millis: 1 },
    );
    assert_eq!(t.output, vec!["9".to_string(), "[output]".to_string()]);
    match &t.action {
        Action::RunBinary { path, input } => {
            assert_eq!(path, "abc300/a/target/release/a");
            assert_eq!(input, "3\n");
        },
        _ => panic!("expected the release binary"),
    }
    let t = debug_step(
        t.next,
        Event::BinaryFinished { output: Some("9".to_string()), millis: 12 },
    );
    assert_eq!(t.output, vec!["9".to_string(), "Execution Time: 12ms".to_string()]);
    match &t.action {
        Action::ReadText(p) => assert_eq!(p, "abc300/a/tests/sample-1.out"),
        _ => panic!("expected the expected-output read"),
    }
    let t = debug_step(t.next, Event::TextRead(ReadOutcome::Text("9\n".to_string())));
    assert_eq!(
        t.output,
        vec![
            "[expect]".to_string(),
            "9\n".to_string(),
            "[comparison result]".to_string(),
            "[OK] Output matches expected output.".to_string(),
            "".to_string(),
        ]
    );
    assert!(matches!(t.action, Action::Finish));
}

#[test]
fn debug_flow_reports_a_mismatch_without_failing() {
    let t = debug_through_builds(None);
    let t = debug_step(
        t.next,
        Event::SamplesListed(vec!["sample-1".to_string(), "sample-2".to_string()]),
    );
    let t = debug_step(t.next, Event::TextRead(ReadOutcome::Text("3\n".to_string())));
    let t = debug_step(
        t.next,
        Event::BinaryFinished { output: Some("8".to_string()), millis: 1 },
    );
    let t = debug_step(
        t.next,
        Event::BinaryFinished { output: Some("8".to_string()), millis: 2 },
    );
    let t = debug_step(t.next, Event::TextRead(ReadOutcome::Text("9\n".to_string())));
    assert_eq!(t.output[3], "[NG] Output does not match expected output.");
    // The mismatch is informational: the loop walks on to the next sample.
    match &t.action {
        Action::ReadText(p) => assert_eq!(p, "abc300/a/tests/sample-2.in"),
        _ => panic!("expected the next sample's input read"),
    }
}

#[test]
fn debug_flow_rejects_an_empty_sample_directory() {
    let t = debug_through_builds(None);
    let t = debug_step(t.next, Event::SamplesListed(Vec::new()));
    let (kind, message) = expect_abort(&t);
    assert_eq!(kind, ErrorKind::Io);
    assert_eq!(message, "No sample input files found in abc300/a/tests");
}

#[test]
fn debug_flow_names_the_missing_sample_file() {
    // Sample number 5 is requested but has no input file: the error names
    // the exact missing path, and the driver exits with status 1.
    let t = debug_through_builds(Some(5));
    match &t.action {
        Action::ReadText(p) => assert_eq!(p, "abc300/a/tests/sample-5.in"),
        _ => panic!("expected the selected sample's input read"),
    }
    let t = debug_step(t.next, Event::TextRead(ReadOutcome::Missing));
    let (kind, message) = expect_abort(&t);
    assert_eq!(kind, ErrorKind::Io);
    assert_eq!(
        message,
        "Failed to read sample input file 'abc300/a/tests/sample-5.in'"
    );
}

#[test]
fn new_flow_scaffolds_and_synchronizes() {
    let t = new_step(NewSt::Start { contest: "300".to_string() }, Event::Begin);
    match &t.action {
        Action::CheckPath(p) => assert_eq!(p, "abc300"),
        _ => panic!("expected a path check"),
    }
    let t = new_step(t.next, Event::PathChecked(false));
    let (program, args, _) = expect_run(&t);
    assert_eq!((program, args), ("npx atcoder-cli", vec!["new", "abc300"]));
    let t = new_step(t.next, ran_ok());
    match &t.action {
        Action::ReadText(p) => assert_eq!(p, "abc300/contest.acc.json"),
        _ => panic!("expected the contest description read"),
    }
    let description = "{\"tasks\": [\
        {\"label\": \"A\", \"directory\": {\"submit\": \"a/main.rs\"}},\
        {\"label\": \"B\", \"directory\": {\"submit\": \"b/main.rs\"}}]}";
    let t = new_step(t.next, Event::TextRead(ReadOutcome::Text(description.to_string())));
    match &t.action {
        Action::ReadText(p) => assert_eq!(p, "abc300/Cargo.toml"),
        _ => panic!("expected the manifest read"),
    }
    let manifest = "[package]\nname = \"ws\"\n".to_string();
    let t = new_step(t.next, Event::TextRead(ReadOutcome::Text(manifest)));
    let written = match &t.action {
        Action::WriteText { path, content } => {
            assert_eq!(path, "abc300/Cargo.toml");
            content.clone()
        },
        _ => panic!("expected the manifest write"),
    };
    assert!(written.contains("[[bin]]"));
    assert!(written.contains("name = \"a\""));
    assert!(written.contains("path = \"b/main.rs\""));
    let t = new_step(t.next, Event::Written(true));
    match &t.action {
        Action::ReadTextOptional(p) => assert_eq!(p, ".vscode/settings.json"),
        _ => panic!("expected the settings read"),
    }
    let t = new_step(t.next, Event::OptionalRead(None));
    match &t.action {
        Action::WriteTextAtomic { path, content } => {
            assert_eq!(path, ".vscode/settings.json");
            assert!(content.contains("./abc300/Cargo.toml"));
        },
        _ => panic!("expected the atomic settings write"),
    }
    let t = new_step(t.next, Event::Written(true));
    assert_eq!(t.output, vec!["Added new linked project successfully.".to_string()]);
    assert!(matches!(t.action, Action::Finish));
}

#[test]
fn new_flow_treats_a_failing_scaffold_as_fatal() {
    let t = new_step(NewSt::Start { contest: "300".to_string() }, Event::Begin);
    let t = new_step(t.next, Event::PathChecked(false));
    let t = new_step(t.next, Event::Ran(RunOutcome::Exited { ok: false, code: Some(1) }));
    let (kind, message) = expect_abort(&t);
    assert_eq!(kind, ErrorKind::ExitStatus);
    assert_eq!(message, "`npx atcoder-cli new abc300` failed with status 1");
}

#[test]
fn new_flow_rejects_an_existing_workspace() {
    let t = new_step(NewSt::Start { contest: "300".to_string() }, Event::Begin);
    let t = new_step(t.next, Event::PathChecked(true));
    let (kind, message) = expect_abort(&t);
    assert_eq!(kind, ErrorKind::Io);
    assert_eq!(message, "Directory abc300 already exists");
}

#[test]
fn new_flow_skips_an_already_linked_workspace() {
    let t = new_step(NewSt::Start { contest: "300".to_string() }, Event::Begin);
    let t = new_step(t.next, Event::PathChecked(false));
    let t = new_step(t.next, ran_ok());
    let description = "{\"tasks\": [{\"label\": \"A\", \"directory\": {\"submit\": \"a/main.rs\"}}]}";
    let t = new_step(t.next, Event::TextRead(ReadOutcome::Text(description.to_string())));
    let t = new_step(t.next, Event::TextRead(ReadOutcome::Text("".to_string())));
    let t = new_step(t.next, Event::Written(true));
    let settings = "{\"rust-analyzer.linkedProjects\": [\"./abc300/Cargo.toml\"]}";
    let t = new_step(t.next, Event::OptionalRead(Some(settings.to_string())));
    assert_eq!(t.output, vec!["Entry already present; nothing to do.".to_string()]);
    assert!(matches!(t.action, Action::Finish));
}

#[test]
fn new_flow_rejects_a_malformed_contest_description() {
    let t = new_step(NewSt::Start { contest: "300".to_string() }, Event::Begin);
    let t = new_step(t.next, Event::PathChecked(false));
    let t = new_step(t.next, ran_ok());
    let t = new_step(t.next, Event::TextRead(ReadOutcome::Text("{}".to_string())));
    let (kind, message) = expect_abort(&t);
    assert_eq!(kind, ErrorKind::ParseData);
    assert_eq!(message, "the contest description does not carry the expected task list");
}

#[test]
fn new_flow_names_the_file_that_is_not_json() {
    let t = new_step(NewSt::Start { contest: "300".to_string() }, Event::Begin);
    let t = new_step(t.next, Event::PathChecked(false));
    let t = new_step(t.next, ran_ok());
    let t = new_step(t.next, Event::TextRead(ReadOutcome::Text("{not json".to_string())));
    let (kind, message) = expect_abort(&t);
    assert_eq!(kind, ErrorKind::ParseData);
    assert!(message.starts_with("abc300/contest.acc.json is not valid JSON: "));
}
