use kp::BuildMode;
use kp::paths::executable_path;
use kp::paths::problem_dir;
use kp::paths::sample_dir;
use kp::paths::sample_in_path;
use kp::paths::sample_out_path;
use kp::paths::stem_in_path;
use kp::paths::stem_out_path;
use kp::paths::workspace_name;
use kp::present::HighlightMode;
use kp::present::Tone;
use kp::present::color_escape;
use kp::present::paint;
use kp::present::reset_escape;

#[test]
fn workspace_name_is_prefix_plus_identifier() {
    assert_eq!(workspace_name("300"), "abc300");
    assert_eq!(workspace_name(""), "abc");
}

#[test]
fn problem_dir_joins_root_workspace_and_label() {
    assert_eq!(problem_dir(Some("/home/user"), "300", "a"), "/home/user/abc300/a");
    assert_eq!(problem_dir(None, "300", "a"), "abc300/a");
    // With a root override the result is a fixed path, independent of
    // where the process happens to run.
    assert_eq!(problem_dir(Some("/tmp/x"), "412", "g"), "/tmp/x/abc412/g");
}

#[test]
fn executable_path_resolves_under_target_mode() {
    assert_eq!(
        executable_path("abc300/a", BuildMode::Release, "a", false),
        "abc300/a/target/release/a"
    );
    assert_eq!(
        executable_path("abc300/a", BuildMode::Dev, "a", false),
        "abc300/a/target/debug/a"
    );
    assert_eq!(
        executable_path("abc300/a", BuildMode::Release, "a", true),
        "abc300/a/target/release/a.exe"
    );
    assert_eq!(
        executable_path("abc300/b", BuildMode::Dev, "b", true),
        "abc300/b/target/debug/b.exe"
    );
}

#[test]
fn sample_paths_carry_the_number() {
    assert_eq!(sample_dir("abc300/a"), "abc300/a/tests");
    assert_eq!(sample_in_path("abc300/a", 1), "abc300/a/tests/sample-1.in");
    assert_eq!(sample_out_path("abc300/a", 1), "abc300/a/tests/sample-1.out");
    assert_eq!(sample_in_path("abc300/a", 12), "abc300/a/tests/sample-12.in");
}

#[test]
fn stem_paths_add_the_extensions() {
    assert_eq!(stem_in_path("abc300/a/tests", "sample-3"), "abc300/a/tests/sample-3.in");
    assert_eq!(stem_out_path("abc300/a/tests", "sample-3"), "abc300/a/tests/sample-3.out");
}

#[test]
fn plain_mode_yields_empty_escapes() {
    for tone in [Tone::Success, Tone::Failure, Tone::Info, Tone::Warning] {
        assert_eq!(color_escape(tone, HighlightMode::Plain), "");
    }
    assert_eq!(reset_escape(HighlightMode::Plain), "");
    assert_eq!(paint("hello", Tone::Success, HighlightMode::Plain), "hello");
}

#[test]
fn colored_modes_wrap_text_in_escapes() {
    assert_eq!(color_escape(Tone::Success, HighlightMode::Ansi16), "\u{1b}[32m");
    assert_eq!(color_escape(Tone::Failure, HighlightMode::Ansi16), "\u{1b}[31m");
    assert_eq!(
        paint("ok", Tone::Success, HighlightMode::TrueColor),
        "\u{1b}[38;2;0;205;0mok\u{1b}[0m"
    );
    assert_eq!(reset_escape(HighlightMode::Ansi256), "\u{1b}[0m");
}
