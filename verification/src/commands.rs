//! The concrete command lines the workflows run and the exact status
//! messages they print, each with a specification-level counterpart.

use vstd::prelude::*;
use vstd::string::StringExecFns;
use crate::BuildMode;
use crate::action::CmdSpec;
use crate::action::CmdSpecV;
use crate::present::HighlightMode;
use crate::present::Tone;
use crate::present::painted_spec;
use crate::present::paint;
use crate::text::dec_str;
use crate::text::u64_to_string;

verus! {

/// The scaffolding tool's invocation, as one program word the driver
/// hands to the platform shell.
pub open spec fn acc_program() -> Seq<char> {
    "npx atcoder-cli"@
}

/// The template repository the `init` workflow clones.
pub open spec fn template_repo_url() -> Seq<char> {
    "https://github.com/wogikaze/kp-rust"@
}

pub open spec fn cmd_v(program: Seq<char>, args: Seq<Seq<char>>, cwd: Option<Seq<char>>) -> CmdSpecV {
    CmdSpecV { program, args, cwd }
}

pub fn string_vec1(a: String) -> (r: Vec<String>)
    ensures
        r.deep_view() == seq![a@],
{
    let ghost av = a@;
    let mut r: Vec<String> = Vec::new();
    r.push(a);
    proof {
        assert(r.deep_view() =~= seq![av]);
    }
    r
}

pub fn string_vec2(a: String, b: String) -> (r: Vec<String>)
    ensures
        r.deep_view() == seq![a@, b@],
{
    let ghost av = a@;
    let ghost bv = b@;
    let mut r: Vec<String> = Vec::new();
    r.push(a);
    r.push(b);
    proof {
        assert(r.deep_view() =~= seq![av, bv]);
    }
    r
}

pub fn string_vec3(a: String, b: String, c: String) -> (r: Vec<String>)
    ensures
        r.deep_view() == seq![a@, b@, c@],
{
    let ghost av = a@;
    let ghost bv = b@;
    let ghost cv = c@;
    let mut r: Vec<String> = Vec::new();
    r.push(a);
    r.push(b);
    r.push(c);
    proof {
        assert(r.deep_view() =~= seq![av, bv, cv]);
    }
    r
}


pub fn string_vec4(a: String, b: String, c: String, d: String) -> (r: Vec<String>)
    ensures
        r.deep_view() == seq![a@, b@, c@, d@],
{
    let ghost av = a@;
    let ghost bv = b@;
    let ghost cv = c@;
    let ghost dv = d@;
    let mut r: Vec<String> = Vec::new();
    r.push(a);
    r.push(b);
    r.push(c);
    r.push(d);
    proof {
        assert(r.deep_view() =~= seq![av, bv, cv, dv]);
    }
    r
}

pub fn string_vec5(a: String, b: String, c: String, d: String, e: String) -> (r: Vec<String>)
    ensures
        r.deep_view() == seq![a@, b@, c@, d@, e@],
{
    let ghost av = a@;
    let ghost bv = b@;
    let ghost cv = c@;
    let ghost dv = d@;
    let ghost ev = e@;
    let mut r: Vec<String> = Vec::new();
    r.push(a);
    r.push(b);
    r.push(c);
    r.push(d);
    r.push(e);
    proof {
        assert(r.deep_view() =~= seq![av, bv, cv, dv, ev]);
    }
    r
}

/// An empty list of output lines.
pub fn no_lines() -> (r: Vec<String>)
    ensures
        r.deep_view() == Seq::<Seq<char>>::empty(),
{
    let r: Vec<String> = Vec::new();
    proof {
        assert(r.deep_view() =~= Seq::<Seq<char>>::empty());
    }
    r
}

/// One output line.
pub fn one_line(a: String) -> (r: Vec<String>)
    ensures
        r.deep_view() == seq![a@],
{
    string_vec1(a)
}

/// `s` wrapped in double quotes on Windows, where the test runner's
/// command argument needs them, and bare elsewhere.
pub open spec fn quoted_spec(s: Seq<char>, windows: bool) -> Seq<char> {
    if windows {
        "\""@ + s + "\""@
    } else {
        s
    }
}

pub fn quoted(s: &str, windows: bool) -> (r: String)
    ensures
        r@ == quoted_spec(s@, windows),
{
    if windows {
        let mut r = String::from_str("\"");
        r.append(s);
        r.append("\"");
        r
    } else {
        String::from_str(s)
    }
}

/// `npx atcoder-cli config-dir`, captured.
pub open spec fn config_dir_cmd_v() -> CmdSpecV {
    cmd_v(acc_program(), seq!["config-dir"@], Option::None)
}

pub fn config_dir_cmd() -> (c: CmdSpec)
    ensures
        c@ == config_dir_cmd_v(),
{
    CmdSpec {
        program: String::from_str("npx atcoder-cli"),
        args: string_vec1(String::from_str("config-dir")),
        cwd: Option::None,
    }
}

/// `git pull` inside the checked-out template repository.
pub open spec fn git_pull_cmd_v(repo_dir: Seq<char>) -> CmdSpecV {
    cmd_v("git"@, seq!["pull"@], Option::Some(repo_dir))
}

pub fn git_pull_cmd(repo_dir: String) -> (c: CmdSpec)
    ensures
        c@ == git_pull_cmd_v(repo_dir@),
{
    CmdSpec {
        program: String::from_str("git"),
        args: string_vec1(String::from_str("pull")),
        cwd: Option::Some(repo_dir),
    }
}

/// `git clone <template repository>` inside the configuration directory.
pub open spec fn git_clone_cmd_v(config_dir: Seq<char>) -> CmdSpecV {
    cmd_v("git"@, seq!["clone"@, template_repo_url()], Option::Some(config_dir))
}

pub fn git_clone_cmd(config_dir: String) -> (c: CmdSpec)
    ensures
        c@ == git_clone_cmd_v(config_dir@),
{
    CmdSpec {
        program: String::from_str("git"),
        args: string_vec2(
            String::from_str("clone"),
            String::from_str("https://github.com/wogikaze/kp-rust"),
        ),
        cwd: Option::Some(config_dir),
    }
}

/// `npx atcoder-cli config default-template`, captured.
pub open spec fn query_template_cmd_v() -> CmdSpecV {
    cmd_v(acc_program(), seq!["config"@, "default-template"@], Option::None)
}

pub fn query_template_cmd() -> (c: CmdSpec)
    ensures
        c@ == query_template_cmd_v(),
{
    CmdSpec {
        program: String::from_str("npx atcoder-cli"),
        args: string_vec2(String::from_str("config"), String::from_str("default-template")),
        cwd: Option::None,
    }
}

/// `npx atcoder-cli config default-template kp-rust`.
pub open spec fn set_template_cmd_v() -> CmdSpecV {
    cmd_v(acc_program(), seq!["config"@, "default-template"@, "kp-rust"@], Option::None)
}

pub fn set_template_cmd() -> (c: CmdSpec)
    ensures
        c@ == set_template_cmd_v(),
{
    CmdSpec {
        program: String::from_str("npx atcoder-cli"),
        args: string_vec3(
            String::from_str("config"),
            String::from_str("default-template"),
            String::from_str("kp-rust"),
        ),
        cwd: Option::None,
    }
}

/// `npx atcoder-cli config default-task-dirname-format ./`.
pub open spec fn set_dir_format_cmd_v() -> CmdSpecV {
    cmd_v(acc_program(), seq!["config"@, "default-task-dirname-format"@, "./"@], Option::None)
}

pub fn set_dir_format_cmd() -> (c: CmdSpec)
    ensures
        c@ == set_dir_format_cmd_v(),
{
    CmdSpec {
        program: String::from_str("npx atcoder-cli"),
        args: string_vec3(
            String::from_str("config"),
            String::from_str("default-task-dirname-format"),
            String::from_str("./"),
        ),
        cwd: Option::None,
    }
}

/// `npx atcoder-cli config default-task-choice all`.
pub open spec fn set_task_choice_cmd_v() -> CmdSpecV {
    cmd_v(acc_program(), seq!["config"@, "default-task-choice"@, "all"@], Option::None)
}

pub fn set_task_choice_cmd() -> (c: CmdSpec)
    ensures
        c@ == set_task_choice_cmd_v(),
{
    CmdSpec {
        program: String::from_str("npx atcoder-cli"),
        args: string_vec3(
            String::from_str("config"),
            String::from_str("default-task-choice"),
            String::from_str("all"),
        ),
        cwd: Option::None,
    }
}

/// `npx atcoder-cli new <workspace>`.
pub open spec fn scaffold_cmd_v(ws: Seq<char>) -> CmdSpecV {
    cmd_v(acc_program(), seq!["new"@, ws], Option::None)
}

pub fn scaffold_cmd(ws: String) -> (c: CmdSpec)
    ensures
        c@ == scaffold_cmd_v(ws@),
{
    CmdSpec {
        program: String::from_str("npx atcoder-cli"),
        args: string_vec2(String::from_str("new"), ws),
        cwd: Option::None,
    }
}

/// `cargo build`, in the given profile, inside the problem directory.
pub open spec fn build_cmd_v(problem_dir: Seq<char>, mode: BuildMode) -> CmdSpecV {
    cmd_v(
        "cargo"@,
        match mode {
            BuildMode::Dev => seq!["build"@],
            BuildMode::Release => seq!["build"@, "--release"@],
        },
        Option::Some(problem_dir),
    )
}

pub fn build_cmd(problem_dir: String, mode: BuildMode) -> (c: CmdSpec)
    ensures
        c@ == build_cmd_v(problem_dir@, mode),
{
    let args = match mode {
        BuildMode::Dev => string_vec1(String::from_str("build")),
        BuildMode::Release => string_vec2(String::from_str("build"), String::from_str("--release")),
    };
    CmdSpec { program: String::from_str("cargo"), args, cwd: Option::Some(problem_dir) }
}

/// `oj test -c <executable> -d <sample dir>`, inside the workspace.
pub open spec fn oj_test_cmd_v(
    ws: Seq<char>,
    exe: Seq<char>,
    data_dir: Seq<char>,
    windows: bool,
) -> CmdSpecV {
    cmd_v(
        "oj"@,
        seq!["test"@, "-c"@, quoted_spec(exe, windows), "-d"@, data_dir],
        Option::Some(ws),
    )
}

pub fn oj_test_cmd(ws: String, exe: &str, data_dir: String, windows: bool) -> (c: CmdSpec)
    ensures
        c@ == oj_test_cmd_v(ws@, exe@, data_dir@, windows),
{
    CmdSpec {
        program: String::from_str("oj"),
        args: string_vec5(
            String::from_str("test"),
            String::from_str("-c"),
            quoted(exe, windows),
            String::from_str("-d"),
            data_dir,
        ),
        cwd: Option::Some(ws),
    }
}

/// `npx atcoder-cli submit`, inside the problem directory.
pub open spec fn submit_cmd_v(problem_dir: Seq<char>) -> CmdSpecV {
    cmd_v(acc_program(), seq!["submit"@], Option::Some(problem_dir))
}

pub fn submit_cmd(problem_dir: String) -> (c: CmdSpec)
    ensures
        c@ == submit_cmd_v(problem_dir@),
{
    CmdSpec {
        program: String::from_str("npx atcoder-cli"),
        args: string_vec1(String::from_str("submit")),
        cwd: Option::Some(problem_dir),
    }
}

// ---------------------------------------------------------------------
// Status messages.
/// `failed to start `<command>``.
pub open spec fn msg_spawn_failed_v(desc: Seq<char>) -> Seq<char> {
    "failed to start `"@ + desc + "`"@
}

pub fn msg_spawn_failed(desc: &str) -> (r: String)
    ensures
        r@ == msg_spawn_failed_v(desc@),
{
    let mut r = String::from_str("failed to start `");
    r.append(desc);
    r.append("`");
    r
}

/// ``<command>` failed with status <code>`, or a note that a signal ended
/// it when no code exists.
pub open spec fn msg_exit_failure_v(desc: Seq<char>, code: Option<u64>) -> Seq<char> {
    match code {
        Option::Some(c) => "`"@ + desc + "` failed with status "@ + dec_str(c as nat),
        Option::None => "`"@ + desc + "` was terminated by a signal"@,
    }
}

pub fn msg_exit_failure(desc: &str, code: Option<u64>) -> (r: String)
    ensures
        r@ == msg_exit_failure_v(desc@, code),
{
    let mut r = String::from_str("`");
    r.append(desc);
    match code {
        Option::Some(c) => {
            r.append("` failed with status ");
            let digits = u64_to_string(c);
            r.append(digits.as_str());
        },
        Option::None => {
            r.append("` was terminated by a signal");
        },
    }
    r
}

/// ``<command>` produced output that is not UTF-8 text`.
pub open spec fn msg_not_text_v(desc: Seq<char>) -> Seq<char> {
    "`"@ + desc + "` produced output that is not UTF-8 text"@
}

pub fn msg_not_text(desc: &str) -> (r: String)
    ensures
        r@ == msg_not_text_v(desc@),
{
    let mut r = String::from_str("`");
    r.append(desc);
    r.append("` produced output that is not UTF-8 text");
    r
}

/// `Directory <ws> already exists`.
pub open spec fn msg_dir_exists_v(ws: Seq<char>) -> Seq<char> {
    "Directory "@ + ws + " already exists"@
}

pub fn msg_dir_exists(ws: &str) -> (r: String)
    ensures
        r@ == msg_dir_exists_v(ws@),
{
    let mut r = String::from_str("Directory ");
    r.append(ws);
    r.append(" already exists");
    r
}

/// `<path> does not exist`.
pub open spec fn msg_missing_v(path: Seq<char>) -> Seq<char> {
    path + " does not exist"@
}

pub fn msg_missing(path: &str) -> (r: String)
    ensures
        r@ == msg_missing_v(path@),
{
    let mut r = String::from_str(path);
    r.append(" does not exist");
    r
}

/// `No sample input files found in <dir>`.
pub open spec fn msg_no_samples_v(dir: Seq<char>) -> Seq<char> {
    "No sample input files found in "@ + dir
}

pub fn msg_no_samples(dir: &str) -> (r: String)
    ensures
        r@ == msg_no_samples_v(dir@),
{
    String::from_str("No sample input files found in ").concat(dir)
}

/// `Failed to read sample input file '<path>'`.
pub open spec fn msg_input_unreadable_v(path: Seq<char>) -> Seq<char> {
    "Failed to read sample input file '"@ + path + "'"@
}

pub fn msg_input_unreadable(path: &str) -> (r: String)
    ensures
        r@ == msg_input_unreadable_v(path@),
{
    let mut r = String::from_str("Failed to read sample input file '");
    r.append(path);
    r.append("'");
    r
}

/// `Failed to read expected output file '<path>'`.
pub open spec fn msg_expected_unreadable_v(path: Seq<char>) -> Seq<char> {
    "Failed to read expected output file '"@ + path + "'"@
}

pub fn msg_expected_unreadable(path: &str) -> (r: String)
    ensures
        r@ == msg_expected_unreadable_v(path@),
{
    let mut r = String::from_str("Failed to read expected output file '");
    r.append(path);
    r.append("'");
    r
}

/// `Failed to run the binary '<path>'`.
pub open spec fn msg_binary_failed_v(path: Seq<char>) -> Seq<char> {
    "Failed to run the binary '"@ + path + "'"@
}

pub fn msg_binary_failed(path: &str) -> (r: String)
    ensures
        r@ == msg_binary_failed_v(path@),
{
    let mut r = String::from_str("Failed to run the binary '");
    r.append(path);
    r.append("'");
    r
}

/// `cannot open <path>`.
pub open spec fn msg_cannot_open_v(path: Seq<char>) -> Seq<char> {
    "cannot open "@ + path
}

pub fn msg_cannot_open(path: &str) -> (r: String)
    ensures
        r@ == msg_cannot_open_v(path@),
{
    String::from_str("cannot open ").concat(path)
}

/// `Failed to write <path>`.
pub open spec fn msg_write_failed_v(path: Seq<char>) -> Seq<char> {
    "Failed to write "@ + path
}

pub fn msg_write_failed(path: &str) -> (r: String)
    ensures
        r@ == msg_write_failed_v(path@),
{
    String::from_str("Failed to write ").concat(path)
}

/// The banner over one sample's report.
pub open spec fn sample_header_v(stem: Seq<char>) -> Seq<char> {
    "==================== ["@ + stem + "] ===================="@
}

pub fn sample_header(stem: &str) -> (r: String)
    ensures
        r@ == sample_header_v(stem@),
{
    let mut r = String::from_str("==================== [");
    r.append(stem);
    r.append("] ====================");
    r
}

/// `Execution Time: <millis>ms`.
pub open spec fn exec_time_line_v(millis: u64) -> Seq<char> {
    "Execution Time: "@ + dec_str(millis as nat) + "ms"@
}

pub fn exec_time_line(millis: u64) -> (r: String)
    ensures
        r@ == exec_time_line_v(millis),
{
    let mut r = String::from_str("Execution Time: ");
    let digits = u64_to_string(millis);
    r.append(digits.as_str());
    r.append("ms");
    r
}

/// The comparison verdict banner, painted in the success or failure tone.
pub open spec fn verdict_banner_v(matched: bool, mode: HighlightMode) -> Seq<char> {
    if matched {
        painted_spec("[OK] Output matches expected output."@, Tone::Success, mode)
    } else {
        painted_spec("[NG] Output does not match expected output."@, Tone::Failure, mode)
    }
}

pub fn verdict_banner(matched: bool, mode: HighlightMode) -> (r: String)
    ensures
        r@ == verdict_banner_v(matched, mode),
{
    if matched {
        paint("[OK] Output matches expected output.", Tone::Success, mode)
    } else {
        paint("[NG] Output does not match expected output.", Tone::Failure, mode)
    }
}

} // verus!
