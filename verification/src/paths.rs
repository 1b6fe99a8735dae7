//! Path and naming conventions: workspace and problem directories, build
//! outputs, and sample fixture files, all as pure string functions.

use vstd::prelude::*;
use vstd::string::StringExecFns;
use crate::BuildMode;
use crate::text::dec_str;
use crate::text::u64_to_string;

verus! {

/// The fixed prefix a contest identifier is joined to: identifier `300`
/// names the workspace directory `abc300`.
pub open spec fn workspace_prefix() -> Seq<char> {
    "abc"@
}

/// The workspace directory name for a contest identifier.
pub open spec fn workspace_name_spec(contest: Seq<char>) -> Seq<char> {
    workspace_prefix() + contest
}

pub fn workspace_name(contest: &str) -> (r: String)
    ensures
        r@ == workspace_name_spec(contest@),
{
    String::from_str("abc").concat(contest)
}

/// Joining one path component onto a base path.
pub open spec fn joined(base: Seq<char>, component: Seq<char>) -> Seq<char> {
    base + "/"@ + component
}

pub fn path_join(base: &str, component: &str) -> (r: String)
    ensures
        r@ == joined(base@, component@),
{
    let mut r = String::from_str(base);
    r.append("/");
    r.append(component);
    r
}

/// The problem directory: the workspace named by the contest identifier,
/// joined with the problem label, under the root override when one is
/// given. With a root supplied the result does not depend on the current
/// working directory.
pub open spec fn problem_dir_spec(
    root: Option<Seq<char>>,
    contest: Seq<char>,
    problem: Seq<char>,
) -> Seq<char> {
    match root {
        Option::Some(r) => joined(joined(r, workspace_name_spec(contest)), problem),
        Option::None => joined(workspace_name_spec(contest), problem),
    }
}

pub fn problem_dir(root: Option<&str>, contest: &str, problem: &str) -> (r: String)
    ensures
        r@ == problem_dir_spec(
            match root {
                Option::Some(s) => Option::Some(s@),
                Option::None => Option::None,
            },
            contest@,
            problem@,
        ),
{
    let ws = workspace_name(contest);
    match root {
        Option::Some(r) => {
            let base = path_join(r, ws.as_str());
            path_join(base.as_str(), problem)
        },
        Option::None => path_join(ws.as_str(), problem),
    }
}

/// The platform-specific executable filename: the problem label, with the
/// `.exe` suffix on Windows.
pub open spec fn binary_name_spec(problem: Seq<char>, windows: bool) -> Seq<char> {
    if windows {
        problem + ".exe"@
    } else {
        problem
    }
}

/// The executable path for a build mode: it always resolves under
/// `<problem-dir>/target/<mode>/` and selects the platform-specific
/// binary filename.
pub open spec fn executable_path_spec(
    problem_dir: Seq<char>,
    mode: BuildMode,
    problem: Seq<char>,
    windows: bool,
) -> Seq<char> {
    joined(joined(joined(problem_dir, "target"@), mode.dir_name_spec()), binary_name_spec(problem, windows))
}

pub fn executable_path(problem_dir: &str, mode: BuildMode, problem: &str, windows: bool) -> (r:
    String)
    ensures
        r@ == executable_path_spec(problem_dir@, mode, problem@, windows),
{
    let base = path_join(path_join(problem_dir, "target").as_str(), mode.dir_name());
    let mut r = path_join(base.as_str(), problem);
    if windows {
        r.append(".exe");
    }
    r
}

/// The directory holding a problem's sample fixture files.
pub open spec fn sample_dir_spec(problem_dir: Seq<char>) -> Seq<char> {
    joined(problem_dir, "tests"@)
}

pub fn sample_dir(problem_dir: &str) -> (r: String)
    ensures
        r@ == sample_dir_spec(problem_dir@),
{
    path_join(problem_dir, "tests")
}

/// The stem of one numbered sample: `sample-<n>`.
pub open spec fn sample_stem_spec(n: nat) -> Seq<char> {
    "sample-"@ + dec_str(n)
}

pub fn sample_stem(n: u64) -> (r: String)
    ensures
        r@ == sample_stem_spec(n as nat),
{
    let mut r = String::from_str("sample-");
    let digits = u64_to_string(n);
    r.append(digits.as_str());
    r
}

/// The sample input file for sample number `n`.
pub open spec fn sample_in_path_spec(problem_dir: Seq<char>, n: nat) -> Seq<char> {
    joined(sample_dir_spec(problem_dir), sample_stem_spec(n) + ".in"@)
}

pub fn sample_in_path(problem_dir: &str, n: u64) -> (r: String)
    ensures
        r@ == sample_in_path_spec(problem_dir@, n as nat),
{
    let mut stem = sample_stem(n);
    stem.append(".in");
    path_join(sample_dir(problem_dir).as_str(), stem.as_str())
}

/// The expected-output file for sample number `n`.
pub open spec fn sample_out_path_spec(problem_dir: Seq<char>, n: nat) -> Seq<char> {
    joined(sample_dir_spec(problem_dir), sample_stem_spec(n) + ".out"@)
}

pub fn sample_out_path(problem_dir: &str, n: u64) -> (r: String)
    ensures
        r@ == sample_out_path_spec(problem_dir@, n as nat),
{
    let mut stem = sample_stem(n);
    stem.append(".out");
    path_join(sample_dir(problem_dir).as_str(), stem.as_str())
}

/// The input file for a sample named by its stem, as the multi-sample
/// loop walks them.
pub open spec fn stem_in_path_spec(sample_dir: Seq<char>, stem: Seq<char>) -> Seq<char> {
    joined(sample_dir, stem + ".in"@)
}

pub fn stem_in_path(sample_dir: &str, stem: &str) -> (r: String)
    ensures
        r@ == stem_in_path_spec(sample_dir@, stem@),
{
    let mut name = String::from_str(stem);
    name.append(".in");
    path_join(sample_dir, name.as_str())
}

/// The expected-output file for a sample named by its stem.
pub open spec fn stem_out_path_spec(sample_dir: Seq<char>, stem: Seq<char>) -> Seq<char> {
    joined(sample_dir, stem + ".out"@)
}

pub fn stem_out_path(sample_dir: &str, stem: &str) -> (r: String)
    ensures
        r@ == stem_out_path_spec(sample_dir@, stem@),
{
    let mut name = String::from_str(stem);
    name.append(".out");
    path_join(sample_dir, name.as_str())
}

} // verus!
