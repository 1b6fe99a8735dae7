//! The command dispatcher: each verb names one workflow machine, and
//! `run` hands back that machine's starting state. The driver then feeds
//! the machine `Event::Begin` and performs one action per step until it
//! reaches `Finish` or `Abort`.

use vstd::prelude::*;
use crate::debug_flow::DebugCtx;
use crate::debug_flow::DebugSt;
use crate::init_flow::InitSt;
use crate::new_flow::NewSt;
use crate::present::HighlightMode;
use crate::test_flow::TestCtx;
use crate::test_flow::TestSt;

verus! {

/// A parsed command: the verb and its arguments.
pub enum Verb {
    /// Set up the scaffolding tool's template.
    Init,
    /// Create a contest workspace.
    New { contest: String },
    /// Build a problem and run its samples through the test runner.
    Test { contest: String, problem: String },
    /// As `Test`, and submit the solution when the tests pass.
    Submit { contest: String, problem: String },
    /// Report input, outputs, expected output and verdict for one sample,
    /// or for every sample when no number is given.
    Debug { contest: String, problem: String, sample: Option<u64> },
}

/// Process-wide presentation and platform choices, threaded explicitly
/// into the workflows that need them.
pub struct RunConfig {
    pub windows: bool,
    pub highlight: HighlightMode,
}

/// The state of whichever workflow machine the verb selected.
pub enum St {
    Init(InitSt),
    New(NewSt),
    Test(TestSt),
    Debug(DebugSt),
}

/// The machine each verb starts, with the configuration it carries.
pub open spec fn run_spec(verb: Verb, config: RunConfig) -> St {
    match verb {
        Verb::Init => St::Init(InitSt::Start),
        Verb::New { contest } => St::New(NewSt::Start { contest }),
        Verb::Test { contest, problem } => St::Test(
            TestSt::Start {
                ctx: TestCtx { contest, problem, submit: false, windows: config.windows },
            },
        ),
        Verb::Submit { contest, problem } => St::Test(
            TestSt::Start {
                ctx: TestCtx { contest, problem, submit: true, windows: config.windows },
            },
        ),
        Verb::Debug { contest, problem, sample } => St::Debug(
            DebugSt::Start {
                ctx: DebugCtx {
                    contest,
                    problem,
                    sample,
                    windows: config.windows,
                    highlight: config.highlight,
                },
            },
        ),
    }
}

/// Dispatches a parsed command to its workflow machine's starting state.
pub fn run(verb: Verb, config: RunConfig) -> (s: St)
    ensures
        s == run_spec(verb, config),
{
    match verb {
        Verb::Init => St::Init(InitSt::Start),
        Verb::New { contest } => St::New(NewSt::Start { contest }),
        Verb::Test { contest, problem } => St::Test(
            TestSt::Start {
                ctx: TestCtx { contest, problem, submit: false, windows: config.windows },
            },
        ),
        Verb::Submit { contest, problem } => St::Test(
            TestSt::Start {
                ctx: TestCtx { contest, problem, submit: true, windows: config.windows },
            },
        ),
        Verb::Debug { contest, problem, sample } => St::Debug(
            DebugSt::Start {
                ctx: DebugCtx {
                    contest,
                    problem,
                    sample,
                    windows: config.windows,
                    highlight: config.highlight,
                },
            },
        ),
    }
}

} // verus!
