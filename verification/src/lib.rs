//! kp: a verified core for a competitive-programming contest helper.
//!
//! The library models the helper's logic: path and naming conventions,
//! output comparison, manifest and editor-settings synchronization, and
//! the per-verb workflow state machines. File and process I/O stays in
//! the surrounding application, which drives the state machines by
//! performing the actions they request and feeding back the outcomes.

use vstd::prelude::*;

pub mod action;
pub mod commands;
pub mod debug_flow;
pub mod errors;
pub mod init_flow;
pub mod paths;
pub mod present;
pub mod jsondoc;
pub mod manifest;
pub mod new_flow;
pub mod settings;
pub mod strlist;
pub mod test_flow;
pub mod workflow;
pub mod text;

verus! {

/// A mode of the build profile: every executable is produced under
/// `target/debug` or `target/release`.
#[derive(Clone, Copy, PartialEq, Eq, Structural)]
pub enum BuildMode {
    Dev,
    Release,
}

impl BuildMode {
    /// The directory name the build tool uses for this profile.
    pub open spec fn dir_name_spec(self) -> Seq<char> {
        match self {
            BuildMode::Dev => "debug"@,
            BuildMode::Release => "release"@,
        }
    }

    pub fn dir_name(self) -> (r: &'static str)
        ensures
            r@ == self.dir_name_spec(),
    {
        match self {
            BuildMode::Dev => "debug",
            BuildMode::Release => "release",
        }
    }
}

} // verus!
