//! Well-known output channel names.

use vstd::prelude::*;

verus! {

pub const MAIN: &'static str = "SideX";
pub const EXTENSION_HOST: &'static str = "Extension Host";
pub const GIT: &'static str = "Git";
pub const LSP: &'static str = "LSP";
pub const TERMINAL: &'static str = "Terminal";
pub const REMOTE: &'static str = "Remote";
pub const TASKS: &'static str = "Tasks";
pub const DEBUG: &'static str = "Debug Console";

} // verus!
