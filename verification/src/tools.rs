//! Options of the command tools.
use vstd::prelude::*;

verus! {

/// What the shell command tools offer.
#[derive(Debug, Clone, Copy, PartialEq, Eq, Structural)]
pub struct CommandToolOptions {
    pub allow_login_shell: bool,
}

} // verus!
