//! What one run knows about its surroundings.

use vstd::prelude::*;

use crate::client_os;
use crate::path::AbsPath;

verus! {

/// The fixed facts of one run: where the configuration lives, the detected
/// operating system, the home directory, and whether this process is the
/// re-executed privileged child rather than the main one.
pub struct Context {
    pub config_path: AbsPath,
    pub base_dir: AbsPath,
    pub client_os: client_os::Type,
    pub home_dir: AbsPath,
    pub child: bool,
}

impl Context {
    /// Whether this process is the main one, as opposed to the privileged
    /// child it may spawn.
    pub fn is_main(&self) -> (r: bool)
        ensures
            r == !self.child,
    {
        !self.child
    }
}

} // verus!
