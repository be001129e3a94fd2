//! The identity a process runs under.

use vstd::prelude::*;

verus! {

/// The real, effective and group ids of the running user, as the host
/// reports them.
#[derive(Clone, Copy, Debug, PartialEq, Eq, Structural)]
pub struct User {
    pub uid: u32,
    pub euid: u32,
    pub gid: u32,
}

} // verus!
