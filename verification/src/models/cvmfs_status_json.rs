//! What a server says of one repository in `.cvmfs_status.json`.

use vstd::prelude::*;
use crate::models::generic::MaybeRfc2822DateTime;

verus! {

/// When the repository was last snapshotted and when it was last garbage
/// collected, as far as the server says.
#[derive(Debug, Clone, PartialEq)]
pub struct StatusJSON {
    pub last_snapshot: MaybeRfc2822DateTime,
    pub last_gc: MaybeRfc2822DateTime,
}

} // verus!
