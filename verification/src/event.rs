//! The answers of the caller to the actions of a run.

use vstd::prelude::*;

use crate::error::ArchiveError;

verus! {

/// What the caller answers after performing an action.
#[derive(Clone, Copy, Debug, PartialEq, Eq, Structural)]
pub enum Event {
    /// The probed file exists.
    Present,
    /// The probed file does not exist.
    Absent,
    /// The action was carried out.
    Done,
    /// The action failed.
    Failed(ArchiveError),
}

} // verus!
