//! What each kind of invocation is handed: the slot it works on and the caller.

use vstd::prelude::*;
use crate::identity::Identity;
use crate::record::Slot;

verus! {

/// The accounts of a creation: the slot that is to receive the record, and the
/// caller that becomes its owner.
#[derive(Clone, Copy, Debug, PartialEq, Eq)]
pub struct Initialize {
    /// The slot that is to receive the new record.
    pub counter: Slot,
    /// The caller, already shown to be who it says it is.
    pub authority: Identity,
}

/// The accounts of a change of value: the slot that holds the record, and the caller.
#[derive(Clone, Copy, Debug, PartialEq, Eq)]
pub struct Update {
    /// The slot whose record is to change.
    pub counter: Slot,
    /// The caller, already shown to be who it says it is.
    pub authority: Identity,
}

/// The accounts of a release: the slot that holds the record, and the caller, to
/// whom whatever the slot's allocation can give back is returned.
#[derive(Clone, Copy, Debug, PartialEq, Eq)]
pub struct Terminate {
    /// The slot whose record is to be released.
    pub counter: Slot,
    /// The caller, already shown to be who it says it is.
    pub authority: Identity,
}

} // verus!
