//! The counter record: a value and the owner that alone may change it.

use vstd::prelude::*;
use crate::identity::Identity;
use crate::outcome::ErrorCode;

verus! {

/// Bytes that the storage layer puts in front of every record to tell its kind.
pub const DISCRIMINATOR_LEN: usize = 8;

/// Bytes taken by the counted value.
pub const VALUE_LEN: usize = 8;

/// Bytes taken by the owner.
pub const OWNER_LEN: usize = 32;

/// Bytes of storage that one record needs; the layout has no part of variable length.
pub const RECORD_SPACE: usize = DISCRIMINATOR_LEN + VALUE_LEN + OWNER_LEN;

/// The mathematical content of a counter record.
pub struct Record {
    /// The counted quantity.
    pub value: u64,
    /// The bytes of the identity bound at creation.
    pub owner: Seq<u8>,
}

/// A counter record as it is kept in a storage slot.
#[derive(Clone, Copy, Debug, PartialEq, Eq)]
pub struct Counter {
    value: u64,
    owner: Identity,
}

impl View for Counter {
    type V = Record;

    closed spec fn view(&self) -> Record {
        Record { value: self.value, owner: self.owner@ }
    }
}

impl Counter {
    /// The record with the given value and owner, as the storage layer kept it.
    pub fn new(value: u64, owner: Identity) -> (counter: Counter)
        ensures
            counter@ == (Record { value, owner: owner@ }),
    {
        Counter { value, owner }
    }

    /// The counted quantity.
    pub fn value(&self) -> (value: u64)
        ensures
            value == self@.value,
    {
        self.value
    }

    /// The identity bound at creation.
    pub fn owner(&self) -> (owner: Identity)
        ensures
            owner@ == self@.owner,
    {
        self.owner
    }

    /// The guard that stands before every change: only the owner passes.
    pub fn authorize(&self, caller: &Identity) -> (verdict: Result<(), ErrorCode>)
        ensures
            verdict == if caller@ == self@.owner {
                Ok::<(), ErrorCode>(())
            } else {
                Err::<(), ErrorCode>(ErrorCode::NotAuthorized)
            },
    {
        if *caller == self.owner {
            Ok(())
        } else {
            Err(ErrorCode::NotAuthorized)
        }
    }
}

/// What a storage slot holds: nothing, or one counter record.
#[derive(Clone, Copy, Debug, PartialEq, Eq)]
pub enum Slot {
    /// No record lives at the handle.
    Absent,
    /// The handle resolves to this record.
    Live(Counter),
}

impl View for Slot {
    type V = Option<Record>;

    open spec fn view(&self) -> Option<Record> {
        match *self {
            Slot::Absent => None,
            Slot::Live(counter) => Some(counter@),
        }
    }
}

impl Slot {
    /// The record that the handle resolves to, if there is one.
    pub fn record(&self) -> (found: Option<Counter>)
        ensures
            found == match *self {
                Slot::Absent => None::<Counter>,
                Slot::Live(counter) => Some(counter),
            },
    {
        match *self {
            Slot::Absent => None,
            Slot::Live(counter) => Some(counter),
        }
    }
}

} // verus!
