//! The record manager as a state machine over the content of one slot.
//!
//! A slot is `None` while no record lives in it and `Some(record)` while one does.
//! Each operation is a function from the slot before, the caller and the argument
//! to the slot after and the report handed back; an operation that fails leaves
//! the slot exactly as it found it.

use vstd::prelude::*;
use crate::outcome::{ErrorCode, Event, Failure};
use crate::record::Record;

verus! {

/// The slot after an invocation, and what the invocation reports.
pub struct Outcome {
    /// What the slot holds afterwards.
    pub slot: Option<Record>,
    /// The event emitted, or the reason for which nothing happened.
    pub result: Result<Event, Failure>,
}

/// The outcome of an invocation that is turned down: the slot stays as it is.
pub open spec fn refuse(slot: Option<Record>, failure: Failure) -> Outcome {
    Outcome { slot, result: Err(failure) }
}

/// What stands in the way when `caller` asks to change or release the slot's record:
/// that there is no record, or that the caller is not its owner.
pub open spec fn guard(slot: Option<Record>, caller: Seq<u8>) -> Option<Failure> {
    match slot {
        None => Some(Failure::NotLive),
        Some(record) => if record.owner == caller {
            None
        } else {
            Some(Failure::Rejected(ErrorCode::NotAuthorized))
        },
    }
}

/// Creation: an empty slot receives a record with the given value, owned by the caller.
pub open spec fn initialize_outcome(slot: Option<Record>, caller: Seq<u8>, value: u64) -> Outcome {
    match slot {
        None => Outcome {
            slot: Some(Record { value, owner: caller }),
            result: Ok(Event::Initialized { value }),
        },
        Some(_) => refuse(slot, Failure::AlreadyLive),
    }
}

/// Overwrite: the owner sets the value; the earlier value plays no part.
pub open spec fn update_outcome(slot: Option<Record>, caller: Seq<u8>, value: u64) -> Outcome {
    match guard(slot, caller) {
        Some(failure) => refuse(slot, failure),
        None => Outcome {
            slot: Some(Record { value, owner: slot->Some_0.owner }),
            result: Ok(Event::Updated { value }),
        },
    }
}

/// Addition: the owner adds `delta`, unless the sum would pass `u64::MAX`.
pub open spec fn add_outcome(slot: Option<Record>, caller: Seq<u8>, delta: u64) -> Outcome {
    match guard(slot, caller) {
        Some(failure) => refuse(slot, failure),
        None => {
            let record = slot->Some_0;
            if record.value + delta > u64::MAX {
                refuse(slot, Failure::Rejected(ErrorCode::CounterOverflow))
            } else {
                let value = (record.value + delta) as u64;
                Outcome {
                    slot: Some(Record { value, owner: record.owner }),
                    result: Ok(Event::Added { delta, value }),
                }
            }
        },
    }
}

/// Subtraction: the owner takes `delta` away, unless the difference would pass zero.
pub open spec fn substract_outcome(slot: Option<Record>, caller: Seq<u8>, delta: u64) -> Outcome {
    match guard(slot, caller) {
        Some(failure) => refuse(slot, failure),
        None => {
            let record = slot->Some_0;
            if delta > record.value {
                refuse(slot, Failure::Rejected(ErrorCode::CounterOverflow))
            } else {
                let value = (record.value - delta) as u64;
                Outcome {
                    slot: Some(Record { value, owner: record.owner }),
                    result: Ok(Event::Subtracted { delta, value }),
                }
            }
        },
    }
}

/// Release: the owner empties the slot.
pub open spec fn terminate_outcome(slot: Option<Record>, caller: Seq<u8>) -> Outcome {
    match guard(slot, caller) {
        Some(failure) => refuse(slot, failure),
        None => Outcome { slot: None, result: Ok(Event::Terminated) },
    }
}

} // verus!
