//! What holds of the record manager whatever the inputs are.
//!
//! The laws are stated over the state machine of `model`, which is what the
//! contracts of the five operations are stated over as well.

use vstd::prelude::*;
use crate::model::{
    add_outcome, initialize_outcome, refuse, substract_outcome, terminate_outcome, update_outcome,
};
use crate::outcome::{ErrorCode, Event, Failure};
use crate::record::Record;

verus! {

/// Creation binds ownership: after a record is created in an empty slot, the slot
/// holds exactly the value that was given and the caller as owner.
pub proof fn law_initialize_binds_owner(caller: Seq<u8>, value: u64)
    ensures
        initialize_outcome(None, caller, value).slot == Some(Record { value, owner: caller }),
        initialize_outcome(None, caller, value).result == Ok::<Event, Failure>(
            Event::Initialized { value },
        ),
{
}

/// A record is created once: creation in a slot that holds a record fails, and
/// the record, its owner included, stays as it is.
pub proof fn law_initialize_only_once(record: Record, caller: Seq<u8>, value: u64)
    ensures
        initialize_outcome(Some(record), caller, value) == refuse(
            Some(record),
            Failure::AlreadyLive,
        ),
{
}

/// Strangers are turned away: once `owner` has created a record, every change
/// and the release asked for by anyone else fail with `NotAuthorized`, and the
/// record stays as it is.
pub proof fn law_stranger_is_refused(
    owner: Seq<u8>,
    stranger: Seq<u8>,
    initial: u64,
    argument: u64,
)
    requires
        stranger != owner,
    ensures
        ({
            let live = initialize_outcome(None, owner, initial).slot;
            let refused = refuse(live, Failure::Rejected(ErrorCode::NotAuthorized));
            &&& live == Some(Record { value: initial, owner })
            &&& update_outcome(live, stranger, argument) == refused
            &&& add_outcome(live, stranger, argument) == refused
            &&& substract_outcome(live, stranger, argument) == refused
            &&& terminate_outcome(live, stranger) == refused
        }),
{
}

/// The same holds in every state: whatever a live record holds, a caller other
/// than its owner gets `NotAuthorized` from every change and from the release,
/// and the record stays as it is.
pub proof fn law_only_owner_passes(record: Record, caller: Seq<u8>, argument: u64)
    requires
        caller != record.owner,
    ensures
        ({
            let refused = refuse(Some(record), Failure::Rejected(ErrorCode::NotAuthorized));
            &&& update_outcome(Some(record), caller, argument) == refused
            &&& add_outcome(Some(record), caller, argument) == refused
            &&& substract_outcome(Some(record), caller, argument) == refused
            &&& terminate_outcome(Some(record), caller) == refused
        }),
{
}

/// The owner is bound for life: no operation, by whomever and with whatever
/// argument, leaves a live record with another owner than it had.
pub proof fn law_owner_never_changes(record: Record, caller: Seq<u8>, argument: u64)
    ensures
        initialize_outcome(Some(record), caller, argument).slot matches Some(after)
            ==> after.owner == record.owner,
        update_outcome(Some(record), caller, argument).slot matches Some(after) ==> after.owner
            == record.owner,
        add_outcome(Some(record), caller, argument).slot matches Some(after) ==> after.owner
            == record.owner,
        substract_outcome(Some(record), caller, argument).slot matches Some(after) ==> after.owner
            == record.owner,
        terminate_outcome(Some(record), caller).slot matches Some(after) ==> after.owner
            == record.owner,
{
}

/// All or nothing: an operation that reports a failure leaves the slot exactly as
/// it found it.
pub proof fn law_failure_changes_nothing(slot: Option<Record>, caller: Seq<u8>, argument: u64)
    ensures
        initialize_outcome(slot, caller, argument).result is Err ==> initialize_outcome(
            slot,
            caller,
            argument,
        ).slot == slot,
        update_outcome(slot, caller, argument).result is Err ==> update_outcome(
            slot,
            caller,
            argument,
        ).slot == slot,
        add_outcome(slot, caller, argument).result is Err ==> add_outcome(
            slot,
            caller,
            argument,
        ).slot == slot,
        substract_outcome(slot, caller, argument).result is Err ==> substract_outcome(
            slot,
            caller,
            argument,
        ).slot == slot,
        terminate_outcome(slot, caller).result is Err ==> terminate_outcome(slot, caller).slot
            == slot,
{
}

/// Addition never wraps: asked for by the owner, it succeeds exactly when the
/// sum fits in 64 bits, and then the new value is that sum; otherwise it fails
/// with `CounterOverflow` and the record stays as it is.
pub proof fn law_add_is_exact(record: Record, delta: u64)
    ensures
        ({
            let outcome = add_outcome(Some(record), record.owner, delta);
            if record.value + delta <= u64::MAX {
                &&& outcome.slot matches Some(after)
                &&& after.value == record.value + delta
                &&& after.owner == record.owner
                &&& outcome.result == Ok::<Event, Failure>(
                    Event::Added { delta, value: after.value },
                )
            } else {
                outcome == refuse(Some(record), Failure::Rejected(ErrorCode::CounterOverflow))
            }
        }),
{
}

/// Subtraction never wraps: asked for by the owner, it succeeds exactly when
/// `delta` is at most the value, and then the new value is the difference;
/// otherwise it fails with `CounterOverflow` and the record stays as it is.
pub proof fn law_substract_is_exact(record: Record, delta: u64)
    ensures
        ({
            let outcome = substract_outcome(Some(record), record.owner, delta);
            if delta <= record.value {
                &&& outcome.slot matches Some(after)
                &&& after.value == record.value - delta
                &&& after.owner == record.owner
                &&& outcome.result == Ok::<Event, Failure>(
                    Event::Subtracted { delta, value: after.value },
                )
            } else {
                outcome == refuse(Some(record), Failure::Rejected(ErrorCode::CounterOverflow))
            }
        }),
{
}

/// Subtraction undoes addition: when the owner adds `delta` and the sum fits,
/// taking `delta` away again gives back the record as it was.
pub proof fn law_substract_undoes_add(record: Record, delta: u64)
    requires
        record.value + delta <= u64::MAX,
    ensures
        substract_outcome(
            add_outcome(Some(record), record.owner, delta).slot,
            record.owner,
            delta,
        ).slot == Some(record),
{
}

/// Overwriting does not look at what was there: asked for by the owner, an
/// update leaves the given value, whatever the record held before.
pub proof fn law_update_overwrites(record: Record, value: u64)
    ensures
        update_outcome(Some(record), record.owner, value).slot == Some(
            Record { value, owner: record.owner },
        ),
        update_outcome(Some(record), record.owner, value).result == Ok::<Event, Failure>(
            Event::Updated { value },
        ),
{
}

/// Overwriting is idempotent, and the last overwrite wins: in every state and for
/// every caller, a second update with the same value changes nothing more, and
/// an update that follows another leaves what it alone would have left.
pub proof fn law_update_is_idempotent(
    slot: Option<Record>,
    caller: Seq<u8>,
    first: u64,
    second: u64,
)
    ensures
        update_outcome(update_outcome(slot, caller, first).slot, caller, first) == update_outcome(
            slot,
            caller,
            first,
        ),
        update_outcome(update_outcome(slot, caller, first).slot, caller, second) == update_outcome(
            slot,
            caller,
            second,
        ),
{
}

/// Release is final: when the owner releases a record the slot is empty, and on
/// an empty slot every change and every further release fail with `NotLive` and
/// leave it empty, whoever asks; only a new creation can follow.
pub proof fn law_terminate_is_final(record: Record, caller: Seq<u8>, argument: u64)
    ensures
        ({
            let released = terminate_outcome(Some(record), record.owner);
            let refused = refuse(None, Failure::NotLive);
            &&& released.slot is None
            &&& released.result == Ok::<Event, Failure>(Event::Terminated)
            &&& update_outcome(released.slot, caller, argument) == refused
            &&& add_outcome(released.slot, caller, argument) == refused
            &&& substract_outcome(released.slot, caller, argument) == refused
            &&& terminate_outcome(released.slot, caller) == refused
            &&& initialize_outcome(released.slot, caller, argument).slot == Some(
                Record { value: argument, owner: caller },
            )
        }),
{
}

} // verus!
