//! What an invocation reports back: the event it emits, or why it was turned down.

use vstd::prelude::*;

verus! {

/// The two reasons for which the record manager itself turns an invocation down.
///
/// Both directions of leaving the 64-bit range are reported as `CounterOverflow`.
#[derive(Clone, Copy, Debug, PartialEq, Eq)]
pub enum ErrorCode {
    /// The caller is not the owner bound to the record.
    NotAuthorized,
    /// An addition would pass the largest value, or a subtraction would pass zero.
    CounterOverflow,
}

/// Why an invocation left its slot untouched.
#[derive(Clone, Copy, Debug, PartialEq, Eq)]
pub enum Failure {
    /// The slot already holds a record, so none can be created in it.
    AlreadyLive,
    /// The slot holds no record, so there is nothing to change or release.
    NotLive,
    /// The slot holds a record and the record manager refused the call.
    Rejected(ErrorCode),
}

/// The informational event that a successful invocation emits.
#[derive(Clone, Copy, Debug, PartialEq, Eq)]
pub enum Event {
    /// A record was created with this value.
    Initialized { value: u64 },
    /// The value was overwritten with this one.
    Updated { value: u64 },
    /// `delta` was added, which gave `value`.
    Added { delta: u64, value: u64 },
    /// `delta` was taken away, which gave `value`.
    Subtracted { delta: u64, value: u64 },
    /// The record was released.
    Terminated,
}

} // verus!
