//! The five operations of the record manager.
//!
//! Each one is a single step: it either changes the slot and reports an event, or
//! reports a failure and leaves everything as it was.

use vstd::prelude::*;
use crate::accounts::{Initialize, Terminate, Update};
use crate::model::{
    add_outcome, initialize_outcome, substract_outcome, terminate_outcome, update_outcome,
};
use crate::outcome::{ErrorCode, Event, Failure};
use crate::record::{Counter, Slot};

verus! {

/// Creates the record: an empty slot receives `data` as its value and the caller as
/// its owner. A slot that already holds a record is left alone, with `AlreadyLive`.
pub fn initialize(ctx: &mut Initialize, data: u64) -> (result: Result<Event, Failure>)
    ensures
        final(ctx).authority == old(ctx).authority,
        final(ctx).counter@ == initialize_outcome(
            old(ctx).counter@,
            old(ctx).authority@,
            data,
        ).slot,
        result == initialize_outcome(
            old(ctx).counter@,
            old(ctx).authority@,
            data,
        ).result,
        result is Err ==> *final(ctx) == *old(ctx),
{
    match ctx.counter {
        Slot::Live(_) => Err(Failure::AlreadyLive),
        Slot::Absent => {
            ctx.counter = Slot::Live(Counter::new(data, ctx.authority));
            Ok(Event::Initialized { value: data })
        },
    }
}

/// Releases the record: asked for by the owner, the slot becomes empty. Anyone else
/// gets `NotAuthorized`, and an empty slot gives `NotLive`.
pub fn terminate(ctx: &mut Terminate) -> (result: Result<Event, Failure>)
    ensures
        final(ctx).authority == old(ctx).authority,
        final(ctx).counter@ == terminate_outcome(
            old(ctx).counter@,
            old(ctx).authority@,
        ).slot,
        result == terminate_outcome(
            old(ctx).counter@,
            old(ctx).authority@,
        ).result,
        result is Err ==> *final(ctx) == *old(ctx),
{
    match ctx.counter {
        Slot::Absent => Err(Failure::NotLive),
        Slot::Live(counter) => match counter.authorize(&ctx.authority) {
            Err(code) => Err(Failure::Rejected(code)),
            Ok(()) => {
                ctx.counter = Slot::Absent;
                Ok(Event::Terminated)
            },
        },
    }
}

/// Overwrites the value with `quantity`, whatever it was. Anyone but the owner gets
/// `NotAuthorized`, and an empty slot gives `NotLive`.
pub fn update(ctx: &mut Update, quantity: u64) -> (result: Result<Event, Failure>)
    ensures
        final(ctx).authority == old(ctx).authority,
        final(ctx).counter@ == update_outcome(
            old(ctx).counter@,
            old(ctx).authority@,
            quantity,
        ).slot,
        result == update_outcome(
            old(ctx).counter@,
            old(ctx).authority@,
            quantity,
        ).result,
        result is Err ==> *final(ctx) == *old(ctx),
{
    match ctx.counter {
        Slot::Absent => Err(Failure::NotLive),
        Slot::Live(counter) => match counter.authorize(&ctx.authority) {
            Err(code) => Err(Failure::Rejected(code)),
            Ok(()) => {
                ctx.counter = Slot::Live(Counter::new(quantity, counter.owner()));
                Ok(Event::Updated { value: quantity })
            },
        },
    }
}

/// Adds `quantity` to the value. A sum above `u64::MAX` gives `CounterOverflow`,
/// anyone but the owner gets `NotAuthorized`, and an empty slot gives `NotLive`.
pub fn add(ctx: &mut Update, quantity: u64) -> (result: Result<Event, Failure>)
    ensures
        final(ctx).authority == old(ctx).authority,
        final(ctx).counter@ == add_outcome(
            old(ctx).counter@,
            old(ctx).authority@,
            quantity,
        ).slot,
        result == add_outcome(
            old(ctx).counter@,
            old(ctx).authority@,
            quantity,
        ).result,
        result is Err ==> *final(ctx) == *old(ctx),
{
    match ctx.counter {
        Slot::Absent => Err(Failure::NotLive),
        Slot::Live(counter) => match counter.authorize(&ctx.authority) {
            Err(code) => Err(Failure::Rejected(code)),
            Ok(()) => match counter.value().checked_add(quantity) {
                None => Err(Failure::Rejected(ErrorCode::CounterOverflow)),
                Some(sum) => {
                    ctx.counter = Slot::Live(Counter::new(sum, counter.owner()));
                    Ok(Event::Added { delta: quantity, value: sum })
                },
            },
        },
    }
}

/// Takes `quantity` away from the value. A `quantity` above the value gives
/// `CounterOverflow`, anyone but the owner gets `NotAuthorized`, and an empty slot
/// gives `NotLive`.
pub fn substract(ctx: &mut Update, quantity: u64) -> (result: Result<Event, Failure>)
    ensures
        final(ctx).authority == old(ctx).authority,
        final(ctx).counter@ == substract_outcome(
            old(ctx).counter@,
            old(ctx).authority@,
            quantity,
        ).slot,
        result == substract_outcome(
            old(ctx).counter@,
            old(ctx).authority@,
            quantity,
        ).result,
        result is Err ==> *final(ctx) == *old(ctx),
{
    match ctx.counter {
        Slot::Absent => Err(Failure::NotLive),
        Slot::Live(counter) => match counter.authorize(&ctx.authority) {
            Err(code) => Err(Failure::Rejected(code)),
            Ok(()) => match counter.value().checked_sub(quantity) {
                None => Err(Failure::Rejected(ErrorCode::CounterOverflow)),
                Some(rest) => {
                    ctx.counter = Slot::Live(Counter::new(rest, counter.owner()));
                    Ok(Event::Subtracted { delta: quantity, value: rest })
                },
            },
        },
    }
}

} // verus!
