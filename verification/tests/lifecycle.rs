use counter::counter::{initialize, substract, terminate, update};
use counter::{
    Counter, ErrorCode, Event, Failure, Identity, Initialize, Slot, Terminate, Update,
};

fn alice() -> Identity {
    Identity::new([0xA1; 32])
}

fn bob() -> Identity {
    Identity::new([0xB0; 32])
}

fn created(value: u64, owner: Identity) -> Slot {
    let mut ctx = Initialize { counter: Slot::Absent, authority: owner };
    assert_eq!(initialize(&mut ctx, value), Ok(Event::Initialized { value }));
    ctx.counter
}

fn value_of(slot: Slot) -> u64 {
    match slot {
        Slot::Live(record) => record.value(),
        Slot::Absent => panic!("the slot holds no record"),
    }
}

#[test]
fn initialize_binds_owner_and_value() {
    for value in [0, 1, 10, 1 << 32, u64::MAX - 1, u64::MAX] {
        let mut ctx = Initialize { counter: Slot::Absent, authority: alice() };
        assert_eq!(initialize(&mut ctx, value), Ok(Event::Initialized { value }));
        assert_eq!(ctx.authority, alice());
        assert_eq!(ctx.counter, Slot::Live(Counter::new(value, alice())));
        let record = ctx.counter.record().unwrap();
        assert_eq!(record.value(), value);
        assert_eq!(record.owner(), alice());
        assert_ne!(record.owner(), bob());
    }
}

#[test]
fn initialize_refuses_a_live_slot() {
    let slot = created(4, alice());
    let mut again = Initialize { counter: slot, authority: bob() };
    assert_eq!(initialize(&mut again, 9), Err(Failure::AlreadyLive));
    assert_eq!(again.counter, slot);
    assert_eq!(again.counter.record().unwrap().owner(), alice());
    assert_eq!(value_of(again.counter), 4);

    let mut by_owner = Initialize { counter: slot, authority: alice() };
    assert_eq!(initialize(&mut by_owner, 9), Err(Failure::AlreadyLive));
    assert_eq!(by_owner.counter, slot);
}

#[test]
fn stranger_is_refused_by_every_operation() {
    let refused = Err(Failure::Rejected(ErrorCode::NotAuthorized));
    for initial in [0, 7, u64::MAX] {
        let slot = created(initial, alice());

        let mut ctx = Update { counter: slot, authority: bob() };
        assert_eq!(update(&mut ctx, 99), refused);
        assert_eq!(ctx, Update { counter: slot, authority: bob() });

        assert_eq!(counter::counter::add(&mut ctx, 0), refused);
        assert_eq!(counter::counter::add(&mut ctx, 1), refused);
        assert_eq!(ctx.counter, slot);

        assert_eq!(substract(&mut ctx, 0), refused);
        assert_eq!(substract(&mut ctx, 1), refused);
        assert_eq!(ctx.counter, slot);

        let mut end = Terminate { counter: slot, authority: bob() };
        assert_eq!(terminate(&mut end), refused);
        assert_eq!(end, Terminate { counter: slot, authority: bob() });
        assert_eq!(value_of(end.counter), initial);
        assert_eq!(end.counter.record().unwrap().owner(), alice());
    }
}

#[test]
fn authorization_is_checked_before_the_arithmetic() {
    let refused = Err(Failure::Rejected(ErrorCode::NotAuthorized));
    let top = created(u64::MAX, alice());
    let mut ctx = Update { counter: top, authority: bob() };
    assert_eq!(counter::counter::add(&mut ctx, 1), refused);
    let bottom = created(0, alice());
    let mut ctx = Update { counter: bottom, authority: bob() };
    assert_eq!(substract(&mut ctx, 1), refused);
}

#[test]
fn add_past_the_maximum_is_rejected() {
    let mut ctx = Update { counter: created(u64::MAX, alice()), authority: alice() };
    assert_eq!(
        counter::counter::add(&mut ctx, 1),
        Err(Failure::Rejected(ErrorCode::CounterOverflow))
    );
    assert_eq!(value_of(ctx.counter), u64::MAX);
    assert_eq!(ctx.counter, Slot::Live(Counter::new(u64::MAX, alice())));
}

#[test]
fn add_is_exact_up_to_the_maximum() {
    let mut ctx = Update { counter: created(40, alice()), authority: alice() };
    assert_eq!(counter::counter::add(&mut ctx, 2), Ok(Event::Added { delta: 2, value: 42 }));
    assert_eq!(value_of(ctx.counter), 42);
    assert_eq!(counter::counter::add(&mut ctx, 0), Ok(Event::Added { delta: 0, value: 42 }));
    assert_eq!(value_of(ctx.counter), 42);
    assert_eq!(
        counter::counter::add(&mut ctx, u64::MAX - 42),
        Ok(Event::Added { delta: u64::MAX - 42, value: u64::MAX })
    );
    assert_eq!(value_of(ctx.counter), u64::MAX);
    assert_eq!(counter::counter::add(&mut ctx, 0), Ok(Event::Added { delta: 0, value: u64::MAX }));
    assert_eq!(
        counter::counter::add(&mut ctx, u64::MAX),
        Err(Failure::Rejected(ErrorCode::CounterOverflow))
    );
    assert_eq!(value_of(ctx.counter), u64::MAX);

    let mut near = Update { counter: created(u64::MAX - 5, alice()), authority: alice() };
    assert_eq!(
        counter::counter::add(&mut near, 6),
        Err(Failure::Rejected(ErrorCode::CounterOverflow))
    );
    assert_eq!(value_of(near.counter), u64::MAX - 5);
    assert_eq!(
        counter::counter::add(&mut near, 5),
        Ok(Event::Added { delta: 5, value: u64::MAX })
    );
}

#[test]
fn substract_below_zero_is_rejected() {
    let mut ctx = Update { counter: created(0, alice()), authority: alice() };
    assert_eq!(substract(&mut ctx, 1), Err(Failure::Rejected(ErrorCode::CounterOverflow)));
    assert_eq!(value_of(ctx.counter), 0);
    assert_eq!(ctx.counter, Slot::Live(Counter::new(0, alice())));
}

#[test]
fn substract_is_exact_down_to_zero() {
    let mut ctx = Update { counter: created(42, alice()), authority: alice() };
    assert_eq!(substract(&mut ctx, 2), Ok(Event::Subtracted { delta: 2, value: 40 }));
    assert_eq!(value_of(ctx.counter), 40);
    assert_eq!(substract(&mut ctx, 0), Ok(Event::Subtracted { delta: 0, value: 40 }));
    assert_eq!(substract(&mut ctx, 41), Err(Failure::Rejected(ErrorCode::CounterOverflow)));
    assert_eq!(value_of(ctx.counter), 40);
    assert_eq!(substract(&mut ctx, 40), Ok(Event::Subtracted { delta: 40, value: 0 }));
    assert_eq!(value_of(ctx.counter), 0);
    assert_eq!(substract(&mut ctx, 0), Ok(Event::Subtracted { delta: 0, value: 0 }));
    assert_eq!(
        substract(&mut ctx, u64::MAX),
        Err(Failure::Rejected(ErrorCode::CounterOverflow))
    );

    let mut top = Update { counter: created(u64::MAX, alice()), authority: alice() };
    assert_eq!(
        substract(&mut top, u64::MAX),
        Ok(Event::Subtracted { delta: u64::MAX, value: 0 })
    );
}

#[test]
fn substract_undoes_add() {
    let start = created(1000, alice());
    let mut ctx = Update { counter: start, authority: alice() };
    assert!(counter::counter::add(&mut ctx, 234).is_ok());
    assert_eq!(value_of(ctx.counter), 1234);
    assert!(substract(&mut ctx, 234).is_ok());
    assert_eq!(ctx.counter, start);
}

#[test]
fn update_overwrites_whatever_was_there() {
    let mut ctx = Update { counter: created(5, alice()), authority: alice() };
    assert_eq!(update(&mut ctx, 5), Ok(Event::Updated { value: 5 }));
    assert_eq!(value_of(ctx.counter), 5);
    assert_eq!(update(&mut ctx, 7), Ok(Event::Updated { value: 7 }));
    assert_eq!(value_of(ctx.counter), 7);
    assert_eq!(ctx.counter, Slot::Live(Counter::new(7, alice())));

    assert_eq!(update(&mut ctx, u64::MAX), Ok(Event::Updated { value: u64::MAX }));
    assert_eq!(update(&mut ctx, 0), Ok(Event::Updated { value: 0 }));
    assert_eq!(update(&mut ctx, 0), Ok(Event::Updated { value: 0 }));
    assert_eq!(ctx.counter, Slot::Live(Counter::new(0, alice())));
    assert_eq!(ctx.authority, alice());
}

#[test]
fn terminate_is_final() {
    let mut end = Terminate { counter: created(3, alice()), authority: alice() };
    assert_eq!(terminate(&mut end), Ok(Event::Terminated));
    assert_eq!(end.counter, Slot::Absent);
    assert_eq!(end.counter.record(), None);
    assert_eq!(end.authority, alice());

    for caller in [alice(), bob()] {
        let mut ctx = Update { counter: end.counter, authority: caller };
        assert_eq!(update(&mut ctx, 1), Err(Failure::NotLive));
        assert_eq!(counter::counter::add(&mut ctx, 1), Err(Failure::NotLive));
        assert_eq!(substract(&mut ctx, 1), Err(Failure::NotLive));
        assert_eq!(substract(&mut ctx, 0), Err(Failure::NotLive));
        assert_eq!(ctx.counter, Slot::Absent);

        let mut again = Terminate { counter: end.counter, authority: caller };
        assert_eq!(terminate(&mut again), Err(Failure::NotLive));
        assert_eq!(again.counter, Slot::Absent);
    }
}

#[test]
fn a_released_slot_can_start_a_new_life() {
    let mut end = Terminate { counter: created(3, alice()), authority: alice() };
    assert_eq!(terminate(&mut end), Ok(Event::Terminated));

    let mut fresh = Initialize { counter: end.counter, authority: bob() };
    assert_eq!(initialize(&mut fresh, 8), Ok(Event::Initialized { value: 8 }));
    assert_eq!(fresh.counter, Slot::Live(Counter::new(8, bob())));

    let mut by_old_owner = Update { counter: fresh.counter, authority: alice() };
    assert_eq!(
        update(&mut by_old_owner, 1),
        Err(Failure::Rejected(ErrorCode::NotAuthorized))
    );
    let mut by_new_owner = Update { counter: fresh.counter, authority: bob() };
    assert_eq!(update(&mut by_new_owner, 1), Ok(Event::Updated { value: 1 }));
}

#[test]
fn a_counter_lives_and_ends() {
    let slot = created(10, alice());

    let mut ctx = Update { counter: slot, authority: alice() };
    assert_eq!(counter::counter::add(&mut ctx, 5), Ok(Event::Added { delta: 5, value: 15 }));
    assert_eq!(value_of(ctx.counter), 15);

    assert_eq!(substract(&mut ctx, 20), Err(Failure::Rejected(ErrorCode::CounterOverflow)));
    assert_eq!(value_of(ctx.counter), 15);

    assert_eq!(substract(&mut ctx, 15), Ok(Event::Subtracted { delta: 15, value: 0 }));
    assert_eq!(value_of(ctx.counter), 0);

    let mut by_bob = Terminate { counter: ctx.counter, authority: bob() };
    assert_eq!(terminate(&mut by_bob), Err(Failure::Rejected(ErrorCode::NotAuthorized)));
    assert_eq!(by_bob.counter, ctx.counter);

    let mut by_alice = Terminate { counter: by_bob.counter, authority: alice() };
    assert_eq!(terminate(&mut by_alice), Ok(Event::Terminated));
    assert_eq!(by_alice.counter, Slot::Absent);
}

#[test]
fn the_owner_stays_through_every_change() {
    let mut ctx = Update { counter: created(1, alice()), authority: alice() };
    assert!(update(&mut ctx, 50).is_ok());
    assert_eq!(ctx.counter.record().unwrap().owner(), alice());
    assert!(counter::counter::add(&mut ctx, 50).is_ok());
    assert_eq!(ctx.counter.record().unwrap().owner(), alice());
    assert!(substract(&mut ctx, 100).is_ok());
    assert_eq!(ctx.counter.record().unwrap().owner(), alice());
    assert!(substract(&mut ctx, 1).is_err());
    assert_eq!(ctx.counter.record().unwrap().owner(), alice());
    assert_eq!(ctx.authority, alice());
}
