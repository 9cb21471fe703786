use restream::counter::UseCounter;

#[test]
fn counter_starts_at_zero() {
    let counter = UseCounter::new();
    assert_eq!(counter.get_counter(), 0);
    assert!(!counter.has_users());
}

#[test]
fn permit_activation_is_counted_once() {
    // activate(); activate(); deactivate() leaves the counter where
    // a single activate-deactivate pair would: activation is
    // ref-counted per permit, not per call.
    let mut counter = UseCounter::new();
    let mut permit = counter.subscribe();
    counter.activate(&mut permit);
    assert_eq!(counter.get_counter(), 1);
    counter.activate(&mut permit);
    assert_eq!(counter.get_counter(), 1);
    counter.deactivate(&mut permit);
    assert_eq!(counter.get_counter(), 0);
}

#[test]
fn deactivate_is_idempotent() {
    let mut counter = UseCounter::new();
    let mut permit = counter.subscribe();
    counter.deactivate(&mut permit);
    assert_eq!(counter.get_counter(), 0);
    counter.activate(&mut permit);
    counter.deactivate(&mut permit);
    counter.deactivate(&mut permit);
    assert_eq!(counter.get_counter(), 0);
}

#[test]
fn several_permits_aggregate() {
    let mut counter = UseCounter::new();
    let mut a = counter.subscribe();
    let mut b = counter.subscribe();
    counter.activate(&mut a);
    counter.activate(&mut b);
    assert_eq!(counter.get_counter(), 2);
    assert!(counter.has_users());
    counter.deactivate(&mut a);
    assert_eq!(counter.get_counter(), 1);
    assert!(counter.has_users());
    counter.deactivate(&mut b);
    assert!(!counter.has_users());
}

#[test]
fn dropping_a_permit_deactivates_it() {
    let mut counter = UseCounter::new();
    let mut p = counter.subscribe();
    counter.activate(&mut p);
    assert_eq!(counter.get_counter(), 1);
    counter.release(p);
    assert_eq!(counter.get_counter(), 0);
}

#[test]
fn rapid_flap_keeps_parity() {
    // Many activation flaps: the count always returns to what the
    // active permits say, no wake-up lost.
    let mut counter = UseCounter::new();
    let mut p = counter.subscribe();
    for _ in 0..100 {
        counter.activate(&mut p);
        assert_eq!(counter.get_counter(), 1);
        counter.deactivate(&mut p);
        assert_eq!(counter.get_counter(), 0);
    }
}
