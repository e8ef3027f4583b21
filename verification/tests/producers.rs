use inplace::dest::SlotAllocator;
use inplace::values::BarCtor;
use inplace::values::BuildError;
use inplace::values::create_bar;
use inplace::values::create_foo;
use inplace::values::create_thing;
use inplace::values::try_create_thing;

#[test]
fn create_foo_builds_the_literal() {
    let foo = create_foo().into_value();
    assert_eq!(foo.a, 123);
    assert_eq!(foo.b, "hello");
}

#[test]
fn create_thing_defers_with_the_ticket_captured() {
    let thing = create_thing(9).into_value();
    assert_eq!(thing.ticket, 9);
    let released = create_thing(9).release();
    assert_eq!(released, vec![9]);
}

#[test]
fn try_create_thing_rejects_a_zero_seed() {
    match try_create_thing(0) {
        Ok(_) => panic!("a zero seed fails before the deferral point"),
        Err(BuildError::InvalidSeed) => {}
    }
}

#[test]
fn try_create_thing_accepts_a_nonzero_seed() {
    let ctor = try_create_thing(5).ok().expect("a nonzero seed succeeds");
    assert_eq!(ctor.into_value().ticket, 5);
}

#[test]
fn create_bar_executes_both_children_in_order() {
    let ctor = create_bar(2, 3).ok().expect("both helpers succeed");
    let mut alloc = SlotAllocator::new(1);
    let mut dest = alloc
        .allocate(BarCtor::required_layout())
        .expect("one slot was free");
    let mut trace: Vec<u64> = Vec::new();
    ctor.invoke(&mut dest, &mut trace);
    assert_eq!(trace, vec![2, 3]);
    let bar = dest.take_value();
    assert_eq!(bar.baz.weight, 2);
    assert_eq!(bar.quux.weight, 3);
}

#[test]
fn create_bar_fails_when_a_helper_fails() {
    assert!(matches!(create_bar(0, 3), Err(BuildError::InvalidSeed)));
    assert!(matches!(create_bar(2, 0), Err(BuildError::InvalidSeed)));
}

#[test]
fn create_bar_released_unexecuted_returns_both_environments() {
    let ctor = create_bar(4, 5).ok().expect("both helpers succeed");
    assert_eq!(ctor.release(), vec![4, 5]);
}
