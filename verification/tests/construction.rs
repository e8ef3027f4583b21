use inplace::ctor::ComposedCtor;
use inplace::ctor::DeferredCtor;
use inplace::dest::SlotAllocator;
use inplace::layout::Layout;
use inplace::layout::describe;

#[test]
fn describe_agrees_for_wrapped_value() {
    let v: u64 = 7;
    let measured = describe(&v);
    let ctor = DeferredCtor::wrap_as_constructor(v);
    let deferred_answer = Layout::for_inplace_value(&ctor);
    assert_eq!(measured, deferred_answer);
    assert_eq!(measured.size, core::mem::size_of::<u64>());
    assert_eq!(measured.align, core::mem::align_of::<u64>());
}

#[test]
fn wrap_then_execute_yields_same_value() {
    let ctor = DeferredCtor::wrap_as_constructor(99u64);
    assert_eq!(ctor.into_value(), 99);
}

#[test]
fn release_returns_each_captured_resource_once() {
    let ctor = DeferredCtor::new(5u64, vec![10, 20, 30]);
    let released = ctor.release();
    assert_eq!(released, vec![10, 20, 30]);
}

#[test]
fn composed_children_execute_in_declaration_order() {
    let children = vec![
        DeferredCtor::new(10u64, vec![1]),
        DeferredCtor::new(20u64, vec![2]),
        DeferredCtor::new(30u64, vec![3]),
    ];
    let composed = ComposedCtor::compose(children);
    let mut alloc = SlotAllocator::new(1);
    let mut dest = alloc
        .allocate::<Vec<u64>>(ComposedCtor::<u64>::required_layout())
        .unwrap();
    let mut trace: Vec<u64> = Vec::new();
    composed.invoke(&mut dest, &mut trace);
    assert_eq!(trace, vec![1, 2, 3]);
    let aggregate = dest.take_value();
    assert_eq!(aggregate, vec![10, 20, 30]);
}

#[test]
fn composed_release_hands_back_every_child_environment() {
    let children = vec![
        DeferredCtor::new(10u64, vec![1]),
        DeferredCtor::new(20u64, vec![2, 4]),
        DeferredCtor::new(30u64, vec![3]),
    ];
    let composed = ComposedCtor::compose(children);
    assert_eq!(composed.release(), vec![1, 2, 4, 3]);
}
