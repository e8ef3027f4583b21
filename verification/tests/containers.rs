use inplace::container::DstArray;
use inplace::container::InplaceError;
use inplace::container::InplaceVec;
use inplace::ctor::DeferredCtor;
use inplace::dest::SlotAllocator;
use inplace::driver::MaterializeOutcome;
use inplace::driver::materialize;
use inplace::driver::push;
use inplace::dual::DualValue;
use inplace::layout::Layout;

#[test]
fn direct_materialize_preserves_the_value() {
    let value = DualValue::Direct(41u64);
    let layout = Layout::for_maybe_inplace_value(&value);
    let mut alloc = SlotAllocator::new(1);
    let storage = alloc.allocate::<u64>(layout);
    match materialize(value, storage) {
        MaterializeOutcome::Completed(dest) => assert_eq!(dest.take_value(), 41),
        MaterializeOutcome::AllocationAbsent { .. } => panic!("storage was present"),
    }
}

#[test]
fn materialize_without_storage_releases_unexecuted() {
    let value = DualValue::Deferred(DeferredCtor::new(1u64, vec![7, 8]));
    match materialize(value, None) {
        MaterializeOutcome::Completed(_) => panic!("no storage was given"),
        MaterializeOutcome::AllocationAbsent { released } => assert_eq!(released, vec![7, 8]),
    }
}

#[test]
fn dual_push_paths_give_equal_containers() {
    let mut direct: InplaceVec<u64> = InplaceVec::new();
    let mut deferred: InplaceVec<u64> = InplaceVec::new();
    direct.push(DualValue::Direct(7));
    deferred.push(DualValue::Deferred(DeferredCtor::wrap_as_constructor(7)));
    assert_eq!(direct.len(), deferred.len());
    assert_eq!(direct.index(0), deferred.index(0));
}

#[test]
fn one_slot_allocator_second_append_is_absent() {
    let mut vec: InplaceVec<u64> = InplaceVec::new();
    let mut alloc = SlotAllocator::new(1);
    let first = vec.try_push(DualValue::Direct(5), &mut alloc);
    assert!(first.is_ok());
    let second = vec.try_push(
        DualValue::Deferred(DeferredCtor::new(8u64, vec![4, 5])),
        &mut alloc,
    );
    match second {
        Ok(()) => panic!("the single slot was already used"),
        Err(InplaceError::AllocationAbsent { released }) => assert_eq!(released, vec![4, 5]),
    }
    assert_eq!(vec.len(), 1);
    assert_eq!(*vec.index(0), 5);
}

#[test]
fn dst_array_accepts_until_capacity() {
    let mut arr: DstArray<u64> = DstArray::new(1);
    assert!(arr.append(DualValue::Direct(11)));
    assert!(!arr.append(DualValue::Deferred(DeferredCtor::new(12u64, vec![9]))));
    assert_eq!(arr.len(), 1);
    assert_eq!(*arr.get(0), 11);
}

#[test]
fn free_push_fills_an_owned_location() {
    let mut slot: Option<u64> = None;
    push(&mut slot, DualValue::Direct(3));
    assert_eq!(slot, Some(3));
    let mut other: Option<u64> = None;
    push(&mut other, DualValue::Deferred(DeferredCtor::wrap_as_constructor(4)));
    assert_eq!(other, Some(4));
}

#[test]
fn oracle_answer_decides_the_wrapping() {
    match DualValue::wrap_with_certificate(6u64, true) {
        DualValue::Deferred(c) => assert_eq!(c.into_value(), 6),
        DualValue::Direct(_) => panic!("a certified expression is deferred"),
    }
    match DualValue::wrap_with_certificate(6u64, false) {
        DualValue::Direct(v) => assert_eq!(v, 6),
        DualValue::Deferred(_) => panic!("without certification the value is eager"),
    }
}

#[test]
fn defer_keeps_the_logical_value() {
    let deferred = DualValue::Direct(5u64).defer();
    match deferred {
        DualValue::Deferred(c) => assert_eq!(c.into_value(), 5),
        DualValue::Direct(_) => panic!("defer always yields a constructor"),
    }
}
