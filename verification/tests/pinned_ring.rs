use inplace::dest::SlotAllocator;
use inplace::pinned::ListHead;
use inplace::pinned::ListHeadCtor;
use inplace::pinned::build_ring;

#[test]
fn two_node_ring_links_reach_the_sibling() {
    let mut alloc = SlotAllocator::new(2);
    let (a, b) = build_ring(&mut alloc).expect("two slots were free");
    let addr_a = a.address();
    let addr_b = b.address();
    assert_ne!(addr_a, addr_b);
    let head_a = a.take_value();
    let head_b = b.take_value();
    assert_eq!(head_a.next, addr_b);
    assert_eq!(head_a.prev, addr_b);
    assert_eq!(head_b.next, addr_a);
    assert_eq!(head_b.prev, addr_a);
}

#[test]
fn ring_is_absent_when_capacity_is_short() {
    let mut alloc = SlotAllocator::new(1);
    assert!(build_ring(&mut alloc).is_none());
    assert_eq!(alloc.used(), 0);
}

#[test]
fn self_referential_node_stores_its_own_address() {
    let ctor = ListHead::new();
    let mut alloc = SlotAllocator::new(1);
    let mut dest = alloc
        .allocate::<ListHead>(ListHeadCtor::required_layout())
        .expect("one slot was free");
    let addr = dest.address();
    ctor.invoke_at(&mut dest);
    let head = dest.take_value();
    assert_eq!(head.prev, addr);
    assert_eq!(head.next, addr);
}
