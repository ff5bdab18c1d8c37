use bounded_growth::container::{settle, Container};
use bounded_growth::model::{
    AllocationLedger, ContainerState, GrowthAction, GrowthPlan, GrowthRequest,
    InvalidGrowthRequest, RejectionReason, StorageMode, MAX_CAPACITY,
};
use bounded_growth::store::INLINE_CAPACITY;

fn request(requested_capacity: usize) -> GrowthRequest {
    GrowthRequest { requested_capacity }
}

fn filled(count: u8) -> Container {
    let mut c = Container::new();
    for i in 0..count {
        c.push(i).unwrap();
    }
    c
}

fn ascending(count: u8) -> Vec<u8> {
    (0..count).collect()
}

#[test]
fn new_container_is_empty_and_inline() {
    let c = Container::new();
    assert_eq!(INLINE_CAPACITY, 4);
    assert_eq!(c.len(), 0);
    assert_eq!(c.capacity(), 4);
    assert_eq!(c.state(), ContainerState { length: 0, capacity: 4, storage_mode: StorageMode::Inline });
    assert_eq!(c.ledger(), AllocationLedger { acquired: 0, released: 0 });
    assert_eq!(c.buffer_id(), None);
    assert!(c.as_slice().is_empty());
}

#[test]
fn push_appends_in_order() {
    let mut c = Container::new();
    let plan = c.push(7).unwrap();
    assert_eq!(plan, GrowthPlan { new_capacity: 4, action: GrowthAction::NoOp, elements_to_preserve: 0 });
    assert_eq!(c.as_slice(), &[7u8][..]);
    c.push(9).unwrap();
    c.push(7).unwrap();
    assert_eq!(c.as_slice(), &[7u8, 9, 7][..]);
    assert_eq!(c.len(), 3);
    assert_eq!(c.state().storage_mode, StorageMode::Inline);
}

#[test]
fn fifth_push_spills_to_eight_slots() {
    let mut c = filled(4);
    assert_eq!(c.state(), ContainerState { length: 4, capacity: 4, storage_mode: StorageMode::Inline });
    let plan = c.push(4).unwrap();
    assert_eq!(
        plan,
        GrowthPlan { new_capacity: 8, action: GrowthAction::SpillToHeap, elements_to_preserve: 4 }
    );
    assert_eq!(c.state(), ContainerState { length: 5, capacity: 8, storage_mode: StorageMode::Heap });
    assert_eq!(c.ledger(), AllocationLedger { acquired: 1, released: 0 });
    assert_eq!(c.buffer_id(), Some(1));
    assert_eq!(c.as_slice(), &ascending(5)[..]);
}

#[test]
fn capacity_never_falls_below_running_length() {
    let mut c = Container::new();
    let mut capacity_before = c.capacity();
    for i in 0u8..200 {
        c.push(i).unwrap();
        assert_eq!(c.len(), i as usize + 1);
        assert!(c.len() <= c.capacity());
        assert!(c.capacity() >= capacity_before);
        assert_eq!(c.state().length, c.len());
        capacity_before = c.capacity();
    }
    assert_eq!(c.capacity(), 256);
    assert_eq!(c.as_slice(), &ascending(200)[..]);
}

#[test]
fn growth_below_capacity_fails_and_changes_nothing() {
    let mut c = filled(20);
    assert_eq!(c.len(), 20);
    assert_eq!(c.capacity(), 32);
    assert_eq!(c.state().storage_mode, StorageMode::Heap);
    let ledger = c.ledger();
    let id = c.buffer_id();
    let error = c.grow(request(24)).unwrap_err();
    assert_eq!(error, InvalidGrowthRequest { reason: RejectionReason::ShrinkBelowCapacity });
    assert_eq!(c.len(), 20);
    assert_eq!(c.capacity(), 32);
    assert_eq!(c.as_slice(), &ascending(20)[..]);
    assert_eq!(c.ledger(), ledger);
    assert_eq!(c.buffer_id(), id);
    for i in 20u8..32 {
        c.push(i).unwrap();
    }
    assert_eq!(c.capacity(), 32);
    assert_eq!(c.as_slice(), &ascending(32)[..]);
}

#[test]
fn growth_below_length_fails_and_changes_nothing() {
    let mut c = filled(20);
    let before = c.state();
    let ledger = c.ledger();
    for requested in [0usize, 4, 19] {
        let error = c.grow(request(requested)).unwrap_err();
        assert_eq!(error.reason, RejectionReason::ShrinkBelowCapacity);
        assert_eq!(c.state(), before);
        assert_eq!(c.ledger(), ledger);
        assert_eq!(c.as_slice(), &ascending(20)[..]);
    }
    let mut inline = filled(3);
    let error = inline.grow(request(2)).unwrap_err();
    assert_eq!(error.reason, RejectionReason::ShrinkBelowCapacity);
    assert_eq!(inline.as_slice(), &ascending(3)[..]);
    assert_eq!(inline.capacity(), 4);
}

#[test]
fn growth_to_current_capacity_is_a_noop_and_release_is_single() {
    let mut c = filled(20);
    assert_eq!(c.capacity(), 32);
    let ledger = c.ledger();
    let id = c.buffer_id();
    assert_eq!(ledger, AllocationLedger { acquired: 3, released: 2 });
    assert_eq!(id, Some(3));
    let plan = c.grow(request(32)).unwrap();
    assert_eq!(
        plan,
        GrowthPlan { new_capacity: 32, action: GrowthAction::NoOp, elements_to_preserve: 20 }
    );
    assert_eq!(c.ledger(), ledger);
    assert_eq!(c.buffer_id(), id);
    assert_eq!(c.capacity(), 32);
    assert_eq!(c.len(), 20);
    assert_eq!(c.as_slice(), &ascending(20)[..]);
    let closed = c.release();
    assert_eq!(closed.acquired, ledger.acquired);
    assert_eq!(closed.released, ledger.released + 1);
    assert_eq!(closed.acquired, closed.released);
}

#[test]
fn one_buffer_is_acquired_once_and_released_once() {
    let mut c = Container::new();
    let plan = c.grow(request(32)).unwrap();
    assert_eq!(
        plan,
        GrowthPlan { new_capacity: 32, action: GrowthAction::SpillToHeap, elements_to_preserve: 0 }
    );
    for i in 0u8..20 {
        let step = c.push(i).unwrap();
        assert_eq!(step.action, GrowthAction::NoOp);
    }
    assert_eq!(c.capacity(), 32);
    let id = c.buffer_id();
    let plan = c.grow(request(32)).unwrap();
    assert_eq!(plan.action, GrowthAction::NoOp);
    assert_eq!(c.buffer_id(), id);
    assert_eq!(c.ledger(), AllocationLedger { acquired: 1, released: 0 });
    assert_eq!(c.release(), AllocationLedger { acquired: 1, released: 1 });
}

#[test]
fn inline_container_releases_nothing() {
    let c = filled(3);
    assert_eq!(c.release(), AllocationLedger { acquired: 0, released: 0 });
}

#[test]
fn noop_growth_of_an_inline_container() {
    let mut c = filled(2);
    let plan = c.grow(request(4)).unwrap();
    assert_eq!(plan, GrowthPlan { new_capacity: 4, action: GrowthAction::NoOp, elements_to_preserve: 2 });
    assert_eq!(c.state(), ContainerState { length: 2, capacity: 4, storage_mode: StorageMode::Inline });
    assert_eq!(c.buffer_id(), None);
    assert_eq!(c.as_slice(), &ascending(2)[..]);
}

#[test]
fn growth_above_capacity_keeps_every_element_in_order() {
    let mut c = filled(20);
    let before = c.ledger();
    let plan = c.grow(request(100)).unwrap();
    assert_eq!(
        plan,
        GrowthPlan {
            new_capacity: 100,
            action: GrowthAction::ReallocateHeap,
            elements_to_preserve: 20,
        }
    );
    assert_eq!(c.len(), 20);
    assert_eq!(c.capacity(), 100);
    assert!(c.len() <= c.capacity());
    assert_eq!(c.as_slice(), &ascending(20)[..]);
    assert_eq!(
        c.ledger(),
        AllocationLedger { acquired: before.acquired + 1, released: before.released + 1 }
    );
    assert_eq!(c.buffer_id(), Some(before.acquired + 1));
    assert_eq!(c.release(), AllocationLedger { acquired: 4, released: 4 });
}

#[test]
fn growth_of_an_inline_container_spills_and_releases_nothing() {
    let mut c = filled(3);
    let plan = c.grow(request(5)).unwrap();
    assert_eq!(
        plan,
        GrowthPlan { new_capacity: 5, action: GrowthAction::SpillToHeap, elements_to_preserve: 3 }
    );
    assert_eq!(c.state(), ContainerState { length: 3, capacity: 5, storage_mode: StorageMode::Heap });
    assert_eq!(c.ledger(), AllocationLedger { acquired: 1, released: 0 });
    assert_eq!(c.as_slice(), &ascending(3)[..]);
    c.push(3).unwrap();
    c.push(4).unwrap();
    assert_eq!(c.capacity(), 5);
    let plan = c.push(5).unwrap();
    assert_eq!(plan.new_capacity, 8);
    assert_eq!(plan.action, GrowthAction::ReallocateHeap);
    assert_eq!(c.as_slice(), &ascending(6)[..]);
}

#[test]
fn growth_above_the_largest_capacity_overflows_and_changes_nothing() {
    let mut c = filled(20);
    let before = c.state();
    let ledger = c.ledger();
    for requested in [MAX_CAPACITY + 1, usize::MAX] {
        let error = c.grow(request(requested)).unwrap_err();
        assert_eq!(error.reason, RejectionReason::CapacityOverflow);
        assert_eq!(c.state(), before);
        assert_eq!(c.ledger(), ledger);
        assert_eq!(c.as_slice(), &ascending(20)[..]);
    }
}

#[test]
fn growth_the_allocator_refuses_changes_nothing() {
    let mut c = filled(20);
    let before = c.state();
    let ledger = c.ledger();
    match c.grow(request(MAX_CAPACITY)) {
        Ok(plan) => {
            assert_eq!(plan.new_capacity, MAX_CAPACITY);
            assert_eq!(c.capacity(), MAX_CAPACITY);
        }
        Err(error) => {
            assert_eq!(error.reason, RejectionReason::AllocationRefused);
            assert_eq!(c.state(), before);
            assert_eq!(c.ledger(), ledger);
        }
    }
    assert_eq!(c.as_slice(), &ascending(20)[..]);
}

#[test]
fn settle_follows_the_store() {
    let plan =
        GrowthPlan { new_capacity: 64, action: GrowthAction::ReallocateHeap, elements_to_preserve: 9 };
    assert_eq!(settle(plan, Ok(())), Ok(plan));
    assert_eq!(
        settle(plan, Err(smallvec::CollectionAllocErr::CapacityOverflow)),
        Err(InvalidGrowthRequest { reason: RejectionReason::AllocationRefused })
    );
}
