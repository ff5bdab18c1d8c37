//! What holds of every growth decision, proved from the calculator's
//! definition.

use vstd::prelude::*;
use vstd::arithmetic::power2::is_pow2;
use crate::model::{
    AllocationLedger, ContainerState, GrowthAction, GrowthPlan, InvalidGrowthRequest,
    RejectionReason, StorageMode, MAX_CAPACITY,
};
use crate::plan::{growth_plan, lemma_pow2_above_exceeds, pow2_above, push_plan, transition_from};

verus! {

/// A request is refused as a shrink exactly when it is below the live
/// length or below the current capacity. In particular no request below
/// the length is ever admitted.
pub proof fn law_shrink_is_refused(state: ContainerState, requested: usize)
    ensures
        growth_plan(state, requested) == Err::<GrowthPlan, InvalidGrowthRequest>(
            InvalidGrowthRequest { reason: RejectionReason::ShrinkBelowCapacity },
        ) <==> requested < state.length || requested < state.capacity,
        requested < state.length ==> growth_plan(state, requested) is Err,
{
}

/// A request is refused as an overflow exactly when it is above both the
/// current capacity and `MAX_CAPACITY`, and not below the length.
pub proof fn law_overflow_is_refused(state: ContainerState, requested: usize)
    ensures
        growth_plan(state, requested) == Err::<GrowthPlan, InvalidGrowthRequest>(
            InvalidGrowthRequest { reason: RejectionReason::CapacityOverflow },
        ) <==> requested >= state.length && requested > state.capacity && requested
            > MAX_CAPACITY,
        !(growth_plan(state, requested) matches Err(error) && error.reason
            == RejectionReason::AllocationRefused),
{
}

/// A request for the current capacity of a valid container is admitted
/// and changes nothing: the plan keeps the buffer, the committed state is
/// the state before, and the ledger records no acquisition and no release.
pub proof fn law_current_capacity_is_noop(state: ContainerState, ledger: AllocationLedger)
    requires
        state.is_valid(),
    ensures
        growth_plan(state, state.capacity) == Ok::<GrowthPlan, InvalidGrowthRequest>(
            GrowthPlan {
                new_capacity: state.capacity,
                action: GrowthAction::NoOp,
                elements_to_preserve: state.length,
            },
        ),
        state.committed(growth_plan(state, state.capacity)->Ok_0) == state,
        ledger.after(growth_plan(state, state.capacity)->Ok_0.action) == ledger,
{
}

/// A request above the current capacity of a valid container, and within
/// `MAX_CAPACITY`, is admitted. Its plan carries every live element to a
/// buffer of exactly the requested capacity, so the committed state is
/// valid, on the heap, and as long as before. A heap buffer that is left
/// is released exactly once and a new one acquired; a container that was
/// inline releases nothing.
pub proof fn law_growth_preserves(
    state: ContainerState,
    ledger: AllocationLedger,
    requested: usize,
)
    requires
        state.is_valid(),
        ledger.fits(state.storage_mode),
        ledger.acquired < usize::MAX,
        state.capacity < requested <= MAX_CAPACITY,
    ensures
        growth_plan(state, requested) == Ok::<GrowthPlan, InvalidGrowthRequest>(
            GrowthPlan {
                new_capacity: requested,
                action: transition_from(state.storage_mode),
                elements_to_preserve: state.length,
            },
        ),
        ({
            let plan = growth_plan(state, requested)->Ok_0;
            let next = state.committed(plan);
            let tally = ledger.after(plan.action);
            &&& next.length == state.length
            &&& next.capacity == requested
            &&& next.is_valid()
            &&& next.storage_mode == StorageMode::Heap
            &&& tally.fits(next.storage_mode)
            &&& tally.acquired == ledger.acquired + 1
            &&& tally.released == ledger.released + ledger.live()
        }),
{
}

/// Every admitted plan leaves a valid state behind, whatever state it was
/// made for, and never a smaller capacity than that state had.
pub proof fn law_admitted_plan_is_safe(state: ContainerState, requested: usize)
    requires
        growth_plan(state, requested) is Ok,
    ensures
        state.committed(growth_plan(state, requested)->Ok_0).is_valid(),
        state.committed(growth_plan(state, requested)->Ok_0).capacity >= state.capacity,
        growth_plan(state, requested)->Ok_0.new_capacity == requested,
        growth_plan(state, requested)->Ok_0.elements_to_preserve == state.length,
{
}

/// `pow2_above(length)` is a power of two, and no power of two above
/// `length` is smaller.
pub proof fn law_pow2_above_is_least(length: nat, power: int)
    ensures
        is_pow2(pow2_above(length) as int),
        is_pow2(power) && power > length ==> power >= pow2_above(length),
    decreases length,
{
    reveal(is_pow2);
    if length > 0 {
        law_pow2_above_is_least(length / 2, power / 2);
    }
}

/// The state after one push, where the allocator refuses nothing: the
/// planned growth committed and one more element, or the state as it was
/// where the plan is turned down.
pub open spec fn pushed(state: ContainerState) -> ContainerState {
    match push_plan(state) {
        Ok(plan) => state.committed(plan).with_one_more(),
        Err(_) => state,
    }
}

/// The state after `count` pushes in a row.
pub open spec fn after_pushes(state: ContainerState, count: nat) -> ContainerState
    decreases count,
{
    if count == 0 {
        state
    } else {
        pushed(after_pushes(state, (count - 1) as nat))
    }
}

/// The plan that a push makes is one that the calculator admits for the
/// same state, and it leaves a free slot.
pub proof fn law_push_plan_is_admitted(state: ContainerState)
    requires
        state.is_valid(),
        push_plan(state) is Ok,
    ensures
        growth_plan(state, push_plan(state)->Ok_0.new_capacity) == push_plan(state),
        state.length < push_plan(state)->Ok_0.new_capacity,
{
    lemma_pow2_above_exceeds(state.length as nat);
}

/// One push on a valid state leaves a valid state, with at least the
/// capacity it had and with one more element unless it was refused.
pub proof fn law_push_keeps_capacity(state: ContainerState)
    requires
        state.is_valid(),
    ensures
        pushed(state).is_valid(),
        pushed(state).capacity >= state.capacity,
        push_plan(state) is Ok ==> pushed(state).length == state.length + 1,
        push_plan(state) is Err ==> pushed(state) == state,
{
    lemma_pow2_above_exceeds(state.length as nat);
}

/// However many elements are pushed one at a time onto a valid state, the
/// capacity is never below the running length after any of the pushes, and
/// it never goes down.
pub proof fn law_pushes_stay_within_capacity(state: ContainerState, count: nat)
    requires
        state.is_valid(),
    ensures
        after_pushes(state, count).is_valid(),
        after_pushes(state, count).capacity >= state.capacity,
        state.length <= after_pushes(state, count).length <= state.length + count,
    decreases count,
{
    if count > 0 {
        law_pushes_stay_within_capacity(state, (count - 1) as nat);
        law_push_keeps_capacity(after_pushes(state, (count - 1) as nat));
    }
}

} // verus!
