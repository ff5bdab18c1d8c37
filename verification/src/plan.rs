//! The growth calculator: every request is decided here, before any buffer
//! is allocated or released.

use vstd::prelude::*;
use crate::model::{
    ContainerState, GrowthAction, GrowthPlan, GrowthRequest, InvalidGrowthRequest,
    RejectionReason, StorageMode, MAX_CAPACITY,
};

verus! {

/// The buffer transition that takes a container in `mode` to a larger buffer.
pub open spec fn transition_from(mode: StorageMode) -> GrowthAction {
    match mode {
        StorageMode::Inline => GrowthAction::SpillToHeap,
        StorageMode::Heap => GrowthAction::ReallocateHeap,
    }
}

/// The decision on a request for `requested` slots, made against `state`.
///
/// A request below the live length or below the current capacity is turned
/// down; one for the current capacity keeps the buffer; one above
/// `MAX_CAPACITY` is turned down; any other moves the live elements to a
/// buffer of exactly `requested` slots.
pub open spec fn growth_plan(state: ContainerState, requested: usize) -> Result<
    GrowthPlan,
    InvalidGrowthRequest,
> {
    if requested < state.length || requested < state.capacity {
        Err(InvalidGrowthRequest { reason: RejectionReason::ShrinkBelowCapacity })
    } else if requested == state.capacity {
        Ok(
            GrowthPlan {
                new_capacity: state.capacity,
                action: GrowthAction::NoOp,
                elements_to_preserve: state.length,
            },
        )
    } else if requested > MAX_CAPACITY {
        Err(InvalidGrowthRequest { reason: RejectionReason::CapacityOverflow })
    } else {
        Ok(
            GrowthPlan {
                new_capacity: requested,
                action: transition_from(state.storage_mode),
                elements_to_preserve: state.length,
            },
        )
    }
}

/// Decides a growth request against a container's state.
pub fn plan_growth(state: ContainerState, request: GrowthRequest) -> (decision: Result<
    GrowthPlan,
    InvalidGrowthRequest,
>)
    ensures
        decision == growth_plan(state, request.requested_capacity),
{
    let requested = request.requested_capacity;
    if requested < state.length || requested < state.capacity {
        return Err(InvalidGrowthRequest { reason: RejectionReason::ShrinkBelowCapacity });
    }
    if requested == state.capacity {
        return Ok(
            GrowthPlan {
                new_capacity: requested,
                action: GrowthAction::NoOp,
                elements_to_preserve: state.length,
            },
        );
    }
    if requested > MAX_CAPACITY {
        return Err(InvalidGrowthRequest { reason: RejectionReason::CapacityOverflow });
    }
    let action = match state.storage_mode {
        StorageMode::Inline => GrowthAction::SpillToHeap,
        StorageMode::Heap => GrowthAction::ReallocateHeap,
    };
    Ok(GrowthPlan { new_capacity: requested, action, elements_to_preserve: state.length })
}

/// The capacity a full container of `length` elements moves to when one
/// more element arrives: the least power of two above `length`.
pub open spec fn pow2_above(length: nat) -> nat
    decreases length,
{
    if length == 0 {
        1
    } else {
        2 * pow2_above(length / 2)
    }
}

/// Computes `pow2_above(length)`, or `None` where it is above `MAX_CAPACITY`.
pub fn next_capacity(length: usize) -> (next: Option<usize>)
    ensures
        next == if pow2_above(length as nat) <= MAX_CAPACITY {
            Some(pow2_above(length as nat) as usize)
        } else {
            None
        },
{
    let mut rest: usize = length;
    let mut power: usize = 1;
    while rest > 0
        invariant
            1 <= power <= MAX_CAPACITY,
            power * pow2_above(rest as nat) == pow2_above(length as nat),
        decreases rest,
    {
        proof {
            lemma_pow2_above_positive((rest / 2) as nat);
            assert(power * (2 * pow2_above((rest / 2) as nat)) == (2 * power) * pow2_above(
                (rest / 2) as nat,
            )) by (nonlinear_arith);
        }
        if power > MAX_CAPACITY / 2 {
            proof {
                assert((2 * power) * pow2_above((rest / 2) as nat) >= 2 * power)
                    by (nonlinear_arith)
                    requires
                        pow2_above((rest / 2) as nat) >= 1,
                        power >= 1,
                ;
            }
            return None;
        }
        power = 2 * power;
        rest = rest / 2;
    }
    assert(power * 1 == power);
    Some(power)
}

/// `pow2_above` is never zero.
pub proof fn lemma_pow2_above_positive(length: nat)
    ensures
        pow2_above(length) >= 1,
    decreases length,
{
    if length > 0 {
        lemma_pow2_above_positive(length / 2);
    }
}

/// `pow2_above(length)` is above `length`, and at most twice `length` where
/// `length` is not zero.
pub proof fn lemma_pow2_above_exceeds(length: nat)
    ensures
        pow2_above(length) > length,
        length > 0 ==> pow2_above(length) <= 2 * length,
    decreases length,
{
    if length > 0 {
        lemma_pow2_above_exceeds(length / 2);
    }
}

/// The plan that makes room for one more element: nothing to do while a
/// slot is free; otherwise growth to `pow2_above(length)`, turned down where
/// that figure is above `MAX_CAPACITY`.
pub open spec fn push_plan(state: ContainerState) -> Result<GrowthPlan, InvalidGrowthRequest> {
    if state.length < state.capacity {
        Ok(
            GrowthPlan {
                new_capacity: state.capacity,
                action: GrowthAction::NoOp,
                elements_to_preserve: state.length,
            },
        )
    } else if pow2_above(state.length as nat) > MAX_CAPACITY {
        Err(InvalidGrowthRequest { reason: RejectionReason::CapacityOverflow })
    } else {
        growth_plan(state, pow2_above(state.length as nat) as usize)
    }
}

/// Decides how a container makes room for one more element.
pub fn plan_push(state: ContainerState) -> (decision: Result<GrowthPlan, InvalidGrowthRequest>)
    ensures
        decision == push_plan(state),
{
    if state.length < state.capacity {
        return Ok(
            GrowthPlan {
                new_capacity: state.capacity,
                action: GrowthAction::NoOp,
                elements_to_preserve: state.length,
            },
        );
    }
    match next_capacity(state.length) {
        Some(target) => plan_growth(state, GrowthRequest { requested_capacity: target }),
        None => Err(InvalidGrowthRequest { reason: RejectionReason::CapacityOverflow }),
    }
}

} // verus!
