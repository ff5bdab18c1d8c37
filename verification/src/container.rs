//! A byte container on a `SmallVec` store whose capacity changes only
//! through growth requests that the calculator has admitted.

use vstd::prelude::*;
use smallvec::CollectionAllocErr;
use crate::model::{
    AllocationLedger, ContainerState, GrowthAction, GrowthPlan, GrowthRequest,
    InvalidGrowthRequest, RejectionReason, StorageMode, MAX_CAPACITY,
};
use crate::plan::{growth_plan, lemma_pow2_above_exceeds, plan_growth, plan_push, push_plan};
use crate::store::{
    store_capacity, store_items, store_len, store_new, store_push, store_slice, store_slots,
    store_spilled, store_try_grow, ByteStore, INLINE_CAPACITY,
};

verus! {

/// What a growth comes to once the store has answered: the plan where the
/// store obtained the buffer, `AllocationRefused` where it did not.
pub fn settle(plan: GrowthPlan, answer: Result<(), CollectionAllocErr>) -> (outcome: Result<
    GrowthPlan,
    InvalidGrowthRequest,
>)
    ensures
        answer is Ok ==> outcome == Ok::<GrowthPlan, InvalidGrowthRequest>(plan),
        answer is Err ==> outcome == Err::<GrowthPlan, InvalidGrowthRequest>(
            InvalidGrowthRequest { reason: RejectionReason::AllocationRefused },
        ),
{
    match answer {
        Ok(_) => Ok(plan),
        Err(_) => Err(InvalidGrowthRequest { reason: RejectionReason::AllocationRefused }),
    }
}

/// A container of bytes with `INLINE_CAPACITY` inline slots.
pub struct Container {
    store: ByteStore,
    /// How many times the elements moved from one heap buffer to another.
    reallocations: usize,
}

impl View for Container {
    type V = Seq<u8>;

    /// The live elements, in order.
    closed spec fn view(&self) -> Seq<u8> {
        store_items(self.store)
    }
}

impl Container {
    /// What holds of every container: each element has a slot, the capacity
    /// lies between the inline size and `MAX_CAPACITY`, and every move
    /// between heap buffers raised the capacity.
    #[verifier::type_invariant]
    pub closed spec fn wf(&self) -> bool {
        &&& store_items(self.store).len() <= store_capacity(self.store)
        &&& INLINE_CAPACITY <= store_capacity(self.store) <= MAX_CAPACITY
        &&& self.reallocations + INLINE_CAPACITY <= store_capacity(self.store)
    }

    /// The container's length, capacity and storage mode.
    pub closed spec fn spec_state(&self) -> ContainerState {
        ContainerState {
            length: store_items(self.store).len() as usize,
            capacity: store_capacity(self.store) as usize,
            storage_mode: if store_capacity(self.store) > INLINE_CAPACITY {
                StorageMode::Heap
            } else {
                StorageMode::Inline
            },
        }
    }

    /// The heap buffers the container has acquired and released so far.
    pub closed spec fn spec_ledger(&self) -> AllocationLedger {
        AllocationLedger {
            acquired: if store_capacity(self.store) > INLINE_CAPACITY {
                (self.reallocations + 1) as usize
            } else {
                self.reallocations
            },
            released: self.reallocations,
        }
    }

    /// The identity of the heap buffer in use: the ordinal of its
    /// acquisition, or `None` while the elements are inline.
    pub open spec fn spec_buffer_id(&self) -> Option<usize> {
        match self.spec_state().storage_mode {
            StorageMode::Inline => None,
            StorageMode::Heap => Some(self.spec_ledger().acquired),
        }
    }

    /// A well-formed container is in a valid state that its view and its
    /// ledger agree with.
    pub proof fn lemma_wf(self)
        requires
            self.wf(),
        ensures
            self.spec_state().length == self@.len(),
            self.spec_state().is_valid(),
            INLINE_CAPACITY <= self.spec_state().capacity <= MAX_CAPACITY,
            self.spec_state().storage_mode == StorageMode::Inline
                <==> self.spec_state().capacity == INLINE_CAPACITY,
            self.spec_ledger().fits(self.spec_state().storage_mode),
            self.spec_ledger().acquired <= self.spec_state().capacity,
    {
    }

    /// An empty container on its inline slots, which has never owned a
    /// heap buffer.
    pub fn new() -> (container: Container)
        ensures
            container@ == Seq::<u8>::empty(),
            container.spec_state() == (ContainerState {
                length: 0,
                capacity: INLINE_CAPACITY,
                storage_mode: StorageMode::Inline,
            }),
            container.spec_ledger() == (AllocationLedger { acquired: 0, released: 0 }),
    {
        Container { store: store_new(), reallocations: 0 }
    }

    /// The container's length, capacity and storage mode, read from the store.
    #[verifier::when_used_as_spec(spec_state)]
    pub fn state(&self) -> (state: ContainerState)
        ensures
            state == self.spec_state(),
            state.length == self@.len(),
            state.is_valid(),
    {
        proof {
            use_type_invariant(self);
        }
        let storage_mode = if store_spilled(&self.store) {
            StorageMode::Heap
        } else {
            StorageMode::Inline
        };
        ContainerState {
            length: store_len(&self.store),
            capacity: store_slots(&self.store),
            storage_mode,
        }
    }

    /// The number of live elements.
    pub fn len(&self) -> (length: usize)
        ensures
            length == self@.len(),
            length == self.spec_state().length,
    {
        proof {
            use_type_invariant(self);
        }
        store_len(&self.store)
    }

    /// The number of allocated slots.
    pub fn capacity(&self) -> (capacity: usize)
        ensures
            capacity == self.spec_state().capacity,
            self@.len() <= capacity,
    {
        proof {
            use_type_invariant(self);
        }
        store_slots(&self.store)
    }

    /// The live elements, in order.
    pub fn as_slice(&self) -> (items: &[u8])
        ensures
            items@ == self@,
    {
        store_slice(&self.store)
    }

    /// The heap buffers acquired and released so far.
    #[verifier::when_used_as_spec(spec_ledger)]
    pub fn ledger(&self) -> (ledger: AllocationLedger)
        ensures
            ledger == self.spec_ledger(),
            ledger.fits(self.spec_state().storage_mode),
    {
        proof {
            use_type_invariant(self);
        }
        let acquired = if store_spilled(&self.store) {
            self.reallocations + 1
        } else {
            self.reallocations
        };
        AllocationLedger { acquired, released: self.reallocations }
    }

    /// The identity of the heap buffer in use, if there is one.
    #[verifier::when_used_as_spec(spec_buffer_id)]
    pub fn buffer_id(&self) -> (id: Option<usize>)
        ensures
            id == self.spec_buffer_id(),
    {
        proof {
            use_type_invariant(self);
        }
        if store_spilled(&self.store) {
            Some(self.reallocations + 1)
        } else {
            None
        }
    }

    /// Carries out an admitted plan. Nothing is asked of the store for a
    /// plan that keeps the buffer; for any other the store is asked for a
    /// buffer of the planned capacity, and the plan is committed only if it
    /// got one.
    fn carry_out(&mut self, plan: GrowthPlan) -> (outcome: Result<
        GrowthPlan,
        InvalidGrowthRequest,
    >)
        requires
            growth_plan(old(self).spec_state(), plan.new_capacity) == Ok::<
                GrowthPlan,
                InvalidGrowthRequest,
            >(plan),
        ensures
            final(self)@ == old(self)@,
            match outcome {
                Ok(done) => {
                    &&& done == plan
                    &&& final(self).spec_state() == old(self).spec_state().committed(plan)
                    &&& final(self).spec_ledger() == old(self).spec_ledger().after(plan.action)
                    &&& plan.action == GrowthAction::NoOp ==> *final(self) == *old(self)
                },
                Err(error) => {
                    &&& *final(self) == *old(self)
                    &&& error.reason == RejectionReason::AllocationRefused
                    &&& plan.action != GrowthAction::NoOp
                },
            },
    {
        proof {
            use_type_invariant(&*self);
        }
        match plan.action {
            GrowthAction::NoOp => Ok(plan),
            GrowthAction::SpillToHeap => {
                let answer = store_try_grow(&mut self.store, plan.new_capacity);
                settle(plan, answer)
            },
            GrowthAction::ReallocateHeap => {
                let answer = store_try_grow(&mut self.store, plan.new_capacity);
                let outcome = settle(plan, answer);
                if outcome.is_ok() {
                    self.reallocations = self.reallocations + 1;
                }
                outcome
            },
        }
    }

    /// Brings the capacity to the requested figure, or turns the request
    /// down and leaves the container as it was.
    ///
    /// The elements are never changed. The request is decided by
    /// `growth_plan` against the container's state. A request it turns down
    /// fails with its error; one for the current capacity succeeds and
    /// changes nothing at all. Any other asks the allocator for a buffer of
    /// the requested capacity: with it, the plan is committed, and without
    /// it the request fails with `AllocationRefused`.
    pub fn grow(&mut self, request: GrowthRequest) -> (outcome: Result<
        GrowthPlan,
        InvalidGrowthRequest,
    >)
        ensures
            final(self)@ == old(self)@,
            match outcome {
                Ok(plan) => {
                    &&& growth_plan(old(self).spec_state(), request.requested_capacity) == Ok::<
                        GrowthPlan,
                        InvalidGrowthRequest,
                    >(plan)
                    &&& final(self).spec_state() == old(self).spec_state().committed(plan)
                    &&& final(self).spec_ledger() == old(self).spec_ledger().after(plan.action)
                    &&& plan.action == GrowthAction::NoOp ==> *final(self) == *old(self)
                },
                Err(error) => {
                    &&& *final(self) == *old(self)
                    &&& match growth_plan(old(self).spec_state(), request.requested_capacity) {
                        Ok(plan) => plan.action != GrowthAction::NoOp && error.reason
                            == RejectionReason::AllocationRefused,
                        Err(refusal) => error == refusal,
                    }
                },
            },
    {
        proof {
            use_type_invariant(&*self);
        }
        let state = self.state();
        match plan_growth(state, request) {
            Ok(plan) => self.carry_out(plan),
            Err(error) => Err(error),
        }
    }

    /// Appends one element, growing first where no slot is free.
    ///
    /// How room is made is decided by `push_plan` against the container's
    /// state. While a slot is free the push succeeds and no buffer changes.
    /// A full container moves to `pow2_above(length)` slots: the push fails
    /// with `CapacityOverflow` where that figure is above `MAX_CAPACITY`,
    /// and with `AllocationRefused` where the allocator has no such buffer.
    /// A failed push changes nothing.
    pub fn push(&mut self, value: u8) -> (outcome: Result<GrowthPlan, InvalidGrowthRequest>)
        ensures
            match outcome {
                Ok(plan) => {
                    &&& push_plan(old(self).spec_state()) == Ok::<
                        GrowthPlan,
                        InvalidGrowthRequest,
                    >(plan)
                    &&& final(self)@ == old(self)@.push(value)
                    &&& final(self).spec_state() == old(self).spec_state().committed(
                        plan,
                    ).with_one_more()
                    &&& final(self).spec_ledger() == old(self).spec_ledger().after(plan.action)
                },
                Err(error) => {
                    &&& *final(self) == *old(self)
                    &&& match push_plan(old(self).spec_state()) {
                        Ok(plan) => plan.action != GrowthAction::NoOp && error.reason
                            == RejectionReason::AllocationRefused,
                        Err(refusal) => error == refusal,
                    }
                },
            },
            final(self).spec_state().is_valid(),
            final(self).spec_state().capacity >= old(self).spec_state().capacity,
    {
        proof {
            use_type_invariant(&*self);
        }
        let state = self.state();
        let plan = match plan_push(state) {
            Ok(plan) => plan,
            Err(error) => {
                return Err(error);
            },
        };
        proof {
            lemma_pow2_above_exceeds(state.length as nat);
        }
        match self.carry_out(plan) {
            Ok(_) => {
                proof {
                    use_type_invariant(&*self);
                }
                store_push(&mut self.store, value);
                Ok(plan)
            },
            Err(error) => Err(error),
        }
    }

    /// Ends the container's life and gives back its final tally: the heap
    /// buffer in use, if there is one, is released with the container, so
    /// that every buffer it acquired has been released exactly once.
    pub fn release(self) -> (ledger: AllocationLedger)
        ensures
            ledger == self.spec_ledger().closed_out(),
            ledger.live() == 0,
            ledger.released == self.spec_ledger().released + self.spec_ledger().live(),
    {
        proof {
            use_type_invariant(&self);
        }
        let ledger = self.ledger();
        AllocationLedger { acquired: ledger.acquired, released: ledger.acquired }
    }
}

} // verus!
