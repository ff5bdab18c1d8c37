//! The data that a growth decision reads and produces.

use vstd::prelude::*;

verus! {

/// The largest capacity a request may ask for: no allocation can span more
/// bytes than `isize::MAX`, so no buffer can have more slots than that.
pub const MAX_CAPACITY: usize = usize::MAX / 2;

/// Where a container keeps its elements.
#[derive(Clone, Copy, Debug, PartialEq, Eq, Structural)]
pub enum StorageMode {
    /// In the fixed slots inside the container itself; nothing is owned on the heap.
    Inline,
    /// In one heap buffer that the container owns.
    Heap,
}

/// What a growth plan asks the container to do with its buffers.
#[derive(Clone, Copy, Debug, PartialEq, Eq, Structural)]
pub enum GrowthAction {
    /// Keep the current buffer: nothing is allocated and nothing is released.
    NoOp,
    /// Move from the current heap buffer to a larger one and release the old one.
    ReallocateHeap,
    /// Move from the inline slots to a first heap buffer; nothing is released.
    SpillToHeap,
}

/// Why a growth request was turned down.
#[derive(Clone, Copy, Debug, PartialEq, Eq, Structural)]
pub enum RejectionReason {
    /// The requested capacity is below the current capacity or the live length.
    ShrinkBelowCapacity,
    /// The requested capacity is above `MAX_CAPACITY`.
    CapacityOverflow,
    /// The request was admissible, but the allocator had no buffer to give.
    AllocationRefused,
}

/// The error of every growth operation. A refused request changes nothing.
#[derive(Clone, Copy, Debug, PartialEq, Eq, Structural)]
pub struct InvalidGrowthRequest {
    pub reason: RejectionReason,
}

/// A request to bring a container's capacity to `requested_capacity` slots.
#[derive(Clone, Copy, Debug, PartialEq, Eq, Structural)]
pub struct GrowthRequest {
    pub requested_capacity: usize,
}

/// An admitted growth: the capacity to end up with, what to do with the
/// buffers, and how many live elements must be carried across.
#[derive(Clone, Copy, Debug, PartialEq, Eq, Structural)]
pub struct GrowthPlan {
    pub new_capacity: usize,
    pub action: GrowthAction,
    pub elements_to_preserve: usize,
}

/// A snapshot of a container: live elements, allocated slots, storage mode.
#[derive(Clone, Copy, Debug, PartialEq, Eq, Structural)]
pub struct ContainerState {
    pub length: usize,
    pub capacity: usize,
    pub storage_mode: StorageMode,
}

impl ContainerState {
    /// A state is valid when every live element has a slot.
    pub open spec fn is_valid(self) -> bool {
        self.length <= self.capacity
    }

    /// The state a plan leaves behind once it is committed: the length
    /// stays, the capacity becomes the planned one, and any buffer
    /// transition ends on the heap.
    pub open spec fn committed(self, plan: GrowthPlan) -> ContainerState {
        ContainerState {
            length: self.length,
            capacity: plan.new_capacity,
            storage_mode: if plan.action == GrowthAction::NoOp {
                self.storage_mode
            } else {
                StorageMode::Heap
            },
        }
    }

    /// The state with one more live element.
    pub open spec fn with_one_more(self) -> ContainerState {
        ContainerState {
            length: (self.length + 1) as usize,
            capacity: self.capacity,
            storage_mode: self.storage_mode,
        }
    }

    /// The state of a container that was just created: empty, inline, with
    /// `inline_capacity` slots.
    pub fn new(inline_capacity: usize) -> (state: ContainerState)
        ensures
            state == (ContainerState {
                length: 0,
                capacity: inline_capacity,
                storage_mode: StorageMode::Inline,
            }),
    {
        ContainerState { length: 0, capacity: inline_capacity, storage_mode: StorageMode::Inline }
    }

    /// Commits a plan in one step: the caller sees the state before or the
    /// state after, never one in between.
    pub fn commit(self, plan: GrowthPlan) -> (state: ContainerState)
        ensures
            state == self.committed(plan),
    {
        let storage_mode = match plan.action {
            GrowthAction::NoOp => self.storage_mode,
            GrowthAction::ReallocateHeap => StorageMode::Heap,
            GrowthAction::SpillToHeap => StorageMode::Heap,
        };
        ContainerState { length: self.length, capacity: plan.new_capacity, storage_mode }
    }
}

/// A tally of the heap buffers a container has owned: how many it acquired
/// and how many of those it has released.
#[derive(Clone, Copy, Debug, PartialEq, Eq, Structural)]
pub struct AllocationLedger {
    pub acquired: usize,
    pub released: usize,
}

impl AllocationLedger {
    /// The number of heap buffers still owned.
    pub open spec fn live(self) -> int {
        self.acquired - self.released
    }

    /// A ledger fits a storage mode when exactly the buffers in use are
    /// still owned: none while inline, one while on the heap.
    pub open spec fn fits(self, mode: StorageMode) -> bool {
        match mode {
            StorageMode::Inline => self.live() == 0,
            StorageMode::Heap => self.live() == 1,
        }
    }

    /// The tally after a committed action: a spill acquires a buffer, a
    /// reallocation acquires one and releases the one it leaves.
    pub open spec fn after(self, action: GrowthAction) -> AllocationLedger {
        match action {
            GrowthAction::NoOp => self,
            GrowthAction::SpillToHeap => AllocationLedger {
                acquired: (self.acquired + 1) as usize,
                released: self.released,
            },
            GrowthAction::ReallocateHeap => AllocationLedger {
                acquired: (self.acquired + 1) as usize,
                released: (self.released + 1) as usize,
            },
        }
    }

    /// The tally once the owner is gone: every buffer acquired is released.
    pub open spec fn closed_out(self) -> AllocationLedger {
        AllocationLedger { acquired: self.acquired, released: self.acquired }
    }
}

} // verus!
