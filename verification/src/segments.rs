//! Per-core privilege-transition state: for every logical core, the ring-0
//! and double-fault stack pointers (the task-state segment's contents that
//! this kernel cares about) and the fixed-order segment-descriptor set, held
//! in an arena indexed by the core's controller ID.
//!
//! The descriptor order is load-bearing: the hardware computes related
//! selectors by fixed offsets from it, so it is pinned here as an invariant
//! rather than left to convention.

use vstd::prelude::*;
use crate::ConfigError;
use crate::VirtualAddress;

verus! {

/// Index of the double-fault stack within a core's interrupt-stack table.
pub const DOUBLE_FAULT_IST_INDEX: usize = 0;

/// Number of slots in the per-core arena: one per possible controller ID.
pub const MAX_CORES: usize = 256;

/// The stack pointers the hardware loads on a privilege transition.
/// `ring0_stack_top` is rewritten on every task switch so that the next
/// ring3-to-ring0 transition lands on the incoming task's kernel stack;
/// `double_fault_stack_top` points at a stack disjoint from every task's
/// normal stack, because a double fault may be caused by stack exhaustion.
#[derive(Clone, Copy, PartialEq, Eq, Structural, Debug)]
pub struct PrivilegeState {
    pub ring0_stack_top: VirtualAddress,
    pub double_fault_stack_top: VirtualAddress,
}

/// The role of one slot of a core's segment-descriptor set.  The
/// privilege-state descriptor is twice as wide as the others and occupies
/// two slots.
#[derive(Clone, Copy, PartialEq, Eq, Structural, Debug)]
pub enum SegmentDescriptor {
    Null,
    KernelCode,
    KernelData,
    UserCode32,
    UserData32,
    UserCode64,
    UserData64,
    TssLow,
    TssHigh,
}

/// A segment selector: a descriptor-set slot index and a requested
/// privilege level, encoded by the hardware as `index * 8 + rpl`.
#[derive(Clone, Copy, PartialEq, Eq, Structural, Debug)]
pub struct SegmentSelector {
    pub index: u16,
    pub rpl: u16,
}

impl SegmentSelector {
    /// A selector the hardware can hold: 13 bits of index, 2 bits of
    /// privilege.
    pub open spec fn wf(self) -> bool {
        self.index < 0x2000 && self.rpl < 4
    }

    /// The binary form loaded into a segment register.
    pub fn value(&self) -> (v: u16)
        requires
            self.wf(),
        ensures
            v == self.index * 8 + self.rpl,
    {
        let v: u16 = (self.index << 3) | self.rpl;
        proof {
            let i = self.index;
            let r = self.rpl;
            assert((i << 3) | r == i * 8 + r) by (bit_vector)
                requires
                    i < 0x2000,
                    r < 4,
            ;
        }
        v
    }
}

/// The selectors a caller may ask a core's descriptor set for.
#[derive(Clone, Copy, PartialEq, Eq, Structural, Debug)]
pub enum AvailableSegmentSelector {
    KernelCode,
    KernelData,
    UserCode32,
    UserData32,
    UserCode64,
    UserData64,
    Tss,
}

/// The one descriptor order this kernel ever loads.
pub open spec fn canonical_descriptor_order() -> Seq<SegmentDescriptor> {
    seq![
        SegmentDescriptor::Null,
        SegmentDescriptor::KernelCode,
        SegmentDescriptor::KernelData,
        SegmentDescriptor::UserCode32,
        SegmentDescriptor::UserData32,
        SegmentDescriptor::UserCode64,
        SegmentDescriptor::UserData64,
        SegmentDescriptor::TssLow,
        SegmentDescriptor::TssHigh,
    ]
}

/// The selector each role receives under the canonical order: kernel
/// segments carry privilege 0, user segments privilege 3, and the
/// privilege-state descriptor's selector points at its low slot.
pub open spec fn selector_for(which: AvailableSegmentSelector) -> SegmentSelector {
    match which {
        AvailableSegmentSelector::KernelCode => SegmentSelector { index: 1, rpl: 0 },
        AvailableSegmentSelector::KernelData => SegmentSelector { index: 2, rpl: 0 },
        AvailableSegmentSelector::UserCode32 => SegmentSelector { index: 3, rpl: 3 },
        AvailableSegmentSelector::UserData32 => SegmentSelector { index: 4, rpl: 3 },
        AvailableSegmentSelector::UserCode64 => SegmentSelector { index: 5, rpl: 3 },
        AvailableSegmentSelector::UserData64 => SegmentSelector { index: 6, rpl: 3 },
        AvailableSegmentSelector::Tss => SegmentSelector { index: 7, rpl: 0 },
    }
}

/// The descriptor-set slot a selector of the canonical order points at.
pub open spec fn role_of(which: AvailableSegmentSelector) -> SegmentDescriptor {
    match which {
        AvailableSegmentSelector::KernelCode => SegmentDescriptor::KernelCode,
        AvailableSegmentSelector::KernelData => SegmentDescriptor::KernelData,
        AvailableSegmentSelector::UserCode32 => SegmentDescriptor::UserCode32,
        AvailableSegmentSelector::UserData32 => SegmentDescriptor::UserData32,
        AvailableSegmentSelector::UserCode64 => SegmentDescriptor::UserCode64,
        AvailableSegmentSelector::UserData64 => SegmentDescriptor::UserData64,
        AvailableSegmentSelector::Tss => SegmentDescriptor::TssLow,
    }
}

/// One core's segment-descriptor set.  Created once per core; immutable
/// thereafter.
pub struct SegmentSet {
    descriptors: Vec<SegmentDescriptor>,
}

impl View for SegmentSet {
    type V = Seq<SegmentDescriptor>;

    closed spec fn view(&self) -> Seq<SegmentDescriptor> {
        self.descriptors@
    }
}

impl SegmentSet {
    /// A well-formed set holds exactly the canonical order.
    pub open spec fn wf(&self) -> bool {
        self@ == canonical_descriptor_order()
    }

    /// Build a fresh descriptor set in the canonical order.
    pub fn new_for_core() -> (s: SegmentSet)
        ensures
            s.wf(),
    {
        let mut descriptors: Vec<SegmentDescriptor> = Vec::new();
        descriptors.push(SegmentDescriptor::Null);
        descriptors.push(SegmentDescriptor::KernelCode);
        descriptors.push(SegmentDescriptor::KernelData);
        descriptors.push(SegmentDescriptor::UserCode32);
        descriptors.push(SegmentDescriptor::UserData32);
        descriptors.push(SegmentDescriptor::UserCode64);
        descriptors.push(SegmentDescriptor::UserData64);
        descriptors.push(SegmentDescriptor::TssLow);
        descriptors.push(SegmentDescriptor::TssHigh);
        let s = SegmentSet { descriptors };
        proof {
            assert(s@ =~= canonical_descriptor_order());
        }
        s
    }

    /// The number of descriptor slots.
    pub fn len(&self) -> (n: usize)
        ensures
            n == self@.len(),
    {
        self.descriptors.len()
    }

    /// The role stored in slot `i`; the shell walks the set with this when
    /// it encodes the descriptors into their binary form.
    pub fn descriptor_at(&self, i: usize) -> (d: SegmentDescriptor)
        requires
            i < self@.len(),
        ensures
            d == self@[i as int],
    {
        self.descriptors[i]
    }

    /// The selector for a role, valid for this set's descriptor order.
    pub fn get_segment_selector(&self, which: AvailableSegmentSelector) -> (r: SegmentSelector)
        requires
            self.wf(),
        ensures
            r == selector_for(which),
            r.wf(),
            self@[r.index as int] == role_of(which),
    {
        match which {
            AvailableSegmentSelector::KernelCode => SegmentSelector { index: 1, rpl: 0 },
            AvailableSegmentSelector::KernelData => SegmentSelector { index: 2, rpl: 0 },
            AvailableSegmentSelector::UserCode32 => SegmentSelector { index: 3, rpl: 3 },
            AvailableSegmentSelector::UserData32 => SegmentSelector { index: 4, rpl: 3 },
            AvailableSegmentSelector::UserCode64 => SegmentSelector { index: 5, rpl: 3 },
            AvailableSegmentSelector::UserData64 => SegmentSelector { index: 6, rpl: 3 },
            AvailableSegmentSelector::Tss => SegmentSelector { index: 7, rpl: 0 },
        }
    }
}

/// Everything one core owns for privilege transitions.
pub struct CoreState {
    pub privilege: PrivilegeState,
    pub segments: SegmentSet,
}

/// The per-core arena: a dense array indexed by controller ID, so lookups
/// for different cores never contend.
pub struct CoreStates {
    slots: Vec<Option<CoreState>>,
}

impl CoreStates {
    /// One slot per possible controller ID.
    pub open spec fn wf(&self) -> bool {
        self.lookup_len() == MAX_CORES
    }

    /// Length of the arena (abstracted over the private field).
    pub closed spec fn lookup_len(&self) -> int {
        self.slots@.len() as int
    }

    /// The state registered for a core, if any.
    pub closed spec fn lookup(&self, apic_id: u8) -> Option<CoreState> {
        self.slots@[apic_id as int]
    }

    /// Whether per-core setup has run for this core.
    pub open spec fn registered(&self, apic_id: u8) -> bool {
        self.lookup(apic_id) is Some
    }

    /// An empty arena: no core registered yet.
    pub fn new() -> (s: CoreStates)
        ensures
            s.wf(),
            forall|id: u8| !s.registered(id),
    {
        let mut slots: Vec<Option<CoreState>> = Vec::new();
        let mut i: usize = 0;
        while i < MAX_CORES
            invariant
                i <= MAX_CORES,
                slots@.len() == i,
                forall|j: int| 0 <= j < i ==> slots@[j] is None,
            decreases MAX_CORES - i,
        {
            slots.push(None);
            i = i + 1;
        }
        CoreStates { slots }
    }

    /// Register a core's privilege state and segment set.  Must run exactly
    /// once per core, before that core's trap table is activated; a second
    /// call for the same core is refused.
    pub fn create_core_state(
        &mut self,
        apic_id: u8,
        double_fault_stack_top: VirtualAddress,
        privilege_stack_top: VirtualAddress,
    ) -> (r: Result<(), ConfigError>)
        requires
            old(self).wf(),
        ensures
            final(self).wf(),
            r is Err <==> old(self).registered(apic_id),
            r is Err ==> *final(self) == *old(self) && r == Err::<(), ConfigError>(
                ConfigError::CoreAlreadyRegistered,
            ),
            r is Ok ==> ({
                &&& final(self).lookup(apic_id) matches Some(cs)
                &&& cs.privilege == (PrivilegeState {
                    ring0_stack_top: privilege_stack_top,
                    double_fault_stack_top,
                })
                &&& cs.segments.wf()
            }),
            forall|other: u8|
                other != apic_id ==> final(self).lookup(other) == old(self).lookup(other),
    {
        let idx: usize = apic_id as usize;
        if self.slots[idx].is_some() {
            return Err(ConfigError::CoreAlreadyRegistered);
        }
        let state = CoreState {
            privilege: PrivilegeState {
                ring0_stack_top: privilege_stack_top,
                double_fault_stack_top,
            },
            segments: SegmentSet::new_for_core(),
        };
        self.slots.set(idx, Some(state));
        Ok(())
    }

    /// Rewrite the calling core's ring-0 stack pointer, so that the next
    /// ring3-to-ring0 transition lands on the new task's kernel stack.
    /// Fails with a lookup error when per-core setup has not run for
    /// `apic_id`; nothing else changes in that case.
    pub fn tss_set_rsp0(
        &mut self,
        apic_id: u8,
        new_privilege_stack_top: VirtualAddress,
    ) -> (r: Result<(), ConfigError>)
        requires
            old(self).wf(),
        ensures
            final(self).wf(),
            r is Ok <==> old(self).registered(apic_id),
            r is Err ==> final(self).lookup(apic_id) == old(self).lookup(apic_id) && r == Err::<
                (),
                ConfigError,
            >(ConfigError::CoreNotRegistered),
            r is Ok ==> ({
                &&& old(self).lookup(apic_id) matches Some(prev)
                &&& final(self).lookup(apic_id) matches Some(cs)
                &&& cs.privilege == (PrivilegeState {
                    ring0_stack_top: new_privilege_stack_top,
                    double_fault_stack_top: prev.privilege.double_fault_stack_top,
                })
                &&& cs.segments == prev.segments
            }),
            forall|other: u8|
                other != apic_id ==> final(self).lookup(other) == old(self).lookup(other),
    {
        let idx: usize = apic_id as usize;
        let slot = slot_mut(&mut self.slots, idx);
        match slot {
            Some(cs) => {
                cs.privilege.ring0_stack_top = new_privilege_stack_top;
                Ok(())
            },
            None => Err(ConfigError::CoreNotRegistered),
        }
    }

    /// The registered state for a core, if per-core setup has run.
    pub fn get(&self, apic_id: u8) -> (r: Option<&CoreState>)
        requires
            self.wf(),
        ensures
            r is Some <==> self.registered(apic_id),
            r matches Some(cs) ==> self.lookup(apic_id) == Some(*cs),
    {
        match &self.slots[apic_id as usize] {
            Some(cs) => Some(cs),
            None => None,
        }
    }
}

/// A mutable borrow of one arena slot.
fn slot_mut(v: &mut Vec<Option<CoreState>>, i: usize) -> (e: &mut Option<CoreState>)
    requires
        i < old(v).len(),
    ensures
        *e == old(v)@[i as int],
        final(v)@ == old(v)@.update(i as int, *final(e)),
{
    &mut v[i]
}

} // verus!
