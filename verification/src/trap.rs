//! The trap table: a 256-entry, vector-indexed table binding every
//! interrupt and exception number to a handler, together with the boot-time
//! routines that fill it, activate it, and rebind the device vectors for
//! the chosen controller generation.
//!
//! The table's activation contract carries the one property everything else
//! depends on: an activated table has a handler bound at every vector, so
//! no trap can ever land on an undefined entry.

use vstd::prelude::*;
use crate::ConfigError;
use crate::VirtualAddress;
use crate::controller::PIC_MASTER_VECTOR_OFFSET;
use crate::controller::PIC_SLAVE_VECTOR_OFFSET;
use crate::controller::PortWrite;
use crate::controller::chained_pics_init;
use crate::controller::pic_remap_sequence;
use crate::pit::PIT_FREQUENCY_HZ;
use crate::pit::pit_program_sequence;
use crate::pit;
use crate::segments::CoreStates;
use crate::segments::DOUBLE_FAULT_IST_INDEX;

verus! {

/// Number of trap vectors the hardware dispatches through the table.
pub const VECTOR_COUNT: usize = 256;

/// Vector of the double-fault exception.
pub const DOUBLE_FAULT_VECTOR: usize = 8;

/// Vector the advanced controller's local timer is bound to.
pub const TIMER_VECTOR: usize = 0x20;

/// Vector the keyboard line is bound to.
pub const KEYBOARD_VECTOR: usize = 0x21;

/// Vector reserved for the translation-lookaside-buffer shootdown
/// inter-processor interrupt.
pub const TLB_SHOOTDOWN_IPI_VECTOR: usize = 0x40;

/// Spurious vector of the advanced controller.
pub const APIC_SPURIOUS_INTERRUPT_VECTOR: usize = 0xFF;

/// The handlers this kernel knows how to bind.  Each names one entry
/// point; what the handler does on dispatch is classified by
/// [`handler_halts`] and [`acknowledge_before_handling`].
#[derive(Clone, Copy, PartialEq, Eq, Structural, Debug)]
pub enum HandlerKind {
    DivideByZero,
    Breakpoint,
    InvalidOpcode,
    DeviceNotAvailable,
    DoubleFault,
    SegmentNotPresent,
    GeneralProtectionFault,
    PageFault,
    /// Default for exception vectors with no defined recovery: print the
    /// saved trap frame, then halt the core.
    FatalUnhandledException,
    /// Default for device vectors nobody registered: log the vector and
    /// controller state, acknowledge, and keep running.
    UnimplementedInterrupt,
    ApicTimer,
    IoapicKeyboard,
    ApicSpurious,
    TlbShootdownIpi,
    PicTimer,
    PicKeyboard,
    PicSpurious,
    Rtc,
    PrimaryAta,
    /// Legacy lines kept bound only to print diagnostics and halt.
    PicDiagnostic,
}

/// One trap-table slot.
#[derive(Clone, Copy, PartialEq, Eq, Structural, Debug)]
pub struct TrapEntry {
    pub handler: Option<HandlerKind>,
    pub uses_alternate_stack: bool,
    pub alternate_stack_index: Option<u16>,
}

impl TrapEntry {
    /// An alternate stack is named exactly when one is used.
    pub open spec fn wf(self) -> bool {
        self.uses_alternate_stack <==> self.alternate_stack_index is Some
    }
}

/// The slot binding `h` on the normal stack.
pub open spec fn bound_entry(h: HandlerKind) -> TrapEntry {
    TrapEntry { handler: Some(h), uses_alternate_stack: false, alternate_stack_index: None }
}

/// An empty slot.
pub open spec fn unbound_entry() -> TrapEntry {
    TrapEntry { handler: None, uses_alternate_stack: false, alternate_stack_index: None }
}

/// The vector-indexed trap table, plus whether it has been loaded into the
/// CPU's trap-dispatch register.
pub struct TrapTable {
    entries: Vec<TrapEntry>,
    activated: bool,
}

impl View for TrapTable {
    type V = Seq<TrapEntry>;

    closed spec fn view(&self) -> Seq<TrapEntry> {
        self.entries@
    }
}

impl TrapTable {
    /// Whether the table has been loaded into the CPU.
    pub closed spec fn activated(&self) -> bool {
        self.activated
    }

    /// Every vector has some handler bound.
    pub open spec fn all_bound(&self) -> bool {
        forall|v: int| 0 <= v < self@.len() ==> (#[trigger] self@[v]).handler is Some
    }

    /// Table invariant: 256 well-formed entries; a double-fault handler
    /// always runs on its own alternate stack (a double fault may be caused
    /// by exhaustion of the normal stack); and an activated table is fully
    /// bound, since dispatch through an unbound vector is a fault of a
    /// fault with no recovery.
    pub open spec fn wf(&self) -> bool {
        &&& self@.len() == VECTOR_COUNT
        &&& forall|v: int| 0 <= v < self@.len() ==> (#[trigger] self@[v]).wf()
        &&& (self@[DOUBLE_FAULT_VECTOR as int].handler == Some(HandlerKind::DoubleFault)
            ==> self@[DOUBLE_FAULT_VECTOR as int].uses_alternate_stack)
        &&& (self.activated() ==> self.all_bound())
    }

    /// A fresh table: every vector unbound, not yet activated.
    pub fn new() -> (t: TrapTable)
        ensures
            t.wf(),
            !t.activated(),
            forall|v: int| 0 <= v < VECTOR_COUNT ==> t@[v] == unbound_entry(),
    {
        let mut entries: Vec<TrapEntry> = Vec::new();
        let mut i: usize = 0;
        while i < VECTOR_COUNT
            invariant
                i <= VECTOR_COUNT,
                entries@.len() == i,
                forall|j: int| 0 <= j < i ==> entries@[j] == unbound_entry(),
            decreases VECTOR_COUNT - i,
        {
            entries.push(
                TrapEntry { handler: None, uses_alternate_stack: false, alternate_stack_index: None },
            );
            i = i + 1;
        }
        TrapTable { entries, activated: false }
    }

    /// How many vectors the table holds.
    pub fn vector_count(&self) -> (n: usize)
        ensures
            n == self@.len(),
    {
        self.entries.len()
    }

    /// The slot bound at `vector`; dispatch reads the handler from here.
    pub fn entry_at(&self, vector: usize) -> (e: TrapEntry)
        requires
            vector < self@.len(),
        ensures
            e == self@[vector as int],
    {
        self.entries[vector]
    }

    /// Whether the table has been loaded into the CPU.
    pub fn is_activated(&self) -> (b: bool)
        ensures
            b == self.activated(),
    {
        self.activated
    }

    /// Overwrite one slot.
    fn set_entry(&mut self, vector: usize, entry: TrapEntry)
        requires
            vector < old(self)@.len(),
        ensures
            final(self)@ == old(self)@.update(vector as int, entry),
            final(self).activated() == old(self).activated(),
    {
        self.entries.set(vector, entry);
    }

    /// Bind `handler` at `vector` on the normal stack, before activation.
    /// The double-fault exception may not be bound this way: it must name
    /// its alternate stack through [`Self::install_with_alternate_stack`].
    pub fn install(&mut self, vector: usize, handler: HandlerKind)
        requires
            old(self).wf(),
            !old(self).activated(),
            vector < VECTOR_COUNT,
            !(handler is DoubleFault),
        ensures
            final(self).wf(),
            !final(self).activated(),
            final(self)@ == old(self)@.update(vector as int, bound_entry(handler)),
    {
        self.set_entry(vector, TrapEntry {
            handler: Some(handler),
            uses_alternate_stack: false,
            alternate_stack_index: None,
        });
    }

    /// Bind `handler` at `vector` with a dedicated alternate stack, before
    /// activation.
    pub fn install_with_alternate_stack(
        &mut self,
        vector: usize,
        handler: HandlerKind,
        stack_index: u16,
    )
        requires
            old(self).wf(),
            !old(self).activated(),
            vector < VECTOR_COUNT,
        ensures
            final(self).wf(),
            !final(self).activated(),
            final(self)@ == old(self)@.update(vector as int, TrapEntry {
                handler: Some(handler),
                uses_alternate_stack: true,
                alternate_stack_index: Some(stack_index),
            }),
    {
        self.set_entry(vector, TrapEntry {
            handler: Some(handler),
            uses_alternate_stack: true,
            alternate_stack_index: Some(stack_index),
        });
    }

    /// Rebind a device vector (32 and up) when the controller mode is
    /// chosen.  After activation this is permitted only while traps are
    /// globally masked, which holds during boot, before interrupts are
    /// enabled.
    pub fn rebind(&mut self, vector: usize, handler: HandlerKind)
        requires
            old(self).wf(),
            32 <= vector < VECTOR_COUNT,
        ensures
            final(self).wf(),
            final(self).activated() == old(self).activated(),
            final(self)@ == old(self)@.update(vector as int, bound_entry(handler)),
    {
        self.set_entry(vector, TrapEntry {
            handler: Some(handler),
            uses_alternate_stack: false,
            alternate_stack_index: None,
        });
    }

    /// Load the table into the CPU's trap-dispatch register.  Only a fully
    /// bound table may be activated; activating again is harmless, so every
    /// core can load the same table.
    pub fn activate(&mut self)
        requires
            old(self).wf(),
            old(self).all_bound(),
        ensures
            final(self).wf(),
            final(self).activated(),
            final(self)@ == old(self)@,
    {
        self.activated = true;
    }
}

/// Nothing dispatched through an activated table can land on an unbound
/// vector: activation demands full binding, and rebinding only ever
/// replaces one handler with another.
pub proof fn lemma_activated_table_fully_bound(t: &TrapTable)
    requires
        t.wf(),
        t.activated(),
    ensures
        forall|v: int| 0 <= v < VECTOR_COUNT ==> (#[trigger] t@[v]).handler is Some,
{
}

/// The handler each vector receives at boot, before a controller mode is
/// chosen: the architecturally defined exceptions get their handlers, the
/// remaining exception vectors fail fast, and every device vector gets the
/// diagnostic default.
pub open spec fn boot_handler(v: int) -> HandlerKind {
    if v == 0 {
        HandlerKind::DivideByZero
    } else if v == 3 {
        HandlerKind::Breakpoint
    } else if v == 6 {
        HandlerKind::InvalidOpcode
    } else if v == 7 {
        HandlerKind::DeviceNotAvailable
    } else if v == 8 {
        HandlerKind::DoubleFault
    } else if v == 11 {
        HandlerKind::SegmentNotPresent
    } else if v == 13 {
        HandlerKind::GeneralProtectionFault
    } else if v == 14 {
        HandlerKind::PageFault
    } else if v < 32 {
        HandlerKind::FatalUnhandledException
    } else {
        HandlerKind::UnimplementedInterrupt
    }
}

/// The slot each vector holds after boot-time setup.
pub open spec fn boot_entry(v: int) -> TrapEntry {
    if v == DOUBLE_FAULT_VECTOR as int {
        TrapEntry {
            handler: Some(HandlerKind::DoubleFault),
            uses_alternate_stack: true,
            alternate_stack_index: Some(DOUBLE_FAULT_IST_INDEX as u16),
        }
    } else {
        bound_entry(boot_handler(v))
    }
}

/// Initialize the interrupt subsystem for the boot core: register its
/// privilege-transition state, bind every vector of the trap table per
/// [`boot_entry`], and activate the table.  Fails, changing nothing, if
/// per-core setup already ran for `bsp_id`.
pub fn init(
    states: &mut CoreStates,
    table: &mut TrapTable,
    bsp_id: u8,
    double_fault_stack_top: VirtualAddress,
    privilege_stack_top: VirtualAddress,
) -> (r: Result<(), ConfigError>)
    requires
        old(states).wf(),
        old(table).wf(),
        !old(table).activated(),
    ensures
        final(states).wf(),
        final(table).wf(),
        r is Err <==> old(states).registered(bsp_id),
        r is Err ==> *final(states) == *old(states) && final(table)@ == old(table)@
            && !final(table).activated(),
        r is Ok ==> ({
            &&& final(states).lookup(bsp_id) matches Some(cs)
            &&& cs.privilege == (crate::segments::PrivilegeState {
                ring0_stack_top: privilege_stack_top,
                double_fault_stack_top,
            })
            &&& cs.segments.wf()
        }),
        r is Ok ==> forall|v: int| 0 <= v < VECTOR_COUNT ==> final(table)@[v] == boot_entry(v),
        r is Ok ==> final(table).activated(),
        forall|other: u8| other != bsp_id ==> final(states).lookup(other) == old(states).lookup(
            other,
        ),
{
    states.create_core_state(bsp_id, double_fault_stack_top, privilege_stack_top)?;

    let mut v: usize = 0;
    while v < VECTOR_COUNT
        invariant
            v <= VECTOR_COUNT,
            table.wf(),
            !table.activated(),
            table@.len() == VECTOR_COUNT,
            forall|j: int|
                0 <= j < v ==> #[trigger] table@[j] == bound_entry(
                    if j < 32 {
                        HandlerKind::FatalUnhandledException
                    } else {
                        HandlerKind::UnimplementedInterrupt
                    },
                ),
        decreases VECTOR_COUNT - v,
    {
        if v < 32 {
            table.install(v, HandlerKind::FatalUnhandledException);
        } else {
            table.install(v, HandlerKind::UnimplementedInterrupt);
        }
        v = v + 1;
    }

    table.install(0, HandlerKind::DivideByZero);
    table.install(3, HandlerKind::Breakpoint);
    table.install(6, HandlerKind::InvalidOpcode);
    table.install(7, HandlerKind::DeviceNotAvailable);
    table.install_with_alternate_stack(
        DOUBLE_FAULT_VECTOR,
        HandlerKind::DoubleFault,
        DOUBLE_FAULT_IST_INDEX as u16,
    );
    table.install(11, HandlerKind::SegmentNotPresent);
    table.install(13, HandlerKind::GeneralProtectionFault);
    table.install(14, HandlerKind::PageFault);

    assert forall|w: int| 0 <= w < VECTOR_COUNT implies table@[w].handler is Some by {}
    table.activate();
    assert forall|w: int| 0 <= w < VECTOR_COUNT implies table@[w] == boot_entry(w) by {}
    Ok(())
}

/// Bring one additional core into the interrupt subsystem: register its
/// privilege-transition state and load the already filled trap table on it.
/// Fails, changing nothing, if per-core setup already ran for `apic_id`.
pub fn init_ap(
    states: &mut CoreStates,
    table: &mut TrapTable,
    apic_id: u8,
    double_fault_stack_top: VirtualAddress,
    privilege_stack_top: VirtualAddress,
) -> (r: Result<(), ConfigError>)
    requires
        old(states).wf(),
        old(table).wf(),
        old(table).all_bound(),
    ensures
        final(states).wf(),
        final(table).wf(),
        final(table)@ == old(table)@,
        r is Err <==> old(states).registered(apic_id),
        r is Err ==> *final(states) == *old(states) && final(table).activated() == old(
            table,
        ).activated(),
        r is Ok ==> ({
            &&& final(states).lookup(apic_id) matches Some(cs)
            &&& cs.privilege == (crate::segments::PrivilegeState {
                ring0_stack_top: privilege_stack_top,
                double_fault_stack_top,
            })
            &&& cs.segments.wf()
        }),
        r is Ok ==> final(table).activated(),
        forall|other: u8| other != apic_id ==> final(states).lookup(other) == old(states).lookup(
            other,
        ),
{
    states.create_core_state(apic_id, double_fault_stack_top, privilege_stack_top)?;
    table.activate();
    Ok(())
}

/// The handler each device vector receives under the advanced controller.
pub open spec fn apic_vector_handler(v: int) -> HandlerKind {
    if v == TIMER_VECTOR as int {
        HandlerKind::ApicTimer
    } else if v == KEYBOARD_VECTOR as int {
        HandlerKind::IoapicKeyboard
    } else if v == TLB_SHOOTDOWN_IPI_VECTOR as int {
        HandlerKind::TlbShootdownIpi
    } else if v == APIC_SPURIOUS_INTERRUPT_VECTOR as int {
        HandlerKind::ApicSpurious
    } else {
        HandlerKind::UnimplementedInterrupt
    }
}

/// Choose the advanced controller: every device vector is rebound for it
/// (exception vectors stay as they are), and the legacy chips are remapped
/// and fully masked first, so that no stray legacy line can raise a vector
/// that aliases with an advanced-mode vector.  Returns the legacy chips'
/// port writes for the shell to perform.
pub fn init_handlers_apic(table: &mut TrapTable) -> (w: Vec<PortWrite>)
    requires
        old(table).wf(),
    ensures
        final(table).wf(),
        final(table).activated() == old(table).activated(),
        forall|v: int| 0 <= v < 32 ==> final(table)@[v] == old(table)@[v],
        forall|v: int|
            32 <= v < VECTOR_COUNT ==> final(table)@[v] == bound_entry(apic_vector_handler(v)),
        w@ == pic_remap_sequence(PIC_MASTER_VECTOR_OFFSET, PIC_SLAVE_VECTOR_OFFSET, 0xFF, 0xFF),
{
    let w = chained_pics_init(None, None, 0xFF, 0xFF);

    let mut v: usize = 32;
    while v < VECTOR_COUNT
        invariant
            32 <= v <= VECTOR_COUNT,
            table.wf(),
            table.activated() == old(table).activated(),
            table@.len() == VECTOR_COUNT,
            forall|j: int| 0 <= j < 32 ==> table@[j] == old(table)@[j],
            forall|j: int|
                32 <= j < v ==> #[trigger] table@[j] == bound_entry(
                    HandlerKind::UnimplementedInterrupt,
                ),
        decreases VECTOR_COUNT - v,
    {
        table.rebind(v, HandlerKind::UnimplementedInterrupt);
        v = v + 1;
    }

    table.rebind(TIMER_VECTOR, HandlerKind::ApicTimer);
    table.rebind(KEYBOARD_VECTOR, HandlerKind::IoapicKeyboard);
    table.rebind(APIC_SPURIOUS_INTERRUPT_VECTOR, HandlerKind::ApicSpurious);
    table.rebind(TLB_SHOOTDOWN_IPI_VECTOR, HandlerKind::TlbShootdownIpi);

    assert forall|j: int|
        32 <= j < VECTOR_COUNT implies table@[j] == bound_entry(apic_vector_handler(j)) by {}
    w
}

/// The vectors the legacy controller rebinds, and to what.  Lines with no
/// device keep diagnostic handlers; the rest stays untouched.
pub open spec fn pic_vector_rebinding(v: int) -> Option<HandlerKind> {
    if v == 0x20 {
        Some(HandlerKind::PicTimer)
    } else if v == 0x21 {
        Some(HandlerKind::PicKeyboard)
    } else if 0x22 <= v <= 0x26 {
        Some(HandlerKind::PicDiagnostic)
    } else if v == 0x27 {
        Some(HandlerKind::PicSpurious)
    } else if v == 0x28 {
        Some(HandlerKind::Rtc)
    } else if 0x29 <= v <= 0x2D {
        Some(HandlerKind::PicDiagnostic)
    } else if v == 0x2E {
        Some(HandlerKind::PrimaryAta)
    } else {
        None
    }
}

/// Choose the legacy controller: bind its sixteen lines, remap both chips
/// to their vector offsets with the keyboard-era masks, and program the
/// interval timer.  Returns the ordered port writes for the shell.
pub fn init_handlers_pic(table: &mut TrapTable) -> (w: Vec<PortWrite>)
    requires
        old(table).wf(),
    ensures
        final(table).wf(),
        final(table).activated() == old(table).activated(),
        forall|v: int|
            0 <= v < VECTOR_COUNT ==> final(table)@[v] == (match pic_vector_rebinding(v) {
                Some(h) => bound_entry(h),
                None => old(table)@[v],
            }),
        w@ == pic_remap_sequence(PIC_MASTER_VECTOR_OFFSET, PIC_SLAVE_VECTOR_OFFSET, 0x00, 0x08)
            + pit_program_sequence(PIT_FREQUENCY_HZ as u32),
{
    table.rebind(0x20, HandlerKind::PicTimer);
    table.rebind(0x21, HandlerKind::PicKeyboard);
    table.rebind(0x22, HandlerKind::PicDiagnostic);
    table.rebind(0x23, HandlerKind::PicDiagnostic);
    table.rebind(0x24, HandlerKind::PicDiagnostic);
    table.rebind(0x25, HandlerKind::PicDiagnostic);
    table.rebind(0x26, HandlerKind::PicDiagnostic);
    table.rebind(0x27, HandlerKind::PicSpurious);
    table.rebind(0x28, HandlerKind::Rtc);
    table.rebind(0x29, HandlerKind::PicDiagnostic);
    table.rebind(0x2A, HandlerKind::PicDiagnostic);
    table.rebind(0x2B, HandlerKind::PicDiagnostic);
    table.rebind(0x2C, HandlerKind::PicDiagnostic);
    table.rebind(0x2D, HandlerKind::PicDiagnostic);
    table.rebind(0x2E, HandlerKind::PrimaryAta);

    // every line except the one the slave mask withholds
    let mut w = chained_pics_init(None, None, 0x00, 0x08);
    let mut timer = pit::init(PIT_FREQUENCY_HZ as u32);
    w.append(&mut timer);

    assert forall|v: int|
        0 <= v < VECTOR_COUNT implies table@[v] == (match pic_vector_rebinding(v) {
        Some(h) => bound_entry(h),
        None => old(table)@[v],
    }) by {}
    w
}

/// Whether dispatching `h` never resumes the interrupted code: the
/// fail-fast handlers print their diagnostics and halt the core.
pub open spec fn spec_handler_halts(h: HandlerKind) -> bool {
    match h {
        HandlerKind::DivideByZero => true,
        HandlerKind::InvalidOpcode => true,
        HandlerKind::DoubleFault => true,
        HandlerKind::SegmentNotPresent => true,
        HandlerKind::GeneralProtectionFault => true,
        HandlerKind::PageFault => true,
        HandlerKind::FatalUnhandledException => true,
        HandlerKind::PicDiagnostic => true,
        _ => false,
    }
}

/// Runtime form of [`spec_handler_halts`], for the dispatch shell.
pub fn handler_halts(h: HandlerKind) -> (b: bool)
    ensures
        b == spec_handler_halts(h),
{
    match h {
        HandlerKind::DivideByZero => true,
        HandlerKind::InvalidOpcode => true,
        HandlerKind::DoubleFault => true,
        HandlerKind::SegmentNotPresent => true,
        HandlerKind::GeneralProtectionFault => true,
        HandlerKind::PageFault => true,
        HandlerKind::FatalUnhandledException => true,
        HandlerKind::PicDiagnostic => true,
        _ => false,
    }
}

/// Whether `h` must be acknowledged before its work is done rather than
/// after.  The timer handlers may context-switch away without returning to
/// the interrupted frame, so acknowledging afterwards would never happen
/// and would leave the interrupt in service forever; handlers that read a
/// latched register (the keyboard) or always return acknowledge after.
pub open spec fn spec_acknowledge_before_handling(h: HandlerKind) -> bool {
    match h {
        HandlerKind::ApicTimer => true,
        HandlerKind::PicTimer => true,
        HandlerKind::Rtc => true,
        _ => false,
    }
}

/// Runtime form of [`spec_acknowledge_before_handling`], for the dispatch
/// shell.
pub fn acknowledge_before_handling(h: HandlerKind) -> (b: bool)
    ensures
        b == spec_acknowledge_before_handling(h),
{
    match h {
        HandlerKind::ApicTimer => true,
        HandlerKind::PicTimer => true,
        HandlerKind::Rtc => true,
        _ => false,
    }
}

} // verus!
