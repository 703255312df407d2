//! Interrupt-controller abstraction: one "acknowledge" operation over the
//! three controller generations (legacy chained PIC, local APIC, x2apic),
//! plus the legacy chip's initialization and spurious-interrupt policy.
//!
//! Functions here decide; they return the exact port writes (or the EOI
//! directive) that the hardware shell must perform.

use vstd::prelude::*;
use crate::ConfigError;

verus! {

/// Command port of the master legacy chip.
pub const PIC_MASTER_COMMAND_PORT: u16 = 0x20;

/// Data port of the master legacy chip.
pub const PIC_MASTER_DATA_PORT: u16 = 0x21;

/// Command port of the slave legacy chip.
pub const PIC_SLAVE_COMMAND_PORT: u16 = 0xA0;

/// Data port of the slave legacy chip.
pub const PIC_SLAVE_DATA_PORT: u16 = 0xA1;

/// Command byte acknowledging the in-service interrupt on a legacy chip.
pub const PIC_EOI_COMMAND: u8 = 0x20;

/// Vector that the master chip's eight lines are remapped to.
pub const PIC_MASTER_VECTOR_OFFSET: u8 = 0x20;

/// Vector that the slave chip's eight lines are remapped to.
pub const PIC_SLAVE_VECTOR_OFFSET: u8 = 0x28;

/// Command byte selecting the in-service register for the next read.
pub const PIC_READ_ISR_COMMAND: u8 = 0x0B;

/// Command byte selecting the request register for the next read.
pub const PIC_READ_IRR_COMMAND: u8 = 0x0A;

/// Vector on which the master legacy chip raises spurious interrupts.
pub const PIC_SPURIOUS_VECTOR: u8 = 0x27;

/// Byte offset of the end-of-interrupt register inside the local APIC's
/// memory-mapped register page.
pub const APIC_EOI_REGISTER_OFFSET: u32 = 0xB0;

/// Model-specific register holding the end-of-interrupt register in x2apic
/// mode.
pub const X2APIC_EOI_MSR: u32 = 0x80B;

/// One byte written to an x86 I/O port; sequences of these are the
/// observable effect of the legacy-controller operations.
#[derive(Clone, Copy, PartialEq, Eq, Structural, Debug)]
pub struct PortWrite {
    pub port: u16,
    pub value: u8,
}

/// The interrupt-controller generation in use.  Chosen once at boot, before
/// interrupts are unmasked; read on every acknowledge.
#[derive(Clone, Copy, PartialEq, Eq, Structural, Debug)]
#[allow(non_camel_case_types)]
pub enum InterruptChip {
    APIC,
    x2apic,
    PIC,
}

/// The hardware operation that acknowledges an interrupt, as decided by
/// [`eoi`].  The shell performs it: a memory-mapped write for `ApicEoi`, a
/// model-specific-register write for `X2apicEoi`, and the port writes of
/// [`pic_eoi_writes`] for `PicEoi`.
#[derive(Clone, Copy, PartialEq, Eq, Structural, Debug)]
pub enum EoiDirective {
    /// Write 0 to the local APIC register at [`APIC_EOI_REGISTER_OFFSET`].
    ApicEoi,
    /// Write 0 to [`X2APIC_EOI_MSR`].
    X2apicEoi,
    /// Send the legacy end-of-interrupt command for the line mapped to
    /// vector `irq`.
    PicEoi { irq: u8 },
}

/// What acknowledging an interrupt requires for each controller generation:
/// the advanced modes ignore the IRQ argument; the legacy mode needs it to
/// address the master or slave chip, and a missing argument is a caller's
/// programming error, reported rather than escalated.
pub open spec fn eoi_spec(chip: InterruptChip, irq: Option<u8>) -> Result<EoiDirective, ConfigError> {
    match chip {
        InterruptChip::APIC => Ok(EoiDirective::ApicEoi),
        InterruptChip::x2apic => Ok(EoiDirective::X2apicEoi),
        InterruptChip::PIC => match irq {
            Some(i) => Ok(EoiDirective::PicEoi { irq: i }),
            None => Err(ConfigError::MissingIrq),
        },
    }
}

/// Send an end-of-interrupt signal, for all types of interrupt chips.
/// The `irq` argument is only used for the legacy chip; without it, legacy
/// mode fails with a recoverable error instead of halting.
pub fn eoi(chip: InterruptChip, irq: Option<u8>) -> (r: Result<EoiDirective, ConfigError>)
    ensures
        r == eoi_spec(chip, irq),
        r is Err <==> chip is PIC && irq is None,
{
    match chip {
        InterruptChip::APIC => Ok(EoiDirective::ApicEoi),
        InterruptChip::x2apic => Ok(EoiDirective::X2apicEoi),
        InterruptChip::PIC => match irq {
            Some(i) => Ok(EoiDirective::PicEoi { irq: i }),
            None => Err(ConfigError::MissingIrq),
        },
    }
}

/// The exact port writes of a legacy end-of-interrupt for the line mapped to
/// vector `irq`: the slave chip is acknowledged first when the line is one
/// of its eight, then the master; a vector outside both chips' ranges needs
/// no write at all.
pub open spec fn pic_eoi_sequence(irq: u8) -> Seq<PortWrite> {
    if PIC_SLAVE_VECTOR_OFFSET <= irq < PIC_SLAVE_VECTOR_OFFSET + 8 {
        seq![
            PortWrite { port: PIC_SLAVE_COMMAND_PORT, value: PIC_EOI_COMMAND },
            PortWrite { port: PIC_MASTER_COMMAND_PORT, value: PIC_EOI_COMMAND },
        ]
    } else if PIC_MASTER_VECTOR_OFFSET <= irq < PIC_MASTER_VECTOR_OFFSET + 8 {
        seq![PortWrite { port: PIC_MASTER_COMMAND_PORT, value: PIC_EOI_COMMAND }]
    } else {
        Seq::empty()
    }
}

/// Port writes realizing [`EoiDirective::PicEoi`] for vector `irq`.
pub fn pic_eoi_writes(irq: u8) -> (w: Vec<PortWrite>)
    ensures
        w@ == pic_eoi_sequence(irq),
{
    let mut w: Vec<PortWrite> = Vec::new();
    if PIC_SLAVE_VECTOR_OFFSET <= irq && irq < PIC_SLAVE_VECTOR_OFFSET + 8 {
        w.push(PortWrite { port: PIC_SLAVE_COMMAND_PORT, value: PIC_EOI_COMMAND });
        w.push(PortWrite { port: PIC_MASTER_COMMAND_PORT, value: PIC_EOI_COMMAND });
        assert(w@ =~= pic_eoi_sequence(irq));
    } else if PIC_MASTER_VECTOR_OFFSET <= irq && irq < PIC_MASTER_VECTOR_OFFSET + 8 {
        w.push(PortWrite { port: PIC_MASTER_COMMAND_PORT, value: PIC_EOI_COMMAND });
        assert(w@ =~= pic_eoi_sequence(irq));
    } else {
        assert(w@ =~= pic_eoi_sequence(irq));
    }
    w
}

/// The canonical legacy-controller initialization: both chips are put in
/// cascade mode, their lines are remapped to the given vector offsets, and
/// finally the given masks are installed.  Remap-then-mask must run before
/// advanced-mode interrupts are enabled, even when the legacy chip is not
/// the chosen mode, so that its unmasked lines cannot raise vectors that
/// alias with advanced-mode vectors.
/// The given remap offset, or the standard one where boot code passed none.
pub open spec fn offset_or_default(offset: Option<u8>, standard: u8) -> u8 {
    match offset {
        Some(v) => v,
        None => standard,
    }
}

pub open spec fn pic_remap_sequence(
    master_offset: u8,
    slave_offset: u8,
    master_mask: u8,
    slave_mask: u8,
) -> Seq<PortWrite> {
    seq![
        PortWrite { port: PIC_MASTER_COMMAND_PORT, value: 0x11 },
        PortWrite { port: PIC_SLAVE_COMMAND_PORT, value: 0x11 },
        PortWrite { port: PIC_MASTER_DATA_PORT, value: master_offset },
        PortWrite { port: PIC_SLAVE_DATA_PORT, value: slave_offset },
        PortWrite { port: PIC_MASTER_DATA_PORT, value: 4 },
        PortWrite { port: PIC_SLAVE_DATA_PORT, value: 2 },
        PortWrite { port: PIC_MASTER_DATA_PORT, value: 1 },
        PortWrite { port: PIC_SLAVE_DATA_PORT, value: 1 },
        PortWrite { port: PIC_MASTER_DATA_PORT, value: master_mask },
        PortWrite { port: PIC_SLAVE_DATA_PORT, value: slave_mask },
    ]
}

/// Initialization writes for the chained legacy chips.  `None` offsets fall
/// back to the standard remap targets ([`PIC_MASTER_VECTOR_OFFSET`],
/// [`PIC_SLAVE_VECTOR_OFFSET`]); masks of 0xFF leave every line disabled.
pub fn chained_pics_init(
    master_offset: Option<u8>,
    slave_offset: Option<u8>,
    master_mask: u8,
    slave_mask: u8,
) -> (w: Vec<PortWrite>)
    ensures
        w@ == pic_remap_sequence(
            offset_or_default(master_offset, PIC_MASTER_VECTOR_OFFSET),
            offset_or_default(slave_offset, PIC_SLAVE_VECTOR_OFFSET),
            master_mask,
            slave_mask,
        ),
{
    let m_off = match master_offset {
        Some(m) => m,
        None => PIC_MASTER_VECTOR_OFFSET,
    };
    let s_off = match slave_offset {
        Some(s) => s,
        None => PIC_SLAVE_VECTOR_OFFSET,
    };
    let mut w: Vec<PortWrite> = Vec::new();
    w.push(PortWrite { port: PIC_MASTER_COMMAND_PORT, value: 0x11 });
    w.push(PortWrite { port: PIC_SLAVE_COMMAND_PORT, value: 0x11 });
    w.push(PortWrite { port: PIC_MASTER_DATA_PORT, value: m_off });
    w.push(PortWrite { port: PIC_SLAVE_DATA_PORT, value: s_off });
    w.push(PortWrite { port: PIC_MASTER_DATA_PORT, value: 4 });
    w.push(PortWrite { port: PIC_SLAVE_DATA_PORT, value: 2 });
    w.push(PortWrite { port: PIC_MASTER_DATA_PORT, value: 1 });
    w.push(PortWrite { port: PIC_SLAVE_DATA_PORT, value: 1 });
    w.push(PortWrite { port: PIC_MASTER_DATA_PORT, value: master_mask });
    w.push(PortWrite { port: PIC_SLAVE_DATA_PORT, value: slave_mask });
    assert(w@ =~= pic_remap_sequence(m_off, s_off, master_mask, slave_mask));
    w
}

/// Byte offsets of the local APIC's in-service register blocks, eight
/// 32-bit words starting here.
pub const APIC_ISR_BASE_OFFSET: u32 = 0x100;

/// Byte offsets of the local APIC's interrupt-request register blocks.
pub const APIC_IRR_BASE_OFFSET: u32 = 0x200;

/// The register offsets an unimplemented-interrupt diagnostic dumps: the
/// eight in-service words, then the eight request words, each 16 bytes
/// apart.
pub open spec fn apic_diagnostic_offset_sequence() -> Seq<u32> {
    seq![
        0x100u32,
        0x110,
        0x120,
        0x130,
        0x140,
        0x150,
        0x160,
        0x170,
        0x200,
        0x210,
        0x220,
        0x230,
        0x240,
        0x250,
        0x260,
        0x270,
    ]
}

/// The advanced controller's unimplemented-vector diagnostic: the register
/// offsets to read and log, in order.  The vector is then acknowledged
/// normally and the system keeps running.
pub fn apic_diagnostic_offsets() -> (r: Vec<u32>)
    ensures
        r@ == apic_diagnostic_offset_sequence(),
{
    let mut r: Vec<u32> = Vec::new();
    let mut k: u32 = 0;
    while k < 8
        invariant
            k <= 8,
            r@.len() == k,
            forall|i: int| 0 <= i < k ==> r@[i] == APIC_ISR_BASE_OFFSET + i * 0x10,
        decreases 8 - k,
    {
        r.push(APIC_ISR_BASE_OFFSET + k * 0x10);
        k = k + 1;
    }
    k = 0;
    while k < 8
        invariant
            k <= 8,
            r@.len() == 8 + k,
            forall|i: int| 0 <= i < 8 ==> r@[i] == APIC_ISR_BASE_OFFSET + i * 0x10,
            forall|i: int| 8 <= i < 8 + k ==> r@[i] == APIC_IRR_BASE_OFFSET + (i - 8) * 0x10,
        decreases 8 - k,
    {
        r.push(APIC_IRR_BASE_OFFSET + k * 0x10);
        k = k + 1;
    }
    proof {
        assert(r@ =~= apic_diagnostic_offset_sequence());
    }
    r
}

/// Whether the master chip's in-service register marks the spurious line
/// (bit 7) as a real, in-service interrupt.
pub open spec fn spurious_is_real(master_isr: u8) -> bool {
    master_isr & 0x80 == 0x80
}

/// Legacy spurious-vector policy: on the spurious vector, consult the
/// in-service register first.  Bit 7 clear means the interrupt was spurious
/// and must not be acknowledged (the count is the only trace it leaves);
/// bit 7 set means a real line fired and gets exactly the normal
/// end-of-interrupt.  The count wraps rather than halting anything.
pub fn spurious_interrupt_handler(spurious_count: &mut u64, master_isr: u8) -> (w: Vec<PortWrite>)
    ensures
        *final(spurious_count) == if *old(spurious_count) == u64::MAX {
            0u64
        } else {
            (*old(spurious_count) + 1) as u64
        },
        w@ == if spurious_is_real(master_isr) {
            pic_eoi_sequence(PIC_SPURIOUS_VECTOR)
        } else {
            Seq::<PortWrite>::empty()
        },
{
    *spurious_count = spurious_count.wrapping_add(1);
    if master_isr & 0x80 == 0x80 {
        pic_eoi_writes(PIC_SPURIOUS_VECTOR)
    } else {
        let w: Vec<PortWrite> = Vec::new();
        assert(w@ =~= Seq::<PortWrite>::empty());
        w
    }
}

} // verus!
