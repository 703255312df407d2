use nano_core::ConfigError;
use nano_core::controller::EoiDirective;
use nano_core::controller::InterruptChip;
use nano_core::controller::PortWrite;
use nano_core::controller::apic_diagnostic_offsets;
use nano_core::controller::chained_pics_init;
use nano_core::controller::eoi;
use nano_core::controller::pic_eoi_writes;
use nano_core::controller::spurious_interrupt_handler;

#[test]
fn eoi_apic_succeeds_without_irq() {
    assert_eq!(eoi(InterruptChip::APIC, None), Ok(EoiDirective::ApicEoi));
}

#[test]
fn eoi_apic_ignores_irq_argument() {
    assert_eq!(eoi(InterruptChip::APIC, Some(0x27)), Ok(EoiDirective::ApicEoi));
}

#[test]
fn eoi_x2apic_succeeds_and_ignores_irq() {
    assert_eq!(eoi(InterruptChip::x2apic, None), Ok(EoiDirective::X2apicEoi));
    assert_eq!(eoi(InterruptChip::x2apic, Some(3)), Ok(EoiDirective::X2apicEoi));
}

#[test]
fn eoi_pic_without_irq_is_recoverable_error() {
    assert_eq!(eoi(InterruptChip::PIC, None), Err(ConfigError::MissingIrq));
}

#[test]
fn eoi_pic_with_irq_succeeds() {
    assert_eq!(eoi(InterruptChip::PIC, Some(0x20)), Ok(EoiDirective::PicEoi { irq: 0x20 }));
}

#[test]
fn pic_eoi_master_line_writes_master_only() {
    let w = pic_eoi_writes(0x20);
    assert_eq!(w, vec![PortWrite { port: 0x20, value: 0x20 }]);
}

#[test]
fn pic_eoi_slave_line_writes_slave_then_master() {
    let w = pic_eoi_writes(0x2E);
    assert_eq!(
        w,
        vec![PortWrite { port: 0xA0, value: 0x20 }, PortWrite { port: 0x20, value: 0x20 }]
    );
}

#[test]
fn pic_eoi_out_of_range_line_writes_nothing() {
    assert_eq!(pic_eoi_writes(0x10), vec![]);
    assert_eq!(pic_eoi_writes(0x30), vec![]);
}

#[test]
fn chained_pics_init_remaps_then_masks() {
    let w = chained_pics_init(None, None, 0xFF, 0xFF);
    assert_eq!(
        w,
        vec![
            PortWrite { port: 0x20, value: 0x11 },
            PortWrite { port: 0xA0, value: 0x11 },
            PortWrite { port: 0x21, value: 0x20 },
            PortWrite { port: 0xA1, value: 0x28 },
            PortWrite { port: 0x21, value: 4 },
            PortWrite { port: 0xA1, value: 2 },
            PortWrite { port: 0x21, value: 1 },
            PortWrite { port: 0xA1, value: 1 },
            PortWrite { port: 0x21, value: 0xFF },
            PortWrite { port: 0xA1, value: 0xFF },
        ]
    );
}

#[test]
fn chained_pics_init_honors_explicit_offsets() {
    let w = chained_pics_init(Some(0x30), Some(0x38), 0x00, 0x08);
    assert_eq!(w[2], PortWrite { port: 0x21, value: 0x30 });
    assert_eq!(w[3], PortWrite { port: 0xA1, value: 0x38 });
    assert_eq!(w[8], PortWrite { port: 0x21, value: 0x00 });
    assert_eq!(w[9], PortWrite { port: 0xA1, value: 0x08 });
}

#[test]
fn spurious_without_in_service_bit_sends_no_acknowledge() {
    let mut count: u64 = 5;
    let w = spurious_interrupt_handler(&mut count, 0x7F);
    assert_eq!(w, vec![]);
    assert_eq!(count, 6);
}

#[test]
fn spurious_with_in_service_bit_sends_exactly_one_acknowledge() {
    let mut count: u64 = 0;
    let w = spurious_interrupt_handler(&mut count, 0x80);
    assert_eq!(w, vec![PortWrite { port: 0x20, value: 0x20 }]);
    assert_eq!(count, 1);
}

#[test]
fn spurious_count_wraps_instead_of_failing() {
    let mut count: u64 = u64::MAX;
    let _ = spurious_interrupt_handler(&mut count, 0x00);
    assert_eq!(count, 0);
}

#[test]
fn apic_diagnostic_offsets_cover_isr_then_irr() {
    let offs = apic_diagnostic_offsets();
    assert_eq!(
        offs,
        vec![
            0x100, 0x110, 0x120, 0x130, 0x140, 0x150, 0x160, 0x170, 0x200, 0x210, 0x220, 0x230,
            0x240, 0x250, 0x260, 0x270,
        ]
    );
}
