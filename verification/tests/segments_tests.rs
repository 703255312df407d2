use nano_core::ConfigError;
use nano_core::segments::AvailableSegmentSelector;
use nano_core::segments::CoreStates;
use nano_core::segments::SegmentDescriptor;
use nano_core::segments::SegmentSet;

#[test]
fn setup_then_set_privilege_stack_succeeds_and_is_visible() {
    let mut states = CoreStates::new();
    assert_eq!(states.create_core_state(4, 0xD000, 0xA000), Ok(()));
    assert_eq!(states.tss_set_rsp0(4, 0xB000), Ok(()));
    let cs = states.get(4).expect("core 4 registered");
    assert_eq!(cs.privilege.ring0_stack_top, 0xB000);
    assert_eq!(cs.privilege.double_fault_stack_top, 0xD000);
}

#[test]
fn set_privilege_stack_for_unregistered_core_is_a_lookup_error() {
    let mut states = CoreStates::new();
    assert_eq!(states.tss_set_rsp0(9, 0xB000), Err(ConfigError::CoreNotRegistered));
    assert!(states.get(9).is_none());
}

#[test]
fn per_core_setup_runs_exactly_once() {
    let mut states = CoreStates::new();
    assert_eq!(states.create_core_state(2, 0x1000, 0x2000), Ok(()));
    assert_eq!(states.create_core_state(2, 0x3000, 0x4000), Err(ConfigError::CoreAlreadyRegistered));
    let cs = states.get(2).expect("first registration kept");
    assert_eq!(cs.privilege.ring0_stack_top, 0x2000);
}

#[test]
fn cores_do_not_disturb_each_other() {
    let mut states = CoreStates::new();
    assert_eq!(states.create_core_state(0, 0x10, 0x20), Ok(()));
    assert_eq!(states.create_core_state(1, 0x30, 0x40), Ok(()));
    assert_eq!(states.tss_set_rsp0(1, 0x99), Ok(()));
    assert_eq!(states.get(0).unwrap().privilege.ring0_stack_top, 0x20);
    assert_eq!(states.get(1).unwrap().privilege.ring0_stack_top, 0x99);
}

#[test]
fn descriptor_order_is_the_canonical_one() {
    let s = SegmentSet::new_for_core();
    let expected = [
        SegmentDescriptor::Null,
        SegmentDescriptor::KernelCode,
        SegmentDescriptor::KernelData,
        SegmentDescriptor::UserCode32,
        SegmentDescriptor::UserData32,
        SegmentDescriptor::UserCode64,
        SegmentDescriptor::UserData64,
        SegmentDescriptor::TssLow,
        SegmentDescriptor::TssHigh,
    ];
    assert_eq!(s.len(), expected.len());
    for (i, d) in expected.iter().enumerate() {
        assert_eq!(s.descriptor_at(i), *d);
    }
}

#[test]
fn selectors_encode_slot_and_privilege() {
    let s = SegmentSet::new_for_core();
    let kernel_code = s.get_segment_selector(AvailableSegmentSelector::KernelCode);
    assert_eq!((kernel_code.index, kernel_code.rpl), (1, 0));
    assert_eq!(kernel_code.value(), 0x08);
    let kernel_data = s.get_segment_selector(AvailableSegmentSelector::KernelData);
    assert_eq!(kernel_data.value(), 0x10);
    let user_code_64 = s.get_segment_selector(AvailableSegmentSelector::UserCode64);
    assert_eq!((user_code_64.index, user_code_64.rpl), (5, 3));
    assert_eq!(user_code_64.value(), 0x2B);
    let tss = s.get_segment_selector(AvailableSegmentSelector::Tss);
    assert_eq!((tss.index, tss.rpl), (7, 0));
    assert_eq!(tss.value(), 0x38);
}
