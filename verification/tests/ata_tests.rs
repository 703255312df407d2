use nano_core::ata::AtaIdentifyData;
use nano_core::ata::RawString;
use nano_core::ata::ata_compatible;
use nano_core::ata::drive_busy;
use nano_core::ata::drive_data_ready;
use nano_core::ata::drive_error;
use nano_core::ata::drive_present;
use nano_core::ata::flip_bytes;
use nano_core::ata::handle_primary_interrupt;
use nano_core::ata::identify_command_writes;
use nano_core::ata::identify_poll_done;
use nano_core::ata::pio_read_command_writes;
use nano_core::controller::PortWrite;

#[test]
fn flip_bytes_swaps_pairs_and_keeps_a_lone_tail() {
    let mut v = vec![1u8, 2, 3, 4, 5];
    flip_bytes(&mut v);
    assert_eq!(v, vec![2, 1, 4, 3, 5]);
    let mut w = vec![9u8, 8];
    flip_bytes(&mut w);
    assert_eq!(w, vec![8, 9]);
    let mut e: Vec<u8> = Vec::new();
    flip_bytes(&mut e);
    assert_eq!(e, Vec::<u8>::new());
}

#[test]
fn identify_command_targets_the_primary_bus() {
    let w = identify_command_writes(0xA0);
    assert_eq!(
        w,
        vec![
            PortWrite { port: 0x1F6, value: 0xA0 },
            PortWrite { port: 0x1F2, value: 0 },
            PortWrite { port: 0x1F3, value: 0 },
            PortWrite { port: 0x1F4, value: 0 },
            PortWrite { port: 0x1F5, value: 0 },
            PortWrite { port: 0x1F7, value: 0xEC },
        ]
    );
}

#[test]
fn read_command_carries_the_block_address() {
    let w = pio_read_command_writes(0x1234_5678);
    assert_eq!(
        w,
        vec![
            PortWrite { port: 0x1F6, value: 0xE2 },
            PortWrite { port: 0x1F2, value: 0 },
            PortWrite { port: 0x1F3, value: 0x78 },
            PortWrite { port: 0x1F4, value: 0x56 },
            PortWrite { port: 0x1F5, value: 0x34 },
            PortWrite { port: 0x1F7, value: 0x20 },
        ]
    );
}

#[test]
fn status_bits_are_read_where_the_hardware_puts_them() {
    assert!(drive_busy(0x80));
    assert!(!drive_busy(0x7F));
    assert!(drive_data_ready(0x08));
    assert!(!drive_data_ready(0xF7));
    assert!(drive_error(0x01));
    assert!(!drive_error(0xFE));
    assert!(!drive_present(0x00));
    assert!(drive_present(0x50));
    assert!(ata_compatible(0, 0));
    assert!(!ata_compatible(0x14, 0));
    assert!(!ata_compatible(0, 0xEB));
    assert!(identify_poll_done(0x08));
    assert!(identify_poll_done(0x01));
    assert!(!identify_poll_done(0xF6));
}

#[test]
fn completion_interrupt_only_reports() {
    assert_eq!(handle_primary_interrupt(), b"Got IRQ 14!".to_vec());
    // a second call is identical: the handler holds no state
    assert_eq!(handle_primary_interrupt(), b"Got IRQ 14!".to_vec());
}

#[test]
fn identify_block_fields_come_from_their_word_offsets() {
    let mut arr = [0u16; 256];
    arr[0] = 0x00FF;
    for w in 10..20 {
        arr[w] = 0x4142; // "AB" once the bytes are flipped
    }
    for w in 23..27 {
        arr[w] = 0x3132; // "12"
    }
    for w in 27..47 {
        arr[w] = 0x584D; // "XM"
    }
    arr[47] = 7;
    arr[49] = 0xAAAA;
    arr[50] = 0x5555;
    arr[53] = 3;
    arr[59] = 16;
    arr[60] = 0x5678;
    arr[61] = 0x1234;
    arr[100] = 0x1111;
    arr[101] = 0x2222;
    arr[102] = 0x3333;
    arr[103] = 0x4444;
    arr[106] = 1;
    arr[116] = 0x0100;
    arr[117] = 0x0002;

    let d = AtaIdentifyData::new(&arr);
    assert_eq!(d.flags, 0x00FF);
    assert_eq!(d.serial_number, b"AB".repeat(10));
    assert_eq!(d.firmware_ver, b"12".repeat(4));
    assert_eq!(d.model_number, b"XM".repeat(20));
    assert_eq!(d.sect_per_int, 7);
    assert_eq!(d.capabilities, (0xAAAA, 0x5555));
    assert_eq!(d.valid_ext_data, 3);
    assert_eq!(d.size_of_rw_multiple, 16);
    assert_eq!(d.sector_count_28, 0x1234_5678);
    assert_eq!(d.sector_count_48, 0x4444_3333_2222_1111);
    assert_eq!(d.physical_sector_size, 1);
    assert_eq!(d.words_per_logical_sector, 0x0002_0100);
}

#[test]
fn zeroed_block_is_all_zero() {
    let d = AtaIdentifyData::zeroed();
    assert_eq!(d.flags, 0);
    assert_eq!(d.serial_number, vec![0u8; 20]);
    assert_eq!(d.firmware_ver, vec![0u8; 8]);
    assert_eq!(d.model_number, vec![0u8; 40]);
    assert_eq!(d.sector_count_28, 0);
    assert_eq!(d.sector_count_48, 0);
    let e = AtaIdentifyData::default();
    assert_eq!(e.flags, 0);
    assert_eq!(e.model_number, vec![0u8; 40]);
}

#[test]
fn raw_string_escapes_like_the_diagnostics() {
    let r = RawString(&[0x61, 0x5C, 0x22, 0x0A, 0x0D, 0x00, 0x01, 0x9F]);
    let out = r.escaped();
    assert_eq!(out, b"b\"a\\\\\\\"\\n\\r\\0\\x01\\x9f\"".to_vec());
}

#[test]
fn describe_renders_every_field() {
    let d = AtaIdentifyData {
        flags: 0x1F,
        serial_number: b"AB\n".to_vec(),
        firmware_ver: vec![0x5C],
        model_number: vec![0xFF],
        sect_per_int: 0x155,
        capabilities: (1, 2),
        valid_ext_data: 7,
        size_of_rw_multiple: 8,
        sector_count_28: 0x100,
        sector_count_48: 0xABCDEF,
        physical_sector_size: 9,
        words_per_logical_sector: 10,
    };
    let expected = "AtaIdentifyData { flags: 0x1f serial_number: b\"AB\\n\" firmware_ver: b\"\\\\\" \
model_number: b\"\\xff\" sect_per_int: 85 capabilities: [0x1,0x2] valid_ext_data: 7 \
size_of_rw_multiple: 8 sector_count_28: 0x100 sector_count_48: 0xabcdef physical_sector_size: 9 \
words_per_logical_sector: 10}";
    assert_eq!(d.describe(), expected.as_bytes().to_vec());
}
