use nano_core::paging::Page;
use nano_core::pci::pci_config_address;
use nano_core::pci::pci_config_extract_word;

#[test]
fn page_indices_recover_the_table_path() {
    // page number ((1 * 512 + 2) * 512 + 3) * 512 + 4, at table path 1/2/3/4
    let number: u64 = ((1 * 512 + 2) * 512 + 3) * 512 + 4;
    let address: u64 = number * 4096;
    let p = Page::containing_address(address);
    assert_eq!(p.p4_index(), 1);
    assert_eq!(p.p3_index(), 2);
    assert_eq!(p.p2_index(), 3);
    assert_eq!(p.p1_index(), 4);
    assert_eq!(p.start_address(), address);
}

#[test]
fn addresses_inside_a_page_share_its_number() {
    let p1 = Page::containing_address(0x5000);
    let p2 = Page::containing_address(0x5FFF);
    assert_eq!(p1, p2);
    assert_eq!(p1.start_address(), 0x5000);
    let p3 = Page::containing_address(0x6000);
    assert_ne!(p1, p3);
}

#[test]
fn high_half_addresses_map_to_upper_table_entries() {
    let p = Page::containing_address(0xFFFF_8000_0000_0000);
    assert_eq!(p.p4_index(), 256);
    assert_eq!(p.p3_index(), 0);
    assert_eq!(p.p2_index(), 0);
    assert_eq!(p.p1_index(), 0);
}

#[test]
fn pci_address_packs_the_coordinates() {
    assert_eq!(pci_config_address(0, 2, 0, 8), 0x8000_1008);
    assert_eq!(pci_config_address(1, 0, 3, 0x0D), 0x8001_030C);
    assert_eq!(pci_config_address(0, 0, 0, 0), 0x8000_0000);
}

#[test]
fn pci_extract_picks_the_addressed_half_word() {
    assert_eq!(pci_config_extract_word(0xAABB_CCDD, 0), 0xCCDD);
    assert_eq!(pci_config_extract_word(0xAABB_CCDD, 1), 0xCCDD);
    assert_eq!(pci_config_extract_word(0xAABB_CCDD, 2), 0xAABB);
    assert_eq!(pci_config_extract_word(0xAABB_CCDD, 3), 0xAABB);
}
