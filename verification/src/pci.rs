//! PCI configuration-space addressing: the address word written to the
//! configuration-address port, and the extraction of one 16-bit register
//! from the 32-bit word read back.  The port accesses themselves are the
//! shell's.

use vstd::prelude::*;

verus! {

/// Port selecting a configuration-space location.
pub const CONFIG_ADDRESS_PORT: u16 = 0xCF8;

/// Port holding the selected location's data.
pub const CONFIG_DATA_PORT: u16 = 0xCFC;

/// The configuration-address word: the enable bit, then bus, device and
/// function in their architectural fields, and the register offset rounded
/// down to its 32-bit word.
pub fn pci_config_address(bus: u32, slot: u32, func: u32, offset: u32) -> (addr: u32)
    ensures
        addr == (bus << 16) | (slot << 11) | (func << 8) | (offset & 0xFC) | 0x8000_0000u32,
{
    (bus << 16) | (slot << 11) | (func << 8) | (offset & 0xFC) | 0x8000_0000
}

/// The 16-bit register at `offset` inside the 32-bit word read from the
/// data port: bit 1 of the offset picks the high or low half.
pub fn pci_config_extract_word(data: u32, offset: u32) -> (word: u16)
    ensures
        word == ((data >> ((offset & 2) * 8)) & 0xFFFF) as u16,
{
    proof {
        let o = offset;
        assert(o & 2 <= 2) by (bit_vector);
    }
    let shift: u32 = (offset & 2) * 8;
    let word: u32 = (data >> shift) & 0xFFFF;
    proof {
        let d = data;
        let s = shift;
        assert((d >> s) & 0xFFFF <= 0xFFFF) by (bit_vector);
    }
    word as u16
}

} // verus!
