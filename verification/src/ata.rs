//! The ATA/PIO disk-identify protocol: the command sequences written to the
//! primary bus, the status-register decisions the polling loops make, and
//! the parsing of the 256-word identify block into its meaningful fields.
//!
//! The port reads and writes themselves are the shell's; everything here
//! decides what to write and what a read status byte means.

use vstd::prelude::*;
use vstd::string::StringSliceAdditionalSpecFns;
use crate::controller::PortWrite;
use crate::text::dec_bytes;
use crate::text::hex_prefixed_bytes;
use crate::text::hex_digit;
use crate::text::push_dec_u64;
use crate::text::push_hex_prefixed_u64;
use crate::text::push_label;

verus! {

/// Drive-select port of the primary bus.
pub const BUS_SELECT_PRIMARY_PORT: u16 = 0x1F6;

/// Sector-count port of the primary bus.
pub const SECTOR_COUNT_PORT: u16 = 0x1F2;

/// Low, middle and high bytes of the block address.
pub const LBA_LO_PORT: u16 = 0x1F3;

pub const LBA_MID_PORT: u16 = 0x1F4;

pub const LBA_HI_PORT: u16 = 0x1F5;

/// Command/status port of the primary bus.
pub const COMMAND_IO_PORT: u16 = 0x1F7;

/// Data port of the primary bus.
pub const PRIMARY_DATA_PORT: u16 = 0x1F0;

/// Drive-select value naming the master drive.
pub const IDENTIFY_MASTER_DRIVE: u8 = 0xA0;

/// Drive-select value naming the slave drive.
pub const IDENTIFY_SLAVE_DRIVE: u8 = 0xB0;

/// The identify command byte.
pub const IDENTIFY_COMMAND: u8 = 0xEC;

/// The read-sectors command byte.
pub const READ_SECTORS_COMMAND: u8 = 0x20;

/// Number of 16-bit words in one identify block or sector transfer.
pub const ATA_WORDS_PER_TRANSFER: usize = 256;

/// The port writes that ask `drive` on the primary bus to identify itself.
pub open spec fn identify_command_sequence(drive: u8) -> Seq<PortWrite> {
    seq![
        PortWrite { port: BUS_SELECT_PRIMARY_PORT, value: drive },
        PortWrite { port: SECTOR_COUNT_PORT, value: 0 },
        PortWrite { port: LBA_LO_PORT, value: 0 },
        PortWrite { port: LBA_MID_PORT, value: 0 },
        PortWrite { port: LBA_HI_PORT, value: 0 },
        PortWrite { port: COMMAND_IO_PORT, value: IDENTIFY_COMMAND },
    ]
}

/// Build the identify command for `drive`.
pub fn identify_command_writes(drive: u8) -> (w: Vec<PortWrite>)
    ensures
        w@ == identify_command_sequence(drive),
{
    let mut w: Vec<PortWrite> = Vec::new();
    w.push(PortWrite { port: BUS_SELECT_PRIMARY_PORT, value: drive });
    w.push(PortWrite { port: SECTOR_COUNT_PORT, value: 0 });
    w.push(PortWrite { port: LBA_LO_PORT, value: 0 });
    w.push(PortWrite { port: LBA_MID_PORT, value: 0 });
    w.push(PortWrite { port: LBA_HI_PORT, value: 0 });
    w.push(PortWrite { port: COMMAND_IO_PORT, value: IDENTIFY_COMMAND });
    assert(w@ =~= identify_command_sequence(drive));
    w
}

/// The port writes that start a one-sector read of block `lba` from the
/// master drive: the drive-select byte carries the address's top nibble,
/// the three address ports its low bytes.
pub open spec fn read_command_sequence(lba: u32) -> Seq<PortWrite> {
    seq![
        PortWrite { port: BUS_SELECT_PRIMARY_PORT, value: (0xE0 | ((lba >> 24) & 0x0F)) as u8 },
        PortWrite { port: SECTOR_COUNT_PORT, value: 0 },
        PortWrite { port: LBA_LO_PORT, value: (lba & 0xFF) as u8 },
        PortWrite { port: LBA_MID_PORT, value: ((lba >> 8) & 0xFF) as u8 },
        PortWrite { port: LBA_HI_PORT, value: ((lba >> 16) & 0xFF) as u8 },
        PortWrite { port: COMMAND_IO_PORT, value: READ_SECTORS_COMMAND },
    ]
}

/// Build the read command for block `lba`.
pub fn pio_read_command_writes(lba: u32) -> (w: Vec<PortWrite>)
    ensures
        w@ == read_command_sequence(lba),
{
    let master_select: u8 = (0xE0 | ((lba >> 24) & 0x0F)) as u8;
    let mut w: Vec<PortWrite> = Vec::new();
    w.push(PortWrite { port: BUS_SELECT_PRIMARY_PORT, value: master_select });
    w.push(PortWrite { port: SECTOR_COUNT_PORT, value: 0 });
    w.push(PortWrite { port: LBA_LO_PORT, value: (lba & 0xFF) as u8 });
    w.push(PortWrite { port: LBA_MID_PORT, value: ((lba >> 8) & 0xFF) as u8 });
    w.push(PortWrite { port: LBA_HI_PORT, value: ((lba >> 16) & 0xFF) as u8 });
    w.push(PortWrite { port: COMMAND_IO_PORT, value: READ_SECTORS_COMMAND });
    assert(w@ =~= read_command_sequence(lba));
    w
}

/// Bit 7 of the status byte: the drive is still busy with an update.
pub fn drive_busy(status: u8) -> (b: bool)
    ensures
        b == ((status >> 7) & 1 == 1),
{
    (status >> 7) & 1 == 1
}

/// Bit 3 of the status byte: a data word is ready on the data port.
pub fn drive_data_ready(status: u8) -> (b: bool)
    ensures
        b == ((status >> 3) & 1 == 1),
{
    (status >> 3) & 1 == 1
}

/// Bit 0 of the status byte: the drive reports an error.
pub fn drive_error(status: u8) -> (b: bool)
    ensures
        b == (status & 1 == 1),
{
    status & 1 == 1
}

/// A status byte of zero right after the identify command means no drive
/// answers on that line.
pub fn drive_present(status: u8) -> (b: bool)
    ensures
        b == (status != 0),
{
    status != 0
}

/// After the busy bit clears, nonzero address-middle or address-high bytes
/// mean the device does not speak this protocol.
pub fn ata_compatible(lba_mid: u8, lba_hi: u8) -> (b: bool)
    ensures
        b == (lba_mid == 0 && lba_hi == 0),
{
    lba_mid == 0 && lba_hi == 0
}

/// The identify poll is over once the drive raises data-ready or error.
pub fn identify_poll_done(status: u8) -> (b: bool)
    ensures
        b == ((status >> 3) & 1 == 1 || status & 1 == 1),
{
    (status >> 3) & 1 == 1 || status & 1 == 1
}

/// The primary-bus completion handler: it emits one diagnostic line and
/// changes nothing else.  Returns the line's bytes for the shell to print.
pub fn handle_primary_interrupt() -> (out: Vec<u8>)
    ensures
        out@ == "Got IRQ 14!".spec_bytes(),
{
    let mut out: Vec<u8> = Vec::new();
    push_label(&mut out, "Got IRQ 14!");
    proof {
        assert(out@ =~= "Got IRQ 14!".spec_bytes());
    }
    out
}

/// Swap each pair of bytes; a lone trailing byte stays put.  The identify
/// block's text fields arrive with each word's bytes reversed, and this
/// restores their order.
pub open spec fn flipped(s: Seq<u8>) -> Seq<u8> {
    Seq::new(
        s.len(),
        |i: int|
            if i % 2 == 0 {
                if i + 1 < s.len() {
                    s[i + 1]
                } else {
                    s[i]
                }
            } else {
                s[i - 1]
            },
    )
}

/// Swap the bytes of each pair in place.
pub fn flip_bytes(bytes: &mut Vec<u8>)
    ensures
        final(bytes)@ == flipped(old(bytes)@),
{
    let n: usize = bytes.len();
    let mut i: usize = 0;
    while i + 1 < n
        invariant
            i <= n,
            i % 2 == 0,
            n == bytes@.len(),
            bytes@.len() == old(bytes)@.len(),
            forall|j: int| 0 <= j < i ==> bytes@[j] == flipped(old(bytes)@)[j],
            forall|j: int| i <= j < n ==> bytes@[j] == old(bytes)@[j],
        decreases n - i,
    {
        let a: u8 = bytes[i];
        let b: u8 = bytes[i + 1];
        bytes.set(i, b);
        bytes.set(i + 1, a);
        i = i + 2;
    }
    proof {
        assert(bytes@ =~= flipped(old(bytes)@));
    }
}

/// The text fields of the identify block: each 16-bit word contributes its
/// high byte, then its low byte (the in-memory order after the byte flip).
pub open spec fn word_bytes_flipped(words: Seq<u16>) -> Seq<u8> {
    Seq::new(
        2 * words.len(),
        |i: int|
            if i % 2 == 0 {
                (words[i / 2] >> 8) as u8
            } else {
                (words[i / 2] & 0xFF) as u8
            },
    )
}

/// The text bytes of words `start..end` of the identify block.
fn words_to_text(arr: &[u16; 256], start: usize, end: usize) -> (out: Vec<u8>)
    requires
        start <= end <= 256,
    ensures
        out@ == word_bytes_flipped(arr@.subrange(start as int, end as int)),
{
    let mut out: Vec<u8> = Vec::new();
    let mut k: usize = start;
    while k < end
        invariant
            start <= k <= end <= 256,
            arr@.len() == 256,
            out@ == word_bytes_flipped(arr@.subrange(start as int, k as int)),
        decreases end - k,
    {
        let w: u16 = arr[k];
        out.push((w >> 8) as u8);
        out.push((w & 0xFF) as u8);
        proof {
            assert(out@ =~= word_bytes_flipped(arr@.subrange(start as int, k + 1)));
        }
        k = k + 1;
    }
    out
}

/// The meaningful fields of an ATA identify block.
pub struct AtaIdentifyData {
    pub flags: u16,
    pub serial_number: Vec<u8>,
    pub firmware_ver: Vec<u8>,
    pub model_number: Vec<u8>,
    /// Maximum number of blocks per transfer.
    pub sect_per_int: u16,
    pub capabilities: (u16, u16),
    /// Bitset of translation fields.
    pub valid_ext_data: u16,
    pub size_of_rw_multiple: u16,
    /// 28-bit block count (if zero, use the 48-bit count).
    pub sector_count_28: u32,
    /// 48-bit block count.
    pub sector_count_48: u64,
    /// Physical block size, in logical blocks (low nibble).
    pub physical_sector_size: u16,
    /// Number of words per logical block.
    pub words_per_logical_sector: u32,
}

impl AtaIdentifyData {
    /// The text fields have their fixed on-disk widths.
    pub open spec fn wf(&self) -> bool {
        &&& self.serial_number@.len() == 20
        &&& self.firmware_ver@.len() == 8
        &&& self.model_number@.len() == 40
    }

    /// Parse the 256 words an identify command returns: each field comes
    /// from its architecturally fixed word offsets, the text fields with
    /// their per-word bytes swapped into reading order.
    pub fn new(arr: &[u16; 256]) -> (d: AtaIdentifyData)
        ensures
            d.wf(),
            d.flags == arr@[0],
            d.serial_number@ == word_bytes_flipped(arr@.subrange(10, 20)),
            d.firmware_ver@ == word_bytes_flipped(arr@.subrange(23, 27)),
            d.model_number@ == word_bytes_flipped(arr@.subrange(27, 47)),
            d.sect_per_int == arr@[47],
            d.capabilities == (arr@[49], arr@[50]),
            d.valid_ext_data == arr@[53],
            d.size_of_rw_multiple == arr@[59],
            d.sector_count_28 == arr@[60] + arr@[61] * 0x10000,
            d.sector_count_48 == arr@[100] + arr@[101] * 0x10000 + arr@[102] * 0x1_0000_0000
                + arr@[103] * 0x1_0000_0000_0000,
            d.physical_sector_size == arr@[106],
            d.words_per_logical_sector == arr@[116] + arr@[117] * 0x10000,
    {
        let sector_count_28: u32 = arr[60] as u32 + arr[61] as u32 * 0x10000;
        let sector_count_48: u64 = arr[100] as u64 + arr[101] as u64 * 0x10000 + arr[102] as u64
            * 0x1_0000_0000 + arr[103] as u64 * 0x1_0000_0000_0000;
        let words_per_logical_sector: u32 = arr[116] as u32 + arr[117] as u32 * 0x10000;
        AtaIdentifyData {
            flags: arr[0],
            serial_number: words_to_text(arr, 10, 20),
            firmware_ver: words_to_text(arr, 23, 27),
            model_number: words_to_text(arr, 27, 47),
            sect_per_int: arr[47],
            capabilities: (arr[49], arr[50]),
            valid_ext_data: arr[53],
            size_of_rw_multiple: arr[59],
            sector_count_28,
            sector_count_48,
            physical_sector_size: arr[106],
            words_per_logical_sector,
        }
    }

    /// The zeroed block reported when a drive answers the identify command
    /// with an error.
    pub fn zeroed() -> (d: AtaIdentifyData)
        ensures
            d.wf(),
            d.flags == 0,
            d.serial_number@ =~= Seq::new(20, |i: int| 0u8),
            d.firmware_ver@ =~= Seq::new(8, |i: int| 0u8),
            d.model_number@ =~= Seq::new(40, |i: int| 0u8),
            d.sect_per_int == 0,
            d.capabilities == (0u16, 0u16),
            d.valid_ext_data == 0,
            d.size_of_rw_multiple == 0,
            d.sector_count_28 == 0,
            d.sector_count_48 == 0,
            d.physical_sector_size == 0,
            d.words_per_logical_sector == 0,
    {
        AtaIdentifyData {
            flags: 0,
            serial_number: vec![0u8; 20],
            firmware_ver: vec![0u8; 8],
            model_number: vec![0u8; 40],
            sect_per_int: 0,
            capabilities: (0, 0),
            valid_ext_data: 0,
            size_of_rw_multiple: 0,
            sector_count_28: 0,
            sector_count_48: 0,
            physical_sector_size: 0,
            words_per_logical_sector: 0,
        }
    }

    /// The diagnostic line describing this block, one field after another,
    /// numbers in the radix the diagnostic output prints them in.
    pub open spec fn describe_bytes(&self) -> Seq<u8> {
        "AtaIdentifyData {".spec_bytes() + " flags: ".spec_bytes() + hex_prefixed_bytes(
            self.flags as int,
        ) + " serial_number: ".spec_bytes() + raw_string_form(self.serial_number@)
            + " firmware_ver: ".spec_bytes() + raw_string_form(self.firmware_ver@)
            + " model_number: ".spec_bytes() + raw_string_form(self.model_number@)
            + " sect_per_int: ".spec_bytes() + dec_bytes((self.sect_per_int & 0xFF) as int)
            + " capabilities: [".spec_bytes() + hex_prefixed_bytes(self.capabilities.0 as int)
            + ",".spec_bytes() + hex_prefixed_bytes(self.capabilities.1 as int)
            + "]".spec_bytes() + " valid_ext_data: ".spec_bytes() + dec_bytes(
            self.valid_ext_data as int,
        ) + " size_of_rw_multiple: ".spec_bytes() + dec_bytes(self.size_of_rw_multiple as int)
            + " sector_count_28: ".spec_bytes() + hex_prefixed_bytes(self.sector_count_28 as int)
            + " sector_count_48: ".spec_bytes() + hex_prefixed_bytes(self.sector_count_48 as int)
            + " physical_sector_size: ".spec_bytes() + dec_bytes(self.physical_sector_size as int)
            + " words_per_logical_sector: ".spec_bytes() + dec_bytes(
            self.words_per_logical_sector as int,
        ) + "}".spec_bytes()
    }

    /// Render the diagnostic line.
    pub fn describe(&self) -> (out: Vec<u8>)
        ensures
            out@ == self.describe_bytes(),
    {
        let mut out: Vec<u8> = Vec::new();
        push_label(&mut out, "AtaIdentifyData {");
        push_label(&mut out, " flags: ");
        push_hex_prefixed_u64(&mut out, self.flags as u64);
        push_label(&mut out, " serial_number: ");
        push_raw_string(&mut out, &self.serial_number);
        push_label(&mut out, " firmware_ver: ");
        push_raw_string(&mut out, &self.firmware_ver);
        push_label(&mut out, " model_number: ");
        push_raw_string(&mut out, &self.model_number);
        push_label(&mut out, " sect_per_int: ");
        push_dec_u64(&mut out, (self.sect_per_int & 0xFF) as u64);
        push_label(&mut out, " capabilities: [");
        push_hex_prefixed_u64(&mut out, self.capabilities.0 as u64);
        push_label(&mut out, ",");
        push_hex_prefixed_u64(&mut out, self.capabilities.1 as u64);
        push_label(&mut out, "]");
        push_label(&mut out, " valid_ext_data: ");
        push_dec_u64(&mut out, self.valid_ext_data as u64);
        push_label(&mut out, " size_of_rw_multiple: ");
        push_dec_u64(&mut out, self.size_of_rw_multiple as u64);
        push_label(&mut out, " sector_count_28: ");
        push_hex_prefixed_u64(&mut out, self.sector_count_28 as u64);
        push_label(&mut out, " sector_count_48: ");
        push_hex_prefixed_u64(&mut out, self.sector_count_48);
        push_label(&mut out, " physical_sector_size: ");
        push_dec_u64(&mut out, self.physical_sector_size as u64);
        push_label(&mut out, " words_per_logical_sector: ");
        push_dec_u64(&mut out, self.words_per_logical_sector as u64);
        push_label(&mut out, "}");
        proof {
            assert(out@ =~= self.describe_bytes());
        }
        out
    }
}

impl Default for AtaIdentifyData {
    /// The zeroed block, as [`AtaIdentifyData::zeroed`] builds it: every
    /// numeric field zero, every text field all zero bytes.
    fn default() -> (d: AtaIdentifyData)
        ensures
            d.wf(),
            d.flags == 0,
            d.serial_number@ =~= Seq::new(20, |i: int| 0u8),
            d.firmware_ver@ =~= Seq::new(8, |i: int| 0u8),
            d.model_number@ =~= Seq::new(40, |i: int| 0u8),
            d.sect_per_int == 0,
            d.capabilities == (0u16, 0u16),
            d.valid_ext_data == 0,
            d.size_of_rw_multiple == 0,
            d.sector_count_28 == 0,
            d.sector_count_48 == 0,
            d.physical_sector_size == 0,
            d.words_per_logical_sector == 0,
    {
        AtaIdentifyData::zeroed()
    }
}

/// How one byte prints inside a raw-string dump: the classic escapes, the
/// printable characters as themselves, everything else as `\xNN`.
pub open spec fn escape_byte(b: u8) -> Seq<u8> {
    if b == 0x5C {  // backslash
        seq![0x5C, 0x5C]
    } else if b == 0x0A {  // newline
        seq![0x5C, 0x6E]
    } else if b == 0x0D {  // carriage return
        seq![0x5C, 0x72]
    } else if b == 0x22 {  // double quote
        seq![0x5C, 0x22]
    } else if b == 0x00 {
        seq![0x5C, 0x30]
    } else if 32 <= b <= 127 {
        seq![b]
    } else {
        seq![0x5C, 0x78, hex_digit((b >> 4) as int), hex_digit((b & 0xF) as int)]
    }
}

/// Every byte of `s`, escaped in order.
pub open spec fn escaped_bytes(s: Seq<u8>) -> Seq<u8>
    decreases s.len(),
{
    if s.len() == 0 {
        Seq::empty()
    } else {
        escaped_bytes(s.drop_last()) + escape_byte(s.last())
    }
}

/// The full raw-string dump: `b"` then the escaped bytes then `"`.
pub open spec fn raw_string_form(s: Seq<u8>) -> Seq<u8> {
    seq![0x62u8, 0x22u8] + escaped_bytes(s) + seq![0x22u8]
}

/// Append the raw-string dump of `bytes`.
pub fn push_raw_string(out: &mut Vec<u8>, bytes: &Vec<u8>)
    ensures
        final(out)@ == old(out)@ + raw_string_form(bytes@),
{
    out.push(0x62);
    out.push(0x22);
    let n: usize = bytes.len();
    let mut i: usize = 0;
    while i < n
        invariant
            i <= n,
            n == bytes@.len(),
            out@ == old(out)@ + seq![0x62u8, 0x22u8] + escaped_bytes(bytes@.take(i as int)),
        decreases n - i,
    {
        let b: u8 = bytes[i];
        if b == 0x5C {
            out.push(0x5C);
            out.push(0x5C);
        } else if b == 0x0A {
            out.push(0x5C);
            out.push(0x6E);
        } else if b == 0x0D {
            out.push(0x5C);
            out.push(0x72);
        } else if b == 0x22 {
            out.push(0x5C);
            out.push(0x22);
        } else if b == 0x00 {
            out.push(0x5C);
            out.push(0x30);
        } else if 32 <= b && b <= 127 {
            out.push(b);
        } else {
            out.push(0x5C);
            out.push(0x78);
            let hi: u8 = b >> 4;
            let lo: u8 = b & 0xF;
            proof {
                assert(hi < 16 && lo < 16) by (bit_vector)
                    requires
                        hi == b >> 4,
                        lo == b & 0xF,
                ;
            }
            if hi < 10 {
                out.push(48 + hi);
            } else {
                out.push(87 + hi);
            }
            if lo < 10 {
                out.push(48 + lo);
            } else {
                out.push(87 + lo);
            }
        }
        proof {
            assert(bytes@.take(i + 1).drop_last() =~= bytes@.take(i as int));
            assert(bytes@.take(i + 1).last() == bytes@[i as int]);
            assert(out@ =~= old(out)@ + seq![0x62u8, 0x22u8] + escaped_bytes(
                bytes@.take(i + 1),
            ));
        }
        i = i + 1;
    }
    out.push(0x22);
    proof {
        assert(bytes@.take(n as int) =~= bytes@);
        assert(out@ =~= old(out)@ + raw_string_form(bytes@));
    }
}

/// A borrowed byte slice dumped in raw-string form by the diagnostics.
pub struct RawString<'a>(pub &'a [u8]);

impl<'a> RawString<'a> {
    /// The dump's bytes, exactly as the diagnostic output prints them.
    pub fn escaped(&self) -> (out: Vec<u8>)
        ensures
            out@ == raw_string_form(self.0@),
    {
        let mut copy: Vec<u8> = Vec::new();
        let n: usize = self.0.len();
        let mut i: usize = 0;
        while i < n
            invariant
                i <= n,
                n == self.0@.len(),
                copy@ == self.0@.take(i as int),
            decreases n - i,
        {
            copy.push(self.0[i]);
            proof {
                assert(copy@ =~= self.0@.take(i + 1));
            }
            i = i + 1;
        }
        proof {
            assert(self.0@.take(n as int) =~= self.0@);
        }
        let mut out: Vec<u8> = Vec::new();
        push_raw_string(&mut out, &copy);
        out
    }
}

} // verus!
