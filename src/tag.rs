//! Typed views of the records of the tag chain.
//!
//! Each record is decoded from the chain's bytes by copying its fields out one
//! by one (see `bytes`), so a record may start at any byte offset. Records
//! with a trailing array keep a borrowed slice over the array's bytes rather
//! than a copy of it.
use vstd::prelude::*;

use crate::bytes::{read_u16, read_u32, read_u64, spec_u16_le, spec_u32_le, spec_u64_le};

verus! {

/// The header common to every record: its identifier and the address of the
/// next record (0 at the end of the chain).
#[derive(Clone, Copy, Debug, PartialEq, Eq, Structural)]
pub struct StivaleTagHeader {
    pub identifier: u64,
    pub next: u64,
}

impl StivaleTagHeader {
    /// The header stored at byte offset `i` of `s`.
    pub open spec fn at(s: Seq<u8>, i: int) -> Self {
        StivaleTagHeader { identifier: spec_u64_le(s, i), next: spec_u64_le(s, i + 8) }
    }

    /// Decodes the header at byte offset `i` of `b`.
    pub fn read_at(b: &[u8], i: usize) -> (r: Self)
        requires
            i + 16 <= b.len(),
        ensures
            r == Self::at(b@, i as int),
    {
        StivaleTagHeader { identifier: read_u64(b, i), next: read_u64(b, i + 8) }
    }
}

/// The framebuffer the bootloader set up: its address, geometry and colour
/// model. The mask fields only mean something when `memory_model` is 1 (RGB).
#[derive(Clone, Copy, Debug, PartialEq, Eq, Structural)]
pub struct StivaleFramebufferTag {
    pub header: StivaleTagHeader,
    /// The address of the framebuffer.
    pub framebuffer_addr: u64,
    /// The total width of the framebuffer in pixels.
    pub framebuffer_width: u16,
    /// The total height of the framebuffer in pixels.
    pub framebuffer_height: u16,
    /// The pitch of the framebuffer in bytes.
    pub framebuffer_pitch: u16,
    /// The number of bits per pixel.
    pub framebuffer_bpp: u16,
    /// Memory model of the framebuffer; 1 means RGB.
    pub memory_model: u8,
    pub red_mask_size: u8,
    pub red_mask_shift: u8,
    pub green_mask_size: u8,
    pub green_mask_shift: u8,
    pub blue_mask_size: u8,
    pub blue_mask_shift: u8,
}

impl StivaleFramebufferTag {
    /// The framebuffer record stored at byte offset `i` of `s`.
    pub open spec fn at(s: Seq<u8>, i: int) -> Self {
        StivaleFramebufferTag {
            header: StivaleTagHeader::at(s, i),
            framebuffer_addr: spec_u64_le(s, i + 16),
            framebuffer_width: spec_u16_le(s, i + 24),
            framebuffer_height: spec_u16_le(s, i + 26),
            framebuffer_pitch: spec_u16_le(s, i + 28),
            framebuffer_bpp: spec_u16_le(s, i + 30),
            memory_model: s[i + 32],
            red_mask_size: s[i + 33],
            red_mask_shift: s[i + 34],
            green_mask_size: s[i + 35],
            green_mask_shift: s[i + 36],
            blue_mask_size: s[i + 37],
            blue_mask_shift: s[i + 38],
        }
    }

    /// Decodes the framebuffer record at byte offset `i` of `b`.
    pub fn read_at(b: &[u8], i: usize) -> (r: Self)
        requires
            i + 39 <= b.len(),
        ensures
            r == Self::at(b@, i as int),
    {
        StivaleFramebufferTag {
            header: StivaleTagHeader::read_at(b, i),
            framebuffer_addr: read_u64(b, i + 16),
            framebuffer_width: read_u16(b, i + 24),
            framebuffer_height: read_u16(b, i + 26),
            framebuffer_pitch: read_u16(b, i + 28),
            framebuffer_bpp: read_u16(b, i + 30),
            memory_model: b[i + 32],
            red_mask_size: b[i + 33],
            red_mask_shift: b[i + 34],
            green_mask_size: b[i + 35],
            green_mask_shift: b[i + 36],
            blue_mask_size: b[i + 37],
            blue_mask_shift: b[i + 38],
        }
    }

    /// The size of the framebuffer in bytes: pitch × height × whole bytes per pixel.
    pub open spec fn spec_size(&self) -> int {
        self.framebuffer_pitch * self.framebuffer_height * (self.framebuffer_bpp / 8)
    }

    /// Returns the size of the framebuffer in bytes.
    pub fn size(&self) -> (r: usize)
        requires
            self.spec_size() <= usize::MAX,
        ensures
            r == self.spec_size(),
    {
        let pitch = self.framebuffer_pitch as usize;
        let height = self.framebuffer_height as usize;
        let bytes_per_pixel = self.framebuffer_bpp as usize / 8;
        proof {
            assert(pitch * height <= 65535 * 65535) by (nonlinear_arith)
                requires
                    pitch <= 65535,
                    height <= 65535,
            ;
            assert(pitch * height * bytes_per_pixel <= usize::MAX);
        }
        pitch * height * bytes_per_pixel
    }
}

/// The kind of a memory map region.
#[derive(Clone, Copy, Debug, PartialEq, Eq, Structural)]
pub enum StivaleMemoryMapEntryType {
    /// Usable memory.
    Usable,
    /// Memory reserved by the system.
    Reserved,
    /// ACPI memory that can be reclaimed.
    AcpiReclaimable,
    /// ACPI memory that cannot be reclaimed.
    AcpiNvs,
    /// Memory marked as defective (bad RAM).
    BadMemory,
    /// Memory used by the bootloader that can be reclaimed once no longer needed.
    BootloaderReclaimable,
    /// Memory holding the kernel and its modules.
    Kernel,
    /// Memory holding the framebuffer.
    Framebuffer,
}

impl StivaleMemoryMapEntryType {
    /// The kind that the protocol value `v` stands for, if any.
    pub open spec fn spec_from_u32(v: u32) -> Option<Self> {
        if v == 1 {
            Some(StivaleMemoryMapEntryType::Usable)
        } else if v == 2 {
            Some(StivaleMemoryMapEntryType::Reserved)
        } else if v == 3 {
            Some(StivaleMemoryMapEntryType::AcpiReclaimable)
        } else if v == 4 {
            Some(StivaleMemoryMapEntryType::AcpiNvs)
        } else if v == 5 {
            Some(StivaleMemoryMapEntryType::BadMemory)
        } else if v == 0x1000 {
            Some(StivaleMemoryMapEntryType::BootloaderReclaimable)
        } else if v == 0x1001 {
            Some(StivaleMemoryMapEntryType::Kernel)
        } else if v == 0x1002 {
            Some(StivaleMemoryMapEntryType::Framebuffer)
        } else {
            None
        }
    }

    /// Returns the kind that the protocol value `v` stands for, or `None` for
    /// a value the protocol does not define.
    pub fn from_u32(v: u32) -> (r: Option<Self>)
        ensures
            r == Self::spec_from_u32(v),
    {
        if v == 1 {
            Some(StivaleMemoryMapEntryType::Usable)
        } else if v == 2 {
            Some(StivaleMemoryMapEntryType::Reserved)
        } else if v == 3 {
            Some(StivaleMemoryMapEntryType::AcpiReclaimable)
        } else if v == 4 {
            Some(StivaleMemoryMapEntryType::AcpiNvs)
        } else if v == 5 {
            Some(StivaleMemoryMapEntryType::BadMemory)
        } else if v == 0x1000 {
            Some(StivaleMemoryMapEntryType::BootloaderReclaimable)
        } else if v == 0x1001 {
            Some(StivaleMemoryMapEntryType::Kernel)
        } else if v == 0x1002 {
            Some(StivaleMemoryMapEntryType::Framebuffer)
        } else {
            None
        }
    }
}

/// One region of the memory map. Entries are sorted by base address; usable
/// and bootloader-reclaimable regions are 4096-byte aligned and overlap no
/// other region.
#[derive(Clone, Copy, Debug, PartialEq, Eq, Structural)]
pub struct StivaleMemoryMapEntry {
    /// Physical address of the start of the region.
    pub base: u64,
    /// Length of the region in bytes.
    pub length: u64,
    /// The region's kind as the protocol encodes it; see `entry_type()`.
    pub entry_type: u32,
}

impl StivaleMemoryMapEntry {
    /// The entry stored at byte offset `i` of `s` (four bytes of padding
    /// follow the kind).
    pub open spec fn at(s: Seq<u8>, i: int) -> Self {
        StivaleMemoryMapEntry {
            base: spec_u64_le(s, i),
            length: spec_u64_le(s, i + 8),
            entry_type: spec_u32_le(s, i + 16),
        }
    }

    /// Decodes the entry at byte offset `i` of `b`.
    pub fn read_at(b: &[u8], i: usize) -> (r: Self)
        requires
            i + 24 <= b.len(),
        ensures
            r == Self::at(b@, i as int),
    {
        StivaleMemoryMapEntry {
            base: read_u64(b, i),
            length: read_u64(b, i + 8),
            entry_type: read_u32(b, i + 16),
        }
    }

    /// The first address past the region.
    pub open spec fn spec_end_address(&self) -> int {
        self.base + self.length
    }

    /// Returns the end address of this memory region.
    pub fn end_address(&self) -> (r: u64)
        requires
            self.spec_end_address() <= u64::MAX,
        ensures
            r == self.spec_end_address(),
    {
        self.base + self.length
    }

    /// Returns the kind of this memory region, or `None` where the stored
    /// value is not one the protocol defines.
    pub fn entry_type(&self) -> (r: Option<StivaleMemoryMapEntryType>)
        ensures
            r == StivaleMemoryMapEntryType::spec_from_u32(self.entry_type),
    {
        StivaleMemoryMapEntryType::from_u32(self.entry_type)
    }

    /// Whether the two regions share at least one address.
    pub open spec fn spec_overlaps(&self, other: &Self) -> bool {
        self.base < other.spec_end_address() && other.base < self.spec_end_address()
    }

    /// Returns whether this region and `other` share at least one address.
    pub fn overlaps(&self, other: &Self) -> (r: bool)
        ensures
            r == self.spec_overlaps(other),
    {
        (self.base as u128) < (other.base as u128) + (other.length as u128) && (other.base as u128)
            < (self.base as u128) + (self.length as u128)
    }
}

/// Regions kept in address order, where the first ends at or before the
/// second begins, share no address: disjointness is the map's stated
/// invariant for such regions, not a consequence of the ordering alone.
pub proof fn lemma_ordered_disjoint_entries(a: StivaleMemoryMapEntry, b: StivaleMemoryMapEntry)
    requires
        a.base <= b.base,
        a.spec_end_address() <= b.base,
    ensures
        !a.spec_overlaps(&b),
        !b.spec_overlaps(&a),
{
}

/// The memory map: a count followed by that many entries.
#[derive(Clone, Copy)]
pub struct StivaleMemoryMapTag<'a> {
    pub header: StivaleTagHeader,
    /// The number of entries.
    pub entries_len: u64,
    /// The bytes of the entries, borrowed from the chain.
    pub entry_array: &'a [u8],
}

impl<'a> StivaleMemoryMapTag<'a> {
    /// The entry array holds exactly `entries_len` entries.
    pub open spec fn wf(&self) -> bool {
        self.entry_array.len() == self.entries_len * 24
    }

    /// The entries, in the order they are laid out.
    pub open spec fn entries(&self) -> Seq<StivaleMemoryMapEntry> {
        Seq::new(
            self.entries_len as nat,
            |k: int| StivaleMemoryMapEntry::at(self.entry_array@, k * 24),
        )
    }

    /// Decodes the memory map record at byte offset `i` of `b`, borrowing the
    /// entries that follow its fixed part.
    pub fn read_at(b: &'a [u8], i: usize) -> (r: Self)
        requires
            i + 24 <= b.len(),
            i + 24 + spec_u64_le(b@, i + 16) * 24 <= b.len(),
        ensures
            r.header == StivaleTagHeader::at(b@, i as int),
            r.entries_len == spec_u64_le(b@, i + 16),
            r.entry_array@ == b@.subrange(i + 24, i + 24 + r.entries_len * 24),
            r.wf(),
    {
        let entries_len = read_u64(b, i + 16);
        let start = i + 24;
        let end = start + (entries_len as usize) * 24;
        StivaleMemoryMapTag {
            header: StivaleTagHeader::read_at(b, i),
            entries_len,
            entry_array: &b[start..end],
        }
    }

    /// Returns entry `k` of the map.
    pub fn entry(&self, k: usize) -> (r: StivaleMemoryMapEntry)
        requires
            self.wf(),
            k < self.entries_len,
        ensures
            r == self.entries()[k as int],
    {
        proof {
            assert((k + 1) * 24 <= self.entries_len * 24) by (nonlinear_arith)
                requires
                    k < self.entries_len,
            ;
        }
        StivaleMemoryMapEntry::read_at(self.entry_array, k * 24)
    }

    /// Returns all the entries, in order.
    pub fn as_slice(&self) -> (r: Vec<StivaleMemoryMapEntry>)
        requires
            self.wf(),
        ensures
            r@ == self.entries(),
    {
        let n = self.entries_len as usize;
        let mut v: Vec<StivaleMemoryMapEntry> = Vec::new();
        let mut k: usize = 0;
        while k < n
            invariant
                self.wf(),
                n == self.entries_len,
                k <= n,
                v@ == self.entries().take(k as int),
            decreases n - k,
        {
            v.push(self.entry(k));
            k = k + 1;
            assert(v@ =~= self.entries().take(k as int));
        }
        assert(v@ =~= self.entries());
        v
    }

    /// Returns a fresh iterator over the entries, starting at the first.
    pub fn iter(&self) -> (r: StivaleMemoryMapIter)
        requires
            self.wf(),
        ensures
            r.wf(),
            r.tag() == *self,
            r.position() == 0,
            r.remaining() == self.entries(),
    {
        StivaleMemoryMapIter { sref: self, current: 0 }
    }
}

/// Iterating never changes the tag: two iterators over the same memory map,
/// each at its start, yield the same entries in the same order, namely all
/// the map's entries.
pub proof fn lemma_restarted_iterators_agree(a: StivaleMemoryMapIter, b: StivaleMemoryMapIter)
    requires
        a.wf(),
        b.wf(),
        a.tag() == b.tag(),
        a.position() == 0,
        b.position() == 0,
    ensures
        a.remaining() == b.remaining(),
        a.remaining() == a.tag().entries(),
{
    assert(a.remaining() =~= a.tag().entries());
}

/// Iterator over the memory map's entries. It only reads the tag it was made
/// from; each one holds its own position.
#[derive(Clone)]
pub struct StivaleMemoryMapIter<'a> {
    sref: &'a StivaleMemoryMapTag<'a>,
    current: u64,
}

impl<'a> StivaleMemoryMapIter<'a> {
    /// The iterator reads a well-formed tag and stands within it.
    pub closed spec fn wf(&self) -> bool {
        self.sref.wf() && self.current <= self.sref.entries_len
    }

    /// The tag being read.
    pub closed spec fn tag(&self) -> StivaleMemoryMapTag<'a> {
        *self.sref
    }

    /// The index of the entry that the iterator yields next.
    pub closed spec fn position(&self) -> int {
        self.current as int
    }

    /// The entries that the iterator has yet to yield, in order.
    pub closed spec fn remaining(&self) -> Seq<StivaleMemoryMapEntry> {
        self.sref.entries().skip(self.current as int)
    }

    /// Yields the next entry, or `None` once all have been yielded.
    pub fn next(&mut self) -> (r: Option<StivaleMemoryMapEntry>)
        requires
            old(self).wf(),
        ensures
            final(self).wf(),
            final(self).tag() == old(self).tag(),
            old(self).remaining().len() == 0 ==> r is None && final(self).remaining() == old(
                self,
            ).remaining(),
            old(self).remaining().len() > 0 ==> r == Some(old(self).remaining()[0])
                && final(self).remaining() == old(self).remaining().drop_first(),
    {
        if self.current < self.sref.entries_len {
            let entry = self.sref.entry(self.current as usize);
            self.current = self.current + 1;
            assert(self.remaining() =~= old(self).remaining().drop_first());
            Some(entry)
        } else {
            None
        }
    }
}

/// The location of the ACPI RSDP structure.
#[derive(Clone, Copy, Debug, PartialEq, Eq, Structural)]
pub struct StivaleRsdpTag {
    pub header: StivaleTagHeader,
    /// Address of the ACPI RSDP structure.
    pub rsdp: u64,
}

impl StivaleRsdpTag {
    /// The record stored at byte offset `i` of `s`.
    pub open spec fn at(s: Seq<u8>, i: int) -> Self {
        StivaleRsdpTag {
            header: StivaleTagHeader::at(s, i),
            rsdp: spec_u64_le(s, i + 16),
        }
    }

    /// Decodes the record at byte offset `i` of `b`.
    pub fn read_at(b: &[u8], i: usize) -> (r: Self)
        requires
            i + 24 <= b.len(),
        ensures
            r == Self::at(b@, i as int),
    {
        StivaleRsdpTag {
            header: StivaleTagHeader::read_at(b, i),
            rsdp: read_u64(b, i + 16),
        }
    }
}

/// The UNIX epoch at boot, as read from the RTC.
#[derive(Clone, Copy, Debug, PartialEq, Eq, Structural)]
pub struct StivaleEpochTag {
    pub header: StivaleTagHeader,
    /// UNIX epoch at boot.
    pub epoch: u64,
}

impl StivaleEpochTag {
    /// The record stored at byte offset `i` of `s`.
    pub open spec fn at(s: Seq<u8>, i: int) -> Self {
        StivaleEpochTag {
            header: StivaleTagHeader::at(s, i),
            epoch: spec_u64_le(s, i + 16),
        }
    }

    /// Decodes the record at byte offset `i` of `b`.
    pub fn read_at(b: &[u8], i: usize) -> (r: Self)
        requires
            i + 24 <= b.len(),
        ensures
            r == Self::at(b@, i as int),
    {
        StivaleEpochTag {
            header: StivaleTagHeader::read_at(b, i),
            epoch: read_u64(b, i + 16),
        }
    }
}

/// The address of the EFI system table, where there is one.
#[derive(Clone, Copy, Debug, PartialEq, Eq, Structural)]
pub struct StivaleEfiSystemTableTag {
    pub header: StivaleTagHeader,
    /// Address of the EFI system table.
    pub system_table_addr: u64,
}

impl StivaleEfiSystemTableTag {
    /// The record stored at byte offset `i` of `s`.
    pub open spec fn at(s: Seq<u8>, i: int) -> Self {
        StivaleEfiSystemTableTag {
            header: StivaleTagHeader::at(s, i),
            system_table_addr: spec_u64_le(s, i + 16),
        }
    }

    /// Decodes the record at byte offset `i` of `b`.
    pub fn read_at(b: &[u8], i: usize) -> (r: Self)
        requires
            i + 24 <= b.len(),
        ensures
            r == Self::at(b@, i as int),
    {
        StivaleEfiSystemTableTag {
            header: StivaleTagHeader::read_at(b, i),
            system_table_addr: read_u64(b, i + 16),
        }
    }
}

/// The address of a copy of the kernel's raw executable file.
#[derive(Clone, Copy, Debug, PartialEq, Eq, Structural)]
pub struct StivaleKernelFileTag {
    pub header: StivaleTagHeader,
    /// Address of the raw kernel file.
    pub kernel_file_addr: u64,
}

impl StivaleKernelFileTag {
    /// The record stored at byte offset `i` of `s`.
    pub open spec fn at(s: Seq<u8>, i: int) -> Self {
        StivaleKernelFileTag {
            header: StivaleTagHeader::at(s, i),
            kernel_file_addr: spec_u64_le(s, i + 16),
        }
    }

    /// Decodes the record at byte offset `i` of `b`.
    pub fn read_at(b: &[u8], i: usize) -> (r: Self)
        requires
            i + 24 <= b.len(),
        ensures
            r == Self::at(b@, i as int),
    {
        StivaleKernelFileTag {
            header: StivaleTagHeader::read_at(b, i),
            kernel_file_addr: read_u64(b, i + 16),
        }
    }
}

/// The positive offset the bootloader applied to the kernel's load address.
#[derive(Clone, Copy, Debug, PartialEq, Eq, Structural)]
pub struct StivaleKernelSlideTag {
    pub header: StivaleTagHeader,
    /// The kernel slide.
    pub kernel_slide: u64,
}

impl StivaleKernelSlideTag {
    /// The record stored at byte offset `i` of `s`.
    pub open spec fn at(s: Seq<u8>, i: int) -> Self {
        StivaleKernelSlideTag {
            header: StivaleTagHeader::at(s, i),
            kernel_slide: spec_u64_le(s, i + 16),
        }
    }

    /// Decodes the record at byte offset `i` of `b`.
    pub fn read_at(b: &[u8], i: usize) -> (r: Self)
        requires
            i + 24 <= b.len(),
        ensures
            r == Self::at(b@, i as int),
    {
        StivaleKernelSlideTag {
            header: StivaleTagHeader::read_at(b, i),
            kernel_slide: read_u64(b, i + 16),
        }
    }
}

/// The command line passed to the kernel.
#[derive(Clone, Copy, Debug, PartialEq, Eq, Structural)]
pub struct StivaleCommandLineTag {
    pub header: StivaleTagHeader,
    /// Address of the null-terminated command line.
    pub command_line: u64,
}

impl StivaleCommandLineTag {
    /// The record stored at byte offset `i` of `s`.
    pub open spec fn at(s: Seq<u8>, i: int) -> Self {
        StivaleCommandLineTag {
            header: StivaleTagHeader::at(s, i),
            command_line: spec_u64_le(s, i + 16),
        }
    }

    /// Decodes the record at byte offset `i` of `b`.
    pub fn read_at(b: &[u8], i: usize) -> (r: Self)
        requires
            i + 24 <= b.len(),
        ensures
            r == Self::at(b@, i as int),
    {
        StivaleCommandLineTag {
            header: StivaleTagHeader::read_at(b, i),
            command_line: read_u64(b, i + 16),
        }
    }
}

/// The locations of the SMBIOS entry points.
#[derive(Clone, Copy, Debug, PartialEq, Eq, Structural)]
pub struct StivaleSmbiosTag {
    pub header: StivaleTagHeader,
    /// Reserved for future use; 0.
    pub flags: u64,
    /// 32-bit SMBIOS entry point address, 0 if unavailable.
    pub smbios_entry_32: u64,
    /// 64-bit SMBIOS entry point address, 0 if unavailable.
    pub smbios_entry_64: u64,
}

impl StivaleSmbiosTag {
    /// The record stored at byte offset `i` of `s`.
    pub open spec fn at(s: Seq<u8>, i: int) -> Self {
        StivaleSmbiosTag {
            header: StivaleTagHeader::at(s, i),
            flags: spec_u64_le(s, i + 16),
            smbios_entry_32: spec_u64_le(s, i + 24),
            smbios_entry_64: spec_u64_le(s, i + 32),
        }
    }

    /// Decodes the record at byte offset `i` of `b`.
    pub fn read_at(b: &[u8], i: usize) -> (r: Self)
        requires
            i + 40 <= b.len(),
        ensures
            r == Self::at(b@, i as int),
    {
        StivaleSmbiosTag {
            header: StivaleTagHeader::read_at(b, i),
            flags: read_u64(b, i + 16),
            smbios_entry_32: read_u64(b, i + 24),
            smbios_entry_64: read_u64(b, i + 32),
        }
    }
}

/// Present when the kernel was booted over PXE.
#[derive(Clone, Copy, Debug, PartialEq, Eq, Structural)]
pub struct StivalePxeInfoTag {
    pub header: StivaleTagHeader,
    /// Server IP in network byte order.
    pub server_ip: u32,
}

impl StivalePxeInfoTag {
    /// The record stored at byte offset `i` of `s`.
    pub open spec fn at(s: Seq<u8>, i: int) -> Self {
        StivalePxeInfoTag {
            header: StivaleTagHeader::at(s, i),
            server_ip: spec_u32_le(s, i + 16),
        }
    }

    /// Decodes the record at byte offset `i` of `b`.
    pub fn read_at(b: &[u8], i: usize) -> (r: Self)
        requires
            i + 20 <= b.len(),
        ensures
            r == Self::at(b@, i as int),
    {
        StivalePxeInfoTag {
            header: StivaleTagHeader::read_at(b, i),
            server_ip: read_u32(b, i + 16),
        }
    }
}

/// A memory-mapped UART port.
#[derive(Clone, Copy, Debug, PartialEq, Eq, Structural)]
pub struct StivaleUartTag {
    pub header: StivaleTagHeader,
    /// The address of the UART port.
    pub address: u64,
}

impl StivaleUartTag {
    /// The record stored at byte offset `i` of `s`.
    pub open spec fn at(s: Seq<u8>, i: int) -> Self {
        StivaleUartTag {
            header: StivaleTagHeader::at(s, i),
            address: spec_u64_le(s, i + 16),
        }
    }

    /// Decodes the record at byte offset `i` of `b`.
    pub fn read_at(b: &[u8], i: usize) -> (r: Self)
        requires
            i + 24 <= b.len(),
        ensures
            r == Self::at(b@, i as int),
    {
        StivaleUartTag {
            header: StivaleTagHeader::read_at(b, i),
            address: read_u64(b, i + 16),
        }
    }
}

/// The platform's device tree blob.
#[derive(Clone, Copy, Debug, PartialEq, Eq, Structural)]
pub struct StivaleDeviceTreeTag {
    pub header: StivaleTagHeader,
    /// The address of the device tree blob.
    pub address: u64,
    /// The size of the device tree blob.
    pub size: u64,
}

impl StivaleDeviceTreeTag {
    /// The record stored at byte offset `i` of `s`.
    pub open spec fn at(s: Seq<u8>, i: int) -> Self {
        StivaleDeviceTreeTag {
            header: StivaleTagHeader::at(s, i),
            address: spec_u64_le(s, i + 16),
            size: spec_u64_le(s, i + 24),
        }
    }

    /// Decodes the record at byte offset `i` of `b`.
    pub fn read_at(b: &[u8], i: usize) -> (r: Self)
        requires
            i + 32 <= b.len(),
        ensures
            r == Self::at(b@, i as int),
    {
        StivaleDeviceTreeTag {
            header: StivaleTagHeader::read_at(b, i),
            address: read_u64(b, i + 16),
            size: read_u64(b, i + 24),
        }
    }
}

/// Where physical memory is mapped in the higher half.
#[derive(Clone, Copy, Debug, PartialEq, Eq, Structural)]
pub struct StivaleVMap {
    pub header: StivaleTagHeader,
    /// VMAP_HIGH, the base of the higher-half mapping of physical memory.
    pub address: u64,
}

impl StivaleVMap {
    /// The record stored at byte offset `i` of `s`.
    pub open spec fn at(s: Seq<u8>, i: int) -> Self {
        StivaleVMap {
            header: StivaleTagHeader::at(s, i),
            address: spec_u64_le(s, i + 16),
        }
    }

    /// Decodes the record at byte offset `i` of `b`.
    pub fn read_at(b: &[u8], i: usize) -> (r: Self)
        requires
            i + 24 <= b.len(),
        ensures
            r == Self::at(b@, i as int),
    {
        StivaleVMap {
            header: StivaleTagHeader::read_at(b, i),
            address: read_u64(b, i + 16),
        }
    }
}

/// The bootloader's terminal. `term_write_addr` is the address of a function
/// that writes text to it.
#[derive(Clone, Copy, Debug, PartialEq, Eq, Structural)]
pub struct StivaleTerminalTag {
    pub header: StivaleTagHeader,
    pub flags: u32,
    /// The number of columns of the terminal.
    pub cols: u16,
    /// The number of rows of the terminal.
    pub rows: u16,
    /// The address of the terminal's write function.
    pub term_write_addr: u64,
}

impl StivaleTerminalTag {
    /// The record stored at byte offset `i` of `s`.
    pub open spec fn at(s: Seq<u8>, i: int) -> Self {
        StivaleTerminalTag {
            header: StivaleTagHeader::at(s, i),
            flags: spec_u32_le(s, i + 16),
            cols: spec_u16_le(s, i + 20),
            rows: spec_u16_le(s, i + 22),
            term_write_addr: spec_u64_le(s, i + 24),
        }
    }

    /// Decodes the record at byte offset `i` of `b`.
    pub fn read_at(b: &[u8], i: usize) -> (r: Self)
        requires
            i + 32 <= b.len(),
        ensures
            r == Self::at(b@, i as int),
    {
        StivaleTerminalTag {
            header: StivaleTagHeader::read_at(b, i),
            flags: read_u32(b, i + 16),
            cols: read_u16(b, i + 20),
            rows: read_u16(b, i + 22),
            term_write_addr: read_u64(b, i + 24),
        }
    }
}

/// Firmware and boot flags: bit 0 set means the kernel was booted through
/// legacy BIOS, clear means UEFI.
#[derive(Clone, Copy, Debug, PartialEq, Eq, Structural)]
pub struct StivaleFirmwareTagFlags {
    pub bits: u64,
}

impl StivaleFirmwareTagFlags {
    /// Returns the raw bits.
    pub fn bits(&self) -> (r: u64)
        ensures
            r == self.bits,
    {
        self.bits
    }
}

/// Information about the firmware.
#[derive(Clone, Copy, Debug, PartialEq, Eq, Structural)]
pub struct StivaleFirmwareTag {
    pub header: StivaleTagHeader,
    /// Firmware and boot flags passed by the bootloader.
    pub flags: StivaleFirmwareTagFlags,
}

impl StivaleFirmwareTag {
    /// The record stored at byte offset `i` of `s`.
    pub open spec fn at(s: Seq<u8>, i: int) -> Self {
        StivaleFirmwareTag {
            header: StivaleTagHeader::at(s, i),
            flags: StivaleFirmwareTagFlags { bits: spec_u64_le(s, i + 16) },
        }
    }

    /// Decodes the record at byte offset `i` of `b`.
    pub fn read_at(b: &[u8], i: usize) -> (r: Self)
        requires
            i + 24 <= b.len(),
        ensures
            r == Self::at(b@, i as int),
    {
        StivaleFirmwareTag {
            header: StivaleTagHeader::read_at(b, i),
            flags: StivaleFirmwareTagFlags { bits: read_u64(b, i + 16) },
        }
    }
}

/// Present when MTRR write-combining for the framebuffer was enabled.
///
/// This record is legacy: newer bootloaders may not provide it.
#[derive(Clone, Copy, Debug, PartialEq, Eq, Structural)]
pub struct StivaleMtrrTag {
    pub header: StivaleTagHeader,
}

impl StivaleMtrrTag {
    /// The record stored at byte offset `i` of `s`.
    pub open spec fn at(s: Seq<u8>, i: int) -> Self {
        StivaleMtrrTag { header: StivaleTagHeader::at(s, i) }
    }

    /// Decodes the record at byte offset `i` of `b`.
    pub fn read_at(b: &[u8], i: usize) -> (r: Self)
        requires
            i + 16 <= b.len(),
        ensures
            r == Self::at(b@, i as int),
    {
        StivaleMtrrTag { header: StivaleTagHeader::read_at(b, i) }
    }
}

/// The EDID information acquired by the firmware: a length followed by that
/// many bytes.
#[derive(Clone, Copy)]
pub struct StivaleEdidInfoTag<'a> {
    pub header: StivaleTagHeader,
    /// Length of the EDID information in bytes.
    pub edid_len: u64,
    /// The EDID bytes, borrowed from the chain.
    pub info_array: &'a [u8],
}

impl<'a> StivaleEdidInfoTag<'a> {
    /// The array holds exactly `edid_len` bytes.
    pub open spec fn wf(&self) -> bool {
        self.info_array.len() == self.edid_len
    }

    /// Decodes the EDID record at byte offset `i` of `b`, borrowing the bytes
    /// that follow its fixed part.
    pub fn read_at(b: &'a [u8], i: usize) -> (r: Self)
        requires
            i + 24 <= b.len(),
            i + 24 + spec_u64_le(b@, i + 16) <= b.len(),
        ensures
            r.header == StivaleTagHeader::at(b@, i as int),
            r.edid_len == spec_u64_le(b@, i + 16),
            r.info_array@ == b@.subrange(i + 24, i + 24 + r.edid_len),
            r.wf(),
    {
        let edid_len = read_u64(b, i + 16);
        let start = i + 24;
        let end = start + edid_len as usize;
        StivaleEdidInfoTag { header: StivaleTagHeader::read_at(b, i), edid_len, info_array: &b[start..end] }
    }

    /// Returns the EDID bytes.
    pub fn as_slice(&self) -> (r: &[u8])
        ensures
            r@ == self.info_array@,
    {
        self.info_array
    }
}

/// A module the bootloader loaded beside the kernel.
#[derive(Clone, Copy)]
pub struct StivaleModule<'a> {
    /// Address where the module was loaded.
    pub start: u64,
    /// End address of the module.
    pub end: u64,
    /// The module's name buffer: a null-terminated ASCII string, borrowed from
    /// the chain.
    pub string: &'a [u8],
}

/// Relies on `core::str::from_utf8`: ASCII bytes are valid UTF-8, and the
/// resulting string holds one character per byte, of the same value.
#[verifier::external_body]
fn ascii_str(b: &[u8]) -> (r: &str)
    requires
        forall|j: int| 0 <= j < b@.len() ==> b@[j] < 128,
    ensures
        r@ == b@.map_values(|c: u8| c as char),
{
    core::str::from_utf8(b).unwrap_or("")
}

/// Whether `n` is where the null-terminated string in `s` ends: no null byte
/// comes before it, and it is a null byte or the end of `s`.
pub open spec fn is_name_end(s: Seq<u8>, n: int) -> bool {
    &&& 0 <= n <= s.len()
    &&& forall|j: int| 0 <= j < n ==> s[j] != 0
    &&& (n == s.len() || s[n] == 0)
}

/// The characters of the first `n` bytes of `s` where they are all ASCII, and
/// no characters otherwise.
pub open spec fn name_chars(s: Seq<u8>, n: int) -> Seq<char> {
    if forall|j: int| 0 <= j < n ==> s[j] < 128 {
        s.take(n).map_values(|c: u8| c as char)
    } else {
        Seq::empty()
    }
}

impl<'a> StivaleModule<'a> {
    /// Whether this module is the one whose 144 bytes start at offset `i` of `s`.
    pub open spec fn decodes(&self, s: Seq<u8>, i: int) -> bool {
        &&& self.start == spec_u64_le(s, i)
        &&& self.end == spec_u64_le(s, i + 8)
        &&& self.string@ == s.subrange(i + 16, i + 144)
    }

    /// Decodes the module at byte offset `i` of `b`, borrowing its name buffer.
    pub fn read_at(b: &'a [u8], i: usize) -> (r: Self)
        requires
            i + 144 <= b.len(),
        ensures
            r.decodes(b@, i as int),
    {
        StivaleModule { start: read_u64(b, i), end: read_u64(b, i + 8), string: &b[i + 16..i + 144] }
    }

    /// Returns the size of this module.
    pub fn size(&self) -> (r: u64)
        requires
            self.start <= self.end,
        ensures
            r == self.end - self.start,
    {
        self.end - self.start
    }

    /// Returns the module's name: the bytes of the buffer before its first
    /// null byte (or the whole buffer if it has none), as a string. A name
    /// that is not ASCII gives the empty string.
    pub fn as_str(&self) -> (r: &str)
        ensures
            exists|n: int| is_name_end(self.string@, n) && r@ == name_chars(self.string@, n),
    {
        let len = self.string.len();
        let mut n: usize = 0;
        let mut ascii = true;
        while n < len && self.string[n] != 0
            invariant
                len == self.string@.len(),
                n <= len,
                forall|j: int| 0 <= j < n ==> self.string@[j] != 0,
                ascii == (forall|j: int| 0 <= j < n ==> self.string@[j] < 128),
            decreases len - n,
        {
            if self.string[n] >= 128 {
                ascii = false;
            }
            n = n + 1;
        }
        let r = if ascii {
            let name = &self.string[0..n];
            assert(name@ == self.string@.take(n as int));
            ascii_str(name)
        } else {
            proof {
                reveal_strlit("");
            }
            ""
        };
        assert(is_name_end(self.string@, n as int));
        assert(r@ =~= name_chars(self.string@, n as int));
        r
    }
}

/// The modules the bootloader loaded beside the kernel: a count followed by
/// that many module records.
#[derive(Clone, Copy)]
pub struct StivaleModuleTag<'a> {
    pub header: StivaleTagHeader,
    /// The number of modules.
    pub module_len: u64,
    /// The bytes of the module records, borrowed from the chain.
    pub modules_array: &'a [u8],
}

impl<'a> StivaleModuleTag<'a> {
    /// The array holds exactly `module_len` records.
    pub open spec fn wf(&self) -> bool {
        self.modules_array.len() == self.module_len * 144
    }

    /// Whether `m` is the `k`-th module record of the array.
    pub open spec fn holds_module(&self, k: int, m: StivaleModule) -> bool {
        m.decodes(self.modules_array@, k * 144)
    }

    /// Decodes the module list record at byte offset `i` of `b`, borrowing the
    /// records that follow its fixed part.
    pub fn read_at(b: &'a [u8], i: usize) -> (r: Self)
        requires
            i + 24 <= b.len(),
            i + 24 + spec_u64_le(b@, i + 16) * 144 <= b.len(),
        ensures
            r.header == StivaleTagHeader::at(b@, i as int),
            r.module_len == spec_u64_le(b@, i + 16),
            r.modules_array@ == b@.subrange(i + 24, i + 24 + r.module_len * 144),
            r.wf(),
    {
        let module_len = read_u64(b, i + 16);
        let start = i + 24;
        let end = start + (module_len as usize) * 144;
        StivaleModuleTag {
            header: StivaleTagHeader::read_at(b, i),
            module_len,
            modules_array: &b[start..end],
        }
    }

    /// Returns module `k`.
    pub fn module(&self, k: usize) -> (r: StivaleModule<'a>)
        requires
            self.wf(),
            k < self.module_len,
        ensures
            self.holds_module(k as int, r),
    {
        proof {
            assert((k + 1) * 144 <= self.module_len * 144) by (nonlinear_arith)
                requires
                    k < self.module_len,
            ;
        }
        StivaleModule::read_at(self.modules_array, k * 144)
    }

    /// Returns all the modules, in order.
    pub fn as_slice(&self) -> (r: Vec<StivaleModule<'a>>)
        requires
            self.wf(),
        ensures
            r@.len() == self.module_len,
            forall|k: int| 0 <= k < r@.len() ==> self.holds_module(k, #[trigger] r@[k]),
    {
        let n = self.module_len as usize;
        let mut v: Vec<StivaleModule<'a>> = Vec::new();
        let mut k: usize = 0;
        while k < n
            invariant
                self.wf(),
                n == self.module_len,
                k <= n,
                v@.len() == k,
                forall|j: int| 0 <= j < k ==> self.holds_module(j, #[trigger] v@[j]),
            decreases n - k,
        {
            v.push(self.module(k));
            k = k + 1;
        }
        v
    }

    /// Returns a fresh iterator over the modules, starting at the first.
    pub fn iter(&self) -> (r: StivaleModuleIter)
        requires
            self.wf(),
        ensures
            r.wf(),
            r.tag() == *self,
            r.position() == 0,
    {
        StivaleModuleIter { sref: self, current: 0 }
    }
}

/// Iterator over the modules. It only reads the tag it was made from; each
/// one holds its own position.
#[derive(Clone)]
pub struct StivaleModuleIter<'a> {
    sref: &'a StivaleModuleTag<'a>,
    current: u64,
}

impl<'a> StivaleModuleIter<'a> {
    /// The iterator reads a well-formed tag and stands within it.
    pub closed spec fn wf(&self) -> bool {
        self.sref.wf() && self.current <= self.sref.module_len
    }

    /// The tag being read.
    pub closed spec fn tag(&self) -> StivaleModuleTag<'a> {
        *self.sref
    }

    /// The index of the module that the iterator yields next.
    pub closed spec fn position(&self) -> int {
        self.current as int
    }

    /// Yields the next module, or `None` once all have been yielded.
    pub fn next(&mut self) -> (r: Option<StivaleModule<'a>>)
        requires
            old(self).wf(),
        ensures
            final(self).wf(),
            final(self).tag() == old(self).tag(),
            old(self).position() < old(self).tag().module_len ==> {
                &&& r is Some
                &&& old(self).tag().holds_module(old(self).position(), r->0)
                &&& final(self).position() == old(self).position() + 1
            },
            old(self).position() >= old(self).tag().module_len ==> r is None && final(self).position()
                == old(self).position(),
    {
        if self.current < self.sref.module_len {
            let module = self.sref.module(self.current as usize);
            self.current = self.current + 1;
            Some(module)
        } else {
            None
        }
    }
}

/// Flags of the SMP record; bit 0 set means x2APIC was requested and enabled.
#[derive(Clone, Copy, Debug, PartialEq, Eq, Structural)]
pub struct StivaleSmpHeaderTagFlags {
    pub bits: u64,
}

impl StivaleSmpHeaderTagFlags {
    /// Returns the raw bits.
    pub fn bits(&self) -> (r: u64)
        ensures
            r == self.bits,
    {
        self.bits
    }
}

/// Information about one processor. The first record describes the bootstrap
/// processor, for which `target_stack` and `goto_address` are unused.
#[derive(Clone, Copy, Debug, PartialEq, Eq, Structural)]
pub struct StivaleSmpInfo {
    /// ACPI processor UID as given by the MADT.
    pub acpi_processor_uid: u32,
    /// LAPIC ID as given by the MADT.
    pub lapic_id: u32,
    /// The stack the processor loads once `goto_address` is written.
    pub target_stack: u64,
    /// Polled by the processor until another one writes the address to jump to.
    pub goto_address: u64,
    /// Free for the kernel's use.
    pub extra: u64,
}

impl StivaleSmpInfo {
    /// The record stored at byte offset `i` of `s`.
    pub open spec fn at(s: Seq<u8>, i: int) -> Self {
        StivaleSmpInfo {
            acpi_processor_uid: spec_u32_le(s, i),
            lapic_id: spec_u32_le(s, i + 4),
            target_stack: spec_u64_le(s, i + 8),
            goto_address: spec_u64_le(s, i + 16),
            extra: spec_u64_le(s, i + 24),
        }
    }

    /// Decodes the record at byte offset `i` of `b`.
    pub fn read_at(b: &[u8], i: usize) -> (r: Self)
        requires
            i + 32 <= b.len(),
        ensures
            r == Self::at(b@, i as int),
    {
        StivaleSmpInfo {
            acpi_processor_uid: read_u32(b, i),
            lapic_id: read_u32(b, i + 4),
            target_stack: read_u64(b, i + 8),
            goto_address: read_u64(b, i + 16),
            extra: read_u64(b, i + 24),
        }
    }
}

/// The processors of the machine: a count followed by one information record
/// per logical processor, the bootstrap processor included.
#[derive(Clone, Copy)]
pub struct StivaleSmpTag<'a> {
    pub header: StivaleTagHeader,
    pub flags: StivaleSmpHeaderTagFlags,
    /// LAPIC ID of the bootstrap processor.
    pub bsp_lapic_id: u32,
    /// Reserved for future use.
    pub unused: u32,
    /// The number of logical processors.
    pub cpu_count: u64,
    /// The bytes of the information records, borrowed from the chain.
    pub smp_info_array: &'a [u8],
}

impl<'a> StivaleSmpTag<'a> {
    /// The array holds exactly `cpu_count` records.
    pub open spec fn wf(&self) -> bool {
        self.smp_info_array.len() == self.cpu_count * 32
    }

    /// The information records, in order.
    pub open spec fn infos(&self) -> Seq<StivaleSmpInfo> {
        Seq::new(self.cpu_count as nat, |k: int| StivaleSmpInfo::at(self.smp_info_array@, k * 32))
    }

    /// Decodes the SMP record at byte offset `i` of `b`, borrowing the
    /// information records that follow its fixed part.
    pub fn read_at(b: &'a [u8], i: usize) -> (r: Self)
        requires
            i + 40 <= b.len(),
            i + 40 + spec_u64_le(b@, i + 32) * 32 <= b.len(),
        ensures
            r.header == StivaleTagHeader::at(b@, i as int),
            r.flags.bits == spec_u64_le(b@, i + 16),
            r.bsp_lapic_id == spec_u32_le(b@, i + 24),
            r.unused == spec_u32_le(b@, i + 28),
            r.cpu_count == spec_u64_le(b@, i + 32),
            r.smp_info_array@ == b@.subrange(i + 40, i + 40 + r.cpu_count * 32),
            r.wf(),
    {
        let cpu_count = read_u64(b, i + 32);
        let start = i + 40;
        let end = start + (cpu_count as usize) * 32;
        StivaleSmpTag {
            header: StivaleTagHeader::read_at(b, i),
            flags: StivaleSmpHeaderTagFlags { bits: read_u64(b, i + 16) },
            bsp_lapic_id: read_u32(b, i + 24),
            unused: read_u32(b, i + 28),
            cpu_count,
            smp_info_array: &b[start..end],
        }
    }

    /// Returns the information record of processor `k`.
    pub fn info(&self, k: usize) -> (r: StivaleSmpInfo)
        requires
            self.wf(),
            k < self.cpu_count,
        ensures
            r == self.infos()[k as int],
    {
        proof {
            assert((k + 1) * 32 <= self.cpu_count * 32) by (nonlinear_arith)
                requires
                    k < self.cpu_count,
            ;
        }
        StivaleSmpInfo::read_at(self.smp_info_array, k * 32)
    }

    /// Returns all the information records, in order.
    pub fn as_slice(&self) -> (r: Vec<StivaleSmpInfo>)
        requires
            self.wf(),
        ensures
            r@ == self.infos(),
    {
        let n = self.cpu_count as usize;
        let mut v: Vec<StivaleSmpInfo> = Vec::new();
        let mut k: usize = 0;
        while k < n
            invariant
                self.wf(),
                n == self.cpu_count,
                k <= n,
                v@ == self.infos().take(k as int),
            decreases n - k,
        {
            v.push(self.info(k));
            k = k + 1;
            assert(v@ =~= self.infos().take(k as int));
        }
        assert(v@ =~= self.infos());
        v
    }
}

} // verus!
