//! The tag chain: walking it from its root and finding records by identifier.
//!
//! The chain lives in a region of memory, here a byte slice together with the
//! address of its first byte. Each record starts with an identifier and the
//! address of the next record; address 0 ends the chain.
use vstd::prelude::*;

use crate::bytes::{read_u64, spec_u32_le, spec_u64_le};
use crate::tag::{
    StivaleCommandLineTag, StivaleDeviceTreeTag, StivaleEdidInfoTag, StivaleEfiSystemTableTag,
    StivaleEpochTag, StivaleFirmwareTag, StivaleFramebufferTag, StivaleKernelFileTag,
    StivaleKernelSlideTag, StivaleMemoryMapTag, StivaleModuleTag, StivaleMtrrTag,
    StivalePxeInfoTag, StivaleRsdpTag, StivaleSmbiosTag, StivaleSmpTag, StivaleTagHeader,
    StivaleTerminalTag, StivaleUartTag, StivaleVMap,
};

verus! {

/// Identifier of the command line record.
pub const COMMAND_LINE_ID: u64 = 0xe5e76a1b4597a781;

/// Identifier of the memory map record.
pub const MEMORY_MAP_ID: u64 = 0x2187f79e8612de07;

/// Identifier of the framebuffer record.
pub const FRAMEBUFFER_ID: u64 = 0x506461d2950408fa;

/// Identifier of the legacy MTRR write-combining record.
pub const FB_MTRR_ID: u64 = 0x6bc1a78ebe871172;

/// Identifier of the EDID record.
pub const EDID_ID: u64 = 0x968609d7af96b845;

/// Identifier of the terminal record.
pub const TERMINAL_ID: u64 = 0xc2b3f4c3233b0974;

/// Identifier of the module list record.
pub const MODULES_ID: u64 = 0x4b6fe466aade04ce;

/// Identifier of the ACPI RSDP record.
pub const RSDP_ID: u64 = 0x9e1786930a375e78;

/// Identifier of the SMBIOS record.
pub const SMBIOS_ID: u64 = 0x274bd246c62bf7d1;

/// Identifier of the epoch record.
pub const EPOCH_ID: u64 = 0x566a7bed888e1407;

/// Identifier of the firmware record.
pub const FIRMWARE_ID: u64 = 0x359d837855e3858c;

/// Identifier of the EFI system table record.
pub const EFI_SYSTEM_TABLE_ID: u64 = 0x4bc5ec15845b558e;

/// Identifier of the kernel file record.
pub const KERNEL_FILE_ID: u64 = 0xe599d90c2975584a;

/// Identifier of the kernel slide record.
pub const KERNEL_SLIDE_ID: u64 = 0xee80847d01506c57;

/// Identifier of the SMP record.
pub const SMP_ID: u64 = 0x34d1d96339647025;

/// Identifier of the PXE server record.
pub const PXE_SERVER_INFO_ID: u64 = 0x29d1e96239247032;

/// Identifier of the memory-mapped UART record.
pub const MMIO32_UART_ID: u64 = 0xb813f9b8dbc78797;

/// Identifier of the device tree record.
pub const DEVICE_TREE_ID: u64 = 0xabb29bd49a2833fa;

/// Identifier of the higher-half mapping record.
pub const VMAP_ID: u64 = 0xb0ed257db18cb58f;

/// Size in bytes of the fixed part of a record with identifier `id`; 16, the
/// header alone, for identifiers this library does not know.
pub open spec fn fixed_size(id: u64) -> int {
    if id == FRAMEBUFFER_ID {
        39
    } else if id == TERMINAL_ID || id == DEVICE_TREE_ID {
        32
    } else if id == SMBIOS_ID || id == SMP_ID {
        40
    } else if id == PXE_SERVER_INFO_ID {
        20
    } else if id == FB_MTRR_ID {
        16
    } else if id == RSDP_ID || id == EPOCH_ID || id == FIRMWARE_ID || id == EFI_SYSTEM_TABLE_ID
        || id == KERNEL_FILE_ID || id == KERNEL_SLIDE_ID || id == COMMAND_LINE_ID || id
        == MMIO32_UART_ID || id == VMAP_ID || id == MEMORY_MAP_ID || id == MODULES_ID || id
        == EDID_ID {
        24
    } else {
        16
    }
}

/// Size in bytes of the trailing array of the record with identifier `id`
/// whose fixed part starts at offset `off` of `s`: its count times its
/// element size, and 0 for records without one.
pub open spec fn trailing_size(s: Seq<u8>, off: int, id: u64) -> int {
    if id == MEMORY_MAP_ID {
        spec_u64_le(s, off + 16) * 24
    } else if id == MODULES_ID {
        spec_u64_le(s, off + 16) * 144
    } else if id == EDID_ID {
        spec_u64_le(s, off + 16) as int
    } else if id == SMP_ID {
        spec_u64_le(s, off + 32) * 32
    } else {
        0
    }
}

/// The identifier of the record at address `addr`, in memory `s` that starts
/// at address `base`.
pub open spec fn tag_id(s: Seq<u8>, base: u64, addr: u64) -> u64 {
    spec_u64_le(s, addr - base)
}

/// The address of the record that follows the one at address `addr`.
pub open spec fn tag_next(s: Seq<u8>, base: u64, addr: u64) -> u64 {
    spec_u64_le(s, addr - base + 8)
}

/// The record at address `addr` lies within the memory: its header, its
/// fixed part and its trailing array.
pub open spec fn record_fits(s: Seq<u8>, base: u64, addr: u64) -> bool {
    let off = addr - base;
    let id = spec_u64_le(s, off);
    &&& base <= addr
    &&& off + 16 <= s.len()
    &&& off + fixed_size(id) <= s.len()
    &&& off + fixed_size(id) + trailing_size(s, off, id) <= s.len()
}

/// The chain that starts at address `addr` holds exactly `n` records, each of
/// which lies within the memory, and then ends.
pub open spec fn chain(s: Seq<u8>, base: u64, addr: u64, n: nat) -> bool
    decreases n,
{
    if addr == 0 {
        n == 0
    } else {
        n > 0 && record_fits(s, base, addr) && chain(s, base, tag_next(s, base, addr), (n - 1) as nat)
    }
}

/// The addresses of the first `n` records of the chain from `addr`, in link
/// order.
pub open spec fn chain_addrs(s: Seq<u8>, base: u64, addr: u64, n: nat) -> Seq<u64>
    decreases n,
{
    if n == 0 {
        Seq::empty()
    } else {
        seq![addr] + chain_addrs(s, base, tag_next(s, base, addr), (n - 1) as nat)
    }
}

/// The address of the first of the first `n` records of the chain from
/// `addr` whose identifier is `id`, if any.
pub open spec fn first_with(s: Seq<u8>, base: u64, addr: u64, id: u64, n: nat) -> Option<u64>
    decreases n,
{
    if n == 0 {
        None
    } else if tag_id(s, base, addr) == id {
        Some(addr)
    } else {
        first_with(s, base, tag_next(s, base, addr), id, (n - 1) as nat)
    }
}

/// A chain has one length.
pub proof fn lemma_chain_length_unique(s: Seq<u8>, base: u64, addr: u64, n: nat, m: nat)
    requires
        chain(s, base, addr, n),
        chain(s, base, addr, m),
    ensures
        n == m,
    decreases n,
{
    if addr != 0 {
        lemma_chain_length_unique(s, base, tag_next(s, base, addr), (n - 1) as nat, (m - 1) as nat);
    }
}

/// Each record the search finds lies within the memory and has the
/// identifier searched for.
pub proof fn lemma_found_record_fits(s: Seq<u8>, base: u64, addr: u64, id: u64, n: nat)
    requires
        chain(s, base, addr, n),
        first_with(s, base, addr, id, n) is Some,
    ensures
        record_fits(s, base, first_with(s, base, addr, id, n)->0),
        tag_id(s, base, first_with(s, base, addr, id, n)->0) == id,
    decreases n,
{
    if tag_id(s, base, addr) != id {
        lemma_found_record_fits(s, base, tag_next(s, base, addr), id, (n - 1) as nat);
    }
}

/// Walking a chain of `n` records visits exactly `n` addresses, in link
/// order: the first is the root, each next one is the `next` link of the one
/// before, and the last one's link is the end marker.
pub proof fn lemma_walk_in_link_order(s: Seq<u8>, base: u64, root: u64, n: nat)
    requires
        chain(s, base, root, n),
    ensures
        chain_addrs(s, base, root, n).len() == n,
        n > 0 ==> chain_addrs(s, base, root, n)[0] == root,
        forall|i: int|
            0 <= i < n - 1 ==> tag_next(s, base, #[trigger] chain_addrs(s, base, root, n)[i])
                == chain_addrs(s, base, root, n)[i + 1],
        n > 0 ==> tag_next(s, base, chain_addrs(s, base, root, n)[n - 1]) == 0,
        forall|i: int| 0 <= i < n ==> record_fits(s, base, #[trigger] chain_addrs(s, base, root, n)[i]),
    decreases n,
{
    if n > 0 {
        let next = tag_next(s, base, root);
        lemma_walk_in_link_order(s, base, next, (n - 1) as nat);
        let rest = chain_addrs(s, base, next, (n - 1) as nat);
        assert(chain_addrs(s, base, root, n) == seq![root] + rest);
        assert(chain(s, base, next, (n - 1) as nat));
        if n == 1 {
            assert(next == 0);
        }
        assert forall|i: int| 0 <= i < n - 1 implies tag_next(
            s,
            base,
            #[trigger] chain_addrs(s, base, root, n)[i],
        ) == chain_addrs(s, base, root, n)[i + 1] by {
            if i > 0 {
                assert(chain_addrs(s, base, root, n)[i] == rest[i - 1]);
            }
        }
        assert forall|i: int| 0 <= i < n implies record_fits(
            s,
            base,
            #[trigger] chain_addrs(s, base, root, n)[i],
        ) by {
            if i > 0 {
                assert(chain_addrs(s, base, root, n)[i] == rest[i - 1]);
            }
        }
    }
}

/// Finding by identifier gives nothing where no record of the chain has
/// that identifier.
pub proof fn lemma_find_absent(s: Seq<u8>, base: u64, root: u64, n: nat, id: u64)
    requires
        chain(s, base, root, n),
        forall|i: int|
            0 <= i < n ==> tag_id(s, base, #[trigger] chain_addrs(s, base, root, n)[i]) != id,
    ensures
        first_with(s, base, root, id, n) is None,
    decreases n,
{
    if n > 0 {
        let next = tag_next(s, base, root);
        let all = chain_addrs(s, base, root, n);
        let rest = chain_addrs(s, base, next, (n - 1) as nat);
        assert(chain(s, base, next, (n - 1) as nat));
        lemma_walk_in_link_order(s, base, next, (n - 1) as nat);
        assert(all == seq![root] + rest);
        assert(tag_id(s, base, all[0]) != id);
        assert forall|i: int| 0 <= i < n - 1 implies tag_id(s, base, #[trigger] rest[i]) != id by {
            assert(rest[i] == all[i + 1]);
        }
        lemma_find_absent(s, base, next, (n - 1) as nat, id);
    }
}

/// Finding by identifier gives the first record of the chain that has it:
/// where record `i` has the identifier and none before it does, the search
/// gives record `i`.
pub proof fn lemma_find_first_match(s: Seq<u8>, base: u64, root: u64, n: nat, id: u64, i: int)
    requires
        chain(s, base, root, n),
        0 <= i < n,
        tag_id(s, base, chain_addrs(s, base, root, n)[i]) == id,
        forall|j: int|
            0 <= j < i ==> tag_id(s, base, #[trigger] chain_addrs(s, base, root, n)[j]) != id,
    ensures
        first_with(s, base, root, id, n) == Some(chain_addrs(s, base, root, n)[i]),
    decreases n,
{
    let next = tag_next(s, base, root);
    let all = chain_addrs(s, base, root, n);
    let rest = chain_addrs(s, base, next, (n - 1) as nat);
    assert(chain(s, base, next, (n - 1) as nat));
    lemma_walk_in_link_order(s, base, next, (n - 1) as nat);
    assert(all == seq![root] + rest);
    if i > 0 {
        assert(tag_id(s, base, all[0]) != id);
        assert(all[i] == rest[i - 1]);
        assert forall|j: int| 0 <= j < i - 1 implies tag_id(s, base, #[trigger] rest[j]) != id by {
            assert(rest[j] == all[j + 1]);
        }
        lemma_find_first_match(s, base, next, (n - 1) as nat, id, i - 1);
    }
}

/// The boot information handed over by the bootloader: the memory that holds
/// the tag chain, and the address of the chain's first record.
pub struct StivaleStruct<'a> {
    /// The address of the first byte of `memory`.
    pub base: u64,
    /// The memory that holds the chain.
    pub memory: &'a [u8],
    /// The address of the first record; 0 when there is none.
    pub tags: u64,
}

impl<'a> StivaleStruct<'a> {
    /// The chain from `tags` ends after finitely many records, each of which
    /// lies within `memory`. Supplying such a chain is the caller's duty.
    pub open spec fn wf(&self) -> bool {
        exists|n: nat| chain(self.memory@, self.base, self.tags, n)
    }

    /// The number of records of the chain.
    pub open spec fn spec_len(&self) -> nat {
        choose|n: nat| chain(self.memory@, self.base, self.tags, n)
    }

    /// The addresses of the records of the chain, in link order.
    pub open spec fn spec_tag_addresses(&self) -> Seq<u64> {
        chain_addrs(self.memory@, self.base, self.tags, self.spec_len())
    }

    /// The address of the first record with identifier `id`, if any.
    pub open spec fn spec_find(&self, id: u64) -> Option<u64> {
        first_with(self.memory@, self.base, self.tags, id, self.spec_len())
    }

    /// The offset within `memory` of address `addr`.
    pub open spec fn offset_of(&self, addr: u64) -> int {
        addr - self.base
    }

    /// Returns the addresses of all the records of the chain, in link order.
    pub fn tag_addresses(&self) -> (r: Vec<u64>)
        requires
            self.wf(),
        ensures
            r@ == self.spec_tag_addresses(),
    {
        let ghost s = self.memory@;
        let ghost n = self.spec_len();
        let ghost mut k: nat = 0;
        let mut v: Vec<u64> = Vec::new();
        let mut addr = self.tags;
        let len = self.memory.len();
        while addr != 0
            invariant
                self.wf(),
                s == self.memory@,
                len == s.len(),
                n == self.spec_len(),
                k <= n,
                chain(s, self.base, addr, (n - k) as nat),
                v@ + chain_addrs(s, self.base, addr, (n - k) as nat) == chain_addrs(
                    s,
                    self.base,
                    self.tags,
                    n,
                ),
            decreases n - k,
        {
            let ghost before = v@;
            let ghost rest = chain_addrs(s, self.base, addr, (n - k) as nat);
            let off = (addr - self.base) as usize;
            v.push(addr);
            let next = read_u64(self.memory, off + 8);
            proof {
                assert(rest == seq![addr] + chain_addrs(s, self.base, next, (n - k - 1) as nat));
                assert(v@ + chain_addrs(s, self.base, next, (n - k - 1) as nat) =~= before + rest);
                k = k + 1;
            }
            addr = next;
        }
        assert(v@ + chain_addrs(s, self.base, addr, (n - k) as nat) =~= v@);
        v
    }

    /// Returns the offset within `memory` of the first record with identifier
    /// `id`, or `None` where no record of the chain has it.
    fn find_offset(&self, id: u64) -> (r: Option<usize>)
        requires
            self.wf(),
        ensures
            match self.spec_find(id) {
                Some(a) => {
                    &&& r == Some(self.offset_of(a) as usize)
                    &&& self.offset_of(a) == r->0
                    &&& record_fits(self.memory@, self.base, a)
                    &&& tag_id(self.memory@, self.base, a) == id
                },
                None => r is None,
            },
    {
        let ghost s = self.memory@;
        let ghost n = self.spec_len();
        let ghost mut k: nat = 0;
        let mut addr = self.tags;
        let len = self.memory.len();
        proof {
            if self.spec_find(id) is Some {
                lemma_found_record_fits(s, self.base, self.tags, id, n);
            }
        }
        while addr != 0
            invariant
                self.wf(),
                s == self.memory@,
                len == s.len(),
                n == self.spec_len(),
                k <= n,
                chain(s, self.base, addr, (n - k) as nat),
                first_with(s, self.base, addr, id, (n - k) as nat) == self.spec_find(id),
            decreases n - k,
        {
            let off = (addr - self.base) as usize;
            if read_u64(self.memory, off) == id {
                return Some(off);
            }
            let next = read_u64(self.memory, off + 8);
            proof {
                k = k + 1;
            }
            addr = next;
        }
        None
    }

    /// Returns the address of the first record with identifier `identifier`,
    /// or `None` where no record of the chain has it.
    pub fn find_tag(&self, identifier: u64) -> (r: Option<u64>)
        requires
            self.wf(),
        ensures
            r == self.spec_find(identifier),
    {
        match self.find_offset(identifier) {
            Some(off) => Some(self.base + off as u64),
            None => None,
        }
    }

    /// Returns the first framebuffer record of the chain, or `None` where there is none.
    pub fn framebuffer(&self) -> (r: Option<StivaleFramebufferTag>)
        requires
            self.wf(),
        ensures
            r == match self.spec_find(FRAMEBUFFER_ID) {
                Some(a) => Some(StivaleFramebufferTag::at(self.memory@, self.offset_of(a))),
                None => None,
            },
    {
        match self.find_offset(FRAMEBUFFER_ID) {
            Some(off) => Some(StivaleFramebufferTag::read_at(self.memory, off)),
            None => None,
        }
    }

    /// Returns the first terminal record of the chain, or `None` where there is none.
    pub fn terminal(&self) -> (r: Option<StivaleTerminalTag>)
        requires
            self.wf(),
        ensures
            r == match self.spec_find(TERMINAL_ID) {
                Some(a) => Some(StivaleTerminalTag::at(self.memory@, self.offset_of(a))),
                None => None,
            },
    {
        match self.find_offset(TERMINAL_ID) {
            Some(off) => Some(StivaleTerminalTag::read_at(self.memory, off)),
            None => None,
        }
    }

    /// Returns the first ACPI RSDP record of the chain, or `None` where there is none.
    pub fn rsdp(&self) -> (r: Option<StivaleRsdpTag>)
        requires
            self.wf(),
        ensures
            r == match self.spec_find(RSDP_ID) {
                Some(a) => Some(StivaleRsdpTag::at(self.memory@, self.offset_of(a))),
                None => None,
            },
    {
        match self.find_offset(RSDP_ID) {
            Some(off) => Some(StivaleRsdpTag::read_at(self.memory, off)),
            None => None,
        }
    }

    /// Returns the first SMBIOS record of the chain, or `None` where there is none.
    pub fn smbios(&self) -> (r: Option<StivaleSmbiosTag>)
        requires
            self.wf(),
        ensures
            r == match self.spec_find(SMBIOS_ID) {
                Some(a) => Some(StivaleSmbiosTag::at(self.memory@, self.offset_of(a))),
                None => None,
            },
    {
        match self.find_offset(SMBIOS_ID) {
            Some(off) => Some(StivaleSmbiosTag::read_at(self.memory, off)),
            None => None,
        }
    }

    /// Returns the first epoch record of the chain, or `None` where there is none.
    pub fn epoch(&self) -> (r: Option<StivaleEpochTag>)
        requires
            self.wf(),
        ensures
            r == match self.spec_find(EPOCH_ID) {
                Some(a) => Some(StivaleEpochTag::at(self.memory@, self.offset_of(a))),
                None => None,
            },
    {
        match self.find_offset(EPOCH_ID) {
            Some(off) => Some(StivaleEpochTag::read_at(self.memory, off)),
            None => None,
        }
    }

    /// Returns the first firmware record of the chain, or `None` where there is none.
    pub fn firmware(&self) -> (r: Option<StivaleFirmwareTag>)
        requires
            self.wf(),
        ensures
            r == match self.spec_find(FIRMWARE_ID) {
                Some(a) => Some(StivaleFirmwareTag::at(self.memory@, self.offset_of(a))),
                None => None,
            },
    {
        match self.find_offset(FIRMWARE_ID) {
            Some(off) => Some(StivaleFirmwareTag::read_at(self.memory, off)),
            None => None,
        }
    }

    /// Returns the first EFI system table record of the chain, or `None` where there is none.
    pub fn efi_system_table(&self) -> (r: Option<StivaleEfiSystemTableTag>)
        requires
            self.wf(),
        ensures
            r == match self.spec_find(EFI_SYSTEM_TABLE_ID) {
                Some(a) => Some(StivaleEfiSystemTableTag::at(self.memory@, self.offset_of(a))),
                None => None,
            },
    {
        match self.find_offset(EFI_SYSTEM_TABLE_ID) {
            Some(off) => Some(StivaleEfiSystemTableTag::read_at(self.memory, off)),
            None => None,
        }
    }

    /// Returns the first kernel file record of the chain, or `None` where there is none.
    pub fn kernel_file(&self) -> (r: Option<StivaleKernelFileTag>)
        requires
            self.wf(),
        ensures
            r == match self.spec_find(KERNEL_FILE_ID) {
                Some(a) => Some(StivaleKernelFileTag::at(self.memory@, self.offset_of(a))),
                None => None,
            },
    {
        match self.find_offset(KERNEL_FILE_ID) {
            Some(off) => Some(StivaleKernelFileTag::read_at(self.memory, off)),
            None => None,
        }
    }

    /// Returns the first kernel slide record of the chain, or `None` where there is none.
    pub fn kernel_slide(&self) -> (r: Option<StivaleKernelSlideTag>)
        requires
            self.wf(),
        ensures
            r == match self.spec_find(KERNEL_SLIDE_ID) {
                Some(a) => Some(StivaleKernelSlideTag::at(self.memory@, self.offset_of(a))),
                None => None,
            },
    {
        match self.find_offset(KERNEL_SLIDE_ID) {
            Some(off) => Some(StivaleKernelSlideTag::read_at(self.memory, off)),
            None => None,
        }
    }

    /// Returns the first command line record of the chain, or `None` where there is none.
    pub fn command_line(&self) -> (r: Option<StivaleCommandLineTag>)
        requires
            self.wf(),
        ensures
            r == match self.spec_find(COMMAND_LINE_ID) {
                Some(a) => Some(StivaleCommandLineTag::at(self.memory@, self.offset_of(a))),
                None => None,
            },
    {
        match self.find_offset(COMMAND_LINE_ID) {
            Some(off) => Some(StivaleCommandLineTag::read_at(self.memory, off)),
            None => None,
        }
    }

    /// Returns the first PXE server record of the chain, or `None` where there is none.
    pub fn pxe_info(&self) -> (r: Option<StivalePxeInfoTag>)
        requires
            self.wf(),
        ensures
            r == match self.spec_find(PXE_SERVER_INFO_ID) {
                Some(a) => Some(StivalePxeInfoTag::at(self.memory@, self.offset_of(a))),
                None => None,
            },
    {
        match self.find_offset(PXE_SERVER_INFO_ID) {
            Some(off) => Some(StivalePxeInfoTag::read_at(self.memory, off)),
            None => None,
        }
    }

    /// Returns the first UART record of the chain, or `None` where there is none.
    pub fn uart(&self) -> (r: Option<StivaleUartTag>)
        requires
            self.wf(),
        ensures
            r == match self.spec_find(MMIO32_UART_ID) {
                Some(a) => Some(StivaleUartTag::at(self.memory@, self.offset_of(a))),
                None => None,
            },
    {
        match self.find_offset(MMIO32_UART_ID) {
            Some(off) => Some(StivaleUartTag::read_at(self.memory, off)),
            None => None,
        }
    }

    /// Returns the first device tree record of the chain, or `None` where there is none.
    pub fn device_tree(&self) -> (r: Option<StivaleDeviceTreeTag>)
        requires
            self.wf(),
        ensures
            r == match self.spec_find(DEVICE_TREE_ID) {
                Some(a) => Some(StivaleDeviceTreeTag::at(self.memory@, self.offset_of(a))),
                None => None,
            },
    {
        match self.find_offset(DEVICE_TREE_ID) {
            Some(off) => Some(StivaleDeviceTreeTag::read_at(self.memory, off)),
            None => None,
        }
    }

    /// Returns the first higher-half mapping record of the chain, or `None` where there is none.
    pub fn vmap(&self) -> (r: Option<StivaleVMap>)
        requires
            self.wf(),
        ensures
            r == match self.spec_find(VMAP_ID) {
                Some(a) => Some(StivaleVMap::at(self.memory@, self.offset_of(a))),
                None => None,
            },
    {
        match self.find_offset(VMAP_ID) {
            Some(off) => Some(StivaleVMap::read_at(self.memory, off)),
            None => None,
        }
    }

    /// Returns the first legacy MTRR record of the chain, or `None` where there is none.
    pub fn mtrr(&self) -> (r: Option<StivaleMtrrTag>)
        requires
            self.wf(),
        ensures
            r == match self.spec_find(FB_MTRR_ID) {
                Some(a) => Some(StivaleMtrrTag::at(self.memory@, self.offset_of(a))),
                None => None,
            },
    {
        match self.find_offset(FB_MTRR_ID) {
            Some(off) => Some(StivaleMtrrTag::read_at(self.memory, off)),
            None => None,
        }
    }

    /// Returns the first memory map record of the chain, or `None` where there
    /// is none.
    pub fn memory_map(&self) -> (r: Option<StivaleMemoryMapTag<'a>>)
        requires
            self.wf(),
        ensures
            match self.spec_find(MEMORY_MAP_ID) {
                Some(a) => {
                    let off = self.offset_of(a);
                    &&& r is Some
                    &&& r->0.header == StivaleTagHeader::at(self.memory@, off)
                    &&& r->0.entries_len == spec_u64_le(self.memory@, off + 16)
                    &&& r->0.entry_array@ == self.memory@.subrange(
                        off + 24,
                        off + 24 + r->0.entries_len * 24,
                    )
                    &&& r->0.wf()
                },
                None => r is None,
            },
    {
        match self.find_offset(MEMORY_MAP_ID) {
            Some(off) => Some(StivaleMemoryMapTag::read_at(self.memory, off)),
            None => None,
        }
    }

    /// Returns the first module list record of the chain, or `None` where
    /// there is none.
    pub fn modules(&self) -> (r: Option<StivaleModuleTag<'a>>)
        requires
            self.wf(),
        ensures
            match self.spec_find(MODULES_ID) {
                Some(a) => {
                    let off = self.offset_of(a);
                    &&& r is Some
                    &&& r->0.header == StivaleTagHeader::at(self.memory@, off)
                    &&& r->0.module_len == spec_u64_le(self.memory@, off + 16)
                    &&& r->0.modules_array@ == self.memory@.subrange(
                        off + 24,
                        off + 24 + r->0.module_len * 144,
                    )
                    &&& r->0.wf()
                },
                None => r is None,
            },
    {
        match self.find_offset(MODULES_ID) {
            Some(off) => Some(StivaleModuleTag::read_at(self.memory, off)),
            None => None,
        }
    }

    /// Returns the first EDID record of the chain, or `None` where there is
    /// none.
    pub fn edid_info(&self) -> (r: Option<StivaleEdidInfoTag<'a>>)
        requires
            self.wf(),
        ensures
            match self.spec_find(EDID_ID) {
                Some(a) => {
                    let off = self.offset_of(a);
                    &&& r is Some
                    &&& r->0.header == StivaleTagHeader::at(self.memory@, off)
                    &&& r->0.edid_len == spec_u64_le(self.memory@, off + 16)
                    &&& r->0.info_array@ == self.memory@.subrange(
                        off + 24,
                        off + 24 + r->0.edid_len,
                    )
                    &&& r->0.wf()
                },
                None => r is None,
            },
    {
        match self.find_offset(EDID_ID) {
            Some(off) => Some(StivaleEdidInfoTag::read_at(self.memory, off)),
            None => None,
        }
    }

    /// Returns the first SMP record of the chain, or `None` where there is
    /// none.
    pub fn smp(&self) -> (r: Option<StivaleSmpTag<'a>>)
        requires
            self.wf(),
        ensures
            match self.spec_find(SMP_ID) {
                Some(a) => {
                    let off = self.offset_of(a);
                    &&& r is Some
                    &&& r->0.header == StivaleTagHeader::at(self.memory@, off)
                    &&& r->0.flags.bits == spec_u64_le(self.memory@, off + 16)
                    &&& r->0.bsp_lapic_id == spec_u32_le(self.memory@, off + 24)
                    &&& r->0.unused == spec_u32_le(self.memory@, off + 28)
                    &&& r->0.cpu_count == spec_u64_le(self.memory@, off + 32)
                    &&& r->0.smp_info_array@ == self.memory@.subrange(
                        off + 40,
                        off + 40 + r->0.cpu_count * 32,
                    )
                    &&& r->0.wf()
                },
                None => r is None,
            },
    {
        match self.find_offset(SMP_ID) {
            Some(off) => Some(StivaleSmpTag::read_at(self.memory, off)),
            None => None,
        }
    }
}

/// The length of a chain is the one it was built with.
pub proof fn lemma_struct_len(info: StivaleStruct, n: nat)
    requires
        chain(info.memory@, info.base, info.tags, n),
    ensures
        info.wf(),
        info.spec_len() == n,
{
    lemma_chain_length_unique(info.memory@, info.base, info.tags, info.spec_len(), n);
}

/// The walk over a chain of `n` records gives exactly `n` addresses, in link
/// order: the first is the root, each next one is the link of the one before,
/// and the link of the last one is the end marker.
pub proof fn lemma_tag_addresses_in_link_order(info: StivaleStruct, n: nat)
    requires
        chain(info.memory@, info.base, info.tags, n),
    ensures
        info.spec_tag_addresses().len() == n,
        n > 0 ==> info.spec_tag_addresses()[0] == info.tags,
        forall|i: int|
            0 <= i < n - 1 ==> tag_next(info.memory@, info.base, #[trigger] info.spec_tag_addresses()[i])
                == info.spec_tag_addresses()[i + 1],
        n > 0 ==> tag_next(info.memory@, info.base, info.spec_tag_addresses()[n - 1]) == 0,
{
    lemma_struct_len(info, n);
    lemma_walk_in_link_order(info.memory@, info.base, info.tags, n);
}

/// Finding by identifier on a chain gives nothing where no record has the
/// identifier, and the first record that has it otherwise.
pub proof fn lemma_find_by_identifier(info: StivaleStruct, n: nat, id: u64)
    requires
        chain(info.memory@, info.base, info.tags, n),
    ensures
        (forall|i: int|
            0 <= i < n ==> tag_id(info.memory@, info.base, #[trigger] info.spec_tag_addresses()[i])
                != id) ==> info.spec_find(id) is None,
        forall|i: int|
            0 <= i < n && tag_id(info.memory@, info.base, #[trigger] info.spec_tag_addresses()[i])
                == id && (forall|j: int|
                0 <= j < i ==> tag_id(info.memory@, info.base, info.spec_tag_addresses()[j]) != id)
                ==> info.spec_find(id) == Some(info.spec_tag_addresses()[i]),
{
    let s = info.memory@;
    lemma_struct_len(info, n);
    lemma_walk_in_link_order(s, info.base, info.tags, n);
    assert(info.spec_tag_addresses() == chain_addrs(s, info.base, info.tags, n));
    if forall|i: int|
        0 <= i < n ==> tag_id(s, info.base, #[trigger] info.spec_tag_addresses()[i]) != id {
        lemma_find_absent(s, info.base, info.tags, n, id);
    }
    assert forall|i: int|
        0 <= i < n && tag_id(s, info.base, #[trigger] info.spec_tag_addresses()[i]) == id && (forall|
            j: int,
        | 0 <= j < i ==> tag_id(s, info.base, info.spec_tag_addresses()[j]) != id) implies info.spec_find(
        id,
    ) == Some(info.spec_tag_addresses()[i]) by {
        lemma_find_first_match(s, info.base, info.tags, n, id, i);
    }
}

} // verus!
