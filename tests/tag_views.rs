use stivale_boot::tag::{
    StivaleFramebufferTag, StivaleMemoryMapEntry, StivaleMemoryMapEntryType, StivaleMemoryMapTag,
    StivaleModule, StivaleTagHeader,
};

fn entry_bytes(base: u64, length: u64, kind: u32) -> Vec<u8> {
    let mut v = Vec::new();
    v.extend_from_slice(&base.to_le_bytes());
    v.extend_from_slice(&length.to_le_bytes());
    v.extend_from_slice(&kind.to_le_bytes());
    v.extend_from_slice(&0u32.to_le_bytes());
    v
}

fn memory_map_bytes(entries: &[(u64, u64, u32)]) -> Vec<u8> {
    let mut v = Vec::new();
    v.extend_from_slice(&0x2187f79e8612de07u64.to_le_bytes());
    v.extend_from_slice(&0u64.to_le_bytes());
    v.extend_from_slice(&(entries.len() as u64).to_le_bytes());
    for &(b, l, k) in entries {
        v.extend_from_slice(&entry_bytes(b, l, k));
    }
    v
}

fn framebuffer(pitch: u16, height: u16, bpp: u16) -> StivaleFramebufferTag {
    StivaleFramebufferTag {
        header: StivaleTagHeader { identifier: 0x506461d2950408fa, next: 0 },
        framebuffer_addr: 0,
        framebuffer_width: 0,
        framebuffer_height: height,
        framebuffer_pitch: pitch,
        framebuffer_bpp: bpp,
        memory_model: 1,
        red_mask_size: 8,
        red_mask_shift: 16,
        green_mask_size: 8,
        green_mask_shift: 8,
        blue_mask_size: 8,
        blue_mask_shift: 0,
    }
}

#[test]
fn memory_map_of_three_entries_gives_end_addresses() {
    let bytes = memory_map_bytes(&[(0x0, 0x9f000, 1), (0x9f000, 0x61000, 2), (0x100000, 0x7ef0000, 1)]);
    let map = StivaleMemoryMapTag::read_at(&bytes, 0);
    let entries = map.as_slice();
    assert_eq!(entries.len(), 3);
    assert_eq!(entries[0].end_address(), 0x9f000);
    assert_eq!(entries[1].end_address(), 0x100000);
    assert_eq!(entries[2].end_address(), 0x7ff0000);
    assert_eq!(entries[1].entry_type(), Some(StivaleMemoryMapEntryType::Reserved));
    assert_eq!(map.entry(2), entries[2]);
}

#[test]
fn restarted_iterators_yield_the_same_entries() {
    let bytes = memory_map_bytes(&[(0x1000, 0x1000, 1), (0x2000, 0x3000, 0x1000), (0x8000, 0x10, 4)]);
    let map = StivaleMemoryMapTag::read_at(&bytes, 0);
    let mut first = Vec::new();
    let mut it = map.iter();
    while let Some(e) = it.next() {
        first.push(e);
    }
    assert!(it.next().is_none());
    let mut second = Vec::new();
    let mut again = map.iter();
    while let Some(e) = again.next() {
        second.push(e);
    }
    assert_eq!(first.len(), 3);
    assert_eq!(first, second);
    assert_eq!(first, map.as_slice());
}

#[test]
fn empty_memory_map_iterates_nothing() {
    let bytes = memory_map_bytes(&[]);
    let map = StivaleMemoryMapTag::read_at(&bytes, 0);
    assert!(map.as_slice().is_empty());
    assert!(map.iter().next().is_none());
}

#[test]
fn framebuffer_size_is_pitch_height_bytes_per_pixel() {
    assert_eq!(framebuffer(1024, 768, 32).size(), 3_145_728);
    assert_eq!(framebuffer(1024, 768, 24).size(), 1024 * 768 * 3);
    assert_eq!(framebuffer(10, 10, 7).size(), 0);
    assert_eq!(framebuffer(u16::MAX, u16::MAX, u16::MAX).size(), 65535 * 65535 * 8191);
}

#[test]
fn module_size_and_name() {
    let mut name = [0u8; 128];
    name[..7].copy_from_slice(b"initrd\0");
    name[10] = b'x';
    let module = StivaleModule { start: 0x100000, end: 0x104000, string: &name };
    assert_eq!(module.size(), 0x4000);
    assert_eq!(module.as_str(), "initrd");
}

#[test]
fn module_name_filling_the_buffer_and_empty_name() {
    let full = [b'a'; 128];
    let module = StivaleModule { start: 5, end: 5, string: &full };
    assert_eq!(module.as_str().len(), 128);
    assert_eq!(module.size(), 0);
    let empty = [0u8; 128];
    let module = StivaleModule { start: 0, end: 1, string: &empty };
    assert_eq!(module.as_str(), "");
}

#[test]
fn module_name_that_is_not_ascii_is_empty() {
    let mut name = [0u8; 128];
    name[..3].copy_from_slice(&[b'a', 0xc3, 0xa9]);
    let module = StivaleModule { start: 0, end: 0, string: &name };
    assert_eq!(module.as_str(), "");
}

#[test]
fn module_read_from_bytes() {
    let mut bytes = vec![0u8; 3 + 144];
    bytes[3..11].copy_from_slice(&0x100000u64.to_le_bytes());
    bytes[11..19].copy_from_slice(&0x104000u64.to_le_bytes());
    bytes[19..26].copy_from_slice(b"kernel\0");
    let module = StivaleModule::read_at(&bytes, 3);
    assert_eq!(module.size(), 0x4000);
    assert_eq!(module.as_str(), "kernel");
}

#[test]
fn adjacent_usable_entries_do_not_overlap() {
    let a = StivaleMemoryMapEntry { base: 0x1000, length: 0x1000, entry_type: 1 };
    let b = StivaleMemoryMapEntry { base: 0x2000, length: 0x2000, entry_type: 1 };
    assert!(!a.overlaps(&b));
    assert!(!b.overlaps(&a));
    // Ordering by base alone does not decide it.
    let c = StivaleMemoryMapEntry { base: 0x1800, length: 0x1000, entry_type: 2 };
    assert!(a.overlaps(&c));
    assert!(c.overlaps(&a));
    assert!(a.overlaps(&a));
}

#[test]
fn overlap_near_the_top_of_the_address_space() {
    let a = StivaleMemoryMapEntry { base: u64::MAX - 0xfff, length: 0xfff, entry_type: 2 };
    let b = StivaleMemoryMapEntry { base: u64::MAX - 0x10, length: 0x10, entry_type: 2 };
    assert!(a.overlaps(&b));
    assert_eq!(a.end_address(), u64::MAX);
}

#[test]
fn misaligned_entry_reads_its_kind() {
    for shift in 1..8 {
        let mut bytes = vec![0xaau8; shift];
        bytes.extend_from_slice(&entry_bytes(0x1234_5000, 0x6000, 0x1002));
        let e = StivaleMemoryMapEntry::read_at(&bytes, shift);
        assert_eq!(e.base, 0x1234_5000);
        assert_eq!(e.length, 0x6000);
        assert_eq!(e.entry_type(), Some(StivaleMemoryMapEntryType::Framebuffer));
    }
}

#[test]
fn misaligned_framebuffer_geometry() {
    let mut bytes = vec![0u8; 1 + 39];
    bytes[1 + 24..1 + 26].copy_from_slice(&800u16.to_le_bytes());
    bytes[1 + 26..1 + 28].copy_from_slice(&600u16.to_le_bytes());
    bytes[1 + 28..1 + 30].copy_from_slice(&3200u16.to_le_bytes());
    bytes[1 + 30..1 + 32].copy_from_slice(&32u16.to_le_bytes());
    let fb = StivaleFramebufferTag::read_at(&bytes, 1);
    assert_eq!((fb.framebuffer_width, fb.framebuffer_height), (800, 600));
    assert_eq!((fb.framebuffer_pitch, fb.framebuffer_bpp), (3200, 32));
    assert_eq!(fb.size(), 3200 * 600 * 4);
}

#[test]
fn entry_kinds_map_from_protocol_values() {
    let cases = [
        (1, StivaleMemoryMapEntryType::Usable),
        (2, StivaleMemoryMapEntryType::Reserved),
        (3, StivaleMemoryMapEntryType::AcpiReclaimable),
        (4, StivaleMemoryMapEntryType::AcpiNvs),
        (5, StivaleMemoryMapEntryType::BadMemory),
        (0x1000, StivaleMemoryMapEntryType::BootloaderReclaimable),
        (0x1001, StivaleMemoryMapEntryType::Kernel),
        (0x1002, StivaleMemoryMapEntryType::Framebuffer),
    ];
    for (v, kind) in cases {
        assert_eq!(StivaleMemoryMapEntryType::from_u32(v), Some(kind));
        let e = StivaleMemoryMapEntry { base: 0, length: 0, entry_type: v };
        assert_eq!(e.entry_type(), Some(kind));
    }
    assert_eq!(StivaleMemoryMapEntryType::from_u32(0), None);
    assert_eq!(StivaleMemoryMapEntryType::from_u32(6), None);
    assert_eq!(StivaleMemoryMapEntryType::from_u32(0x1003), None);
}
