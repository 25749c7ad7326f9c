use stivale_boot::chain::{
    StivaleStruct, COMMAND_LINE_ID, EDID_ID, EPOCH_ID, FIRMWARE_ID, FRAMEBUFFER_ID, MEMORY_MAP_ID,
    MODULES_ID, RSDP_ID, SMP_ID, TERMINAL_ID,
};

const BASE: u64 = 0x8000;

fn put_u16(buf: &mut [u8], off: usize, v: u16) {
    buf[off..off + 2].copy_from_slice(&v.to_le_bytes());
}

fn put_u32(buf: &mut [u8], off: usize, v: u32) {
    buf[off..off + 4].copy_from_slice(&v.to_le_bytes());
}

fn put_u64(buf: &mut [u8], off: usize, v: u64) {
    buf[off..off + 8].copy_from_slice(&v.to_le_bytes());
}

/// Writes a record header at `off`, linking it to the record at offset `next`
/// (or ending the chain).
fn put_header(buf: &mut [u8], off: usize, id: u64, next: Option<usize>) {
    put_u64(buf, off, id);
    put_u64(buf, off + 8, next.map_or(0, |n| BASE + n as u64));
}

fn addr(off: usize) -> u64 {
    BASE + off as u64
}

#[test]
fn walk_visits_records_in_link_order() {
    let mut buf = vec![0u8; 256];
    // Linked out of memory order: 128 -> 0 -> 64.
    put_header(&mut buf, 128, 0x1111, Some(0));
    put_header(&mut buf, 0, 0x2222, Some(64));
    put_header(&mut buf, 64, 0x3333, None);
    let info = StivaleStruct { base: BASE, memory: &buf, tags: addr(128) };
    assert_eq!(info.tag_addresses(), vec![addr(128), addr(0), addr(64)]);
}

#[test]
fn walk_of_empty_chain_visits_nothing() {
    let buf = vec![0u8; 32];
    let info = StivaleStruct { base: BASE, memory: &buf, tags: 0 };
    assert!(info.tag_addresses().is_empty());
    assert_eq!(info.find_tag(FRAMEBUFFER_ID), None);
    assert!(info.framebuffer().is_none());
}

#[test]
fn find_framebuffer_decodes_written_fields() {
    let mut buf = vec![0u8; 128];
    put_header(&mut buf, 0, 0x4242, Some(16));
    put_header(&mut buf, 16, FRAMEBUFFER_ID, None);
    put_u64(&mut buf, 32, 0xfd00_0000);
    put_u16(&mut buf, 40, 1024);
    put_u16(&mut buf, 42, 768);
    put_u16(&mut buf, 44, 4096);
    put_u16(&mut buf, 46, 32);
    buf[48..55].copy_from_slice(&[1, 8, 16, 8, 8, 8, 0]);
    let info = StivaleStruct { base: BASE, memory: &buf, tags: addr(0) };
    let fb = info.framebuffer().expect("framebuffer present");
    assert_eq!(fb.header.identifier, FRAMEBUFFER_ID);
    assert_eq!(fb.header.next, 0);
    assert_eq!(fb.framebuffer_addr, 0xfd00_0000);
    assert_eq!(fb.framebuffer_width, 1024);
    assert_eq!(fb.framebuffer_height, 768);
    assert_eq!(fb.framebuffer_pitch, 4096);
    assert_eq!(fb.framebuffer_bpp, 32);
    assert_eq!(fb.memory_model, 1);
    assert_eq!(fb.red_mask_size, 8);
    assert_eq!(fb.red_mask_shift, 16);
    assert_eq!(fb.green_mask_size, 8);
    assert_eq!(fb.green_mask_shift, 8);
    assert_eq!(fb.blue_mask_size, 8);
    assert_eq!(fb.blue_mask_shift, 0);
    assert_eq!(fb.size(), 4096 * 768 * 4);
    assert_eq!(info.find_tag(FRAMEBUFFER_ID), Some(addr(16)));
}

#[test]
fn find_absent_kind_is_not_found() {
    let mut buf = vec![0u8; 64];
    put_header(&mut buf, 0, EPOCH_ID, Some(24));
    put_u64(&mut buf, 16, 1_700_000_000);
    put_header(&mut buf, 24, 0xdead_beef, None);
    let info = StivaleStruct { base: BASE, memory: &buf, tags: addr(0) };
    assert!(info.framebuffer().is_none());
    assert!(info.memory_map().is_none());
    assert!(info.smp().is_none());
    assert_eq!(info.find_tag(RSDP_ID), None);
    assert_eq!(info.epoch().map(|e| e.epoch), Some(1_700_000_000));
}

#[test]
fn find_returns_first_of_two_records_of_a_kind() {
    let mut buf = vec![0u8; 64];
    put_header(&mut buf, 0, RSDP_ID, Some(24));
    put_u64(&mut buf, 16, 0xe0000);
    put_header(&mut buf, 24, RSDP_ID, None);
    put_u64(&mut buf, 40, 0xf0000);
    let info = StivaleStruct { base: BASE, memory: &buf, tags: addr(0) };
    assert_eq!(info.rsdp().map(|r| r.rsdp), Some(0xe0000));
    assert_eq!(info.find_tag(RSDP_ID), Some(addr(0)));
}

#[test]
fn unknown_records_are_skipped_by_their_link() {
    let mut buf = vec![0u8; 96];
    put_header(&mut buf, 0, 0x0123_4567_89ab_cdef, Some(48));
    put_header(&mut buf, 48, COMMAND_LINE_ID, None);
    put_u64(&mut buf, 64, 0x20_0000);
    let info = StivaleStruct { base: BASE, memory: &buf, tags: addr(0) };
    assert_eq!(info.command_line().map(|c| c.command_line), Some(0x20_0000));
}

#[test]
fn terminal_and_firmware_records_decode() {
    let mut buf = vec![0u8; 64];
    put_header(&mut buf, 0, TERMINAL_ID, Some(32));
    put_u32(&mut buf, 16, 3);
    put_u16(&mut buf, 20, 80);
    put_u16(&mut buf, 22, 25);
    put_u64(&mut buf, 24, 0xffff_8000_0010_0000);
    put_header(&mut buf, 32, FIRMWARE_ID, None);
    put_u64(&mut buf, 48, 1);
    let info = StivaleStruct { base: BASE, memory: &buf, tags: addr(0) };
    let term = info.terminal().expect("terminal present");
    assert_eq!((term.flags, term.cols, term.rows), (3, 80, 25));
    assert_eq!(term.term_write_addr, 0xffff_8000_0010_0000);
    assert_eq!(info.firmware().map(|f| f.flags.bits()), Some(1));
}

#[test]
fn memory_map_lookup_borrows_entries() {
    let mut buf = vec![0u8; 24 + 2 * 24];
    put_header(&mut buf, 0, MEMORY_MAP_ID, None);
    put_u64(&mut buf, 16, 2);
    put_u64(&mut buf, 24, 0x1000);
    put_u64(&mut buf, 32, 0x9000);
    put_u32(&mut buf, 40, 1);
    put_u64(&mut buf, 48, 0x10_0000);
    put_u64(&mut buf, 56, 0x1000);
    put_u32(&mut buf, 64, 0x1001);
    let info = StivaleStruct { base: BASE, memory: &buf, tags: addr(0) };
    let map = info.memory_map().expect("memory map present");
    assert_eq!(map.entries_len, 2);
    let entries = map.as_slice();
    assert_eq!(entries.len(), 2);
    assert_eq!(entries[0].end_address(), 0xa000);
    assert_eq!(entries[1].end_address(), 0x10_1000);
}

#[test]
fn module_list_lookup_decodes_names() {
    let mut buf = vec![0u8; 24 + 2 * 144];
    put_header(&mut buf, 0, MODULES_ID, None);
    put_u64(&mut buf, 16, 2);
    put_u64(&mut buf, 24, 0x10_0000);
    put_u64(&mut buf, 32, 0x10_4000);
    buf[40..46].copy_from_slice(b"initrd");
    put_u64(&mut buf, 168, 0x20_0000);
    put_u64(&mut buf, 176, 0x20_0100);
    buf[184..188].copy_from_slice(b"font");
    let info = StivaleStruct { base: BASE, memory: &buf, tags: addr(0) };
    let modules = info.modules().expect("module list present");
    let all = modules.as_slice();
    assert_eq!(all.len(), 2);
    assert_eq!(all[0].as_str(), "initrd");
    assert_eq!(all[0].size(), 0x4000);
    assert_eq!(all[1].as_str(), "font");
    assert_eq!(all[1].size(), 0x100);
    let mut it = modules.iter();
    assert_eq!(it.next().map(|m| m.start), Some(0x10_0000));
    assert_eq!(it.next().map(|m| m.start), Some(0x20_0000));
    assert!(it.next().is_none());
    assert!(it.next().is_none());
}

#[test]
fn smp_and_edid_lookups_decode_arrays() {
    let mut buf = vec![0u8; 40 + 2 * 32 + 24 + 4];
    put_header(&mut buf, 0, SMP_ID, Some(104));
    put_u64(&mut buf, 16, 1);
    put_u32(&mut buf, 24, 7);
    put_u64(&mut buf, 32, 2);
    put_u32(&mut buf, 40, 0);
    put_u32(&mut buf, 44, 7);
    put_u32(&mut buf, 72, 1);
    put_u32(&mut buf, 76, 9);
    put_u64(&mut buf, 80, 0x7000);
    put_u64(&mut buf, 88, 0x8000);
    put_u64(&mut buf, 96, 42);
    put_header(&mut buf, 104, EDID_ID, None);
    put_u64(&mut buf, 120, 4);
    buf[128..132].copy_from_slice(&[0x00, 0xff, 0xff, 0x00]);
    let info = StivaleStruct { base: BASE, memory: &buf, tags: addr(0) };
    let smp = info.smp().expect("smp present");
    assert_eq!(smp.flags.bits(), 1);
    assert_eq!(smp.bsp_lapic_id, 7);
    assert_eq!(smp.cpu_count, 2);
    let cpus = smp.as_slice();
    assert_eq!(cpus.len(), 2);
    assert_eq!((cpus[0].acpi_processor_uid, cpus[0].lapic_id), (0, 7));
    assert_eq!((cpus[1].acpi_processor_uid, cpus[1].lapic_id), (1, 9));
    assert_eq!((cpus[1].target_stack, cpus[1].goto_address, cpus[1].extra), (0x7000, 0x8000, 42));
    assert_eq!(smp.info(1), cpus[1]);
    let edid = info.edid_info().expect("edid present");
    assert_eq!(edid.as_slice(), &[0x00, 0xff, 0xff, 0x00]);
}
