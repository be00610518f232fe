use gba_core::mem::{canonicalize_addr, locate, Memory, RawMemory, Segment};

#[test]
fn mem_get_byte() {
    let mut mem = Memory::new();
    mem.raw.sysrom[0x2FF] = 10;
    assert_eq!(mem.get_byte(0x2FF), 10);
    mem.raw.ewram[2] = 22;
    assert_eq!(mem.get_byte(0x02000002), 22);
    mem.raw.iwram[0x700] = 19;
    assert_eq!(mem.get_byte(0x03000700), 19);
    mem.raw.io[0] = 17;
    assert_eq!(mem.get_byte(0x04000000), 17);
    mem.raw.pal[17] = 1;
    assert_eq!(mem.get_byte(0x05000011), 1);
    mem.raw.vram[0] = 2;
    assert_eq!(mem.get_byte(0x06000000), 2);
    mem.raw.oam[0x3FE] = 30;
    assert_eq!(mem.get_byte(0x070003FE), 30);
}

#[test]
fn mem_endianness() {
    let mut mem = Memory::new();
    mem.raw.sysrom[0] = 1;
    mem.raw.sysrom[1] = 2;
    mem.raw.sysrom[2] = 3;
    mem.raw.sysrom[3] = 4;
    assert_eq!(mem.get_word(0), 0x04030201);
}

#[test]
fn mem_get_set() {
    let mut mem = Memory::new();
    mem.set_word(0x0200_0123, 0xABC001);
    assert_eq!(mem.get_word(0x0200_0123), 0xABC001);
}

#[test]
fn mod_get_byte() {
    let mut mem = RawMemory::new();
    mem.sysrom[0x2FF] = 10;
    assert_eq!(mem.get_byte(0x2FF), 10);
    mem.ewram[2] = 22;
    assert_eq!(mem.get_byte(0x02000002), 22);
    mem.iwram[0x700] = 19;
    assert_eq!(mem.get_byte(0x03000700), 19);
    mem.io[0] = 17;
    assert_eq!(mem.get_byte(0x04000000), 17);
    mem.pal[17] = 1;
    assert_eq!(mem.get_byte(0x05000011), 1);
    mem.vram[0] = 2;
    assert_eq!(mem.get_byte(0x06000000), 2);
    mem.oam[0x3FE] = 30;
    assert_eq!(mem.get_byte(0x070003FE), 30);
}

#[test]
fn mod_endianness() {
    let mut mem = RawMemory::new();
    mem.sysrom[0] = 1;
    mem.sysrom[1] = 2;
    mem.sysrom[2] = 3;
    mem.sysrom[3] = 4;
    assert_eq!(mem.get_word(0), 0x04030201);
}

#[test]
fn mod_get_set() {
    let mut mem = RawMemory::new();
    mem.set_word(0x0200_0123, 0xABC001);
    assert_eq!(mem.get_word(0x0200_0123), 0xABC001);
    mem.set_word(0x3007FFC, 0x300);
    assert_eq!(mem.get_word(0x3007FFC), 0x300);
}

#[test]
fn canonicalize() {
    assert_eq!(canonicalize_addr(0x0123456), 0x0123456);

    assert_eq!(canonicalize_addr(0x2040000), 0x2000000);
    assert_eq!(canonicalize_addr(0x2080020), 0x2000020);

    assert_eq!(canonicalize_addr(0x3000011), 0x3000011);
    assert_eq!(canonicalize_addr(0x3038002), 0x3000002);

    assert_eq!(canonicalize_addr(0x4000123), 0x4000123);
    assert_eq!(canonicalize_addr(0x4111111), 0x4111111);
    assert_eq!(canonicalize_addr(0x4010000), 0x4000800);
    assert_eq!(canonicalize_addr(0x4020003), 0x4000803);

    assert_eq!(canonicalize_addr(0x5006C03), 0x5000003);

    assert_eq!(canonicalize_addr(0x6000ABC), 0x6000ABC);
    assert_eq!(canonicalize_addr(0x6018001), 0x6010001);
    assert_eq!(canonicalize_addr(0x6020001), 0x6000001);
    assert_eq!(canonicalize_addr(0x6038001), 0x6010001);

    assert_eq!(canonicalize_addr(0x70034AA), 0x70000AA);
}

#[test]
fn canonicalize_is_idempotent_on_samples() {
    let samples: [u32; 12] = [
        0, 0x2FFFFFF, 0x3FFFFFF, 0x4000400, 0x40103FF, 0x4FF0002, 0x5FFFFFF, 0x601FFFF,
        0x6FFFFFF, 0x7FFFFFF, 0x8000000, 0xFFFFFFFF,
    ];
    for a in samples.iter() {
        assert_eq!(canonicalize_addr(canonicalize_addr(*a)), canonicalize_addr(*a));
    }
}

#[test]
fn writes_are_seen_through_every_mirror() {
    let mut mem = Memory::new();
    mem.set_byte(0x0204_0005, 0x5A);
    assert_eq!(mem.get_byte(0x0200_0005), 0x5A);
    assert_eq!(mem.get_byte(0x02FC_0005), 0x5A);

    mem.set_halfword(0x0300_8010, 0xBEEF);
    assert_eq!(mem.get_halfword(0x0300_0010), 0xBEEF);
    assert_eq!(mem.get_halfword(0x03FF_8010), 0xBEEF);

    mem.set_word(0x0601_8020, 0x1234_5678);
    assert_eq!(mem.get_word(0x0601_0020), 0x1234_5678);
    assert_eq!(mem.get_word(0x0603_8020), 0x1234_5678);
    assert_eq!(mem.get_word(0x06FF_0020), 0x1234_5678);

    mem.set_word(0x0700_0400, 0xCAFE_F00D);
    assert_eq!(mem.get_word(0x0700_0000), 0xCAFE_F00D);
    mem.set_halfword(0x0500_0C00, 0x7FFF);
    assert_eq!(mem.get_halfword(0x0500_0000), 0x7FFF);
}

#[test]
fn unmapped_reads_are_zero_and_rom_writes_are_dropped() {
    let mut mem = Memory::new();
    assert_eq!(mem.get_word(0x0000_4000), 0);
    assert_eq!(mem.get_word(0x0100_0000), 0);
    assert_eq!(mem.get_word(0x0E00_0000), 0);
    assert_eq!(mem.get_word(0x1000_0000), 0);
    assert_eq!(mem.get_word(0x0400_0800), 0);
    // nothing backs these; a write changes nothing
    mem.set_word(0x0E00_0000, 0x1234_5678);
    assert_eq!(mem.get_word(0x0E00_0000), 0);
    mem.set_word(0x0000_4000, 0x1234_5678);
    assert_eq!(mem.get_word(0x0000_4000), 0);

    // no cartridge yet
    assert_eq!(mem.get_word(0x0800_0000), 0);
    let rom: Vec<u8> = (0u32..256).map(|i| i as u8).collect();
    mem.load_rom(&rom);
    assert_eq!(mem.get_word(0x0800_0000), 0x0302_0100);
    assert_eq!(mem.get_word(0x0A00_0004), 0x0706_0504);
    assert_eq!(mem.get_byte(0x0C00_00FF), 0xFF);
    assert_eq!(mem.get_byte(0x0800_0100), 0);
    mem.set_word(0x0800_0000, 0xFFFF_FFFF);
    mem.set_byte(0x0C00_0001, 0xFF);
    assert_eq!(mem.get_word(0x0800_0000), 0x0302_0100);
}

#[test]
fn words_at_the_end_of_a_segment_lose_their_tail() {
    let mut mem = Memory::new();
    mem.set_word(0x0300_7FFE, 0xAABB_CCDD);
    assert_eq!(mem.get_byte(0x0300_7FFE), 0xDD);
    assert_eq!(mem.get_byte(0x0300_7FFF), 0xCC);
    // the upper half fell outside the segment
    assert_eq!(mem.get_word(0x0300_7FFE), 0x0000_CCDD);
    assert_eq!(mem.get_byte(0x0300_0000), 0);
}

#[test]
fn addresses_decode_to_their_segment() {
    assert_eq!(locate(0x0000_3FFF), Some((Segment::SysRom, 0x3FFF)));
    assert_eq!(locate(0x0000_4000), None);
    assert_eq!(locate(0x0203_FFFF), Some((Segment::Ewram, 0x3FFFF)));
    assert_eq!(locate(0x0300_0001), Some((Segment::Iwram, 1)));
    assert_eq!(locate(0x0400_03FF), Some((Segment::Io, 0x3FF)));
    assert_eq!(locate(0x0500_0000), Some((Segment::Palette, 0)));
    assert_eq!(locate(0x0601_7FFF), Some((Segment::Vram, 0x17FFF)));
    assert_eq!(locate(0x0601_8000), None);
    assert_eq!(locate(0x0700_0010), Some((Segment::Oam, 0x10)));
    assert_eq!(locate(0x0800_0010), Some((Segment::Rom, 0x10)));
    assert_eq!(locate(0x0A00_0010), Some((Segment::Rom, 0x10)));
    assert_eq!(locate(0x0DFF_FFFF), Some((Segment::Rom, 0x1FF_FFFF)));
    assert_eq!(locate(0x0E00_0000), Some((Segment::SaveRam, 0)));
    assert_eq!(locate(0x0E00_FFFF), Some((Segment::SaveRam, 0xFFFF)));
    assert_eq!(locate(0x0E01_0000), None);

    let mut raw = RawMemory::new();
    raw.iwram[5] = 9;
    match raw.get_loc(0x0300_0005) {
        Some((bytes, idx)) => {
            assert_eq!(bytes.len(), 0x8000);
            assert_eq!(bytes[idx], 9);
        }
        None => panic!(),
    }
    assert!(raw.get_loc(0x0F00_0000).is_none());
    match raw.get_loc(0x0E00_0010) {
        Some((bytes, idx)) => {
            assert!(bytes.is_empty());
            assert_eq!(idx, 0x10);
        }
        None => panic!(),
    }
}

#[test]
fn bios_is_loaded_from_the_first_16k() {
    let mut mem = Memory::new();
    let data: Vec<u8> = (0u32..0x4100).map(|i| (i % 251) as u8).collect();
    mem.load_bios(&data);
    assert_eq!(mem.get_byte(0), 0);
    assert_eq!(mem.get_byte(0x1234), (0x1234 % 251) as u8);
    assert_eq!(mem.get_byte(0x3FFF), (0x3FFF % 251) as u8);
    assert_eq!(mem.get_byte(0x4000), 0);
}

#[test]
fn access_times_follow_the_segment() {
    let mut mem = Memory::new();
    assert_eq!(mem.access_time(0x0000_0000, true), 1);
    assert_eq!(mem.access_time(0x0200_0000, false), 3);
    assert_eq!(mem.access_time(0x0300_0000, false), 1);
    // video memory and OAM wait while the display draws
    assert_eq!(mem.access_time(0x0600_0000, false), 2);
    assert_eq!(mem.access_time(0x0700_0000, true), 2);
    mem.on_hblank_hook();
    assert_eq!(mem.access_time(0x0600_0000, false), 1);
    mem.on_hdraw_hook();
    assert_eq!(mem.access_time(0x0600_0000, false), 2);
    mem.on_vblank_hook();
    assert_eq!(mem.access_time(0x0700_0000, false), 1);
    // the cartridge: 4 waitstates first, then 2, 4 or 8 by window
    assert_eq!(mem.access_time(0x0800_0000, true), 5);
    assert_eq!(mem.access_time(0x0800_0000, false), 3);
    assert_eq!(mem.access_time(0x0A00_0000, false), 5);
    assert_eq!(mem.access_time(0x0C00_0000, false), 9);
    assert_eq!(mem.access_time(0x0C00_0000, true), 5);
    // WSCNT: 8 waitstates first, fast sequential reads
    mem.set_byte(0x0400_0204, 0b0001_1100);
    assert_eq!(mem.access_time(0x0800_0000, true), 9);
    assert_eq!(mem.access_time(0x0C00_0000, false), 2);
    mem.set_byte(0x0400_0204, 0b0000_1000);
    assert_eq!(mem.access_time(0x0A00_0000, true), 3);
    mem.set_byte(0x0400_0204, 0);
    assert_eq!(mem.access_time(0x0A00_0000, true), 5);
}

#[test]
fn stores_to_the_bios_are_dropped() {
    let mut mem = Memory::new();
    let mut data = vec![0u8; 0x4000];
    data[0x10] = 0x11;
    data[0x11] = 0x22;
    data[0x12] = 0x33;
    data[0x13] = 0x44;
    mem.load_bios(&data);
    mem.set_byte(0x10, 0xAA);
    assert_eq!(mem.get_word(0x10), 0x4433_2211);
    mem.set_halfword(0x12, 0xBBCC);
    assert_eq!(mem.get_word(0x10), 0x4433_2211);
    mem.set_word(0x10, 0xDEAD_BEEF);
    assert_eq!(mem.get_word(0x10), 0x4433_2211);
    mem.set_word(0x123, 0xABC001);
    assert_eq!(mem.get_word(0x123), 0);

    let mut raw = RawMemory::new();
    raw.set_word(0x123, 0xABC001);
    assert_eq!(raw.get_word(0x123), 0);
    raw.set_byte(0x3FFF, 1);
    assert_eq!(raw.get_byte(0x3FFF), 0);
}
