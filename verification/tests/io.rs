use gba_core::mem::io::dma::{IncrType, TimingMode, DMA};
use gba_core::mem::io::graphics::{to_coeff, BlendType, LCD};
use gba_core::mem::io::interrupt::{Interrupt, InterruptBitmap};
use gba_core::mem::oam::{Sprite, SpriteAffineParams, SpriteType};
use gba_core::mem::palette::high_to_true;
use gba_core::mem::Memory;
use gba_core::util::{get_bit, get_bit_hw, get_byte, get_nibble, to_fixed_hw, to_fixed_word};

fn to_float_hw(raw: u16) -> f32 {
    to_fixed_hw(raw) as f32 / 256.0
}

fn to_float_word(raw: u32) -> f32 {
    to_fixed_word(raw) as f32 / 256.0
}

fn float(fixed: i32) -> f32 {
    fixed as f32 / 256.0
}

fn coeff(sixteenths: u8) -> f32 {
    sixteenths as f32 / 16.0
}

#[test]
fn dma_write() {
    let mut mem = Memory::new();
    mem.set_word(0x40000B0, 0x0F123456);
    assert_eq!(mem.dma.channels[0].src, 0x07123456);
    mem.set_word(0x40000D4, 0x08000300);
    assert_eq!(mem.dma.channels[3].src, 0x08000300);
    mem.set_word(0x40000CC, 0x08004FFF);
    assert_eq!(mem.dma.channels[2].dest, 0x00004FFF);
    mem.set_word(0x40000D8, 0x0910032A);
    assert_eq!(mem.dma.channels[3].dest, 0x0910032A);

    mem.set_halfword(0x40000B8, 0xABCD);
    assert_eq!(mem.dma.channels[0].count, 0x2BCD);
    mem.set_halfword(0x40000D0, 0x1234);
    assert_eq!(mem.dma.channels[2].count, 0x1234);
    mem.set_halfword(0x40000Dc, 0xFFFF);
    assert_eq!(mem.dma.channels[3].count, 0x3FFF);

    mem.set_halfword(0x40000BA, 0b1000_0010_1000_0001);
    {
        let channel = &mem.dma.channels[0];
        assert_eq!(channel.enabled, true);
        assert_eq!(channel.irq, false);
        assert_eq!(channel.timing, TimingMode::Now);
        assert_eq!(channel.word, false);
        assert_eq!(channel.repeat, true);
        assert_eq!(channel.src_incr, IncrType::Dec);
        assert_eq!(channel.dest_incr, IncrType::Inc);
    }
    mem.set_halfword(0x40000DE, 0b0001_1100_1101_1111);
    {
        let channel = &mem.dma.channels[3];
        assert_eq!(channel.enabled, false);
        assert_eq!(channel.irq, false);
        assert_eq!(channel.timing, TimingMode::VBlank);
        assert_eq!(channel.word, true);
        assert_eq!(channel.repeat, false);
        assert_eq!(channel.src_incr, IncrType::Dec);
        assert_eq!(channel.dest_incr, IncrType::Fixed);
    }
}

#[test]
fn graphics_write() {
    let mut mem = Memory::new();

    mem.set_halfword(0x4000000, 0b1011_1001_0101_1010);
    {
        let disp_cnt = &mem.graphics.disp_cnt;
        assert_eq!(disp_cnt.bg_mode, 2);
        assert_eq!(disp_cnt.frame_base, 0x600A000);
        assert_eq!(disp_cnt.hblank_interval_free, false);
        assert_eq!(disp_cnt.bg_enabled[0], true);
        assert_eq!(disp_cnt.bg_enabled[1], false);
        assert_eq!(disp_cnt.bg_enabled[2], false);
        assert_eq!(disp_cnt.bg_enabled[3], true);
        assert_eq!(disp_cnt.window_enabled[0], true);
        assert_eq!(disp_cnt.window_enabled[1], false);
        assert_eq!(disp_cnt.obj_win_enabled, true);
    }

    mem.set_halfword(0x4000004, 0b0000_1111_0010_1111);
    {
        let disp_stat = &mem.graphics.disp_stat;
        assert_eq!(disp_stat.is_vblank, false);
        assert_eq!(disp_stat.is_hblank, false);
        assert_eq!(disp_stat.vcount_triggered, false);
        assert_eq!(disp_stat.vblank_irq_enabled, true);
        assert_eq!(disp_stat.hblank_irq_enabled, false);
        assert_eq!(disp_stat.vcount_irq_enabled, true);
        assert_eq!(disp_stat.vcount_line_trigger, 15);
    }

    mem.set_halfword(0x4000008, 0b1100_0010_1000_1111);
    {
        let bgcnt = &mem.graphics.bg_cnt[0];
        assert_eq!(bgcnt.priority, 3);
        assert_eq!(bgcnt.tile_addr, 0x600c000);
        assert_eq!(bgcnt.mosaic_enabled, false);
        assert_eq!(bgcnt.depth, 8);
        assert_eq!(bgcnt.map_addr, 0x6001000);
        assert_eq!(bgcnt.overflow, false);
        assert_eq!(bgcnt.width, 512);
        assert_eq!(bgcnt.height, 512);
    }

    mem.set_halfword(0x400000E, 0b0100_0000_0111_0100);
    {
        let bgcnt = &mem.graphics.bg_cnt[3];
        assert_eq!(bgcnt.priority, 0);
        assert_eq!(bgcnt.tile_addr, 0x6004000);
        assert_eq!(bgcnt.mosaic_enabled, true);
        assert_eq!(bgcnt.depth, 4);
        assert_eq!(bgcnt.map_addr, 0x6000000);
        assert_eq!(bgcnt.overflow, false);
        assert_eq!(bgcnt.width, 512);
        assert_eq!(bgcnt.height, 256);
    }

    mem.set_halfword(0x4000010, 0x03AB);
    assert_eq!(mem.graphics.bg_offset_x[0], 0x03AB);
    mem.set_halfword(0x4000016, 0xFFFF);
    assert_eq!(mem.graphics.bg_offset_y[1], 0x03FF);
    mem.set_halfword(0x4000018, 0x0123);
    assert_eq!(mem.graphics.bg_offset_x[2], 0x0123);
    mem.set_halfword(0x400001E, 0x0010);
    assert_eq!(mem.graphics.bg_offset_y[3], 0x0010);

    mem.set_halfword(0x4000020, 0x0A00);
    assert_eq!(float(mem.graphics.bg_affine[0].dx), 10.0);
    mem.set_halfword(0x4000030, 0xFF00);
    assert_eq!(float(mem.graphics.bg_affine[1].dx), -1.0);
    mem.set_halfword(0x4000022, 0x0100);
    assert_eq!(float(mem.graphics.bg_affine[0].dmx), 1.0);
    assert_eq!(float(mem.graphics.bg_affine[1].dmx), 0.0);
    mem.set_halfword(0x4000034, 0x0900);
    assert_eq!(float(mem.graphics.bg_affine[0].dy), 0.0);
    assert_eq!(float(mem.graphics.bg_affine[1].dy), 9.0);
    mem.set_halfword(0x4000026, 0x0180);
    assert_eq!(float(mem.graphics.bg_affine[0].dmy), 1.5);
    assert_eq!(float(mem.graphics.bg_affine[1].dmy), 0.0);

    mem.set_word(0x4000038, 0x00_0007_00);
    assert_eq!(float(mem.graphics.bg_affine[0].ref_x), 0.0);
    assert_eq!(float(mem.graphics.bg_affine[1].ref_x), 7.0);
    mem.set_word(0x400002C, 0x00_0003_40);
    assert_eq!(float(mem.graphics.bg_affine[0].ref_y), 3.25);
    assert_eq!(float(mem.graphics.bg_affine[1].ref_y), 0.0);

    mem.set_halfword(0x4000040, 0xABCD);
    mem.set_halfword(0x4000042, 0x1234);
    mem.set_halfword(0x4000044, 0x5678);
    mem.set_halfword(0x4000046, 0x89EF);
    {
        let coords = &mem.graphics.window_coords;
        assert_eq!(coords[0].left, 0xAB);
        assert_eq!(coords[0].right, 0xCD);
        assert_eq!(coords[0].top, 0x56);
        assert_eq!(coords[0].bottom, 0x78);

        assert_eq!(coords[1].left, 0x12);
        assert_eq!(coords[1].right, 0x34); //
        assert_eq!(coords[1].top, 0x89);
        assert_eq!(coords[1].bottom, 160);
    }

    mem.set_word(0x4000048, 0b00101110_00010011_11111111_1100_1010);
    {
        let settings = &mem.graphics.window_settings;
        assert_eq!(settings[3].bg[0], false);
        assert_eq!(settings[3].bg[1], true);
        assert_eq!(settings[3].bg[2], true);
        assert_eq!(settings[3].bg[3], true);
        assert_eq!(settings[3].sprite, false);
        assert_eq!(settings[3].blend, true);

        assert_eq!(settings[2].bg[0], true);
        assert_eq!(settings[2].bg[1], true);
        assert_eq!(settings[2].bg[2], false);
        assert_eq!(settings[2].bg[3], false);
        assert_eq!(settings[2].sprite, true);
        assert_eq!(settings[2].blend, false);

        assert_eq!(settings[1].bg[0], true);
        assert_eq!(settings[1].bg[1], true);
        assert_eq!(settings[1].bg[2], true);
        assert_eq!(settings[1].bg[3], true);
        assert_eq!(settings[1].sprite, true);
        assert_eq!(settings[1].blend, true);

        assert_eq!(settings[0].bg[0], false);
        assert_eq!(settings[0].bg[1], true);
        assert_eq!(settings[0].bg[2], false);
        assert_eq!(settings[0].bg[3], true);
        assert_eq!(settings[0].sprite, false);
        assert_eq!(settings[0].blend, false);
    }

    mem.set_halfword(0x400004C, 0x1234);
    assert_eq!(mem.graphics.bg_mos_hsize, 4);
    assert_eq!(mem.graphics.bg_mos_vsize, 3);
    assert_eq!(mem.graphics.obj_mos_hsize, 2);
    assert_eq!(mem.graphics.obj_mos_vsize, 1);

    mem.set_halfword(0x4000050, 0b00_101100_01_001101);
    {
        let params = &mem.graphics.blend_params;
        assert_eq!(params.source[0], true);
        assert_eq!(params.source[1], false);
        assert_eq!(params.source[2], true);
        assert_eq!(params.source[3], true);
        assert_eq!(params.source[4], false);
        assert_eq!(params.source[5], false);
        assert_eq!(params.mode, BlendType::AlphaBlend);
        assert_eq!(params.target[0], false);
        assert_eq!(params.target[1], false);
        assert_eq!(params.target[2], true);
        assert_eq!(params.target[3], true);
        assert_eq!(params.target[4], false);
        assert_eq!(params.target[5], true);
    }

    mem.set_halfword(0x4000052, 0b000_01000_000_10000);
    assert_eq!(coeff(mem.graphics.alpha_a_coef), 1.0);
    assert_eq!(coeff(mem.graphics.alpha_b_coef), 0.5);

    mem.set_byte(0x4000054, 0b000_11000);
    assert_eq!(coeff(mem.graphics.brightness_coef), 1.0);
}

#[test]
fn graphics_parse_float() {
    assert_eq!(to_float_hw(0x0A00), 10.0);
    assert_eq!(to_float_hw(0xFF00), -1.0);
    assert_eq!(to_float_hw(0x0180), 1.5);

    assert_eq!(to_float_word(0x00_000A_00), 10.0);
    assert_eq!(to_float_word(0xFF_FFFF_00), -1.0);
    assert_eq!(to_float_word(0x00_0002_80), 2.5);
}

#[test]
fn util_parse_float() {
    assert_eq!(to_float_hw(0x0A00), 10.0);
    assert_eq!(to_float_hw(0xFF00), -1.0);
    assert_eq!(to_float_hw(0x0180), 1.5);

    assert_eq!(to_float_word(0x00_000A_00), 10.0);
    assert_eq!(to_float_word(0xFF_FFFF_00), -1.0);
    assert_eq!(to_float_word(0x00_0002_80), 2.5);
}

#[test]
fn fixed_point_decoders_are_exact() {
    assert_eq!(to_fixed_hw(0x0A00), 2560);
    assert_eq!(to_fixed_hw(0xFF00), -256);
    assert_eq!(to_fixed_hw(0x0180), 384);
    assert_eq!(to_fixed_hw(0x8000), -32768);
    assert_eq!(to_fixed_hw(0x7FFF), 32767);
    assert_eq!(to_fixed_hw(0xFFFF), -1);
    assert_eq!(to_fixed_word(0x0000_0A00), 2560);
    assert_eq!(to_fixed_word(0x0FFF_FF00), -256);
    assert_eq!(to_fixed_word(0xFFFF_FF00), -256);
    assert_eq!(to_fixed_word(0x0000_0280), 640);
    assert_eq!(to_fixed_word(0x0800_0000), -0x800_0000);
    assert_eq!(to_fixed_word(0xF7FF_FFFF), 0x7FF_FFFF);
}

#[test]
fn parse_coeff() {
    assert_eq!(coeff(to_coeff(8)), 0.5);
    assert_eq!(coeff(to_coeff(4)), 0.25);
    assert_eq!(coeff(to_coeff(0)), 0.0);
    assert_eq!(coeff(to_coeff(30)), 1.0);
}

#[test]
fn interrupt_write() {
    let mut mem = Memory::new();
    mem.set_byte(0x4000208, 1);
    assert_eq!(mem.int.master_enabled, true);

    mem.set_halfword(0x4000200, 0b0010_1110_1111_0001);
    {
        let enabled = &mem.int.enabled;
        assert_eq!(enabled.vblank, true);
        assert_eq!(enabled.hblank, false);
        assert_eq!(enabled.vcount, false);
        assert_eq!(enabled.timer[0], false);
        assert_eq!(enabled.timer[1], true);
        assert_eq!(enabled.timer[2], true);
        assert_eq!(enabled.timer[3], true);
        assert_eq!(enabled.serial, true);
        assert_eq!(enabled.dma[0], false);
        assert_eq!(enabled.dma[1], true);
        assert_eq!(enabled.dma[2], true);
        assert_eq!(enabled.dma[3], true);
        assert_eq!(enabled.keypad, false);
        assert_eq!(enabled.gamepak, true);
    }

    // with every interrupt latched, a write to IF leaves those whose bit
    // is 0 in what is written
    mem.int.triggered = InterruptBitmap {
        vblank: true,
        hblank: true,
        vcount: true,
        timer: [true; 4],
        serial: true,
        dma: [true; 4],
        keypad: true,
        gamepak: true,
    };
    mem.raw.io[0x202] = 0xFF;
    mem.raw.io[0x203] = 0x3F;
    mem.set_halfword(0x4000202, !0b0000_1100_0000_1010 & 0x3FFF);
    {
        let triggered = &mem.int.triggered;
        assert_eq!(triggered.vblank, false);
        assert_eq!(triggered.hblank, true);
        assert_eq!(triggered.vcount, false);
        assert_eq!(triggered.timer[0], true);
        assert_eq!(triggered.timer[1], false);
        assert_eq!(triggered.timer[2], false);
        assert_eq!(triggered.timer[3], false);
        assert_eq!(triggered.serial, false);
        assert_eq!(triggered.dma[0], false);
        assert_eq!(triggered.dma[1], false);
        assert_eq!(triggered.dma[2], true);
        assert_eq!(triggered.dma[3], true);
        assert_eq!(triggered.keypad, false);
        assert_eq!(triggered.gamepak, false);
    }

    mem.set_byte(0x4000204, 0b1011_0100);
    assert_eq!(mem.rom_n_cycle, 3);
    assert_eq!(mem.rom_s_cycle_fast, true);
}

#[test]
fn acknowledge_int() {
    let mut mem = Memory::new();
    // IF holds 0b0000_1100_0000_1010, in the flags and in the register bytes
    mem.int.triggered.hblank = true;
    mem.int.triggered.timer[0] = true;
    mem.int.triggered.dma[2] = true;
    mem.int.triggered.dma[3] = true;
    mem.raw.io[0x202] = 0b0000_1010;
    mem.raw.io[0x203] = 0b0000_1100;
    assert_eq!(mem.get_halfword(0x4000202), 0b0000_1100_0000_1010);
    {
        let triggered = &mem.int.triggered;
        assert_eq!(triggered.vblank, false);
        assert_eq!(triggered.hblank, true);
        assert_eq!(triggered.vcount, false);
        assert_eq!(triggered.timer[0], true);
        assert_eq!(triggered.timer[1], false);
        assert_eq!(triggered.timer[2], false);
        assert_eq!(triggered.timer[3], false);
        assert_eq!(triggered.serial, false);
        assert_eq!(triggered.dma[0], false);
        assert_eq!(triggered.dma[1], false);
        assert_eq!(triggered.dma[2], true);
        assert_eq!(triggered.dma[3], true);
        assert_eq!(triggered.keypad, false);
        assert_eq!(triggered.gamepak, false);
    }

    // acknowledge hblank and timer[0]
    mem.set_halfword(0x4000202, 0b0000_0000_0000_1010);
    {
        let triggered = &mem.int.triggered;
        assert_eq!(triggered.vblank, false);
        assert_eq!(triggered.hblank, false);
        assert_eq!(triggered.vcount, false);
        assert_eq!(triggered.timer[0], false);
        assert_eq!(triggered.timer[1], false);
        assert_eq!(triggered.timer[2], false);
        assert_eq!(triggered.timer[3], false);
        assert_eq!(triggered.serial, false);
        assert_eq!(triggered.dma[0], false);
        assert_eq!(triggered.dma[1], false);
        assert_eq!(triggered.dma[2], true);
        assert_eq!(triggered.dma[3], true);
        assert_eq!(triggered.keypad, false);
        assert_eq!(triggered.gamepak, false);
    }
    assert_eq!(mem.get_halfword(0x4000202), 0b0000_1100_0000_0000);
}

#[test]
fn oam_write() {
    let mut mem = Memory::new();

    mem.set_halfword(0x7000000, 0b1001_0010_0000_1000);
    mem.set_halfword(0x7000002, 0b1111_1110_1100_1010);
    mem.set_halfword(0x7000004, 0b0101_0110_0010_1111);
    {
        let sprite = &mem.sprites.sprites[0];
        assert_eq!(sprite.y, 0x08);
        assert_eq!(sprite.x, 0b0_1100_1010);
        assert_eq!(sprite.mode, SpriteType::Disabled);
        assert_eq!(sprite.shape, 2);
        assert_eq!(sprite.hflip, true);
        assert_eq!(sprite.vflip, true);
        assert_eq!(sprite.size, 3);
        assert_eq!(sprite.affine_group, 31);
        assert_eq!(sprite.tile_number, 0b10_0010_1111);
        assert_eq!(sprite.priority, 1);
        assert_eq!(sprite.palette_number, 0b0101);
        assert_eq!(sprite.dimensions(), (32, 64));
    }

    mem.set_halfword(0x70003F8, 0b0001_0001_1000_1001);
    mem.set_halfword(0x70003FA, 0b0100_1101_1101_1000);
    mem.set_halfword(0x70003FC, 0b1100_0011_0001_0001);
    {
        let sprite = &mem.sprites.sprites[127];
        assert_eq!(sprite.y, 0b1000_1001);
        assert_eq!(sprite.x, 0b1_1101_1000);
        assert_eq!(sprite.mode, SpriteType::Affine);
        assert_eq!(sprite.shape, 0);
        assert_eq!(sprite.hflip, false);
        assert_eq!(sprite.vflip, false);
        assert_eq!(sprite.size, 1);
        assert_eq!(sprite.affine_group, 0b110);
        assert_eq!(sprite.tile_number, 0b11_0001_0001);
        assert_eq!(sprite.priority, 0);
        assert_eq!(sprite.palette_number, 0b1100);
        assert_eq!(sprite.dimensions(), (16, 16));
    }

    mem.set_halfword(0x70003E6, 0x0A00);
    mem.set_halfword(0x70003EE, 0xFF00);
    mem.set_halfword(0x70003F6, 0x0180);
    mem.set_halfword(0x70003FE, 0x0100);
    {
        let params = &mem.sprites.affine_params[31];
        assert_eq!(float(params.dx), 10.0);
        assert_eq!(float(params.dmx), -1.0);
        assert_eq!(float(params.dy), 1.5);
        assert_eq!(float(params.dmy), 1.0);
    }
}

#[test]
fn sprite_dimensions_and_kinds() {
    let table: [[(u8, u8); 4]; 3] = [
        [(8, 8), (16, 16), (32, 32), (64, 64)],
        [(16, 8), (32, 8), (32, 16), (64, 32)],
        [(8, 16), (8, 32), (16, 32), (32, 64)],
    ];
    for shape in 0u8..3 {
        for size in 0u8..4 {
            let mut sprite = Sprite::new();
            sprite.shape = shape;
            sprite.size = size;
            assert_eq!(sprite.dimensions(), table[shape as usize][size as usize]);
        }
    }
    assert!(SpriteType::Affine.is_affine());
    assert!(SpriteType::DoubleAffine.is_affine());
    assert!(!SpriteType::Normal.is_affine());
    assert!(!SpriteType::Disabled.is_affine());
    assert_eq!(SpriteType::from_u8(2), Some(SpriteType::Disabled));
    assert_eq!(SpriteType::from_u8(4), None);
}

#[test]
fn palette_write() {
    let mut mem = Memory::new();

    mem.set_halfword(0x5000000, 15);
    assert_eq!(mem.palette.bg[0], high_to_true(15));
    mem.set_halfword(0x500000A, 20);
    assert_eq!(mem.palette.bg[5], high_to_true(20));
    mem.set_halfword(0x50001FE, 1234);
    assert_eq!(mem.palette.bg[255], high_to_true(1234));
    mem.set_halfword(0x5000202, 5432);
    assert_eq!(mem.palette.sprite[1], high_to_true(5432));
    mem.set_halfword(0x50003FE, 21);
    assert_eq!(mem.palette.sprite[255], high_to_true(21));
}

#[test]
fn color_conversion() {
    assert_eq!(high_to_true(0b0_10110_01110_10001), 0b11111111_10001_000_01110_000_10110_000);
}

#[test]
fn palette_write_is_coherent_and_idempotent() {
    let mut mem = Memory::new();
    mem.set_halfword(0x0500_0000, 0b0_10110_01110_10001);
    assert_eq!(mem.palette.bg[0], 0b11111111_10001_000_01110_000_10110_000);
    assert_eq!(mem.palette.bg[0], 0xFF88_70B0);
    let first = mem.palette.bg[0];
    mem.set_halfword(0x0500_0000, 0b0_10110_01110_10001);
    assert_eq!(mem.palette.bg[0], first);
    // a byte write refreshes the whole entry from raw memory
    mem.set_byte(0x0500_0001, 0);
    assert_eq!(mem.palette.bg[0], high_to_true(0b110_10001));
    assert_eq!(mem.palette.bg[0], 0xFF88_3000);
    // through a mirror
    mem.set_halfword(0x0500_0602, 0x7FFF);
    assert_eq!(mem.palette.sprite[1], 0xFFF8_F8F8);
}

#[test]
fn bit_helpers() {
    assert!(get_bit(0x8000_0000, 31));
    assert!(!get_bit(0x8000_0000, 30));
    assert!(get_bit_hw(0x0400, 10));
    assert!(!get_bit_hw(0x0400, 9));
    assert_eq!(get_nibble(0x1234_5678, 12), 0x5);
    assert_eq!(get_nibble(0xF234_5678, 28), 0xF);
    assert_eq!(get_byte(0x1234_5678, 8), 0x56);
    assert_eq!(get_byte(0x1234_5678, 28), 0x1);
    assert!(gba_core::mem::io::interrupt::get_bit(0x10, 4));
    assert_eq!(gba_core::util::rotate_right(0xEF, 4), 0xF000_000E);
    assert_eq!(gba_core::util::rotate_right(0x1234_5678, 32), 0x1234_5678);
    assert_eq!(gba_core::util::rotate_right(0x1234_5678, 36), 0x8123_4567);
    assert_eq!(gba_core::util::offset_addr(0x10, -0x20), 0xFFFF_FFF0);
    assert_eq!(gba_core::util::offset_addr(0xFFFF_FFF0, 0x20), 0x10);
    assert_eq!(gba_core::util::offset_addr(5, -0x1_0000_0005), 0);
}

#[test]
fn dma3_word_copy() {
    let mut mem = Memory::new();
    let rom: Vec<u8> = (0u32..0x20000).map(|i| (i * 7 + 3) as u8).collect();
    mem.load_rom(&rom);
    mem.set_word(0x0400_00D4, 0x0800_0300);
    mem.set_word(0x0400_00D8, 0x0200_032A);
    mem.set_halfword(0x0400_00DC, 0);
    // enabled, interrupt on finish, word size, start now
    mem.set_halfword(0x0400_00DE, 0b1100_0100_0000_0000);
    assert_eq!(mem.dma.channels[3].count, 0x4000);
    assert!(mem.dma.channels[3].enabled);

    mem.check_dma(TimingMode::Now);

    // 0x4000 words went from the aligned source to the aligned destination
    for i in [0usize, 1, 2, 3, 0x1234, 0xFFFC, 0xFFFF].iter() {
        assert_eq!(mem.get_byte(0x0200_0328 + *i as u32), rom[0x300 + *i]);
    }
    assert_eq!(mem.get_byte(0x0200_0327), 0);
    assert_eq!(mem.get_byte(0x0201_0328), 0);
    let channel = &mem.dma.channels[3];
    assert!(!channel.enabled);
    assert_eq!(channel.src, 0x0801_0300);
    assert_eq!(channel.dest, 0x0201_0328);
    assert_eq!(channel.src % 4, 0);
    assert_eq!(channel.dest % 4, 0);
    // the registers hold the same
    assert_eq!(mem.get_word(0x0400_00D4), 0x0801_0300);
    assert_eq!(mem.get_word(0x0400_00D8), 0x0201_0328);
    assert_eq!(mem.get_halfword(0x0400_00DE), 0b0100_0100_0000_0000);
    assert_eq!(mem.get_word(0x0400_00DC) >> 31, 0);
    // the finish hook latched the interrupt of channel 3
    assert!(mem.int.triggered.dma[3]);
    assert_eq!(mem.get_byte(0x0400_0203), 0b1000);

    // a second check finds the channel switched off
    mem.set_word(0x0200_0328, 0);
    mem.check_dma(TimingMode::Now);
    assert_eq!(mem.get_word(0x0200_0328), 0);
}

#[test]
fn dma_halfword_decrement_reload_and_repeat() {
    let mut mem = Memory::new();
    for i in 0u32..8 {
        mem.set_byte(0x0300_0100 + i, 0x10 + i as u8);
    }
    mem.set_word(0x0400_00B0, 0x0300_0107); // rounded down to 0x0300_0106
    mem.set_word(0x0400_00B4, 0x0300_0201); // rounded down to 0x0300_0200
    mem.set_halfword(0x0400_00B8, 3);
    // enabled, at hblank, halfwords, repeat, source down, destination reloads
    mem.set_halfword(0x0400_00BA, 0b1010_0010_1110_0000);
    mem.check_dma(TimingMode::Now);
    assert_eq!(mem.get_halfword(0x0300_0200), 0);
    mem.on_hblank_hook();
    assert_eq!(mem.get_halfword(0x0300_0200), 0x1716);
    assert_eq!(mem.get_halfword(0x0300_0202), 0x1514);
    assert_eq!(mem.get_halfword(0x0300_0204), 0x1312);
    assert_eq!(mem.get_halfword(0x0300_0206), 0);
    let channel = &mem.dma.channels[0];
    assert!(channel.enabled);
    assert_eq!(channel.src, 0x0300_0100);
    assert_eq!(channel.src % 2, 0);
    // a reloading destination keeps the address it was given
    assert_eq!(channel.dest, 0x0300_0201);
    assert!(!mem.int.triggered.dma[0]);
    assert_eq!(IncrType::Dec.update_addr(0), 0xFFFF_FFFF);
    assert_eq!(IncrType::Inc.update_addr(7), 8);
    assert_eq!(IncrType::Reload.update_addr(7), 8);
    assert_eq!(IncrType::Fixed.update_addr(7), 7);
}

#[test]
fn dma_into_palette_keeps_the_view_coherent() {
    let mut mem = Memory::new();
    mem.set_halfword(0x0200_0000, 0x7C1F);
    mem.set_halfword(0x0200_0002, 0x03E0);
    mem.set_word(0x0400_00D4, 0x0200_0000);
    mem.set_word(0x0400_00D8, 0x0500_0200);
    mem.set_halfword(0x0400_00DC, 2);
    mem.set_halfword(0x0400_00DE, 0b1000_0000_0000_0000);
    mem.check_dma(TimingMode::Now);
    assert_eq!(mem.palette.sprite[0], high_to_true(0x7C1F));
    assert_eq!(mem.palette.sprite[1], high_to_true(0x03E0));
}

#[test]
fn lower_channels_run_first() {
    let mut mem = Memory::new();
    mem.set_word(0x0200_0000, 0x1111_1111);
    mem.set_word(0x0200_0010, 0x2222_2222);
    // channel 1 copies 0x02000000 to 0x02000010, channel 2 copies 0x02000010 on
    mem.set_word(0x0400_00BC, 0x0200_0000);
    mem.set_word(0x0400_00C0, 0x0200_0010);
    mem.set_halfword(0x0400_00C4, 1);
    mem.set_halfword(0x0400_00C6, 0b1000_0100_0000_0000);
    mem.set_word(0x0400_00C8, 0x0200_0010);
    mem.set_word(0x0400_00CC, 0x0200_0020);
    mem.set_halfword(0x0400_00D0, 1);
    mem.set_halfword(0x0400_00D2, 0b1000_0100_0000_0000);
    mem.check_dma(TimingMode::Now);
    assert_eq!(mem.get_word(0x0200_0020), 0x1111_1111);
}

#[test]
fn display_hooks_keep_both_views_in_step() {
    let mut mem = Memory::new();
    // enable all three display interrupts, trigger line 5
    mem.set_halfword(0x0400_0004, 0x0538);
    mem.on_vblank_hook();
    assert!(mem.graphics.disp_stat.is_vblank);
    assert_eq!(mem.get_byte(0x0400_0004) & 0b111, 0b001);
    assert!(mem.int.triggered.vblank);
    assert_eq!(mem.get_byte(0x0400_0202), 0b001);
    mem.on_hblank_hook();
    assert!(mem.graphics.disp_stat.is_hblank);
    assert_eq!(mem.get_byte(0x0400_0004) & 0b111, 0b011);
    assert!(mem.int.triggered.hblank);
    mem.on_hdraw_hook();
    assert!(!mem.graphics.disp_stat.is_hblank);
    assert_eq!(mem.get_byte(0x0400_0004) & 0b111, 0b001);
    mem.on_vdraw_hook();
    assert!(!mem.graphics.disp_stat.is_vblank);
    assert_eq!(mem.get_byte(0x0400_0004) & 0b111, 0);
    mem.on_vcount_hook(4);
    assert_eq!(mem.graphics.vcount, 4);
    assert!(!mem.graphics.disp_stat.vcount_triggered);
    assert!(!mem.int.triggered.vcount);
    mem.on_vcount_hook(5);
    assert_eq!(mem.get_byte(0x0400_0006), 5);
    assert!(mem.graphics.disp_stat.vcount_triggered);
    assert!(mem.int.triggered.vcount);
    assert_eq!(mem.get_byte(0x0400_0202), 0b111);
    // writes to the status bits are ignored
    mem.set_byte(0x0400_0004, 0b111);
    assert!(!mem.graphics.disp_stat.is_vblank && !mem.graphics.disp_stat.is_hblank);
    assert!(!mem.graphics.disp_stat.vblank_irq_enabled);

    // without the enable bits nothing is latched
    let mut quiet = Memory::new();
    quiet.on_vblank_hook();
    quiet.on_hblank_hook();
    quiet.on_vcount_hook(0);
    assert!(quiet.graphics.disp_stat.vcount_triggered);
    assert_eq!(quiet.get_halfword(0x0400_0202), 0);
    quiet.on_dma_finish_hook(2);
    assert!(!quiet.int.triggered.dma[2]);
}

#[test]
fn pending_needs_master_enable_and_latch() {
    let mut mem = Memory::new();
    assert!(!mem.int.pending_interrupts());
    mem.set_halfword(0x0400_0200, 0b0000_0000_0000_0100);
    // the display latches VBlank and HBlank
    mem.set_byte(0x0400_0004, 0b0001_1000);
    mem.on_vblank_hook();
    mem.on_hblank_hook();
    assert_eq!(mem.get_halfword(0x0400_0202), 0b11);
    mem.set_byte(0x0400_0208, 1);
    // enabled and latched sets do not meet
    assert!(!mem.int.pending_interrupts());
    mem.set_halfword(0x0400_0200, 0b0000_0000_0000_0010);
    assert!(mem.int.pending_interrupts());
    mem.set_byte(0x0400_0208, 0);
    assert!(!mem.int.pending_interrupts());
    mem.set_byte(0x0400_0208, 1);
    // acknowledge hblank
    mem.set_halfword(0x0400_0202, 0b10);
    assert!(!mem.int.pending_interrupts());
    assert_eq!(mem.int.triggered.as_array()[0], true);
    assert_eq!(mem.int.triggered.as_array()[1], false);
}

#[test]
fn display_control_ignores_modes_that_do_not_exist() {
    let mut mem = Memory::new();
    mem.set_byte(0x0400_0000, 0b0010_0011);
    assert_eq!(mem.graphics.disp_cnt.bg_mode, 3);
    assert_eq!(mem.graphics.disp_cnt.frame_base, 0x0600_0000);
    assert!(mem.graphics.disp_cnt.hblank_interval_free);
    mem.set_byte(0x0400_0000, 0b0001_0111);
    assert_eq!(mem.graphics.disp_cnt.bg_mode, 3);
    assert_eq!(mem.graphics.disp_cnt.frame_base, 0x0600_A000);
    assert!(!mem.graphics.disp_cnt.hblank_interval_free);
    // the register keeps the mode that it had, in the raw byte too
    assert_eq!(mem.get_byte(0x0400_0000), 0b0001_0011);
    assert_views_agree(&mem);

    let mut mem = Memory::new();
    mem.set_byte(0x0400_0000, 6);
    assert_eq!(mem.get_byte(0x0400_0000), 0);
    assert_eq!(mem.graphics.disp_cnt.bg_mode, 0);
    mem.set_halfword(0x0400_0000, 0x1F07);
    assert_eq!(mem.get_halfword(0x0400_0000), 0x1F00);
    assert_eq!(mem.graphics.disp_cnt.bg_mode, 0);
    assert_eq!(mem.graphics.disp_cnt.bg_enabled, [true; 4]);
    mem.set_byte(0x0400_0000, 5);
    assert_eq!(mem.get_byte(0x0400_0000), 5);
    assert_eq!(mem.graphics.disp_cnt.bg_mode, 5);
    assert_views_agree(&mem);
}

#[test]
fn windows_are_pushed_to_the_screen_edge() {
    let mut mem = Memory::new();
    // right edge beyond the screen is capped
    mem.set_byte(0x0400_0040, 250);
    assert_eq!(mem.graphics.window_coords[0].right, 240);
    // a left edge beyond the right edge pushes the right edge out
    mem.set_byte(0x0400_0040, 10);
    mem.set_byte(0x0400_0041, 20);
    assert_eq!(mem.graphics.window_coords[0].left, 20);
    assert_eq!(mem.graphics.window_coords[0].right, 240);
    mem.set_byte(0x0400_0047, 100);
    assert_eq!(mem.graphics.window_coords[1].top, 100);
    assert_eq!(mem.graphics.window_coords[1].bottom, 160);
    // the edges are those of the raw bytes, in whatever order they came
    mem.set_byte(0x0400_0041, 5);
    assert_eq!(mem.graphics.window_coords[0].left, 5);
    assert_eq!(mem.graphics.window_coords[0].right, 10);
    assert_eq!(mem.get_byte(0x0400_0040), 10);
    mem.set_byte(0x0400_0046, 120);
    assert_eq!(mem.graphics.window_coords[1].bottom, 120);
    mem.set_byte(0x0400_0047, 130);
    assert_eq!(mem.graphics.window_coords[1].bottom, 160);
    mem.set_byte(0x0400_0047, 20);
    assert_eq!(mem.graphics.window_coords[1].bottom, 120);
    assert_views_agree(&mem);
    let mut other = Memory::new();
    other.set_word(0x0400_0040, mem.get_word(0x0400_0040));
    other.set_word(0x0400_0044, mem.get_word(0x0400_0044));
    assert_eq!(other.graphics.window_coords, mem.graphics.window_coords);
}

#[test]
fn a_write_to_the_request_register_latches_nothing() {
    let mut mem = Memory::new();
    mem.set_halfword(0x0400_0202, 0xFFFF);
    assert_eq!(mem.int.triggered.as_array(), [false; 14]);
    assert_eq!(mem.get_halfword(0x0400_0202), 0);
    mem.set_word(0x0400_0200, 0xFFFF_0000);
    assert_eq!(mem.int.triggered.as_array(), [false; 14]);
    assert_eq!(mem.get_halfword(0x0400_0202), 0);
    mem.set_byte(0x0400_0203, 0xFF);
    assert_eq!(mem.int.triggered.as_array(), [false; 14]);
    assert_eq!(mem.get_byte(0x0400_0203), 0);
}

#[test]
fn acknowledging_clears_the_register_as_it_is_read() {
    let mut mem = Memory::new();
    mem.set_byte(0x0400_0004, 0b0001_1000);
    mem.on_vblank_hook();
    mem.on_hblank_hook();
    assert_eq!(mem.get_halfword(0x0400_0202), 0b11);
    // acknowledge VBlank, and timer 0, which is not latched
    mem.set_halfword(0x0400_0202, 0b1001);
    assert_eq!(mem.get_halfword(0x0400_0202), 0b10);
    assert_eq!(mem.int.triggered.vblank, false);
    assert_eq!(mem.int.triggered.hblank, true);
    assert_eq!(mem.int.triggered.timer[0], false);
    // the same write again changes nothing more
    mem.set_halfword(0x0400_0202, 0b1001);
    assert_eq!(mem.get_halfword(0x0400_0202), 0b10);
    assert_eq!(mem.int.triggered.hblank, true);
    mem.set_byte(0x0400_0202, 0b10);
    assert_eq!(mem.get_halfword(0x0400_0202), 0);
    assert_eq!(mem.int.triggered.as_array(), [false; 14]);
}

#[test]
fn display_status_bits_are_not_written_by_the_program() {
    let mut mem = Memory::new();
    mem.on_vblank_hook();
    assert_eq!(mem.get_byte(0x0400_0004), 1);
    mem.set_byte(0x0400_0004, 0xFE);
    assert_eq!(mem.get_byte(0x0400_0004), 0xF9);
    assert!(mem.graphics.disp_stat.is_vblank);
    assert!(!mem.graphics.disp_stat.is_hblank);
    assert!(mem.graphics.disp_stat.vblank_irq_enabled);
    mem.set_halfword(0x0400_0004, 0x2A06);
    assert_eq!(mem.get_halfword(0x0400_0004), 0x2A01);
    assert!(mem.graphics.disp_stat.is_vblank);
    assert!(!mem.graphics.disp_stat.vblank_irq_enabled);
    assert_eq!(mem.graphics.disp_stat.vcount_line_trigger, 0x2A);
    mem.on_hblank_hook();
    mem.set_word(0x0400_0004, 0);
    assert_eq!(mem.get_word(0x0400_0004) & 0xFFFF, 0x0003);
    assert!(mem.graphics.disp_stat.is_vblank);
    assert!(mem.graphics.disp_stat.is_hblank);
    mem.on_vdraw_hook();
    mem.on_hdraw_hook();
    mem.set_byte(0x0400_0004, 0x07);
    assert_eq!(mem.get_byte(0x0400_0004), 0);
    assert!(!mem.graphics.disp_stat.is_vblank);
    assert!(!mem.graphics.disp_stat.is_hblank);
    // the line counter meets the trigger, which is 0 by now
    mem.on_vcount_hook(0);
    assert_eq!(mem.get_byte(0x0400_0004), 4);
    mem.set_byte(0x0400_0004, 0);
    assert_eq!(mem.get_byte(0x0400_0004), 4);
    assert!(mem.graphics.disp_stat.vcount_triggered);
    mem.on_vcount_hook(1);
    assert_eq!(mem.get_byte(0x0400_0004), 0);
    assert!(!mem.graphics.disp_stat.vcount_triggered);
}

#[test]
fn dma3_word_copy_into_the_cartridge() {
    let mut mem = Memory::new();
    let rom: Vec<u8> = (0u32..0x20000).map(|i| (i * 5 + 1) as u8).collect();
    mem.load_rom(&rom);
    mem.set_word(0x0200_0000, 0x1234_5678);
    mem.set_word(0x0400_00B0, 0x0200_0000);
    mem.set_word(0x0400_00B4, 0x0300_0000);
    mem.set_halfword(0x0400_00B8, 7);
    mem.set_word(0x0400_00D4, 0x0800_0300);
    mem.set_word(0x0400_00D8, 0x0910_032A);
    mem.set_halfword(0x0400_00DC, 0);
    // enabled, interrupt on finish, word size, start now
    mem.set_halfword(0x0400_00DE, 0b1100_0100_0000_0000);
    assert_eq!(mem.dma.channels[3].count, 0x4000);
    let first = format!("{:?}", mem.dma.channels[0]);
    let second = format!("{:?}", mem.dma.channels[1]);
    let third = format!("{:?}", mem.dma.channels[2]);

    mem.check_dma(TimingMode::Now);

    let channel = &mem.dma.channels[3];
    assert!(!channel.enabled);
    // 0x4000 words: both addresses moved on by 0x10000 bytes
    assert_eq!(channel.src, 0x0801_0300);
    assert_eq!(channel.dest, 0x0911_0328);
    assert_eq!(mem.get_word(0x0400_00D4), 0x0801_0300);
    assert_eq!(mem.get_word(0x0400_00D8), 0x0911_0328);
    assert_eq!(mem.get_halfword(0x0400_00DE) & 0x8000, 0);
    assert_eq!(mem.get_halfword(0x0400_00DE), 0b0100_0100_0000_0000);
    // the finish hook ran for channel 3
    assert!(mem.int.triggered.dma[3]);
    assert_eq!(mem.int.triggered.dma[..3], [false, false, false]);
    assert_eq!(mem.get_halfword(0x0400_0202), 0x0800);
    // nothing else moved: the cartridge keeps no store
    assert_eq!(format!("{:?}", mem.dma.channels[0]), first);
    assert_eq!(format!("{:?}", mem.dma.channels[1]), second);
    assert_eq!(format!("{:?}", mem.dma.channels[2]), third);
    assert_eq!(mem.get_word(0x0200_0000), 0x1234_5678);
    assert_eq!(mem.get_word(0x0300_0000), 0);
    for i in [0usize, 0x328, 0x32A, 0x1_0327].iter() {
        assert_eq!(mem.get_byte(0x0800_0000 + *i as u32), rom[*i]);
        assert_eq!(mem.get_byte(0x0900_0000 + *i as u32), 0);
    }
}

#[test]
fn stores_to_the_cartridge_and_to_nowhere_are_dropped() {
    let mut mem = Memory::new();
    let rom: Vec<u8> = (0u32..0x100).map(|i| (i + 1) as u8).collect();
    mem.load_rom(&rom);
    mem.set_byte(0x0800_0010, 0xEE);
    assert_eq!(mem.get_byte(0x0800_0010), 0x11);
    mem.set_halfword(0x0A00_0010, 0xBEEF);
    assert_eq!(mem.get_halfword(0x0A00_0010), 0x1211);
    mem.set_word(0x0C00_0010, 0xDEAD_BEEF);
    assert_eq!(mem.get_word(0x0C00_0010), 0x1413_1211);
    mem.set_word(0x0E00_0000, 0xDEAD_BEEF);
    assert_eq!(mem.get_word(0x0E00_0000), 0);
    mem.set_word(0x0100_0000, 0xDEAD_BEEF);
    assert_eq!(mem.get_word(0x0100_0000), 0);
    mem.set_word(0xF000_0000, 0xDEAD_BEEF);
    assert_eq!(mem.get_word(0xF000_0000), 0);
    assert_eq!(mem.int.triggered.as_array(), [false; 14]);
    assert_eq!(mem.int.enabled.as_array(), [false; 14]);
}

/// The flags of `mem`, read off the raw register bytes.
fn raw_flags(mem: &Memory, addr: u32, count: usize) -> Vec<bool> {
    let reg = mem.get_halfword(addr);
    (0..count).map(|k| get_bit_hw(reg, k as u8)).collect()
}

fn assert_views_agree(mem: &Memory) {
    assert_eq!(raw_flags(mem, 0x0400_0202, 14), mem.int.triggered.as_array().to_vec());
    let stat = &mem.graphics.disp_stat;
    assert_eq!(
        raw_flags(mem, 0x0400_0004, 6),
        vec![
            stat.is_vblank,
            stat.is_hblank,
            stat.vcount_triggered,
            stat.vblank_irq_enabled,
            stat.hblank_irq_enabled,
            stat.vcount_irq_enabled
        ]
    );
    assert_eq!(mem.get_byte(0x0400_0005), stat.vcount_line_trigger);
    assert_eq!(mem.get_halfword(0x0400_0006), mem.graphics.vcount as u16);
    // every view is what a fresh parse of the raw bytes gives
    assert_eq!(mem.graphics, LCD::parse(&mem.raw));
    assert_eq!(mem.dma, DMA::parse(&mem.raw));
    assert_eq!(mem.int, Interrupt::parse(&mem.raw));
    let wait = mem.get_byte(0x0400_0204);
    assert_eq!(mem.rom_n_cycle, [4, 3, 2, 8][((wait >> 2) & 3) as usize]);
    assert_eq!(mem.rom_s_cycle_fast, (wait >> 4) & 1 == 1);
    for entry in 0..128 {
        assert_eq!(mem.sprites.sprites[entry], Sprite::parse(&mem.raw, entry));
    }
    for group in 0..32 {
        assert_eq!(mem.sprites.affine_params[group], SpriteAffineParams::parse(&mem.raw, group));
    }
    for i in 0..256u32 {
        assert_eq!(mem.palette.bg[i as usize], high_to_true(mem.get_halfword(0x0500_0000 + 2 * i)));
        assert_eq!(
            mem.palette.sprite[i as usize],
            high_to_true(mem.get_halfword(0x0500_0200 + 2 * i))
        );
    }
}

#[test]
fn raw_and_parsed_registers_agree_after_stores_and_hooks() {
    let mut mem = Memory::new();
    assert_views_agree(&mem);
    mem.set_halfword(0x0400_0004, 0x05FF);
    assert_views_agree(&mem);
    mem.on_vblank_hook();
    assert_views_agree(&mem);
    assert!(mem.int.triggered.vblank);
    mem.on_hblank_hook();
    assert_views_agree(&mem);
    mem.on_vcount_hook(5);
    assert_views_agree(&mem);
    assert!(mem.int.triggered.vcount);
    assert!(mem.graphics.disp_stat.vcount_triggered);
    mem.set_word(0x0400_0004, 0);
    assert_views_agree(&mem);
    assert!(mem.graphics.disp_stat.is_vblank);
    mem.set_byte(0x0400_0202, 0b101);
    assert_views_agree(&mem);
    assert!(!mem.int.triggered.vblank);
    assert!(mem.int.triggered.hblank);
    mem.set_word(0x0400_0200, 0x0002_3FFF);
    assert_views_agree(&mem);
    assert_eq!(mem.int.triggered.as_array(), [false; 14]);
    mem.on_vdraw_hook();
    mem.on_hdraw_hook();
    mem.on_vcount_hook(6);
    assert_views_agree(&mem);
    // a transfer that ends with an interrupt, and one that copies into IF
    mem.set_word(0x0400_00B0, 0x0200_0000);
    mem.set_word(0x0400_00B4, 0x0400_0200);
    mem.set_halfword(0x0400_00B8, 1);
    mem.set_word(0x0200_0000, 0xFFFF_0000);
    mem.set_halfword(0x0400_00BA, 0b1100_0100_0000_0000);
    mem.check_dma(TimingMode::Now);
    assert_views_agree(&mem);
    assert!(mem.int.triggered.dma[0]);
}

#[test]
fn the_line_counter_is_not_written_by_the_program() {
    let mut mem = Memory::new();
    mem.on_vcount_hook(0x37);
    assert_eq!(mem.get_halfword(0x0400_0006), 0x37);
    mem.set_byte(0x0400_0006, 0x99);
    mem.set_byte(0x0400_0007, 0x99);
    assert_eq!(mem.get_halfword(0x0400_0006), 0x37);
    mem.set_halfword(0x0400_0006, 0xABCD);
    assert_eq!(mem.get_halfword(0x0400_0006), 0x37);
    // a word store to DISPSTAT reaches the trigger line and stops there
    mem.set_word(0x0400_0004, 0x1234_5600);
    assert_eq!(mem.get_word(0x0400_0004), 0x0037_5600);
    assert_eq!(mem.graphics.vcount, 0x37);
    assert_eq!(mem.graphics.disp_stat.vcount_line_trigger, 0x56);
    mem.on_vcount_hook(0x56);
    assert_eq!(mem.get_word(0x0400_0004), 0x0056_5604);
}

#[test]
fn a_count_of_zero_stands_for_0x4000_in_any_order() {
    let mut mem = Memory::new();
    assert_eq!(mem.dma.channels[1].count, 0x4000);
    // control first, count after
    mem.set_halfword(0x0400_00C6, 0b1000_0100_0000_0000);
    mem.set_halfword(0x0400_00C4, 0);
    assert_eq!(mem.dma.channels[1].count, 0x4000);
    mem.set_halfword(0x0400_00C4, 0x4000);
    assert_eq!(mem.dma.channels[1].count, 0x4000);
    mem.set_halfword(0x0400_00C4, 0xC001);
    assert_eq!(mem.dma.channels[1].count, 1);
    mem.set_halfword(0x0400_00C4, 0);
    assert_eq!(mem.dma.channels[1].count, 0x4000);
    // count first, control after
    mem.set_halfword(0x0400_00D0, 0);
    mem.set_halfword(0x0400_00D2, 0b1000_0000_0000_0000);
    assert_eq!(mem.dma.channels[2].count, 0x4000);
    assert_views_agree(&mem);
    // and that many chunks are moved
    let mut mem = Memory::new();
    for i in 0..0x8000u32 {
        mem.set_byte(0x0200_0000 + i, (i % 251) as u8);
    }
    mem.set_word(0x0400_00B0, 0x0200_0000);
    mem.set_word(0x0400_00B4, 0x0201_0000);
    mem.set_halfword(0x0400_00BA, 0b1000_0000_0000_0000);
    mem.set_halfword(0x0400_00B8, 0);
    mem.check_dma(TimingMode::Now);
    assert_eq!(mem.get_byte(0x0201_0000 + 0x7FFF), (0x7FFF % 251) as u8);
    assert_eq!(mem.get_byte(0x0201_0000 + 0x8000), 0);
    assert_eq!(mem.dma.channels[0].src, 0x0200_8000);
    assert_views_agree(&mem);
}

#[test]
fn a_machine_at_reset_holds_the_decode_of_zero_bytes() {
    let mem = Memory::new();
    assert_views_agree(&mem);
    assert_eq!(mem.graphics.disp_cnt.bg_mode, 0);
    assert_eq!(mem.graphics.disp_cnt.frame_base, 0x0600_0000);
    for bg in mem.graphics.bg_cnt.iter() {
        assert_eq!(bg.tile_addr, 0x0600_0000);
        assert_eq!(bg.map_addr, 0x0600_0000);
        assert_eq!(bg.depth, 4);
        assert_eq!((bg.width, bg.height), (256, 256));
    }
    for channel in mem.dma.channels.iter() {
        assert_eq!(channel.count, 0x4000);
        assert!(!channel.word);
        assert!(!channel.enabled);
        assert_eq!(channel.timing, TimingMode::Now);
        assert_eq!(channel.src_incr, IncrType::Inc);
    }
    assert_eq!(mem.sprites.sprites[17].bit_depth, 4);
    assert_eq!(mem.sprites.sprites[17], Sprite::new());
    assert_eq!(mem.palette.bg[0], 0xFF00_0000);
    assert_eq!(mem.palette.sprite[255], 0xFF00_0000);
    assert_eq!(mem.rom_n_cycle, 4);
    assert!(!mem.int.master_enabled);
    assert_eq!(mem.int.enabled.as_array(), [false; 14]);
}

#[test]
fn views_follow_the_raw_bytes_through_every_kind_of_store() {
    let mut mem = Memory::new();
    let mut seed: u32 = 0x1234_5678;
    for round in 0..4000u32 {
        seed = seed.wrapping_mul(1_664_525).wrapping_add(1_013_904_223);
        let window = match (seed >> 28) % 6 {
            0 => 0x0400_0000 + (seed >> 8) % 0x60,
            1 => 0x0400_00B0 + (seed >> 8) % 0x30,
            2 => 0x0400_0200 + (seed >> 8) % 0x0C,
            3 => 0x0500_0000 + (seed >> 8) % 0x400,
            4 => 0x0700_0000 + (seed >> 8) % 0x400,
            _ => 0x0300_0000 + (seed >> 8) % 0x100,
        };
        let val = seed.rotate_left(round % 32);
        match round % 3 {
            0 => mem.set_byte(window, val as u8),
            1 => mem.set_halfword(window, val & 0xFFFF),
            _ => mem.set_word(window, val),
        }
        // keep transfers from starting: they are tried elsewhere
        match round % 64 {
            7 => mem.on_vcount_hook((seed >> 16) as u8),
            9 => mem.on_vdraw_hook(),
            11 => mem.on_hdraw_hook(),
            _ => {}
        }
        if round % 97 == 0 {
            assert_views_agree(&mem);
        }
    }
    assert_views_agree(&mem);
}
