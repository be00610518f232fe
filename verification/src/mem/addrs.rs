//! The address ranges of the memory segments, after mirrors are folded.

use vstd::prelude::*;

verus! {

pub const SYSROM_START: u32 = 0x0000_0000;
pub const SYSROM_END: u32 = 0x0000_3FFF;
pub const EWRAM_START: u32 = 0x0200_0000;
pub const EWRAM_END: u32 = 0x0203_FFFF;
pub const IWRAM_START: u32 = 0x0300_0000;
pub const IWRAM_END: u32 = 0x0300_7FFF;
pub const IO_START: u32 = 0x0400_0000;
pub const IO_END: u32 = 0x0400_03FF;
pub const PAL_START: u32 = 0x0500_0000;
pub const PAL_END: u32 = 0x0500_03FF;
pub const VRAM_START: u32 = 0x0600_0000;
pub const VRAM_END: u32 = 0x0601_7FFF;
pub const OAM_START: u32 = 0x0700_0000;
pub const OAM_END: u32 = 0x0700_03FF;
pub const ROM_START: u32 = 0x0800_0000;
pub const ROM_END: u32 = 0x09FF_FFFF;
pub const ROM_MIRROR1_START: u32 = 0x0A00_0000;
pub const ROM_MIRROR1_END: u32 = 0x0BFF_FFFF;
pub const ROM_MIRROR2_START: u32 = 0x0C00_0000;
pub const ROM_MIRROR2_END: u32 = 0x0DFF_FFFF;
pub const SRAM_START: u32 = 0x0E00_0000;
pub const SRAM_END: u32 = 0x0E00_FFFF;

} // verus!
