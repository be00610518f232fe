//! Addresses of the memory mapped registers that have a parsed view.

use vstd::prelude::*;

verus! {

// graphics
pub const GRAPHICS_START: u32 = 0x0400_0000;
pub const DISPCNT_LO: u32 = 0x0400_0000;
pub const DISPCNT_HI: u32 = 0x0400_0001;
pub const DISPSTAT_LO: u32 = 0x0400_0004;
pub const DISPSTAT_HI: u32 = 0x0400_0005;
pub const VCOUNT_LO: u32 = 0x0400_0006;
pub const VCOUNT_HI: u32 = 0x0400_0007;
pub const BGCNT_START: u32 = 0x0400_0008;
pub const BGCNT_END: u32 = 0x0400_000F;
pub const BG_OFFSET_START: u32 = 0x0400_0010;
pub const BG_OFFSET_END: u32 = 0x0400_001F;
pub const BG_AFFINE_START: u32 = 0x0400_0020;
pub const BG_AFFINE_END: u32 = 0x0400_003F;
pub const WIN_COORD_START: u32 = 0x0400_0040;
pub const WIN_COORD_END: u32 = 0x0400_0047;
pub const WIN_SETTINGS_START: u32 = 0x0400_0048;
pub const WIN_SETTINGS_END: u32 = 0x0400_004B;
pub const MOSAIC_LO: u32 = 0x0400_004C;
pub const MOSAIC_HI: u32 = 0x0400_004D;
pub const BLDCNT_LO: u32 = 0x0400_0050;
pub const BLDCNT_HI: u32 = 0x0400_0051;
pub const BLDALPHA_LO: u32 = 0x0400_0052;
pub const BLDALPHA_HI: u32 = 0x0400_0053;
pub const BLDY: u32 = 0x0400_0054;
pub const GRAPHICS_END: u32 = 0x0400_0055;

// DMA
pub const DMA_START: u32 = 0x0400_00B0;
pub const DMA_END: u32 = 0x0400_00DF;
/// Each channel owns 12 bytes: source, destination, count and control.
pub const DMA_CHANNEL_BYTES: u32 = 12;

// interrupts
pub const INT_START: u32 = 0x0400_0200;
pub const IE_LO: u32 = 0x0400_0200;
pub const IE_HI: u32 = 0x0400_0201;
pub const IF_LO: u32 = 0x0400_0202;
pub const IF_HI: u32 = 0x0400_0203;
pub const WSCNT_LO: u32 = 0x0400_0204;
pub const IME: u32 = 0x0400_0208;
pub const INT_END: u32 = 0x0400_0208;

pub open spec fn spec_dma_sad(channel: usize) -> u32 {
    (DMA_START + DMA_CHANNEL_BYTES * channel) as u32
}

/// Address of the source address register of a DMA channel.
#[verifier::when_used_as_spec(spec_dma_sad)]
pub fn dma_sad(channel: usize) -> (r: u32)
    requires
        channel < 4,
    ensures
        r == spec_dma_sad(channel),
{
    DMA_START + DMA_CHANNEL_BYTES * (channel as u32)
}

pub open spec fn spec_dma_dad(channel: usize) -> u32 {
    (DMA_START + DMA_CHANNEL_BYTES * channel + 4) as u32
}

/// Address of the destination address register of a DMA channel.
#[verifier::when_used_as_spec(spec_dma_dad)]
pub fn dma_dad(channel: usize) -> (r: u32)
    requires
        channel < 4,
    ensures
        r == spec_dma_dad(channel),
{
    DMA_START + DMA_CHANNEL_BYTES * (channel as u32) + 4
}

pub open spec fn spec_dma_cnt(channel: usize) -> u32 {
    (DMA_START + DMA_CHANNEL_BYTES * channel + 10) as u32
}

/// Address of the control halfword of a DMA channel.
#[verifier::when_used_as_spec(spec_dma_cnt)]
pub fn dma_cnt(channel: usize) -> (r: u32)
    requires
        channel < 4,
    ensures
        r == spec_dma_cnt(channel),
{
    DMA_START + DMA_CHANNEL_BYTES * (channel as u32) + 10
}

} // verus!
