use vstd::prelude::*;
use std::ops::Range;

use crate::cpu::interrupts::InterruptType;
use crate::interconnect::ppu::Rgb;

verus! {

/// Master clock of the DMG in T-cycles per second.
pub const CLOCK_SPEED: usize = 4_194_304;

/// T-cycles in one frame at 59.7275 frames per second (rounded down).
pub const MAX_CYCLES_PER_FRAME: usize = 70224;

pub const PC_AFTER_BOOT: u16 = 0x100;

pub const TARGET_FRAME_TIME: u32 = 1000 / 60;

// PPU timing and geometry.
pub const LINES_PER_FRAME: u8 = 154;
pub const TICKS_PER_LINE: u32 = 456;
pub const Y_RESOLUTION: u8 = 144;
pub const X_RESOLUTION: u8 = 160;
pub const BUFFER_SIZE: usize = 144 * 160;

/// Dots spent in mode 2 (OAM scan) at the start of a visible line.
pub const OAM_SCAN_TICKS: u32 = 80;

/// Dot at which mode 3 (pixel transfer) ends and mode 0 (H-blank) begins.
pub const TRANSFER_END_TICKS: u32 = 252;

// Registers on the I/O page.
pub const SERIAL_TRASFER_DATA: u16 = 0xFF01;
pub const SERIAL_TRANSFER_CONTROL: u16 = 0xFF02;

pub const DIV: u16 = 0xFF04;
pub const TIMA: u16 = 0xFF05;
pub const TMA: u16 = 0xFF06;
pub const TAC: u16 = 0xFF07;
pub const LCDC: u16 = 0xFF40;

pub const INTERRUPT_FLAG: u16 = 0xFF0F;
pub const INTERRUPT_ENABLE: u16 = 0xFFFF;

pub const BCPS: u16 = 0xFF68;
pub const BCPD: u16 = 0xFF69;
pub const OCPS: u16 = 0xFF6A;
pub const OCPD: u16 = 0xFF6B;

// Memory map: each region is the half-open range START..END.
pub const BOOT_START: u16 = 0x000;
pub const BOOT_END: u16 = 0x100;

pub const ROM_BANK_START: u16 = 0x0000;
pub const ROM_BANK_END: u16 = 0x8000;

pub const VRAM_START: u16 = 0x8000;
pub const VRAM_END: u16 = 0xA000;

pub const EXTERNAL_RAM_START: u16 = 0xA000;
pub const EXTERNAL_RAM_END: u16 = 0xC000;

pub const WORK_RAM_START: u16 = 0xC000;
pub const WORK_RAM_END: u16 = 0xE000;

pub const OAM_START: u16 = 0xFE00;
pub const OAM_END: u16 = 0xFEA0;

pub const TIMER_START: u16 = 0xFF04;
pub const TIMER_END: u16 = 0xFF08;

pub const IO_START: u16 = 0xFF00;
pub const IO_END: u16 = 0xFF80;

pub const HIGH_RAM_START: u16 = 0xFF80;
pub const HIGH_RAM_END: u16 = 0xFFFF;

pub const LCD_START: u16 = 0xFF40;
pub const LCD_END: u16 = 0xFF4C;

pub const ROM_BANK_SIZE: usize = 0x4000;
pub const RAM_BANK_SIZE: usize = 0x2000;

/// The four shades of the DMG, lightest first.
pub fn tile_colors() -> (colors: [Rgb; 4])
    ensures
        colors@ == seq![
            Rgb { r: 255, g: 255, b: 255 },
            Rgb { r: 169, g: 169, b: 169 },
            Rgb { r: 84, g: 84, b: 84 },
            Rgb { r: 0, g: 0, b: 0 },
        ],
{
    let colors = [Rgb::new(255, 255, 255), Rgb::new(169, 169, 169), Rgb::new(84, 84, 84), Rgb::new(0, 0, 0)];
    assert(colors@ =~= seq![
        Rgb { r: 255, g: 255, b: 255 },
        Rgb { r: 169, g: 169, b: 169 },
        Rgb { r: 84, g: 84, b: 84 },
        Rgb { r: 0, g: 0, b: 0 },
    ]);
    colors
}

/// The interrupt sources in order of priority.
pub fn interrupts() -> (order: [InterruptType; 5])
    ensures
        order@ == seq![
            InterruptType::VBlank,
            InterruptType::LcdStat,
            InterruptType::Timer,
            InterruptType::Serial,
            InterruptType::Joypad,
        ],
{
    let order = [
        InterruptType::VBlank,
        InterruptType::LcdStat,
        InterruptType::Timer,
        InterruptType::Serial,
        InterruptType::Joypad,
    ];
    assert(order@ =~= seq![
        InterruptType::VBlank,
        InterruptType::LcdStat,
        InterruptType::Timer,
        InterruptType::Serial,
        InterruptType::Joypad,
    ]);
    order
}

/// The addresses of the boot ROM while it is mapped.
pub fn boot_range() -> (r: Range<u16>)
    ensures
        r.start == 0x00 && r.end == 0x100,
{
    0x00..0x100
}

/// The addresses of the cartridge ROM.
pub fn rom_bank_range() -> (r: Range<u16>)
    ensures
        r.start == 0x0000 && r.end == 0x8000,
{
    0x0000..0x8000
}

/// The addresses of video RAM.
pub fn vram_range() -> (r: Range<u16>)
    ensures
        r.start == 0x8000 && r.end == 0xA000,
{
    0x8000..0xA000
}

/// The addresses of cartridge RAM.
pub fn external_ram_range() -> (r: Range<u16>)
    ensures
        r.start == 0xA000 && r.end == 0xC000,
{
    0xA000..0xC000
}

/// The addresses of work RAM.
pub fn work_ram_range() -> (r: Range<u16>)
    ensures
        r.start == 0xC000 && r.end == 0xE000,
{
    0xC000..0xE000
}

/// The addresses of object attribute memory.
pub fn oam_range() -> (r: Range<u16>)
    ensures
        r.start == 0xFE00 && r.end == 0xFEA0,
{
    0xFE00..0xFEA0
}

/// The addresses of the timer registers.
pub fn timer_range() -> (r: Range<u16>)
    ensures
        r.start == 0xFF04 && r.end == 0xFF08,
{
    0xFF04..0xFF08
}

/// The addresses of the LCD registers.
pub fn lcd_range() -> (r: Range<u16>)
    ensures
        r.start == 0xFF40 && r.end == 0xFF4C,
{
    0xFF40..0xFF4C
}

/// The addresses of the I/O page.
pub fn io_range() -> (r: Range<u16>)
    ensures
        r.start == 0xFF00 && r.end == 0xFF80,
{
    0xFF00..0xFF80
}

/// The addresses of high RAM.
pub fn high_ram_range() -> (r: Range<u16>)
    ensures
        r.start == 0xFF80 && r.end == 0xFFFF,
{
    0xFF80..0xFFFF
}

} // verus!
