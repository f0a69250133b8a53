use vstd::prelude::*;
use vstd::array::spec_array_update;
use crate::cpu::interrupts::InterruptType;

verus! {

/// A colour with 8-bit channels.
#[derive(Clone, Copy, Debug, PartialEq, Eq, Structural)]
pub struct Rgb {
    pub r: u8,
    pub g: u8,
    pub b: u8,
}

impl Rgb {
    pub fn new(r: u8, g: u8, b: u8) -> (c: Rgb)
        ensures
            c == (Rgb { r, g, b }),
    {
        Rgb { r, g, b }
    }

    pub fn get_rgb(&self) -> (c: (u8, u8, u8))
        ensures
            c == (self.r, self.g, self.b),
    {
        (self.r, self.g, self.b)
    }
}

/// A CGB palette specification register (BCPS or OCPS) as the byte the CPU
/// sees: bits 0..6 hold the palette RAM address, bit 7 the auto-increment
/// flag.
#[derive(Clone, Copy, Debug, PartialEq, Eq, Structural)]
pub struct PaletteSpec {
    pub byte: u8,
}

impl PaletteSpec {
    pub open spec fn spec_addr(self) -> u8 {
        self.byte & 0x3F
    }

    pub open spec fn spec_auto_increment(self) -> u8 {
        self.byte >> 7u8
    }

    pub fn from_bytes(bytes: [u8; 1]) -> (p: PaletteSpec)
        ensures
            p.byte == bytes[0],
    {
        PaletteSpec { byte: bytes[0] }
    }

    pub fn into_bytes(self) -> (bytes: [u8; 1])
        ensures
            bytes[0] == self.byte,
    {
        [self.byte]
    }

    pub fn addr(&self) -> (a: u8)
        ensures
            a == self.spec_addr(),
            a < 64,
    {
        let b = self.byte;
        assert(b & 0x3F < 64) by (bit_vector);
        b & 0x3F
    }

    pub fn auto_increment(&self) -> (f: u8)
        ensures
            f == self.spec_auto_increment(),
            f < 2,
    {
        let b = self.byte;
        assert(b >> 7u8 < 2) by (bit_vector);
        b >> 7u8
    }

    /// The register with its address field replaced by `addr`.
    pub open spec fn with_addr(self, addr: u8) -> PaletteSpec {
        PaletteSpec { byte: (self.byte & 0xC0) | addr }
    }

    pub fn set_addr(&mut self, addr: u8)
        requires
            addr < 64,
        ensures
            *final(self) == old(self).with_addr(addr),
            final(self).spec_addr() == addr,
            final(self).spec_auto_increment() == old(self).spec_auto_increment(),
    {
        let b = self.byte;
        assert(addr < 64 ==> ((b & 0xC0) | addr) & 0x3F == addr) by (bit_vector);
        assert(addr < 64 ==> ((b & 0xC0) | addr) >> 7u8 == b >> 7u8) by (bit_vector);
        self.byte = (b & 0xC0) | addr;
    }
}

/// Offsets of the LCD registers on the page 0xFF40..0xFF4C.
pub const LCD_LCDC: usize = 0;
pub const LCD_STAT: usize = 1;
pub const LCD_LY: usize = 4;
pub const LCD_LYC: usize = 5;
pub const LCD_DMA: usize = 6;

/// STAT modes.
pub const MODE_HBLANK: u8 = 0;
pub const MODE_VBLANK: u8 = 1;
pub const MODE_OAM: u8 = 2;
pub const MODE_XFER: u8 = 3;

/// Cycles that an OAM DMA waits after its register is written.
pub const DMA_START_DELAY: u8 = 2;

/// Video RAM, object attribute memory, the LCD registers, the line timing
/// state, the OAM DMA engine and the CGB palettes.
#[derive(Debug)]
pub struct Ppu {
    pub vram: [u8; 8192],
    pub oam: [u8; 160],
    /// LCDC, STAT, SCY, SCX, LY, LYC, DMA, BGP, OBP0, OBP1, WY, WX.
    pub lcd: [u8; 12],
    pub line_ticks: u32,
    pub dma_active: bool,
    pub dma_byte: u8,
    pub dma_value: u8,
    pub dma_start_delay: u8,
    pub bcps: PaletteSpec,
    pub ocps: PaletteSpec,
    pub bg_colors: [Rgb; 64],
    pub sprite_colors: [Rgb; 64],
}

impl Ppu {
    pub open spec fn mode(self) -> u8 {
        self.lcd[1] & 3
    }

    pub open spec fn ly(self) -> u8 {
        self.lcd[4]
    }

    /// The line timing is consistent: each mode lies in its part of the
    /// 456-dot line, LY stays below 144 outside V-blank and below 154 in
    /// it, and a running DMA has a byte left to copy.
    pub open spec fn wf(self) -> bool {
        &&& self.line_ticks < 456
        &&& (self.mode() == MODE_OAM ==> self.line_ticks < 80)
        &&& (self.mode() == MODE_XFER ==> self.line_ticks < 252)
        &&& (self.mode() == MODE_VBLANK ==> self.ly() < 154)
        &&& (self.mode() != MODE_VBLANK ==> self.ly() < 144)
        &&& (self.dma_active ==> self.dma_byte < 160)
    }

    pub fn is_well_formed(&self) -> (b: bool)
        ensures
            b == self.wf(),
    {
        let mode = self.lcd[1] & 3;
        let ly = self.lcd[4];
        self.line_ticks < 456 && (mode != MODE_OAM || self.line_ticks < 80) && (mode != MODE_XFER
            || self.line_ticks < 252) && (mode != MODE_VBLANK || ly < 154) && (mode == MODE_VBLANK
            || ly < 144) && (!self.dma_active || self.dma_byte < 160)
    }

    pub fn new() -> (p: Ppu)
        ensures
            forall|i: int| 0 <= i < 8192 ==> p.vram[i] == 0,
            forall|i: int| 0 <= i < 160 ==> p.oam[i] == 0,
            p.lcd@ == seq![0x91u8, 0x02, 0, 0, 0, 0, 0, 0xFC, 0xFF, 0xFF, 0, 0],
            p.line_ticks == 0,
            !p.dma_active && p.dma_byte == 0 && p.dma_value == 0 && p.dma_start_delay == 0,
            p.bcps.byte == 0 && p.ocps.byte == 0,
            forall|i: int| 0 <= i < 64 ==> p.bg_colors[i] == (Rgb { r: 0, g: 0, b: 0 }),
            forall|i: int| 0 <= i < 64 ==> p.sprite_colors[i] == (Rgb { r: 0, g: 0, b: 0 }),
            p.wf(),
    {
        let p = Ppu {
            vram: [0u8; 8192],
            oam: [0u8; 160],
            lcd: [0x91u8, 0x02, 0, 0, 0, 0, 0, 0xFC, 0xFF, 0xFF, 0, 0],
            line_ticks: 0,
            dma_active: false,
            dma_byte: 0,
            dma_value: 0,
            dma_start_delay: 0,
            bcps: PaletteSpec { byte: 0 },
            ocps: PaletteSpec { byte: 0 },
            bg_colors: [Rgb { r: 0, g: 0, b: 0 }; 64],
            sprite_colors: [Rgb { r: 0, g: 0, b: 0 }; 64],
        };
        assert(0x02u8 & 3 == 2) by (bit_vector);
        assert(p.lcd@ =~= seq![0x91u8, 0x02, 0, 0, 0, 0, 0, 0xFC, 0xFF, 0xFF, 0, 0]);
        p
    }

    pub open spec fn with_vram(self, offset: int, value: u8) -> Ppu {
        Ppu { vram: spec_array_update(self.vram, offset, value), ..self }
    }

    pub open spec fn with_oam(self, offset: int, value: u8) -> Ppu {
        Ppu { oam: spec_array_update(self.oam, offset, value), ..self }
    }

    pub open spec fn with_lcd(self, offset: int, value: u8) -> Ppu {
        Ppu { lcd: spec_array_update(self.lcd, offset, value), ..self }
    }

    pub open spec fn with_mode(self, mode: u8) -> Ppu {
        self.with_lcd(1, (self.lcd[1] & 0xFC) | mode)
    }

    pub open spec fn with_bg_color(self, index: int, c: Rgb) -> Ppu {
        Ppu { bg_colors: spec_array_update(self.bg_colors, index, c), ..self }
    }

    pub open spec fn with_sprite_color(self, index: int, c: Rgb) -> Ppu {
        Ppu { sprite_colors: spec_array_update(self.sprite_colors, index, c), ..self }
    }

    pub fn read_vram(&self, addr: u16) -> (v: u8)
        requires
            0x8000 <= addr < 0xA000,
        ensures
            v == self.vram[addr - 0x8000],
    {
        self.vram[(addr - 0x8000) as usize]
    }

    pub fn write_vram(&mut self, addr: u16, value: u8)
        requires
            0x8000 <= addr < 0xA000,
        ensures
            *final(self) == old(self).with_vram(addr - 0x8000, value),
    {
        self.vram[(addr - 0x8000) as usize] = value;
    }

    /// The OAM index of `addr`: addresses from 0xFE00 up are taken relative
    /// to 0xFE00, lower ones are indices already.
    pub open spec fn oam_index(addr: u16) -> int {
        if addr >= 0xFE00 {
            addr - 0xFE00
        } else {
            addr as int
        }
    }

    pub fn read_oam(&self, addr: u16) -> (v: u8)
        requires
            0 <= Self::oam_index(addr) < 160,
        ensures
            v == self.oam[Self::oam_index(addr)],
    {
        if addr >= 0xFE00 {
            self.oam[(addr - 0xFE00) as usize]
        } else {
            self.oam[addr as usize]
        }
    }

    pub fn write_oam(&mut self, addr: u16, value: u8)
        requires
            0 <= Self::oam_index(addr) < 160,
        ensures
            *final(self) == old(self).with_oam(Self::oam_index(addr), value),
    {
        if addr >= 0xFE00 {
            self.oam[(addr - 0xFE00) as usize] = value;
        } else {
            self.oam[addr as usize] = value;
        }
    }

    pub fn read_lcd(&self, addr: u16) -> (v: u8)
        requires
            0xFF40 <= addr < 0xFF4C,
        ensures
            v == self.lcd[addr - 0xFF40],
    {
        self.lcd[(addr - 0xFF40) as usize]
    }

    /// The PPU after a write to the LCD register at `addr`. LY is read
    /// only, as are the mode and coincidence bits of STAT; writing DMA
    /// starts a transfer from the page `value`.
    pub open spec fn spec_write_lcd(self, addr: u16, value: u8) -> Ppu {
        let offset = addr - 0xFF40;
        if offset == 1 {
            self.with_lcd(1, (self.lcd[1] & 0x07) | (value & 0x78))
        } else if offset == 4 {
            self
        } else if offset == 6 {
            Ppu {
                dma_active: true,
                dma_byte: 0,
                dma_value: value,
                dma_start_delay: DMA_START_DELAY,
                ..self.with_lcd(6, value)
            }
        } else {
            self.with_lcd(offset, value)
        }
    }

    pub fn write_lcd(&mut self, addr: u16, value: u8)
        requires
            0xFF40 <= addr < 0xFF4C,
        ensures
            *final(self) == old(self).spec_write_lcd(addr, value),
    {
        let offset = (addr - 0xFF40) as usize;
        if offset == 1 {
            self.lcd[1] = (self.lcd[1] & 0x07) | (value & 0x78);
        } else if offset == 4 {
        } else if offset == 6 {
            self.lcd[6] = value;
            self.dma_active = true;
            self.dma_byte = 0;
            self.dma_value = value;
            self.dma_start_delay = DMA_START_DELAY;
        } else {
            self.lcd[offset] = value;
        }
    }

    pub fn dma_active(&self) -> (b: bool)
        ensures
            b == self.dma_active,
    {
        self.dma_active
    }

    /// OAM is given over to a running DMA.
    pub fn dma_transferring(&self) -> (b: bool)
        ensures
            b == self.dma_active,
    {
        self.dma_active
    }

    pub fn dma_byte(&self) -> (b: u8)
        ensures
            b == self.dma_byte,
    {
        self.dma_byte
    }

    pub fn dma_value(&self) -> (b: u8)
        ensures
            b == self.dma_value,
    {
        self.dma_value
    }

    pub fn dma_start_delay(&self) -> (b: u8)
        ensures
            b == self.dma_start_delay,
    {
        self.dma_start_delay
    }

    pub fn set_dma_active(&mut self, active: bool)
        ensures
            *final(self) == (Ppu { dma_active: active, ..*old(self) }),
    {
        self.dma_active = active;
    }

    pub fn set_dma_byte(&mut self, byte: u8)
        ensures
            *final(self) == (Ppu { dma_byte: byte, ..*old(self) }),
    {
        self.dma_byte = byte;
    }

    pub fn set_dma_start_delay(&mut self, delay: u8)
        ensures
            *final(self) == (Ppu { dma_start_delay: delay, ..*old(self) }),
    {
        self.dma_start_delay = delay;
    }
}


/// The interrupts of a STAT source whose enable bit is `bit`.
pub open spec fn stat_interrupt(stat: u8, bit: u8) -> Seq<InterruptType> {
    if stat & bit != 0 {
        seq![InterruptType::LcdStat]
    } else {
        seq![]
    }
}

impl Ppu {
    /// LY advanced by one line, with the LY=LYC flag of STAT updated and
    /// the STAT interrupt raised on a match when it is enabled.
    pub open spec fn spec_increment_ly(self) -> (Ppu, Seq<InterruptType>) {
        let p = self.with_lcd(4, (self.lcd[4] + 1) as u8);
        if p.lcd[4] == p.lcd[5] {
            let q = p.with_lcd(1, p.lcd[1] | 0x04);
            (q, stat_interrupt(q.lcd[1], 0x40))
        } else {
            (p.with_lcd(1, p.lcd[1] & 0xFB), seq![])
        }
    }

    /// One dot of the line state machine: mode 2 for 80 dots, mode 3 until
    /// dot 252, mode 0 until dot 456, then the next line; lines 144..154
    /// are V-blank. Returns the PPU after the dot and the interrupts that
    /// the dot raises, in the order raised.
    pub open spec fn spec_tick(self) -> (Ppu, Seq<InterruptType>) {
        let p = Ppu { line_ticks: (self.line_ticks + 1) as u32, ..self };
        let mode = p.lcd[1] & 3;
        if mode == MODE_OAM {
            if p.line_ticks >= 80 {
                (p.with_mode(MODE_XFER), seq![])
            } else {
                (p, seq![])
            }
        } else if mode == MODE_XFER {
            if p.line_ticks >= 252 {
                let q = p.with_mode(MODE_HBLANK);
                (q, stat_interrupt(q.lcd[1], 0x08))
            } else {
                (p, seq![])
            }
        } else if mode == MODE_HBLANK {
            if p.line_ticks >= 456 {
                let (q, first) = p.spec_increment_ly();
                if q.lcd[4] >= 144 {
                    let r = q.with_mode(MODE_VBLANK);
                    (
                        Ppu { line_ticks: 0, ..r },
                        first + seq![InterruptType::VBlank] + stat_interrupt(r.lcd[1], 0x10),
                    )
                } else {
                    let r = q.with_mode(MODE_OAM);
                    (Ppu { line_ticks: 0, ..r }, first + stat_interrupt(r.lcd[1], 0x20))
                }
            } else {
                (p, seq![])
            }
        } else {
            if p.line_ticks >= 456 {
                let (q, first) = p.spec_increment_ly();
                if q.lcd[4] >= 154 {
                    let r = q.with_mode(MODE_OAM).with_lcd(4, 0);
                    (Ppu { line_ticks: 0, ..r }, first)
                } else {
                    (Ppu { line_ticks: 0, ..q }, first)
                }
            } else {
                (p, seq![])
            }
        }
    }

    fn set_mode(&mut self, mode: u8)
        ensures
            *final(self) == old(self).with_mode(mode),
    {
        self.lcd[1] = (self.lcd[1] & 0xFC) | mode;
    }

    fn increment_ly(&mut self, ints: &mut Vec<InterruptType>)
        requires
            old(self).lcd[4] < 255,
        ensures
            *final(self) == old(self).spec_increment_ly().0,
            final(ints)@ == old(ints)@ + old(self).spec_increment_ly().1,
    {
        self.lcd[4] = self.lcd[4] + 1;
        if self.lcd[4] == self.lcd[5] {
            self.lcd[1] = self.lcd[1] | 0x04;
            if self.lcd[1] & 0x40 != 0 {
                ints.push(InterruptType::LcdStat);
            }
        } else {
            self.lcd[1] = self.lcd[1] & 0xFB;
        }
        assert(final(ints)@ =~= old(ints)@ + old(self).spec_increment_ly().1);
    }

    /// Advances the PPU by one dot and returns the interrupts it raises.
    pub fn tick(&mut self) -> (ints: Vec<InterruptType>)
        requires
            old(self).wf(),
        ensures
            *final(self) == old(self).spec_tick().0,
            ints@ == old(self).spec_tick().1,
            final(self).wf(),
    {
        proof {
            self.lemma_tick_keeps_wf();
        }
        let mut ints: Vec<InterruptType> = Vec::new();
        self.line_ticks = self.line_ticks + 1;
        let mode = self.lcd[1] & 3;
        if mode == MODE_OAM {
            if self.line_ticks >= 80 {
                self.set_mode(MODE_XFER);
            }
        } else if mode == MODE_XFER {
            if self.line_ticks >= 252 {
                self.set_mode(MODE_HBLANK);
                if self.lcd[1] & 0x08 != 0 {
                    ints.push(InterruptType::LcdStat);
                }
            }
        } else if mode == MODE_HBLANK {
            if self.line_ticks >= 456 {
                self.increment_ly(&mut ints);
                if self.lcd[4] >= 144 {
                    self.set_mode(MODE_VBLANK);
                    ints.push(InterruptType::VBlank);
                    if self.lcd[1] & 0x10 != 0 {
                        ints.push(InterruptType::LcdStat);
                    }
                } else {
                    self.set_mode(MODE_OAM);
                    if self.lcd[1] & 0x20 != 0 {
                        ints.push(InterruptType::LcdStat);
                    }
                }
                self.line_ticks = 0;
            }
        } else {
            if self.line_ticks >= 456 {
                self.increment_ly(&mut ints);
                if self.lcd[4] >= 154 {
                    self.set_mode(MODE_OAM);
                    self.lcd[4] = 0;
                }
                self.line_ticks = 0;
            }
        }
        assert(ints@ =~= old(self).spec_tick().1);
        ints
    }

    /// Every dot keeps the line timing consistent.
    pub proof fn lemma_tick_keeps_wf(self)
        requires
            self.wf(),
        ensures
            self.spec_tick().0.wf(),
    {
        lemma_mode_bits(self.lcd[1]);
        let p = Ppu { line_ticks: (self.line_ticks + 1) as u32, ..self };
        if p.lcd[1] & 3 == MODE_HBLANK || p.lcd[1] & 3 == MODE_VBLANK {
            if p.line_ticks >= 456 {
                lemma_mode_bits(p.spec_increment_ly().0.lcd[1]);
            }
        }
    }
}

/// Setting the mode field of STAT gives that mode; setting or clearing the
/// LY=LYC flag keeps the mode.
pub proof fn lemma_mode_bits(s: u8)
    ensures
        ((s & 0xFC) | 0) & 3 == 0,
        ((s & 0xFC) | 1) & 3 == 1,
        ((s & 0xFC) | 2) & 3 == 2,
        ((s & 0xFC) | 3) & 3 == 3,
        (s | 0x04) & 3 == s & 3,
        (s & 0xFB) & 3 == s & 3,
        s & 3 < 4,
{
    assert(((s & 0xFC) | 0) & 3 == 0) by (bit_vector);
    assert(((s & 0xFC) | 1) & 3 == 1) by (bit_vector);
    assert(((s & 0xFC) | 2) & 3 == 2) by (bit_vector);
    assert(((s & 0xFC) | 3) & 3 == 3) by (bit_vector);
    assert((s | 0x04) & 3 == s & 3) by (bit_vector);
    assert((s & 0xFB) & 3 == s & 3) by (bit_vector);
    assert(s & 3 < 4) by (bit_vector);
}

} // verus!
