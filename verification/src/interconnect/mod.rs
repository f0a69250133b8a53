pub mod cartridge;
pub mod joypad;
pub mod mmu;
pub mod ppu;
pub mod ppu_timing;
pub mod serial;

use vstd::prelude::*;
use vstd::array::spec_array_update;

use crate::constants::{
    BCPD, BCPS, BOOT_END, EXTERNAL_RAM_END, HIGH_RAM_END, HIGH_RAM_START, INTERRUPT_ENABLE,
    IO_END, IO_START, LCD_END, LCD_START, OAM_END, OAM_START, OCPD, OCPS, ROM_BANK_END,
    MAX_CYCLES_PER_FRAME, TIMER_END, TIMER_START, VRAM_END, WORK_RAM_END,
};
use crate::cpu::interrupts::{request_interrupt, InterruptType};
use crate::cpu::timer::{tac_period, Clock, Timer};
use self::cartridge::Cartridge;
use self::joypad::Joypad;
use self::mmu::Mmu;
use self::ppu::{PaletteSpec, Ppu, Rgb};
use self::ppu_timing::{count_vblank, ppu_run, ppu_run_ints};
use self::serial::SerialOutput;

verus! {

/// The bus of the DMG: it routes each CPU address to the component that
/// owns it and drives the PPU, the timer and OAM DMA between instructions.
#[derive(Debug)]
pub struct Interconnect {
    pub cartridge: Cartridge,
    pub mmu: Mmu,
    pub timer: Timer,
    pub ppu: Ppu,
    pub serial: SerialOutput,
    pub joypad: Joypad,
    pub boot_active: bool,
    pub write_enabled: bool,
    pub ticks: u64,
    pub cgb_mode: bool,
}

/// The colour that a write to the background palette data stores.
pub open spec fn bg_write_color() -> Rgb {
    Rgb { r: 0, g: 0, b: 0 }
}

/// The colour that a write to the object palette data stores.
pub open spec fn sprite_write_color() -> Rgb {
    Rgb { r: 1, g: 0, b: 0 }
}

impl Interconnect {
    /// The bus keeps the PPU line timing and the timer clocks consistent.
    pub open spec fn wf(self) -> bool {
        self.ppu.wf() && self.timer.wf()
    }

    /// The bus at power-on: no cartridge, cleared memories, the timer and
    /// the LCD registers at their reset values, no key pressed, the boot
    /// ROM mapped and writes enabled.
    pub open spec fn is_power_on(self) -> bool {
        &&& self.cartridge.mbc.rom@.len() == 0
        &&& forall|i: int| 0 <= i < 8192 ==> self.cartridge.mbc.ram[i] == 0
        &&& self.mmu.is_zeroed()
        &&& self.timer == Timer::new_spec()
        &&& forall|i: int| 0 <= i < 8192 ==> self.ppu.vram[i] == 0
        &&& forall|i: int| 0 <= i < 160 ==> self.ppu.oam[i] == 0
        &&& self.ppu.lcd@ == seq![0x91u8, 0x02, 0, 0, 0, 0, 0, 0xFC, 0xFF, 0xFF, 0, 0]
        &&& self.ppu.line_ticks == 0
        &&& !self.ppu.dma_active && self.ppu.dma_byte == 0 && self.ppu.dma_value == 0
        &&& self.ppu.dma_start_delay == 0
        &&& self.ppu.bcps.byte == 0 && self.ppu.ocps.byte == 0
        &&& forall|i: int| 0 <= i < 64 ==> self.ppu.bg_colors[i] == (Rgb { r: 0, g: 0, b: 0 })
        &&& forall|i: int| 0 <= i < 64 ==> self.ppu.sprite_colors[i] == (Rgb { r: 0, g: 0, b: 0 })
        &&& self.serial.data@.len() == 0
        &&& self.joypad.matrix == 0xFF && self.joypad.select == 0
        &&& self.boot_active && self.write_enabled && self.ticks == 0 && !self.cgb_mode
    }

    /// A bus at power-on.
    pub fn new() -> (ic: Interconnect)
        ensures
            ic.is_power_on(),
            ic.wf(),
    {
        Interconnect {
            cartridge: Cartridge::empty(),
            mmu: Mmu::new(),
            timer: Timer::new(),
            ppu: Ppu::new(),
            serial: SerialOutput::new(),
            joypad: Joypad::init(),
            boot_active: true,
            write_enabled: true,
            ticks: 0,
            cgb_mode: false,
        }
    }

    /// Whether the PPU line timing and the timer clocks are consistent, as
    /// they are in every bus built and driven through this library.
    pub fn is_well_formed(&self) -> (b: bool)
        ensures
            b == self.wf(),
    {
        self.ppu.is_well_formed() && self.timer.is_well_formed()
    }

    /// A read of `addr` that ends the process: the CGB palette data
    /// registers are not readable.
    pub open spec fn read_exits(self, addr: u16) -> bool {
        self.cgb_mode && (addr == BCPD || addr == OCPD)
    }

    /// The byte that the CPU reads at `addr`.
    pub open spec fn spec_read(self, addr: u16) -> u8 {
        if self.boot_active && addr < BOOT_END {
            self.mmu.boot[addr as int]
        } else if addr < ROM_BANK_END {
            self.cartridge.mbc.spec_read(addr)
        } else if addr < VRAM_END {
            self.ppu.vram[addr - 0x8000]
        } else if addr < EXTERNAL_RAM_END {
            self.cartridge.mbc.spec_read(addr)
        } else if addr < WORK_RAM_END {
            self.mmu.work_ram[addr - 0xC000]
        } else if OAM_START <= addr < OAM_END {
            if self.ppu.dma_active {
                0xFF
            } else {
                self.ppu.oam[addr - 0xFE00]
            }
        } else if TIMER_START <= addr < TIMER_END {
            self.timer.spec_read(addr)
        } else if IO_START <= addr < IO_END {
            if self.cgb_mode && addr == BCPS {
                self.ppu.bcps.byte
            } else if self.cgb_mode && addr == OCPS {
                self.ppu.ocps.byte
            } else if LCD_START <= addr < LCD_END {
                self.ppu.lcd[addr - 0xFF40]
            } else {
                self.mmu.io[addr - 0xFF00]
            }
        } else if HIGH_RAM_START <= addr < HIGH_RAM_END {
            self.mmu.hram[addr - 0xFF80]
        } else if addr == INTERRUPT_ENABLE {
            self.mmu.interrupt_enable
        } else {
            0
        }
    }

    /// The byte at `addr`: the boot ROM while it is mapped, then the
    /// cartridge, VRAM, cartridge RAM, work RAM, OAM (0xFF while a DMA owns
    /// it), the timer, the I/O page, high RAM and IE; unmapped areas read 0.
    pub fn read_mem(&self, addr: u16) -> (v: u8)
        requires
            !self.read_exits(addr),
        ensures
            v == self.spec_read(addr),
    {
        if self.boot_active && addr < BOOT_END {
            self.mmu.read_boot(addr)
        } else if addr < ROM_BANK_END {
            self.cartridge.mbc.read(addr)
        } else if addr < VRAM_END {
            self.ppu.read_vram(addr)
        } else if addr < EXTERNAL_RAM_END {
            self.cartridge.mbc.read(addr)
        } else if addr < WORK_RAM_END {
            self.mmu.read_work_ram(addr - 0xC000)
        } else if OAM_START <= addr && addr < OAM_END {
            if self.ppu.dma_transferring() {
                return 0xFF;
            }
            self.ppu.read_oam(addr)
        } else if TIMER_START <= addr && addr < TIMER_END {
            self.timer.timer_read(addr)
        } else if IO_START <= addr && addr < IO_END {
            if self.cgb_mode && addr == BCPS {
                self.ppu.bcps.into_bytes()[0]
            } else if self.cgb_mode && addr == OCPS {
                self.ppu.ocps.into_bytes()[0]
            } else if LCD_START <= addr && addr < LCD_END {
                self.ppu.read_lcd(addr)
            } else {
                self.mmu.read_io(addr - 0xFF00)
            }
        } else if HIGH_RAM_START <= addr && addr < HIGH_RAM_END {
            self.mmu.read_hram(addr - 0xFF80)
        } else if addr == INTERRUPT_ENABLE {
            self.mmu.read_interrupt_enable()
        } else {
            0
        }
    }

    /// A write of `addr` that panics: echo RAM and the unusable area are
    /// not writable, and an auto-incrementing CGB palette address cannot
    /// step past 63.
    pub open spec fn write_panics(self, addr: u16) -> bool {
        ||| 0xE000 <= addr < 0xFE00
        ||| 0xFEA0 <= addr < 0xFF00
        ||| (self.cgb_mode && addr == BCPS && self.ppu.bcps.spec_auto_increment() == 1
            && self.ppu.bcps.spec_addr() == 63)
        ||| (self.cgb_mode && addr == OCPD && self.ppu.ocps.spec_auto_increment() == 1
            && self.ppu.ocps.spec_addr() == 63)
    }

    /// A palette specification after a write through it: its address
    /// advances by one when auto-increment is set.
    pub open spec fn palette_step(spec: PaletteSpec) -> PaletteSpec {
        if spec.spec_auto_increment() == 1 {
            spec.with_addr((spec.spec_addr() + 1) as u8)
        } else {
            spec
        }
    }

    /// The bus after the CPU writes `value` at `addr`.
    pub open spec fn spec_write(self, addr: u16, value: u8) -> Interconnect {
        if addr < ROM_BANK_END {
            Interconnect {
                cartridge: Cartridge { mbc: self.cartridge.mbc.spec_write(addr, value) },
                ..self
            }
        } else if addr < VRAM_END {
            Interconnect { ppu: self.ppu.with_vram(addr - 0x8000, value), ..self }
        } else if addr < EXTERNAL_RAM_END {
            Interconnect {
                cartridge: Cartridge { mbc: self.cartridge.mbc.spec_write(addr, value) },
                ..self
            }
        } else if addr < WORK_RAM_END {
            Interconnect { mmu: self.mmu.with_work_ram(addr - 0xC000, value), ..self }
        } else if OAM_START <= addr < OAM_END {
            if self.ppu.dma_active {
                self
            } else {
                Interconnect { ppu: self.ppu.with_oam(addr - 0xFE00, value), ..self }
            }
        } else if TIMER_START <= addr < TIMER_END {
            Interconnect { timer: self.timer.spec_write(addr, value), ..self }
        } else if IO_START <= addr < IO_END {
            if self.cgb_mode && addr == BCPS {
                let p = self.ppu.with_bg_color(self.ppu.bcps.spec_addr() as int, bg_write_color());
                Interconnect { ppu: Ppu { bcps: Self::palette_step(p.bcps), ..p }, ..self }
            } else if self.cgb_mode && addr == BCPD {
                Interconnect {
                    ppu: self.ppu.with_bg_color(self.ppu.bcps.spec_addr() as int, bg_write_color()),
                    ..self
                }
            } else if self.cgb_mode && addr == OCPS {
                Interconnect { ppu: Ppu { ocps: PaletteSpec { byte: value }, ..self.ppu }, ..self }
            } else if self.cgb_mode && addr == OCPD {
                let p = self.ppu.with_sprite_color(
                    self.ppu.ocps.spec_addr() as int,
                    sprite_write_color(),
                );
                Interconnect { ppu: Ppu { ocps: Self::palette_step(p.ocps), ..p }, ..self }
            } else if LCD_START <= addr < LCD_END {
                Interconnect { ppu: self.ppu.spec_write_lcd(addr, value), ..self }
            } else {
                Interconnect { mmu: self.mmu.with_io(addr - 0xFF00, value), ..self }
            }
        } else if HIGH_RAM_START <= addr < HIGH_RAM_END {
            Interconnect { mmu: self.mmu.with_hram(addr - 0xFF80, value), ..self }
        } else if addr == INTERRUPT_ENABLE {
            Interconnect { mmu: Mmu { interrupt_enable: value, ..self.mmu }, ..self }
        } else {
            self
        }
    }

    /// Writes `value` at `addr` in the component that owns it.
    pub fn write_mem(&mut self, addr: u16, value: u8)
        requires
            !old(self).write_panics(addr),
        ensures
            *final(self) == old(self).spec_write(addr, value),
    {
        if addr < ROM_BANK_END {
            self.cartridge.mbc.write(addr, value);
        } else if addr < VRAM_END {
            self.ppu.write_vram(addr, value);
        } else if addr < EXTERNAL_RAM_END {
            self.cartridge.mbc.write(addr, value);
        } else if addr < WORK_RAM_END {
            self.mmu.write_work_ram(addr - 0xC000, value);
        } else if OAM_START <= addr && addr < OAM_END {
            if self.ppu.dma_transferring() {
                return;
            }
            self.ppu.write_oam(addr, value);
        } else if TIMER_START <= addr && addr < TIMER_END {
            self.timer.timer_write(addr, value);
        } else if IO_START <= addr && addr < IO_END {
            if self.cgb_mode && addr == BCPS {
                let index = self.ppu.bcps.addr();
                self.ppu.bg_colors[index as usize] = Rgb::new(0, 0, 0);
                if self.ppu.bcps.auto_increment() == 1 {
                    self.ppu.bcps.set_addr(index + 1);
                }
            } else if self.cgb_mode && addr == BCPD {
                let index = self.ppu.bcps.addr();
                self.ppu.bg_colors[index as usize] = Rgb::new(0, 0, 0);
            } else if self.cgb_mode && addr == OCPS {
                self.ppu.ocps = PaletteSpec::from_bytes([value]);
            } else if self.cgb_mode && addr == OCPD {
                let index = self.ppu.ocps.addr();
                self.ppu.sprite_colors[index as usize] = Rgb::new(1, 0, 0);
                if self.ppu.ocps.auto_increment() == 1 {
                    self.ppu.ocps.set_addr(index + 1);
                }
            } else if LCD_START <= addr && addr < LCD_END {
                self.ppu.write_lcd(addr, value);
            } else {
                self.mmu.write_io(addr - 0xFF00, value);
            }
        } else if HIGH_RAM_START <= addr && addr < HIGH_RAM_END {
            self.mmu.write_hram(addr - 0xFF80, value);
        } else if addr == INTERRUPT_ENABLE {
            self.mmu.enable_interrupt(value);
        }
    }
}

impl Interconnect {
    /// The bus with `interrupt` raised in IF.
    pub open spec fn with_interrupt(self, interrupt: InterruptType) -> Interconnect {
        Interconnect {
            mmu: self.mmu.with_io(0x0F, self.mmu.io[0x0F] | interrupt.spec_mask()),
            ..self
        }
    }

    /// The bus with each interrupt of `ints` raised in IF, in order.
    pub open spec fn with_interrupts(self, ints: Seq<InterruptType>) -> Interconnect
        decreases ints.len(),
    {
        if ints.len() == 0 {
            self
        } else {
            self.with_interrupts(ints.drop_last()).with_interrupt(ints.last())
        }
    }

    /// The bus with the joypad replaced by `joypad` and the joypad
    /// interrupt raised.
    pub open spec fn with_joypad_event(self, joypad: Joypad) -> Interconnect {
        Interconnect { joypad, ..self }.with_interrupt(InterruptType::Joypad)
    }

    /// Presses `key` and raises the joypad interrupt.
    pub fn key_down(&mut self, key: joypad::Key)
        ensures
            *final(self) == old(self).with_joypad_event(
                Joypad { matrix: old(self).joypad.matrix & !key.spec_mask(), ..old(self).joypad },
            ),
    {
        self.joypad.key_down(key);
        request_interrupt(self, InterruptType::Joypad);
    }

    /// Releases `key` and raises the joypad interrupt.
    pub fn key_up(&mut self, key: joypad::Key)
        ensures
            *final(self) == old(self).with_joypad_event(
                Joypad { matrix: old(self).joypad.matrix | key.spec_mask(), ..old(self).joypad },
            ),
    {
        self.joypad.key_up(key);
        request_interrupt(self, InterruptType::Joypad);
    }

    /// The four timer registers DIV, TIMA, TMA and TAC, in that order, as
    /// the timer log line shows them.
    pub fn log_timer(&self) -> (regs: (u8, u8, u8, u8))
        ensures
            regs == (self.timer.div, self.timer.tima, self.timer.tma, self.timer.tac),
    {
        (self.timer.div(), self.timer.tima(), self.timer.tma(), self.timer.tac())
    }

    /// The address and value of every byte of the VRAM log, from 0x9FFE
    /// down to 0x8000.
    pub fn log_vram(&self) -> (entries: Vec<(u16, u8)>)
        ensures
            entries@.len() == 0x1FFF,
            forall|k: int|
                0 <= k < 0x1FFF ==> #[trigger] entries@[k] == ((0x9FFE - k) as u16, self.spec_read(
                    (0x9FFE - k) as u16,
                )),
    {
        let mut entries: Vec<(u16, u8)> = Vec::new();
        let mut addr: u16 = 0x9FFF;
        while addr > 0x8000
            invariant
                0x8000 <= addr <= 0x9FFF,
                entries@.len() == 0x9FFF - addr,
                forall|k: int|
                    0 <= k < entries@.len() ==> #[trigger] entries@[k] == (
                        (0x9FFE - k) as u16,
                        self.spec_read((0x9FFE - k) as u16),
                    ),
            decreases addr,
        {
            addr = addr - 1;
            let value = self.read_mem(addr);
            entries.push((addr, value));
        }
        entries
    }

    /// Copies `rom` into the boot ROM from address 0; the rest of the boot
    /// ROM and everything else stay as they were.
    pub fn load_boot_rom(&mut self, rom: &[u8])
        requires
            rom@.len() <= 256,
        ensures
            forall|i: int| 0 <= i < rom@.len() ==> final(self).mmu.boot[i] == rom@[i],
            forall|i: int| rom@.len() <= i < 256 ==> final(self).mmu.boot[i] == old(self).mmu.boot[i],
            *final(self) == (Interconnect {
                mmu: Mmu { boot: final(self).mmu.boot, ..old(self).mmu },
                ..*old(self)
            }),
    {
        let mut i: usize = 0;
        while i < rom.len()
            invariant
                rom@.len() <= 256,
                i <= rom@.len(),
                forall|j: int| 0 <= j < i ==> self.mmu.boot[j] == rom@[j],
                forall|j: int| i <= j < 256 ==> self.mmu.boot[j] == old(self).mmu.boot[j],
                *self == (Interconnect {
                    mmu: Mmu { boot: self.mmu.boot, ..old(self).mmu },
                    ..*old(self)
                }),
            decreases rom@.len() - i,
        {
            self.mmu.write_boot(i as u16, rom[i]);
            i = i + 1;
        }
    }

    /// Loading a game ROM through the bus changes nothing: the ROM belongs
    /// to the cartridge, which is built from it.
    pub fn load_game_rom(&mut self, rom: &[u8])
        ensures
            *final(self) == *old(self),
    {
    }
}

/// The address of byte `offset` of the DMA source page `page`.
pub open spec fn dma_source(page: u8, offset: int) -> u16 {
    (page * 256 + offset) as u16
}

impl Interconnect {
    /// The bus with the object attribute memory replaced by `oam`.
    pub open spec fn with_oam_array(self, oam: [u8; 160]) -> Interconnect {
        Interconnect { ppu: Ppu { oam, ..self.ppu }, ..self }
    }

    /// Copies the 160 bytes at `value * 0x100` into OAM through the bus.
    /// While a DMA is running OAM ignores these writes and nothing changes;
    /// otherwise OAM ends up holding what the bus read at the source before
    /// the copy, and nothing else changes.
    pub fn dma_transfer(&mut self, value: u8)
        requires
            !(old(self).cgb_mode && value == 0xFF),
        ensures
            old(self).ppu.dma_active ==> *final(self) == *old(self),
            !old(self).ppu.dma_active ==> {
                &&& forall|j: int|
                    0 <= j < 160 ==> #[trigger] final(self).ppu.oam[j] == old(self).spec_read(
                        dma_source(value, j),
                    )
                &&& *final(self) == old(self).with_oam_array(final(self).ppu.oam)
            },
    {
        let addr: u16 = (value as u16) << 8u16;
        assert(addr == value * 256) by (bit_vector)
            requires
                addr == (value as u16) << 8u16,
        ;
        let mut i: u16 = 0;
        while i < 0xA0
            invariant
                i <= 0xA0,
                addr == value * 256,
                !(old(self).cgb_mode && value == 0xFF),
                old(self).ppu.dma_active ==> *self == *old(self),
                !old(self).ppu.dma_active ==> {
                    &&& forall|j: int|
                        0 <= j < i ==> #[trigger] self.ppu.oam[j] == old(self).spec_read(
                            dma_source(value, j),
                        )
                    &&& forall|j: int| i <= j < 160 ==> self.ppu.oam[j] == old(self).ppu.oam[j]
                    &&& *self == old(self).with_oam_array(self.ppu.oam)
                },
            decreases 0xA0 - i,
        {
            let v = self.read_mem(addr + i);
            self.write_mem(0xFE00 + i, v);
            i = i + 1;
        }
    }
}

/// `x + 1` modulo 256.
pub open spec fn wrapping_inc(x: u8) -> u8 {
    ((x + 1) % 256) as u8
}

impl Interconnect {
    /// The address that the next OAM DMA step reads.
    pub open spec fn dma_read_addr(self) -> u16 {
        dma_source(self.ppu.dma_value, self.ppu.dma_byte as int)
    }

    /// The next OAM DMA step copies a byte (no start delay is left).
    pub open spec fn dma_copies(self) -> bool {
        self.ppu.dma_active && self.ppu.dma_start_delay == 0
    }

    /// The next OAM DMA step would read an address whose read ends the
    /// process.
    pub open spec fn dma_tick_exits(self) -> bool {
        self.dma_copies() && self.read_exits(self.dma_read_addr())
    }

    /// The bus after one M-cycle of OAM DMA: nothing when no DMA runs; a
    /// step of the start delay while one is pending; else the next source
    /// byte is copied into OAM and the DMA ends after the 160th byte.
    pub open spec fn spec_dma_tick(self) -> Interconnect {
        if !self.ppu.dma_active {
            self
        } else if self.ppu.dma_start_delay > 0 {
            Interconnect {
                ppu: Ppu { dma_start_delay: wrapping_inc(self.ppu.dma_start_delay), ..self.ppu },
                ..self
            }
        } else {
            let p = self.ppu.with_oam(self.ppu.dma_byte as int, self.spec_read(self.dma_read_addr()));
            let b = wrapping_inc(self.ppu.dma_byte);
            Interconnect { ppu: Ppu { dma_byte: b, dma_active: b < 0xA0, ..p }, ..self }
        }
    }

    /// One M-cycle of OAM DMA.
    pub fn dma_tick(&mut self)
        requires
            !old(self).dma_tick_exits(),
            old(self).dma_copies() ==> old(self).ppu.dma_byte < 160,
        ensures
            *final(self) == old(self).spec_dma_tick(),
    {
        if !self.ppu.dma_active() {
            return;
        }
        if self.ppu.dma_start_delay() > 0 {
            let delay_value = self.ppu.dma_start_delay().wrapping_add(1);
            self.ppu.set_dma_start_delay(delay_value);
            return;
        }
        let addr: u16 = (self.ppu.dma_value() as u16) * 0x100 + (self.ppu.dma_byte() as u16);
        let value = self.read_mem(addr);
        self.ppu.write_oam(self.ppu.dma_byte() as u16, value);
        let byte_value = self.ppu.dma_byte().wrapping_add(1);
        self.ppu.set_dma_byte(byte_value);
        self.ppu.set_dma_active(self.ppu.dma_byte() < 0xA0);
    }

    /// One DMA step keeps the bus well formed.
    pub proof fn lemma_dma_tick_keeps_wf(self)
        requires
            self.wf(),
        ensures
            self.spec_dma_tick().wf(),
    {
    }
}

impl Interconnect {
    /// The bus after `n` PPU dots, each followed by the interrupts it
    /// raises.
    pub open spec fn run_ppu(self, n: nat) -> Interconnect
        decreases n,
    {
        if n == 0 {
            self
        } else {
            let s = self.run_ppu((n - 1) as nat);
            Interconnect { ppu: s.ppu.spec_tick().0, ..s }.with_interrupts(s.ppu.spec_tick().1)
        }
    }

    /// The bus after one TIMA increment: on overflow TIMA is reloaded from
    /// TMA and the timer interrupt is raised.
    pub open spec fn step_tima(self) -> Interconnect {
        let t = wrapping_inc(self.timer.tima);
        if t == 0 {
            Interconnect {
                timer: Timer { tima: self.timer.tma, ..self.timer },
                ..self
            }.with_interrupt(InterruptType::Timer)
        } else {
            Interconnect { timer: Timer { tima: t, ..self.timer }, ..self }
        }
    }

    pub open spec fn run_tima(self, n: nat) -> Interconnect
        decreases n,
    {
        if n == 0 {
            self
        } else {
            self.run_tima((n - 1) as nat).step_tima()
        }
    }

    /// The bus after `cycles` T-cycles reach the timer: DIV advances by the
    /// whole periods of its clock (modulo 256) and, while TAC enables it,
    /// TIMA takes one step per whole period of its clock.
    pub open spec fn run_timer(self, cycles: u32) -> Interconnect {
        let dc = self.timer.div_clock;
        let div_steps = ((dc.n + cycles) / (dc.period as int)) as u32;
        let t1 = Timer {
            div: vstd::wrapping::u8_specs::wrapping_add(self.timer.div, div_steps as u8),
            div_clock: Clock { n: ((dc.n + cycles) % (dc.period as int)) as u32, ..dc },
            ..self.timer
        };
        if t1.enabled() {
            let tc = t1.tima_clock;
            let tima_steps = (tc.n + cycles) / (tc.period as int);
            Interconnect {
                timer: Timer {
                    tima_clock: Clock { n: ((tc.n + cycles) % (tc.period as int)) as u32, ..tc },
                    ..t1
                },
                ..self
            }.run_tima(tima_steps as nat)
        } else {
            Interconnect { timer: t1, ..self }
        }
    }

    pub open spec fn run_dma(self, n: nat) -> Interconnect
        decreases n,
    {
        if n == 0 {
            self
        } else {
            self.run_dma((n - 1) as nat).spec_dma_tick()
        }
    }

    /// The bus after the PPU and timer part of `m_cycles` M-cycles, before
    /// the DMA steps.
    pub open spec fn emu_before_dma(self, m_cycles: u32) -> Interconnect {
        let t = (m_cycles * 4) as u32;
        Interconnect { ticks: t as u64, ..self.run_ppu(t as nat) }.run_timer(t)
    }

    /// The bus after `m_cycles` M-cycles: four PPU dots per M-cycle, the
    /// timer, then one DMA step per M-cycle.
    pub open spec fn spec_emu_tick(self, m_cycles: u32) -> Interconnect {
        self.emu_before_dma(m_cycles).run_dma(m_cycles as nat)
    }

    /// Some DMA step of these `m_cycles` M-cycles would read an address
    /// whose read ends the process.
    pub open spec fn emu_tick_exits(self, m_cycles: u32) -> bool {
        exists|k: nat| k < m_cycles && #[trigger] self.emu_before_dma(m_cycles).run_dma(k).dma_tick_exits()
    }

    /// What a run of the bus leaves alone: the cartridge, the byte stores
    /// other than IF (which only gains bits), VRAM, the palettes, the
    /// joypad, the serial port and the mode flags.
    pub open spec fn frame_kept(self, after: Interconnect) -> bool {
        &&& after.cartridge == self.cartridge
        &&& after.mmu == self.mmu.with_io(0x0F, after.mmu.io[0x0F])
        &&& (self.mmu.io[0x0F] | after.mmu.io[0x0F]) == after.mmu.io[0x0F]
        &&& after.ppu.vram == self.ppu.vram
        &&& after.ppu.bcps == self.ppu.bcps
        &&& after.ppu.ocps == self.ppu.ocps
        &&& after.ppu.bg_colors == self.ppu.bg_colors
        &&& after.ppu.sprite_colors == self.ppu.sprite_colors
        &&& after.joypad == self.joypad
        &&& after.serial == self.serial
        &&& after.boot_active == self.boot_active
        &&& after.write_enabled == self.write_enabled
        &&& after.cgb_mode == self.cgb_mode
    }
}

/// A run that leaves nothing out of `frame_kept` changed keeps it so.
pub proof fn lemma_frame_refl(a: Interconnect)
    ensures
        a.frame_kept(a),
{
    let x = a.mmu.io[0x0F];
    assert(x | x == x) by (bit_vector);
    assert(a.mmu.io =~= spec_array_update(a.mmu.io, 0x0F, x));
}

/// Two runs that each keep the frame keep it together.
pub proof fn lemma_frame_trans(a: Interconnect, b: Interconnect, c: Interconnect)
    requires
        a.frame_kept(b),
        b.frame_kept(c),
    ensures
        a.frame_kept(c),
{
    let x = a.mmu.io[0x0F];
    let y = b.mmu.io[0x0F];
    let z = c.mmu.io[0x0F];
    assert(((x | y) == y && (y | z) == z) ==> (x | z) == z) by (bit_vector);
    assert(spec_array_update(spec_array_update(a.mmu.io, 0x0F, y), 0x0F, z)
        =~= spec_array_update(a.mmu.io, 0x0F, z));
}

/// Raising an interrupt keeps the frame and the well-formedness of the bus.
pub proof fn lemma_with_interrupt(a: Interconnect, interrupt: InterruptType)
    ensures
        a.frame_kept(a.with_interrupt(interrupt)),
        a.with_interrupt(interrupt).wf() == a.wf(),
        a.with_interrupt(interrupt).ppu == a.ppu,
        a.with_interrupt(interrupt).timer == a.timer,
        a.with_interrupt(interrupt).ticks == a.ticks,
{
    let x = a.mmu.io[0x0F];
    let m = interrupt.spec_mask();
    assert((x | (x | m)) == (x | m)) by (bit_vector);
    let b = a.with_interrupt(interrupt);
    assert(spec_array_update(a.mmu.io, 0x0F, x | m) =~= spec_array_update(a.mmu.io, 0x0F, b.mmu.io[0x0F]));
}

pub proof fn lemma_with_interrupts(a: Interconnect, ints: Seq<InterruptType>)
    ensures
        a.frame_kept(a.with_interrupts(ints)),
        a.with_interrupts(ints).wf() == a.wf(),
        a.with_interrupts(ints).ppu == a.ppu,
        a.with_interrupts(ints).timer == a.timer,
        a.with_interrupts(ints).ticks == a.ticks,
    decreases ints.len(),
{
    if ints.len() == 0 {
        lemma_frame_refl(a);
    } else {
        let b = a.with_interrupts(ints.drop_last());
        lemma_with_interrupts(a, ints.drop_last());
        lemma_with_interrupt(b, ints.last());
        lemma_frame_trans(a, b, b.with_interrupt(ints.last()));
    }
}

/// PPU dots keep the frame, the timer and the well-formedness of the bus.
pub proof fn lemma_run_ppu(a: Interconnect, n: nat)
    requires
        a.wf(),
    ensures
        a.frame_kept(a.run_ppu(n)),
        a.run_ppu(n).wf(),
        a.run_ppu(n).timer == a.timer,
        a.run_ppu(n).ticks == a.ticks,
        a.run_ppu(n).ppu.dma_active == a.ppu.dma_active,
        a.run_ppu(n).ppu.dma_start_delay == a.ppu.dma_start_delay,
        a.run_ppu(n).ppu.dma_byte == a.ppu.dma_byte,
        a.run_ppu(n).ppu.dma_value == a.ppu.dma_value,
    decreases n,
{
    if n == 0 {
        lemma_frame_refl(a);
    } else {
        let s = a.run_ppu((n - 1) as nat);
        lemma_run_ppu(a, (n - 1) as nat);
        s.ppu.lemma_tick_keeps_wf();
        let mid = Interconnect { ppu: s.ppu.spec_tick().0, ..s };
        lemma_frame_refl(s);
        lemma_with_interrupts(mid, s.ppu.spec_tick().1);
        lemma_frame_trans(s, mid, a.run_ppu(n));
        lemma_frame_trans(a, s, a.run_ppu(n));
    }
}

/// TIMA steps change only TIMA and IF.
pub proof fn lemma_run_tima(a: Interconnect, n: nat)
    ensures
        a.frame_kept(a.run_tima(n)),
        a.run_tima(n).timer == (Timer { tima: a.run_tima(n).timer.tima, ..a.timer }),
        a.run_tima(n).ppu == a.ppu,
        a.run_tima(n).ticks == a.ticks,
    decreases n,
{
    if n == 0 {
        lemma_frame_refl(a);
    } else {
        let s = a.run_tima((n - 1) as nat);
        lemma_run_tima(a, (n - 1) as nat);
        let t = wrapping_inc(s.timer.tima);
        if t == 0 {
            let mid = Interconnect { timer: Timer { tima: s.timer.tma, ..s.timer }, ..s };
            lemma_frame_refl(s);
            lemma_with_interrupt(mid, InterruptType::Timer);
            lemma_frame_trans(s, mid, s.step_tima());
        } else {
            lemma_frame_refl(s);
        }
        lemma_frame_trans(a, s, a.run_tima(n));
    }
}

/// DMA steps keep the frame, the timer and the well-formedness of the bus.
pub proof fn lemma_run_dma(a: Interconnect, n: nat)
    requires
        a.wf(),
    ensures
        a.frame_kept(a.run_dma(n)),
        a.run_dma(n).wf(),
        a.run_dma(n).timer == a.timer,
        a.run_dma(n).ticks == a.ticks,
    decreases n,
{
    if n == 0 {
        lemma_frame_refl(a);
    } else {
        let s = a.run_dma((n - 1) as nat);
        lemma_run_dma(a, (n - 1) as nat);
        s.lemma_dma_tick_keeps_wf();
        lemma_frame_refl(s);
        lemma_frame_trans(a, s, a.run_dma(n));
    }
}

impl Interconnect {
    /// Runs the PPU for `dots` dots, raising the interrupts of each dot.
    fn run_ppu_dots(&mut self, dots: u32)
        requires
            old(self).wf(),
        ensures
            *final(self) == old(self).run_ppu(dots as nat),
            final(self).wf(),
    {
        let ghost start = *self;
        let mut i: u32 = 0;
        while i < dots
            invariant
                i <= dots,
                start.wf(),
                *self == start.run_ppu(i as nat),
                self.wf(),
            decreases dots - i,
        {
            let ghost before = *self;
            let interrupts = self.ppu.tick();
            let ghost mid = *self;
            let mut j: usize = 0;
            while j < interrupts.len()
                invariant
                    j <= interrupts@.len(),
                    interrupts@ == before.ppu.spec_tick().1,
                    mid == (Interconnect { ppu: before.ppu.spec_tick().0, ..before }),
                    *self == mid.with_interrupts(interrupts@.take(j as int)),
                decreases interrupts@.len() - j,
            {
                request_interrupt(self, interrupts[j]);
                assert(interrupts@.take(j + 1).drop_last() =~= interrupts@.take(j as int));
                j = j + 1;
            }
            assert(interrupts@.take(interrupts@.len() as int) =~= interrupts@);
            proof {
                lemma_run_ppu(start, (i + 1) as nat);
            }
            i = i + 1;
        }
    }

    /// Steps TIMA `n` times.
    fn run_tima_steps(&mut self, n: u32)
        ensures
            *final(self) == old(self).run_tima(n as nat),
    {
        let ghost base = *self;
        let mut k: u32 = 0;
        while k < n
            invariant
                k <= n,
                *self == base.run_tima(k as nat),
            decreases n - k,
        {
            let tima_value = self.timer.tima().wrapping_add(1);
            self.timer.set_tima(tima_value);
            if self.timer.tima() == 0x00 {
                self.timer.set_tima(self.timer.tma());
                request_interrupt(self, InterruptType::Timer);
            }
            k = k + 1;
        }
    }

    /// Runs the PPU, the timer and OAM DMA for `m_cycles` M-cycles (four
    /// T-cycles each) and records the T-cycles in `ticks`.
    pub fn emu_tick(&mut self, m_cycles: u32)
        requires
            old(self).wf(),
            m_cycles * 4 <= u32::MAX,
            old(self).timer.div_clock.n + m_cycles * 4 <= u32::MAX,
            old(self).timer.enabled() ==> old(self).timer.tima_clock.n + m_cycles * 4 <= u32::MAX,
            !old(self).emu_tick_exits(m_cycles),
        ensures
            *final(self) == old(self).spec_emu_tick(m_cycles),
            final(self).wf(),
            final(self).ticks == m_cycles * 4,
            final(self).timer.div == vstd::wrapping::u8_specs::wrapping_add(
                old(self).timer.div,
                ((old(self).timer.div_clock.n + m_cycles * 4) / 256) as u8,
            ),
            old(self).frame_kept(*final(self)),
            final(self).ppu.lcd == ppu_run(old(self).ppu, (m_cycles * 4) as nat).lcd,
            final(self).ppu.line_ticks == ppu_run(old(self).ppu, (m_cycles * 4) as nat).line_ticks,
            count_vblank(ppu_run_ints(old(self).ppu, (m_cycles * 4) as nat)) > 0
                ==> final(self).mmu.io[0x0F] & 1 == 1,
    {
        let t_cycles = m_cycles * 4;
        let ghost start = *self;
        self.run_ppu_dots(t_cycles);
        proof {
            lemma_run_ppu(start, t_cycles as nat);
        }
        self.ticks = t_cycles as u64;
        let div_value: u8 = self.timer.div_clock.next(t_cycles) as u8;
        self.timer.set_div(self.timer.div().wrapping_add(div_value));
        let timer_enabled: bool = (self.timer.tac() & 0x04) != 0x00;
        if timer_enabled {
            let n = self.timer.tima_clock.next(t_cycles);
            self.run_tima_steps(n);
        }
        let ghost pre_dma = *self;
        proof {
            lemma_run_timer(
                Interconnect { ticks: t_cycles as u64, ..start.run_ppu(t_cycles as nat) },
                t_cycles,
            );
        }
        let dma_cycles = m_cycles;
        let mut d: u32 = 0;
        while d < dma_cycles
            invariant
                d <= dma_cycles,
                dma_cycles == m_cycles,
                pre_dma == start.emu_before_dma(m_cycles),
                !start.emu_tick_exits(m_cycles),
                pre_dma.wf(),
                *self == pre_dma.run_dma(d as nat),
                self.wf(),
            decreases dma_cycles - d,
        {
            self.dma_tick();
            proof {
                lemma_run_dma(pre_dma, (d + 1) as nat);
            }
            d = d + 1;
        }
        proof {
            lemma_emu_tick(start, m_cycles);
        }
    }
}

/// The laws of a run of `m_cycles` M-cycles: the bus stays well formed,
/// `ticks` holds the T-cycles, DIV advances by the whole 256-cycle periods,
/// the memories stay as they were (IF only gains bits), the LCD registers
/// and dot counter are those of the PPU run alone, and a V-blank during the
/// run leaves its bit set in IF.
pub proof fn lemma_emu_tick(a: Interconnect, m_cycles: u32)
    requires
        a.wf(),
        m_cycles * 4 <= u32::MAX,
    ensures
        a.spec_emu_tick(m_cycles).wf(),
        a.spec_emu_tick(m_cycles).ticks == m_cycles * 4,
        a.spec_emu_tick(m_cycles).timer.div == vstd::wrapping::u8_specs::wrapping_add(
            a.timer.div,
            ((a.timer.div_clock.n + m_cycles * 4) / 256) as u8,
        ),
        a.frame_kept(a.spec_emu_tick(m_cycles)),
        a.spec_emu_tick(m_cycles).ppu.lcd == ppu_run(a.ppu, (m_cycles * 4) as nat).lcd,
        a.spec_emu_tick(m_cycles).ppu.line_ticks == ppu_run(a.ppu, (m_cycles * 4) as nat).line_ticks,
        count_vblank(ppu_run_ints(a.ppu, (m_cycles * 4) as nat)) > 0
            ==> a.spec_emu_tick(m_cycles).mmu.io[0x0F] & 1 == 1,
{
    let t_cycles = (m_cycles * 4) as u32;
    let pre_dma = a.emu_before_dma(m_cycles);
    let fin = a.spec_emu_tick(m_cycles);
    lemma_run_ppu(a, t_cycles as nat);
    let a1 = a.run_ppu(t_cycles as nat);
    let a2 = Interconnect { ticks: t_cycles as u64, ..a1 };
    lemma_frame_refl(a1);
    lemma_run_timer(a2, t_cycles);
    lemma_run_dma(pre_dma, m_cycles as nat);
    lemma_frame_trans(a, a1, a2);
    lemma_frame_trans(a, a2, pre_dma);
    lemma_frame_trans(a, pre_dma, fin);
    lemma_run_ppu_matches(a, t_cycles as nat);
    lemma_run_dma_keeps_timing(pre_dma, m_cycles as nat);
    let x = (a.timer.div_clock.n + m_cycles * 4) / 256;
    assert(a.timer.div_clock.n < 256);
    assert(x < 0x1_0000_0000) by (nonlinear_arith)
        requires
            x == (a.timer.div_clock.n + m_cycles * 4) / 256,
            a.timer.div_clock.n < 256,
            m_cycles * 4 <= u32::MAX,
    ;
    assert((x as u32) as int == x);
    let ints = ppu_run_ints(a.ppu, t_cycles as nat);
    if count_vblank(ints) > 0 {
        lemma_frame_trans(a1, a2, pre_dma);
        lemma_frame_trans(a1, pre_dma, fin);
        lemma_vblank_bit(ints);
        let x = a.mmu.io[0x0F];
        let y = or_masks(ints);
        let z = a1.mmu.io[0x0F];
        let w = fin.mmu.io[0x0F];
        assert(((y & 1) == 1 && z == (x | y) && (z | w) == w) ==> (w & 1) == 1) by (bit_vector);
    }
}

/// One frame of M-cycles (70224 T-cycles) run from the top of a frame
/// brings the PPU back to the top of the frame and leaves the V-blank
/// interrupt raised.
pub proof fn lemma_emu_frame(a: Interconnect)
    requires
        a.wf(),
        ppu_timing::at_line_start(a.ppu, ppu::MODE_OAM, 0),
    ensures
        ppu_timing::at_line_start(
            a.spec_emu_tick((MAX_CYCLES_PER_FRAME / 4) as u32).ppu,
            ppu::MODE_OAM,
            0,
        ),
        a.spec_emu_tick((MAX_CYCLES_PER_FRAME / 4) as u32).mmu.io[0x0F] & 1 == 1,
{
    let m = (MAX_CYCLES_PER_FRAME / 4) as u32;
    lemma_emu_tick(a, m);
    ppu_timing::lemma_frame(a.ppu);
}

/// The timer part of a run keeps the frame, the PPU and `ticks`.
pub proof fn lemma_run_timer(a: Interconnect, cycles: u32)
    requires
        a.timer.wf(),
    ensures
        a.frame_kept(a.run_timer(cycles)),
        a.run_timer(cycles).ppu == a.ppu,
        a.run_timer(cycles).ticks == a.ticks,
        a.run_timer(cycles).timer.wf(),
        a.run_timer(cycles).timer.div == vstd::wrapping::u8_specs::wrapping_add(
            a.timer.div,
            (((a.timer.div_clock.n + cycles) / (a.timer.div_clock.period as int)) as u32) as u8,
        ),
{
    let dc = a.timer.div_clock;
    let div_steps = ((dc.n + cycles) / (dc.period as int)) as u32;
    let t1 = Timer {
        div: vstd::wrapping::u8_specs::wrapping_add(a.timer.div, div_steps as u8),
        div_clock: Clock { n: ((dc.n + cycles) % (dc.period as int)) as u32, ..dc },
        ..a.timer
    };
    lemma_frame_refl(a);
    if t1.enabled() {
        let tc = t1.tima_clock;
        let b = Interconnect {
            timer: Timer {
                tima_clock: Clock { n: ((tc.n + cycles) % (tc.period as int)) as u32, ..tc },
                ..t1
            },
            ..a
        };
        let steps = (tc.n + cycles) / (tc.period as int);
        lemma_run_tima(b, steps as nat);
        lemma_frame_trans(a, b, b.run_tima(steps as nat));
    } else {
    }
}

impl Default for Interconnect {
    fn default() -> (ic: Interconnect)
        ensures
            ic.is_power_on(),
            ic.wf(),
    {
        Self::new()
    }
}

/// The bytes of the I/O page that are stored as written: all of
/// 0xFF00..0xFF80 except the timer registers, the LCD registers and, in CGB
/// mode, the palette registers. IF (0xFF0F) is one of them.
pub open spec fn is_plain_io(ic: Interconnect, addr: u16) -> bool {
    &&& 0xFF00 <= addr < 0xFF80
    &&& !(0xFF04 <= addr < 0xFF08)
    &&& !(0xFF40 <= addr < 0xFF4C)
    &&& !(ic.cgb_mode && 0xFF68 <= addr < 0xFF6C)
}

/// Addresses that behave as plain memory: video RAM, cartridge RAM, work
/// RAM, the plain I/O bytes, high RAM, the interrupt-enable register, and
/// OAM while no DMA owns it.
pub open spec fn is_plain_memory(ic: Interconnect, addr: u16) -> bool {
    ||| 0x8000 <= addr < 0xE000
    ||| 0xFF80 <= addr
    ||| (0xFE00 <= addr < 0xFEA0 && !ic.ppu.dma_active)
    ||| is_plain_io(ic, addr)
}

/// A read of plain memory gives back the byte last written there.
pub proof fn lemma_read_after_write(ic: Interconnect, addr: u16, value: u8)
    requires
        is_plain_memory(ic, addr),
    ensures
        ic.spec_write(addr, value).spec_read(addr) == value,
{
}

/// A write to plain memory changes the byte written and no other byte
/// that the CPU can read.
pub proof fn lemma_write_leaves_other_reads(ic: Interconnect, addr: u16, value: u8, other: u16)
    requires
        is_plain_memory(ic, addr),
        other != addr,
    ensures
        ic.spec_write(addr, value).spec_read(other) == ic.spec_read(other),
{
}

/// The cartridge ROM is read only: a write below 0x8000 changes no byte
/// that the CPU can read.
pub proof fn lemma_rom_write_changes_no_read(ic: Interconnect, addr: u16, value: u8, other: u16)
    requires
        addr < 0x8000,
    ensures
        ic.spec_write(addr, value).spec_read(other) == ic.spec_read(other),
{
}

/// While an OAM DMA runs, the CPU reads 0xFF from OAM and its writes to
/// OAM are dropped.
pub proof fn lemma_dma_locks_oam(ic: Interconnect, addr: u16, value: u8)
    requires
        ic.ppu.dma_active,
        0xFE00 <= addr < 0xFEA0,
    ensures
        ic.spec_read(addr) == 0xFF,
        ic.spec_write(addr, value) == ic,
{
}

/// Every write that does not panic keeps the bus well formed.
pub proof fn lemma_write_keeps_wf(ic: Interconnect, addr: u16, value: u8)
    requires
        ic.wf(),
        !ic.write_panics(addr),
    ensures
        ic.spec_write(addr, value).wf(),
{
    ic.timer.lemma_write_keeps_wf(addr, value);
    let s = ic.ppu.lcd[1];
    assert(((s & 0x07) | (value & 0x78)) & 3 == s & 3) by (bit_vector);
}

/// TIMA counts up by one per step without touching IF until it passes
/// 0xFF; the step that overflows reloads it from TMA and raises the timer
/// interrupt.
pub proof fn lemma_tima_counts(a: Interconnect, n: nat)
    requires
        a.timer.tima + n <= 256,
    ensures
        a.timer.tima + n < 256 ==> a.run_tima(n).timer.tima == a.timer.tima + n
            && a.run_tima(n).mmu == a.mmu,
        a.timer.tima + n == 256 ==> a.run_tima(n).timer.tima == a.timer.tma
            && a.run_tima(n).mmu.io[0x0F] == a.mmu.io[0x0F] | InterruptType::Timer.spec_mask(),
    decreases n,
{
    if n > 0 {
        lemma_tima_counts(a, (n - 1) as nat);
        lemma_run_tima(a, (n - 1) as nat);
    }
}

/// The counters of an OAM DMA after one step: the start delay counts up
/// (wrapping) while it is not zero, else the byte index advances and the
/// DMA stops after the 160th byte.
pub open spec fn dma_counters_step(active: bool, delay: u8, byte: u8) -> (bool, u8, u8) {
    if !active {
        (active, delay, byte)
    } else if delay > 0 {
        (active, wrapping_inc(delay), byte)
    } else {
        (wrapping_inc(byte) < 0xA0, delay, wrapping_inc(byte))
    }
}

/// DMA steps move only the DMA counters, and each step moves them as
/// `dma_counters_step` says; the page and the mode flag stay.
proof fn lemma_run_dma_counters(a: Interconnect, n: nat)
    ensures
        a.run_dma(n + 1).ppu.dma_value == a.ppu.dma_value,
        a.run_dma(n + 1).cgb_mode == a.cgb_mode,
        (a.run_dma(n + 1).ppu.dma_active, a.run_dma(n + 1).ppu.dma_start_delay, a.run_dma(
            n + 1,
        ).ppu.dma_byte) == dma_counters_step(
            a.run_dma(n).ppu.dma_active,
            a.run_dma(n).ppu.dma_start_delay,
            a.run_dma(n).ppu.dma_byte,
        ),
        a.run_dma(n).ppu.dma_value == a.ppu.dma_value,
        a.run_dma(n).cgb_mode == a.cgb_mode,
    decreases n,
{
    assert(a.run_dma(n + 1) == a.run_dma(n).spec_dma_tick());
    if n > 0 {
        lemma_run_dma_counters(a, (n - 1) as nat);
    }
}

impl Interconnect {
    /// Whether the DMA steps of `emu_tick(m_cycles)` would read an address
    /// whose read ends the process. Only the DMA counters decide this, so
    /// they are stepped on their own.
    pub fn emu_tick_would_exit(&self, m_cycles: u32) -> (exits: bool)
        requires
            self.wf(),
        ensures
            exits == self.emu_tick_exits(m_cycles),
    {
        let ghost pre = self.emu_before_dma(m_cycles);
        proof {
            let t = (m_cycles * 4) as u32;
            lemma_run_ppu(*self, t as nat);
            let a1 = self.run_ppu(t as nat);
            lemma_run_timer(Interconnect { ticks: t as u64, ..a1 }, t);
        }
        let cgb_mode = self.cgb_mode;
        let page = self.ppu.dma_value;
        let mut active = self.ppu.dma_active;
        let mut delay = self.ppu.dma_start_delay;
        let mut byte = self.ppu.dma_byte;
        let mut k: u32 = 0;
        while k < m_cycles
            invariant
                k <= m_cycles,
                pre == self.emu_before_dma(m_cycles),
                pre.ppu.dma_value == page,
                pre.cgb_mode == cgb_mode,
                (active, delay, byte) == (pre.run_dma(k as nat).ppu.dma_active, pre.run_dma(
                    k as nat,
                ).ppu.dma_start_delay, pre.run_dma(k as nat).ppu.dma_byte),
                forall|j: nat| j < k ==> !(#[trigger] pre.run_dma(j)).dma_tick_exits(),
            decreases m_cycles - k,
        {
            proof {
                lemma_run_dma_counters(pre, k as nat);
            }
            if cgb_mode && page == 0xFF && active && delay == 0 && (byte == 0x69 || byte == 0x6B) {
                assert(pre.run_dma(k as nat).dma_tick_exits());
                return true;
            }
            if active {
                if delay > 0 {
                    delay = delay.wrapping_add(1);
                } else {
                    byte = byte.wrapping_add(1);
                    active = byte < 0xA0;
                }
            }
            k = k + 1;
        }
        false
    }
}

/// The OR of the masks of `ints`.
pub open spec fn or_masks(ints: Seq<InterruptType>) -> u8
    decreases ints.len(),
{
    if ints.len() == 0 {
        0
    } else {
        or_masks(ints.drop_last()) | ints.last().spec_mask()
    }
}

proof fn lemma_with_interrupts_or(a: Interconnect, ints: Seq<InterruptType>)
    ensures
        a.with_interrupts(ints).mmu.io[0x0F] == a.mmu.io[0x0F] | or_masks(ints),
    decreases ints.len(),
{
    let x = a.mmu.io[0x0F];
    if ints.len() == 0 {
        assert(x | 0 == x) by (bit_vector);
    } else {
        lemma_with_interrupts_or(a, ints.drop_last());
        let y = or_masks(ints.drop_last());
        let m = ints.last().spec_mask();
        assert(((x | y) | m) == (x | (y | m))) by (bit_vector);
    }
}

proof fn lemma_or_masks_concat(a: Seq<InterruptType>, b: Seq<InterruptType>)
    ensures
        or_masks(a + b) == or_masks(a) | or_masks(b),
    decreases b.len(),
{
    if b.len() == 0 {
        assert(a + b =~= a);
        let x = or_masks(a);
        assert(x | 0 == x) by (bit_vector);
    } else {
        lemma_or_masks_concat(a, b.drop_last());
        assert((a + b).drop_last() =~= a + b.drop_last());
        let x = or_masks(a);
        let y = or_masks(b.drop_last());
        let m = b.last().spec_mask();
        assert(((x | y) | m) == (x | (y | m))) by (bit_vector);
    }
}

/// A run that raises the V-blank interrupt sets bit 0 of the masks.
proof fn lemma_vblank_bit(ints: Seq<InterruptType>)
    requires
        count_vblank(ints) > 0,
    ensures
        or_masks(ints) & 1 == 1,
    decreases ints.len(),
{
    let y = or_masks(ints.drop_last());
    let m = ints.last().spec_mask();
    if ints.last() == InterruptType::VBlank {
        assert((y | 1) & 1 == 1) by (bit_vector);
    } else {
        lemma_vblank_bit(ints.drop_last());
        assert((y & 1) == 1 ==> ((y | m) & 1) == 1) by (bit_vector);
    }
}

/// The PPU part of a bus run is the PPU run on its own, and IF gains the
/// masks of the interrupts that it raises.
proof fn lemma_run_ppu_matches(a: Interconnect, n: nat)
    ensures
        a.run_ppu(n).ppu == ppu_run(a.ppu, n),
        a.run_ppu(n).mmu.io[0x0F] == a.mmu.io[0x0F] | or_masks(ppu_run_ints(a.ppu, n)),
    decreases n,
{
    let x = a.mmu.io[0x0F];
    if n == 0 {
        assert(x | 0 == x) by (bit_vector);
    } else {
        lemma_run_ppu_matches(a, (n - 1) as nat);
        let s = a.run_ppu((n - 1) as nat);
        let mid = Interconnect { ppu: s.ppu.spec_tick().0, ..s };
        lemma_with_interrupts(mid, s.ppu.spec_tick().1);
        lemma_with_interrupts_or(mid, s.ppu.spec_tick().1);
        lemma_or_masks_concat(ppu_run_ints(a.ppu, (n - 1) as nat), s.ppu.spec_tick().1);
        let y = or_masks(ppu_run_ints(a.ppu, (n - 1) as nat));
        let z = or_masks(s.ppu.spec_tick().1);
        assert(((x | y) | z) == (x | (y | z))) by (bit_vector);
    }
}

/// DMA steps keep the LCD registers and the dot counter.
proof fn lemma_run_dma_keeps_timing(a: Interconnect, n: nat)
    ensures
        a.run_dma(n).ppu.lcd == a.ppu.lcd,
        a.run_dma(n).ppu.line_ticks == a.ppu.line_ticks,
    decreases n,
{
    if n > 0 {
        lemma_run_dma_keeps_timing(a, (n - 1) as nat);
    }
}

/// A DMA step keeps "a running DMA has a byte left to copy", so the byte
/// index never runs past 0xA0.
pub proof fn lemma_dma_tick_keeps_byte_bound(a: Interconnect)
    requires
        a.ppu.dma_active ==> a.ppu.dma_byte < 0xA0,
    ensures
        a.spec_dma_tick().ppu.dma_active ==> a.spec_dma_tick().ppu.dma_byte < 0xA0,
{
}

/// The first `k` copy steps of a DMA that starts copying at byte `b`: the
/// DMA is at byte `b + k`, running while that is below 0xA0; only OAM and
/// the counters changed; OAM outside `b..b + k` is as it was, and unless the
/// source page is OAM itself, OAM byte `i` in `b..b + k` holds what the bus
/// read at source byte `i` before the run.
proof fn lemma_dma_steps(a: Interconnect, k: nat)
    requires
        a.dma_copies(),
        a.ppu.dma_byte < 0xA0,
        k <= 0xA0 - a.ppu.dma_byte,
    ensures
        a.run_dma(k) == (Interconnect {
            ppu: Ppu {
                oam: a.run_dma(k).ppu.oam,
                dma_byte: (a.ppu.dma_byte + k) as u8,
                dma_active: a.ppu.dma_byte + k < 0xA0,
                ..a.ppu
            },
            ..a
        }),
        forall|i: int|
            0 <= i < 160 && (i < a.ppu.dma_byte || i >= a.ppu.dma_byte + k) ==> #[trigger] a.run_dma(
                k,
            ).ppu.oam[i] == a.ppu.oam[i],
        a.ppu.dma_value != 0xFE ==> forall|i: int|
            a.ppu.dma_byte <= i < a.ppu.dma_byte + k ==> #[trigger] a.run_dma(k).ppu.oam[i]
                == a.spec_read(dma_source(a.ppu.dma_value, i)),
    decreases k,
{
    if k > 0 {
        lemma_dma_steps(a, (k - 1) as nat);
        let s = a.run_dma((k - 1) as nat);
        let b = a.ppu.dma_byte;
        assert(s.spec_read(s.dma_read_addr()) == a.spec_read(s.dma_read_addr()));
        assert(a.run_dma(k) == s.spec_dma_tick());
        assert forall|i: int|
            0 <= i < 160 && (i < b || i >= b + k) implies #[trigger] a.run_dma(k).ppu.oam[i]
            == a.ppu.oam[i] by {
            assert(i != b + k - 1);
        }
    }
}

/// A DMA that copies from byte `b` with no start delay left runs for exactly
/// `0xA0 - b` steps: after each of the first `0xA0 - b - 1` it is still
/// running, at byte `b + k`, and after the last it has stopped at byte
/// 0xA0. Only OAM and the DMA counters change, OAM below `b` stays, and
/// unless the source page is OAM itself, OAM bytes `b..0xA0` hold what the
/// bus read at the source before the run: from byte 0, the image that
/// `dma_transfer` copies.
pub proof fn lemma_dma_run(a: Interconnect)
    requires
        a.dma_copies(),
        a.ppu.dma_byte < 0xA0,
    ensures
        forall|k: nat|
            k < 0xA0 - a.ppu.dma_byte ==> (#[trigger] a.run_dma(k)).ppu.dma_active
                && a.run_dma(k).ppu.dma_byte == a.ppu.dma_byte + k,
        !a.run_dma((0xA0 - a.ppu.dma_byte) as nat).ppu.dma_active,
        a.run_dma((0xA0 - a.ppu.dma_byte) as nat).ppu.dma_byte == 0xA0,
        a.run_dma((0xA0 - a.ppu.dma_byte) as nat) == (Interconnect {
            ppu: Ppu {
                oam: a.run_dma((0xA0 - a.ppu.dma_byte) as nat).ppu.oam,
                dma_byte: 0xA0,
                dma_active: false,
                ..a.ppu
            },
            ..a
        }),
        forall|i: int|
            0 <= i < a.ppu.dma_byte ==> #[trigger] a.run_dma((0xA0 - a.ppu.dma_byte) as nat).ppu.oam[i]
                == a.ppu.oam[i],
        a.ppu.dma_value != 0xFE ==> forall|i: int|
            a.ppu.dma_byte <= i < 0xA0 ==> #[trigger] a.run_dma(
                (0xA0 - a.ppu.dma_byte) as nat,
            ).ppu.oam[i] == a.spec_read(dma_source(a.ppu.dma_value, i)),
{
    assert forall|k: nat| k < 0xA0 - a.ppu.dma_byte implies (#[trigger] a.run_dma(k)).ppu.dma_active
        && a.run_dma(k).ppu.dma_byte == a.ppu.dma_byte + k by {
        lemma_dma_steps(a, k);
    }
    lemma_dma_steps(a, (0xA0 - a.ppu.dma_byte) as nat);
}

/// While the boot ROM is mapped it shadows all of 0x0000..0x0100; once
/// unmapped, or above 0x100, the cartridge ROM image is read, and 0xFF past
/// its end.
pub proof fn lemma_boot_rom_shadows(ic: Interconnect, addr: u16)
    ensures
        ic.boot_active && addr < 0x100 ==> ic.spec_read(addr) == ic.mmu.boot[addr as int],
        (!ic.boot_active || addr >= 0x100) && addr < 0x8000 ==> ic.spec_read(addr) == if (addr as int)
            < ic.cartridge.mbc.rom@.len() {
            ic.cartridge.mbc.rom@[addr as int]
        } else {
            0xFF
        },
{
}

/// The timer registers read back as DIV at 0xFF04, TIMA at 0xFF05, TMA at
/// 0xFF06 and TAC at 0xFF07.
pub proof fn lemma_timer_registers(ic: Interconnect)
    ensures
        ic.spec_read(0xFF04) == ic.timer.div,
        ic.spec_read(0xFF05) == ic.timer.tima,
        ic.spec_read(0xFF06) == ic.timer.tma,
        ic.spec_read(0xFF07) == ic.timer.tac,
{
}

/// IF at 0xFF0F stores what is written, so writing 0 clears every pending
/// interrupt, and writing a mask leaves exactly that mask pending.
pub proof fn lemma_if_write(ic: Interconnect, value: u8)
    ensures
        ic.spec_write(0xFF0F, value).spec_read(0xFF0F) == value,
        ic.spec_write(0xFF0F, value).mmu.io[0x0F] == value,
{
}

/// While bit 2 of TAC is set, a run of `m_cycles` M-cycles steps TIMA once
/// per whole period of the rate that TAC selects, whatever that rate:
/// with `n` the cycles held by the TIMA clock, TIMA advances by
/// `(n + 4 * m_cycles) / tac_period(tac)` as long as that does not pass
/// 0xFF. With bit 2 clear TIMA does not move.
pub proof fn lemma_emu_tick_tima(a: Interconnect, m_cycles: u32)
    requires
        a.wf(),
        m_cycles * 4 <= u32::MAX,
    ensures
        a.timer.tac & 4 != 0 && a.timer.tima + (a.timer.tima_clock.n + m_cycles * 4) / (
        tac_period(a.timer.tac) as int) < 256 ==> a.spec_emu_tick(m_cycles).timer.tima
            == a.timer.tima + (a.timer.tima_clock.n + m_cycles * 4) / (tac_period(
            a.timer.tac,
        ) as int),
        a.timer.tac & 4 == 0 ==> a.spec_emu_tick(m_cycles).timer.tima == a.timer.tima,
{
    let t = (m_cycles * 4) as u32;
    lemma_run_ppu(a, t as nat);
    let a1 = a.run_ppu(t as nat);
    let a2 = Interconnect { ticks: t as u64, ..a1 };
    lemma_run_timer(a2, t);
    let pre = a.emu_before_dma(m_cycles);
    lemma_run_dma(pre, m_cycles as nat);
    let dc = a2.timer.div_clock;
    let div_steps = ((dc.n + t) / (dc.period as int)) as u32;
    let t1 = Timer {
        div: vstd::wrapping::u8_specs::wrapping_add(a2.timer.div, div_steps as u8),
        div_clock: Clock { n: ((dc.n + t) % (dc.period as int)) as u32, ..dc },
        ..a2.timer
    };
    if t1.enabled() {
        let tc = t1.tima_clock;
        let b = Interconnect {
            timer: Timer {
                tima_clock: Clock { n: ((tc.n + t) % (tc.period as int)) as u32, ..tc },
                ..t1
            },
            ..a2
        };
        let steps = (tc.n + t) / (tc.period as int);
        lemma_run_tima(b, steps as nat);
        if a.timer.tima + steps < 256 {
            lemma_tima_counts(b, steps as nat);
        }
    }
}

/// The timer registers take writes as the hardware does: TIMA, TMA and
/// TAC read back what was written, a write to DIV clears it, and after a
/// TAC write TIMA counts every 1024, 16, 64 or 256 T-cycles for clock
/// select 0, 1, 2 or 3 (4096, 262144, 65536 or 16384 Hz).
pub proof fn lemma_timer_writes(ic: Interconnect, value: u8)
    ensures
        ic.spec_write(0xFF04, value).spec_read(0xFF04) == 0,
        ic.spec_write(0xFF05, value).spec_read(0xFF05) == value,
        ic.spec_write(0xFF06, value).spec_read(0xFF06) == value,
        ic.spec_write(0xFF07, value).spec_read(0xFF07) == value,
        ic.timer.wf() ==> {
            let p = ic.spec_write(0xFF07, value).timer.tima_clock.period;
            &&& value & 3 == 0 ==> p == 1024
            &&& value & 3 == 1 ==> p == 16
            &&& value & 3 == 2 ==> p == 64
            &&& value & 3 == 3 ==> p == 256
        },
{
    if ic.timer.wf() {
        ic.timer.lemma_write_keeps_wf(0xFF07, value);
    }
}

/// The LCD registers other than STAT and LY read back what was written;
/// LY cannot be written, and a STAT write sets its interrupt-enable bits
/// 3..6 and keeps the mode and LY=LYC bits 0..2.
pub proof fn lemma_lcd_writes(ic: Interconnect, addr: u16, value: u8)
    requires
        0xFF40 <= addr < 0xFF4C,
    ensures
        addr != 0xFF41 && addr != 0xFF44 ==> ic.spec_write(addr, value).spec_read(addr) == value,
        ic.spec_write(0xFF44, value).spec_read(0xFF44) == ic.spec_read(0xFF44),
        ic.spec_write(0xFF41, value).spec_read(0xFF41) & 0x78 == value & 0x78,
        ic.spec_write(0xFF41, value).spec_read(0xFF41) & 0x07 == ic.spec_read(0xFF41) & 0x07,
{
    let s = ic.ppu.lcd[1];
    assert(((s & 0x07) | (value & 0x78)) & 0x78 == value & 0x78) by (bit_vector);
    assert(((s & 0x07) | (value & 0x78)) & 0x07 == s & 0x07) by (bit_vector);
}

/// Requesting an interrupt sets its bit of IF, bit 0 for V-blank up to bit
/// 4 for the joypad in priority order, and keeps the other bits.
pub proof fn lemma_request_sets_its_bit(ic: Interconnect, interrupt: InterruptType)
    ensures
        ic.with_interrupt(interrupt).mmu.io[0x0F] == ic.mmu.io[0x0F] | (1u8 << match interrupt {
            InterruptType::VBlank => 0u8,
            InterruptType::LcdStat => 1u8,
            InterruptType::Timer => 2u8,
            InterruptType::Serial => 3u8,
            InterruptType::Joypad => 4u8,
        }),
        ic.with_interrupt(interrupt).spec_read(0xFF0F) == ic.with_interrupt(interrupt).mmu.io[0x0F],
{
    assert(1u8 << 0u8 == 1 && 1u8 << 1u8 == 2 && 1u8 << 2u8 == 4 && 1u8 << 3u8 == 8 && 1u8 << 4u8
        == 16) by (bit_vector);
}

} // verus!
