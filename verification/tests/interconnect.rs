use crabboy::constants::{
    boot_range, external_ram_range, high_ram_range, interrupts, io_range, lcd_range, oam_range,
    rom_bank_range, tile_colors, timer_range, vram_range, work_ram_range,
};
use crabboy::cpu::interrupts::{request_interrupt, InterruptType};
use crabboy::cpu::timer::{Clock, Timer};
use crabboy::interconnect::cartridge::Cartridge;
use crabboy::interconnect::joypad::{Joypad, Key};
use crabboy::interconnect::ppu::{PaletteSpec, Ppu, Rgb};
use crabboy::interconnect::Interconnect;

fn booted() -> Interconnect {
    let mut ic = Interconnect::new();
    ic.boot_active = false;
    ic
}

#[test]
fn new_starts_at_power_on() {
    let ic = Interconnect::new();
    assert!(ic.boot_active);
    assert!(ic.write_enabled);
    assert!(!ic.cgb_mode);
    assert_eq!(ic.ticks, 0);
    assert_eq!(ic.read_mem(0xFF40), 0x91);
    assert_eq!(ic.read_mem(0xFF41), 0x02);
    assert_eq!(ic.read_mem(0xFF47), 0xFC);
    assert_eq!(ic.read_mem(0xFF48), 0xFF);
    assert_eq!(ic.read_mem(0xC000), 0);
    assert_eq!(ic.read_mem(0xFFFF), 0);
    assert_eq!(ic.joypad.matrix, 0xFF);
    let d = Interconnect::default();
    assert_eq!(d.read_mem(0xFF40), 0x91);
}

#[test]
fn work_ram_reads_back_what_was_written() {
    let mut ic = booted();
    ic.write_mem(0xC000, 0x12);
    ic.write_mem(0xDFFF, 0x34);
    assert_eq!(ic.read_mem(0xC000), 0x12);
    assert_eq!(ic.read_mem(0xDFFF), 0x34);
    assert_eq!(ic.read_mem(0xC001), 0x00);
    assert_eq!(ic.mmu.work_ram[0x1FFF], 0x34);
}

#[test]
fn video_high_and_cartridge_ram_read_back() {
    let mut ic = booted();
    ic.write_mem(0x8000, 1);
    ic.write_mem(0x9FFF, 2);
    ic.write_mem(0xA123, 3);
    ic.write_mem(0xFF80, 4);
    ic.write_mem(0xFFFE, 5);
    ic.write_mem(0xFFFF, 0x1F);
    assert_eq!(ic.read_mem(0x8000), 1);
    assert_eq!(ic.read_mem(0x9FFF), 2);
    assert_eq!(ic.read_mem(0xA123), 3);
    assert_eq!(ic.read_mem(0xFF80), 4);
    assert_eq!(ic.read_mem(0xFFFE), 5);
    assert_eq!(ic.read_mem(0xFFFF), 0x1F);
    assert_eq!(ic.mmu.interrupt_enable, 0x1F);
    assert_eq!(ic.mmu.hram[0x7E], 5);
}

#[test]
fn rom_ignores_writes_and_reads_ff_past_the_image() {
    let mut ic = booted();
    ic.cartridge = Cartridge::new(vec![0xAA, 0xBB, 0xCC]);
    assert_eq!(ic.read_mem(0x0001), 0xBB);
    ic.write_mem(0x0001, 0x00);
    assert_eq!(ic.read_mem(0x0001), 0xBB);
    assert_eq!(ic.read_mem(0x0003), 0xFF);
    assert_eq!(ic.read_mem(0x7FFF), 0xFF);
}

#[test]
fn boot_rom_shadows_the_cartridge_while_active() {
    let mut ic = Interconnect::new();
    ic.cartridge = Cartridge::new(vec![0x11; 0x200]);
    ic.load_boot_rom(&[0x31, 0xFE, 0xFF]);
    assert_eq!(ic.read_mem(0x0000), 0x31);
    assert_eq!(ic.read_mem(0x0002), 0xFF);
    assert_eq!(ic.read_mem(0x0003), 0x00);
    assert_eq!(ic.read_mem(0x0100), 0x11);
    ic.boot_active = false;
    assert_eq!(ic.read_mem(0x0000), 0x11);
}

#[test]
fn load_game_rom_changes_nothing() {
    let mut ic = booted();
    ic.write_mem(0xC000, 9);
    ic.load_game_rom(&[1, 2, 3]);
    assert_eq!(ic.read_mem(0x0000), 0xFF);
    assert_eq!(ic.read_mem(0xC000), 9);
}

#[test]
fn unmapped_reads_are_zero() {
    let ic = booted();
    assert_eq!(ic.read_mem(0xE000), 0);
    assert_eq!(ic.read_mem(0xFEA0), 0);
    assert_eq!(ic.read_mem(0xFEFF), 0);
}

#[test]
fn io_page_goes_to_the_right_component() {
    let mut ic = booted();
    ic.write_mem(0xFF01, 0x41);
    assert_eq!(ic.read_mem(0xFF01), 0x41);
    assert_eq!(ic.mmu.io[0x01], 0x41);
    ic.write_mem(0xFF06, 0x77);
    assert_eq!(ic.timer.tma, 0x77);
    assert_eq!(ic.read_mem(0xFF06), 0x77);
    ic.write_mem(0xFF42, 0x10);
    assert_eq!(ic.ppu.lcd[2], 0x10);
    assert_eq!(ic.read_mem(0xFF42), 0x10);
    // 0xFF68..0xFF6B are plain I/O bytes outside CGB mode.
    ic.write_mem(0xFF68, 0x05);
    assert_eq!(ic.read_mem(0xFF68), 0x05);
}

#[test]
fn ly_and_stat_mode_are_read_only() {
    let mut ic = booted();
    ic.write_mem(0xFF44, 0x50);
    assert_eq!(ic.read_mem(0xFF44), 0);
    ic.write_mem(0xFF41, 0xFF);
    assert_eq!(ic.read_mem(0xFF41), 0x7A);
}

#[test]
fn timer_div_write_resets() {
    let mut ic = booted();
    ic.timer.div = 0x40;
    ic.timer.div_clock.n = 100;
    ic.write_mem(0xFF04, 0x99);
    assert_eq!(ic.read_mem(0xFF04), 0);
    assert_eq!(ic.timer.div_clock.n, 0);
}

#[test]
fn tac_write_changes_rate_and_reloads_tima() {
    let mut ic = booted();
    ic.write_mem(0xFF06, 0x20);
    ic.write_mem(0xFF05, 0x80);
    ic.write_mem(0xFF07, 0x05);
    assert_eq!(ic.timer.tima_clock.period, 16);
    assert_eq!(ic.read_mem(0xFF05), 0x20);
    ic.write_mem(0xFF05, 0x33);
    ic.write_mem(0xFF07, 0x01);
    assert_eq!(ic.read_mem(0xFF05), 0x33);
    assert_eq!(ic.read_mem(0xFF07), 0x01);
    ic.write_mem(0xFF07, 0x06);
    assert_eq!(ic.timer.tima_clock.period, 64);
    ic.write_mem(0xFF07, 0x07);
    assert_eq!(ic.timer.tima_clock.period, 256);
    ic.write_mem(0xFF07, 0x04);
    assert_eq!(ic.timer.tima_clock.period, 1024);
}

#[test]
fn dma_transfer_copies_a_page_into_oam() {
    let mut ic = booted();
    for i in 0..0xA0u16 {
        ic.write_mem(0xC100 + i, (i as u8) ^ 0x5A);
    }
    ic.dma_transfer(0xC1);
    for i in 0..0xA0u16 {
        assert_eq!(ic.ppu.oam[i as usize], (i as u8) ^ 0x5A);
        assert_eq!(ic.read_mem(0xFE00 + i), (i as u8) ^ 0x5A);
    }
}

#[test]
fn oam_is_locked_while_dma_runs() {
    let mut ic = booted();
    ic.write_mem(0xFE05, 0x22);
    ic.write_mem(0xFF46, 0xC0);
    assert!(ic.ppu.dma_active);
    assert_eq!(ic.read_mem(0xFE05), 0xFF);
    ic.write_mem(0xFE05, 0x99);
    assert_eq!(ic.ppu.oam[5], 0x22);
    ic.dma_transfer(0xC0);
    assert_eq!(ic.ppu.oam[5], 0x22);
}

#[test]
fn dma_tick_copies_one_byte_per_cycle() {
    let mut ic = booted();
    ic.write_mem(0xC000, 0xAB);
    ic.write_mem(0xC001, 0xCD);
    ic.ppu.dma_active = true;
    ic.ppu.dma_value = 0xC0;
    ic.ppu.dma_byte = 0;
    ic.ppu.dma_start_delay = 0;
    ic.dma_tick();
    assert_eq!(ic.ppu.oam[0], 0xAB);
    assert_eq!(ic.ppu.dma_byte, 1);
    ic.dma_tick();
    assert_eq!(ic.ppu.oam[1], 0xCD);
    ic.ppu.dma_byte = 0x9F;
    ic.dma_tick();
    assert!(!ic.ppu.dma_active);
    assert_eq!(ic.ppu.dma_byte, 0xA0);
    let before = ic.ppu.oam;
    ic.dma_tick();
    assert_eq!(ic.ppu.oam, before);
}

#[test]
fn dma_start_delay_counts_up_until_it_wraps() {
    let mut ic = booted();
    ic.write_mem(0xFF46, 0xC0);
    assert_eq!(ic.ppu.dma_start_delay, 2);
    ic.dma_tick();
    assert_eq!(ic.ppu.dma_start_delay, 3);
    ic.ppu.dma_start_delay = 0xFF;
    ic.dma_tick();
    assert_eq!(ic.ppu.dma_start_delay, 0);
    assert_eq!(ic.ppu.dma_byte, 0);
    ic.dma_tick();
    assert_eq!(ic.ppu.dma_byte, 1);
}

#[test]
fn keys_raise_the_joypad_interrupt() {
    let mut ic = booted();
    ic.key_down(Key::Start);
    assert_eq!(ic.joypad.matrix, 0x7F);
    assert_eq!(ic.read_mem(0xFF0F) & 0x10, 0x10);
    ic.write_mem(0xFF0F, 0);
    ic.key_up(Key::Start);
    assert_eq!(ic.joypad.matrix, 0xFF);
    assert_eq!(ic.read_mem(0xFF0F), 0x10);
}

#[test]
fn joypad_rows() {
    let mut j = Joypad::init();
    j.key_down(Key::Left);
    j.key_down(Key::A);
    j.write(0x20);
    assert_eq!(j.read(), 0x20 | 0x0D);
    j.write(0x10);
    assert_eq!(j.read(), 0x10 | 0x0E);
    j.write(0x30);
    assert_eq!(j.read(), 0x30);
    j.key_up(Key::Left);
    j.write(0x20);
    assert_eq!(j.read(), 0x2F);
}

#[test]
fn request_interrupt_sets_bits() {
    let mut ic = booted();
    request_interrupt(&mut ic, InterruptType::VBlank);
    request_interrupt(&mut ic, InterruptType::Serial);
    assert_eq!(ic.read_mem(0xFF0F), 0x09);
    assert_eq!(InterruptType::LcdStat.mask(), 0x02);
    assert_eq!(InterruptType::Timer.mask(), 0x04);
}

#[test]
fn emu_tick_counts_t_cycles_and_divides() {
    let mut ic = booted();
    ic.emu_tick(1);
    assert_eq!(ic.ticks, 4);
    assert_eq!(ic.timer.div, 0);
    assert_eq!(ic.timer.div_clock.n, 4);
    ic.emu_tick(63);
    assert_eq!(ic.ticks, 252);
    assert_eq!(ic.timer.div, 1);
    assert_eq!(ic.timer.div_clock.n, 0);
    ic.timer.div = 0xFF;
    ic.emu_tick(64);
    assert_eq!(ic.timer.div, 0);
}

#[test]
fn tima_overflow_reloads_and_interrupts() {
    let mut ic = booted();
    ic.write_mem(0xFF06, 0xF0);
    ic.write_mem(0xFF07, 0x05);
    ic.write_mem(0xFF05, 0xFE);
    ic.emu_tick(4);
    assert_eq!(ic.read_mem(0xFF05), 0xFF);
    assert_eq!(ic.read_mem(0xFF0F) & 0x04, 0);
    ic.emu_tick(4);
    assert_eq!(ic.read_mem(0xFF05), 0xF0);
    assert_eq!(ic.read_mem(0xFF0F) & 0x04, 0x04);
    ic.emu_tick(8);
    assert_eq!(ic.read_mem(0xFF05), 0xF2);
}

#[test]
fn timer_stays_still_when_disabled() {
    let mut ic = booted();
    ic.write_mem(0xFF07, 0x01);
    ic.emu_tick(100);
    assert_eq!(ic.read_mem(0xFF05), 0);
}

#[test]
fn ppu_modes_follow_the_line() {
    let mut ic = booted();
    ic.emu_tick(19);
    assert_eq!(ic.read_mem(0xFF41) & 3, 2);
    ic.emu_tick(1);
    assert_eq!(ic.read_mem(0xFF41) & 3, 3);
    ic.emu_tick(43);
    assert_eq!(ic.read_mem(0xFF41) & 3, 0);
    ic.emu_tick(51);
    assert_eq!(ic.read_mem(0xFF44), 1);
    assert_eq!(ic.read_mem(0xFF41) & 3, 2);
    assert_eq!(ic.ppu.line_ticks, 0);
}

#[test]
fn vblank_comes_after_144_lines() {
    let mut ic = booted();
    ic.emu_tick(114 * 143);
    assert_eq!(ic.read_mem(0xFF44), 143);
    assert_eq!(ic.read_mem(0xFF0F) & 0x01, 0);
    ic.emu_tick(114);
    assert_eq!(ic.read_mem(0xFF44), 144);
    assert_eq!(ic.read_mem(0xFF41) & 3, 1);
    assert_eq!(ic.read_mem(0xFF0F) & 0x01, 0x01);
    ic.emu_tick(114 * 10);
    assert_eq!(ic.read_mem(0xFF44), 0);
    assert_eq!(ic.read_mem(0xFF41) & 3, 2);
}

#[test]
fn stat_interrupts_follow_their_enable_bits() {
    let mut ic = booted();
    ic.write_mem(0xFF41, 0x08);
    ic.emu_tick(63);
    assert_eq!(ic.read_mem(0xFF0F) & 0x02, 0x02);
    let mut ic = booted();
    ic.write_mem(0xFF45, 1);
    ic.write_mem(0xFF41, 0x40);
    ic.emu_tick(114);
    assert_eq!(ic.read_mem(0xFF41) & 0x04, 0x04);
    assert_eq!(ic.read_mem(0xFF0F) & 0x02, 0x02);
}

#[test]
fn cgb_palette_registers() {
    let mut ic = booted();
    ic.cgb_mode = true;
    ic.ppu.bg_colors[3] = Rgb::new(9, 9, 9);
    ic.ppu.bcps = PaletteSpec::from_bytes([0x83]);
    assert_eq!(ic.read_mem(0xFF68), 0x83);
    ic.write_mem(0xFF68, 0x00);
    assert_eq!(ic.ppu.bg_colors[3].get_rgb(), (0, 0, 0));
    assert_eq!(ic.ppu.bcps.addr(), 4);
    assert_eq!(ic.ppu.bcps.auto_increment(), 1);
    ic.write_mem(0xFF6A, 0x85);
    assert_eq!(ic.read_mem(0xFF6A), 0x85);
    ic.write_mem(0xFF6B, 0x12);
    assert_eq!(ic.ppu.sprite_colors[5], Rgb::new(1, 0, 0));
    assert_eq!(ic.ppu.ocps.into_bytes(), [0x86]);
    ic.ppu.bcps = PaletteSpec::from_bytes([0x07]);
    ic.write_mem(0xFF69, 0x12);
    assert_eq!(ic.ppu.bcps.addr(), 7);
}

#[test]
fn log_timer_and_vram() {
    let mut ic = booted();
    ic.write_mem(0xFF06, 3);
    ic.write_mem(0xFF07, 5);
    // A new clock select reloads TIMA from TMA.
    assert_eq!(ic.log_timer(), (0, 3, 3, 5));
    ic.write_mem(0x9FFE, 0x42);
    ic.write_mem(0x8000, 0x24);
    let entries = ic.log_vram();
    assert_eq!(entries.len(), 0x1FFF);
    assert_eq!(entries[0], (0x9FFE, 0x42));
    assert_eq!(entries[0x1FFE], (0x8000, 0x24));
}

#[test]
fn clock_keeps_the_remainder() {
    let mut c = Clock::new(256);
    assert_eq!(c.next(300), 1);
    assert_eq!(c.n, 44);
    assert_eq!(c.next(212), 1);
    assert_eq!(c.n, 0);
    let t = Timer::new();
    assert_eq!(t.timer_read(0xFF07), 0);
}

#[test]
fn ppu_alone_raises_vblank() {
    let mut p = Ppu::new();
    let mut seen = 0;
    for _ in 0..(456 * 144) {
        let ints = p.tick();
        seen += ints.iter().filter(|i| **i == InterruptType::VBlank).count();
    }
    assert_eq!(seen, 1);
    assert_eq!(p.lcd[4], 144);
}

#[test]
fn a_frame_is_70224_dots_with_one_vblank() {
    let mut p = Ppu::new();
    let mut vblanks = 0;
    for _ in 0..70224 {
        let ints = p.tick();
        vblanks += ints.iter().filter(|i| **i == InterruptType::VBlank).count();
    }
    assert_eq!(vblanks, 1);
    assert_eq!(p.lcd[4], 0);
    assert_eq!(p.lcd[1] & 3, 2);
    assert_eq!(p.line_ticks, 0);
}

#[test]
fn a_line_is_456_dots() {
    let mut p = Ppu::new();
    for _ in 0..455 {
        p.tick();
    }
    assert_eq!(p.lcd[4], 0);
    p.tick();
    assert_eq!(p.lcd[4], 1);
    assert_eq!(p.line_ticks, 0);
    assert_eq!(p.lcd[1] & 3, 2);
}

#[test]
fn writes_leave_other_bytes_alone() {
    let mut ic = booted();
    ic.write_mem(0xC010, 1);
    ic.write_mem(0xC011, 2);
    ic.write_mem(0x8010, 3);
    ic.write_mem(0xFE10, 4);
    assert_eq!(ic.read_mem(0xC010), 1);
    assert_eq!(ic.read_mem(0xC011), 2);
    assert_eq!(ic.read_mem(0x8010), 3);
    assert_eq!(ic.read_mem(0xFE10), 4);
    assert_eq!(ic.read_mem(0xFE11), 0);
    assert_eq!(ic.read_mem(0x8011), 0);
}

#[test]
fn writes_keep_the_bus_well_formed() {
    let mut ic = booted();
    assert!(ic.is_well_formed());
    for addr in [0xFF40u16, 0xFF41, 0xFF44, 0xFF46, 0xFF04, 0xFF07, 0xFF05, 0x2000] {
        ic.write_mem(addr, 0xFF);
        assert!(ic.is_well_formed());
    }
    ic.ppu.line_ticks = 500;
    assert!(!ic.is_well_formed());
    let mut ic = booted();
    ic.timer.div_clock.period = 0;
    assert!(!ic.is_well_formed());
}

#[test]
fn emu_tick_exit_is_predicted_from_the_dma_counters() {
    let mut ic = booted();
    assert!(!ic.emu_tick_would_exit(1000));
    ic.cgb_mode = true;
    ic.write_mem(0xFF46, 0xFF);
    // Start delay 2 counts up to 256 (254 cycles), then bytes 0..=0x69 are read.
    assert!(!ic.emu_tick_would_exit(254 + 0x69));
    assert!(ic.emu_tick_would_exit(254 + 0x6A));
    ic.ppu.dma_start_delay = 0;
    ic.ppu.dma_byte = 0x6C;
    assert!(!ic.emu_tick_would_exit(100));
    ic.cgb_mode = false;
    ic.ppu.dma_byte = 0;
    assert!(!ic.emu_tick_would_exit(200));
}

#[test]
fn emu_tick_runs_a_dma_to_the_end() {
    let mut ic = booted();
    for i in 0..0xA0u16 {
        ic.write_mem(0xD000 + i, i as u8);
    }
    ic.write_mem(0xFF46, 0xD0);
    ic.emu_tick(254 + 0xA0);
    assert!(!ic.ppu.dma_active);
    for i in 0..0xA0usize {
        assert_eq!(ic.ppu.oam[i], i as u8);
    }
}

#[test]
fn key_state_laws() {
    let mut j = Joypad::init();
    j.key_down(Key::B);
    j.key_down(Key::Down);
    assert_eq!(j.matrix & 0x20, 0);
    assert_eq!(j.matrix & 0x08, 0);
    j.key_up(Key::B);
    assert_eq!(j.matrix & 0x20, 0x20);
    assert_eq!(j.matrix & 0x08, 0);
    assert_eq!(Key::Select.mask(), 0x40);
}

#[test]
fn a_frame_of_m_cycles_returns_to_the_top_with_vblank_raised() {
    let mut ic = booted();
    ic.emu_tick(17556);
    assert_eq!(ic.read_mem(0xFF44), 0);
    assert_eq!(ic.read_mem(0xFF41) & 3, 2);
    assert_eq!(ic.ppu.line_ticks, 0);
    assert_eq!(ic.read_mem(0xFF0F) & 1, 1);
    assert_eq!(ic.ticks, 70224);
    assert_eq!(ic.timer.div, (70224u32 / 256) as u8);
}

#[test]
fn constants_ranges_colors_and_interrupt_order() {
    assert_eq!(boot_range(), 0x00..0x100);
    assert_eq!(rom_bank_range(), 0x0000..0x8000);
    assert_eq!(vram_range(), 0x8000..0xA000);
    assert_eq!(external_ram_range(), 0xA000..0xC000);
    assert_eq!(work_ram_range(), 0xC000..0xE000);
    assert_eq!(oam_range(), 0xFE00..0xFEA0);
    assert_eq!(timer_range(), 0xFF04..0xFF08);
    assert_eq!(lcd_range(), 0xFF40..0xFF4C);
    assert_eq!(io_range(), 0xFF00..0xFF80);
    assert_eq!(high_ram_range(), 0xFF80..0xFFFF);
    assert_eq!(tile_colors()[1], Rgb::new(169, 169, 169));
    assert_eq!(tile_colors()[3].get_rgb(), (0, 0, 0));
    assert_eq!(
        interrupts(),
        [
            InterruptType::VBlank,
            InterruptType::LcdStat,
            InterruptType::Timer,
            InterruptType::Serial,
            InterruptType::Joypad
        ]
    );
}

#[test]
fn a_dma_from_byte_b_ends_after_a0_minus_b_steps() {
    let mut ic = booted();
    for i in 0..0xA0u16 {
        ic.write_mem(0xC200 + i, 0x80 | (i as u8));
    }
    ic.ppu.dma_active = true;
    ic.ppu.dma_value = 0xC2;
    ic.ppu.dma_start_delay = 0;
    ic.ppu.dma_byte = 0x90;
    for k in 0..(0xA0 - 0x90) {
        assert!(ic.ppu.dma_active);
        assert_eq!(ic.ppu.dma_byte, 0x90 + k);
        ic.dma_tick();
    }
    assert!(!ic.ppu.dma_active);
    assert_eq!(ic.ppu.dma_byte, 0xA0);
    assert_eq!(ic.ppu.oam[0x8F], 0);
    for i in 0x90..0xA0usize {
        assert_eq!(ic.ppu.oam[i], 0x80 | (i as u8));
    }
}

#[test]
fn dma_steps_and_dma_transfer_write_the_same_image() {
    let mut a = booted();
    for i in 0..0xA0u16 {
        a.write_mem(0xC300 + i, (i as u8).wrapping_mul(7));
    }
    let mut b = booted();
    for i in 0..0xA0u16 {
        b.write_mem(0xC300 + i, (i as u8).wrapping_mul(7));
    }
    a.dma_transfer(0xC3);
    b.ppu.dma_active = true;
    b.ppu.dma_value = 0xC3;
    for _ in 0..0xA0 {
        b.dma_tick();
    }
    assert_eq!(a.ppu.oam, b.ppu.oam);
    assert!(!b.ppu.dma_active);
}
