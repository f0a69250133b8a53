use vstd::prelude::*;
use vstd::array::spec_array_update;

verus! {

/// The memory of a cartridge without a bank controller: up to 32 KiB of
/// ROM at 0x0000..0x8000 and 8 KiB of RAM at 0xA000..0xC000.
#[derive(Debug)]
pub struct Mbc {
    pub rom: Vec<u8>,
    pub ram: [u8; 8192],
}

impl Mbc {
    /// The byte at `addr`; ROM beyond the loaded image reads as 0xFF.
    pub open spec fn spec_read(self, addr: u16) -> u8 {
        if addr < 0x8000 {
            if (addr as int) < self.rom@.len() {
                self.rom@[addr as int]
            } else {
                0xFF
            }
        } else {
            self.ram[addr - 0xA000]
        }
    }

    pub fn read(&self, addr: u16) -> (v: u8)
        requires
            addr < 0x8000 || 0xA000 <= addr < 0xC000,
        ensures
            v == self.spec_read(addr),
    {
        if addr < 0x8000 {
            if (addr as usize) < self.rom.len() {
                self.rom[addr as usize]
            } else {
                0xFF
            }
        } else {
            self.ram[(addr - 0xA000) as usize]
        }
    }

    /// The cartridge after a write: ROM ignores writes, RAM stores them.
    pub open spec fn spec_write(self, addr: u16, value: u8) -> Mbc {
        if addr < 0x8000 {
            self
        } else {
            Mbc { ram: spec_array_update(self.ram, addr - 0xA000, value), ..self }
        }
    }

    pub fn write(&mut self, addr: u16, value: u8)
        requires
            addr < 0x8000 || 0xA000 <= addr < 0xC000,
        ensures
            *final(self) == old(self).spec_write(addr, value),
    {
        if addr >= 0xA000 {
            self.ram[(addr - 0xA000) as usize] = value;
        }
    }
}

#[derive(Debug)]
pub struct Cartridge {
    pub mbc: Mbc,
}

impl Cartridge {
    /// No cartridge inserted: no ROM and cleared RAM.
    pub fn empty() -> (c: Cartridge)
        ensures
            c.mbc.rom@.len() == 0,
            forall|i: int| 0 <= i < 8192 ==> c.mbc.ram[i] == 0,
    {
        Cartridge { mbc: Mbc { rom: Vec::new(), ram: [0u8; 8192] } }
    }

    /// A cartridge holding the ROM image `rom`, with cleared RAM.
    pub fn new(rom: Vec<u8>) -> (c: Cartridge)
        ensures
            c.mbc.rom@ == rom@,
            forall|i: int| 0 <= i < 8192 ==> c.mbc.ram[i] == 0,
    {
        Cartridge { mbc: Mbc { rom, ram: [0u8; 8192] } }
    }
}

} // verus!
