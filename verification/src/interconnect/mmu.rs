use vstd::prelude::*;
use vstd::array::spec_array_update;

verus! {

/// The plain byte stores of the bus: boot ROM, work RAM, the I/O page,
/// high RAM and the interrupt-enable register.
#[derive(Debug)]
pub struct Mmu {
    pub boot: [u8; 256],
    pub work_ram: [u8; 8192],
    pub io: [u8; 128],
    pub hram: [u8; 127],
    pub interrupt_enable: u8,
}

impl Mmu {
    /// Every store holds zeros.
    pub open spec fn is_zeroed(self) -> bool {
        &&& forall|i: int| 0 <= i < 256 ==> self.boot[i] == 0
        &&& forall|i: int| 0 <= i < 8192 ==> self.work_ram[i] == 0
        &&& forall|i: int| 0 <= i < 128 ==> self.io[i] == 0
        &&& forall|i: int| 0 <= i < 127 ==> self.hram[i] == 0
        &&& self.interrupt_enable == 0
    }

    pub fn new() -> (m: Mmu)
        ensures
            m.is_zeroed(),
    {
        Mmu {
            boot: [0u8; 256],
            work_ram: [0u8; 8192],
            io: [0u8; 128],
            hram: [0u8; 127],
            interrupt_enable: 0,
        }
    }

    pub open spec fn with_boot(self, offset: int, value: u8) -> Mmu {
        Mmu { boot: spec_array_update(self.boot, offset, value), ..self }
    }

    pub open spec fn with_work_ram(self, offset: int, value: u8) -> Mmu {
        Mmu { work_ram: spec_array_update(self.work_ram, offset, value), ..self }
    }

    pub open spec fn with_io(self, offset: int, value: u8) -> Mmu {
        Mmu { io: spec_array_update(self.io, offset, value), ..self }
    }

    pub open spec fn with_hram(self, offset: int, value: u8) -> Mmu {
        Mmu { hram: spec_array_update(self.hram, offset, value), ..self }
    }

    pub fn read_boot(&self, addr: u16) -> (v: u8)
        requires
            addr < 256,
        ensures
            v == self.boot[addr as int],
    {
        self.boot[addr as usize]
    }

    pub fn write_boot(&mut self, addr: u16, value: u8)
        requires
            addr < 256,
        ensures
            *final(self) == old(self).with_boot(addr as int, value),
    {
        self.boot[addr as usize] = value;
    }

    pub fn read_work_ram(&self, offset: u16) -> (v: u8)
        requires
            offset < 8192,
        ensures
            v == self.work_ram[offset as int],
    {
        self.work_ram[offset as usize]
    }

    pub fn write_work_ram(&mut self, offset: u16, value: u8)
        requires
            offset < 8192,
        ensures
            *final(self) == old(self).with_work_ram(offset as int, value),
    {
        self.work_ram[offset as usize] = value;
    }

    pub fn read_io(&self, offset: u16) -> (v: u8)
        requires
            offset < 128,
        ensures
            v == self.io[offset as int],
    {
        self.io[offset as usize]
    }

    pub fn write_io(&mut self, offset: u16, value: u8)
        requires
            offset < 128,
        ensures
            *final(self) == old(self).with_io(offset as int, value),
    {
        self.io[offset as usize] = value;
    }

    pub fn read_hram(&self, offset: u16) -> (v: u8)
        requires
            offset < 127,
        ensures
            v == self.hram[offset as int],
    {
        self.hram[offset as usize]
    }

    pub fn write_hram(&mut self, offset: u16, value: u8)
        requires
            offset < 127,
        ensures
            *final(self) == old(self).with_hram(offset as int, value),
    {
        self.hram[offset as usize] = value;
    }

    pub fn enable_interrupt(&mut self, value: u8)
        ensures
            *final(self) == (Mmu { interrupt_enable: value, ..*old(self) }),
    {
        self.interrupt_enable = value;
    }

    pub fn read_interrupt_enable(&self) -> (v: u8)
        ensures
            v == self.interrupt_enable,
    {
        self.interrupt_enable
    }
}

} // verus!
