use vstd::prelude::*;

use crate::interconnect::Interconnect;

verus! {

/// The five interrupt sources, each one bit of IF and IE.
#[derive(Clone, Copy, Debug, PartialEq, Eq, Structural)]
pub enum InterruptType {
    VBlank,
    LcdStat,
    Timer,
    Serial,
    Joypad,
}

impl InterruptType {
    /// The bit of this interrupt in IF and IE.
    pub open spec fn spec_mask(self) -> u8 {
        match self {
            InterruptType::VBlank => 0x01,
            InterruptType::LcdStat => 0x02,
            InterruptType::Timer => 0x04,
            InterruptType::Serial => 0x08,
            InterruptType::Joypad => 0x10,
        }
    }

    pub fn mask(&self) -> (m: u8)
        ensures
            m == self.spec_mask(),
    {
        match self {
            InterruptType::VBlank => 0x01,
            InterruptType::LcdStat => 0x02,
            InterruptType::Timer => 0x04,
            InterruptType::Serial => 0x08,
            InterruptType::Joypad => 0x10,
        }
    }
}

/// Raises `interrupt` in IF (0xFF0F); no other state changes.
pub fn request_interrupt(ic: &mut Interconnect, interrupt: InterruptType)
    ensures
        *final(ic) == old(ic).with_interrupt(interrupt),
{
    let flags = ic.mmu.read_io(0x0F);
    ic.mmu.write_io(0x0F, flags | interrupt.mask());
}

} // verus!
