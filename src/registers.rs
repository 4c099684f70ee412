//! Simulated register blocks of the DAC peripheral and of the clock-control
//! unit, with the bit positions that the driver touches.
use vstd::prelude::*;

verus! {

/// DAC clock-enable bit in the clock-control `APB1ENR` register.
pub const DACEN: u32 = 0x2000_0000;

/// DAC reset bit in the clock-control `APB1RSTR` register.
pub const DACRST: u32 = 0x2000_0000;

/// Output-enable bit of channel 1 in the DAC control register.
pub const EN1: u32 = 0x0000_0001;

/// Output-enable bit of channel 2 in the DAC control register.
pub const EN2: u32 = 0x0001_0000;

/// The 12-bit, right-aligned value field of a data-holding register.
pub const DHR12_MASK: u32 = 0x0fff;

/// One of the two output channels of the peripheral.
#[derive(Clone, Copy, Debug, PartialEq, Eq, Structural)]
pub enum Channel {
    One,
    Two,
}

impl Channel {
    /// The channel that is not `self`.
    pub open spec fn other(self) -> Channel {
        match self {
            Channel::One => Channel::Two,
            Channel::Two => Channel::One,
        }
    }
}

/// The output-enable bit of `ch` in the control register.
pub open spec fn enable_bit(ch: Channel) -> u32 {
    match ch {
        Channel::One => EN1,
        Channel::Two => EN2,
    }
}

/// What a data-holding register keeps of a written word: the reserved upper
/// bits are not implemented and read back as zero.
pub open spec fn held_bits(bits: u32) -> u32 {
    bits & DHR12_MASK
}

/// The DAC register block: the shared control register and one 12-bit
/// right-aligned data-holding register per channel.
#[derive(Debug)]
pub struct DacRegisters {
    pub cr: u32,
    pub dhr12r1: u32,
    pub dhr12r2: u32,
}

impl DacRegisters {
    /// The data-holding register of `ch`.
    pub open spec fn data(self, ch: Channel) -> u32 {
        match ch {
            Channel::One => self.dhr12r1,
            Channel::Two => self.dhr12r2,
        }
    }

    /// The block with the data-holding register of `ch` replaced by `bits`.
    pub open spec fn with_data(self, ch: Channel, bits: u32) -> DacRegisters {
        match ch {
            Channel::One => DacRegisters { dhr12r1: bits, ..self },
            Channel::Two => DacRegisters { dhr12r2: bits, ..self },
        }
    }

    /// The block with the control register replaced by `cr`.
    pub open spec fn with_cr(self, cr: u32) -> DacRegisters {
        DacRegisters { cr, ..self }
    }

    /// Whether the output of `ch` is enabled.
    pub open spec fn is_enabled(self, ch: Channel) -> bool {
        self.cr & enable_bit(ch) != 0
    }

    /// The block in its post-reset state: every register reads zero.
    pub fn new() -> (r: DacRegisters)
        ensures
            r.cr == 0,
            r.dhr12r1 == 0,
            r.dhr12r2 == 0,
    {
        DacRegisters { cr: 0, dhr12r1: 0, dhr12r2: 0 }
    }

    /// The effect of the peripheral's reset: every register returns to zero.
    pub fn reset(&mut self)
        ensures
            final(self).cr == 0,
            final(self).dhr12r1 == 0,
            final(self).dhr12r2 == 0,
    {
        self.cr = 0;
        self.dhr12r1 = 0;
        self.dhr12r2 = 0;
    }

    /// Read-modify-write of the control register that sets the bits of `mask`.
    pub fn set_cr_bits(&mut self, mask: u32)
        ensures
            *final(self) == old(self).with_cr(old(self).cr | mask),
    {
        let current = self.cr;
        self.cr = current | mask;
    }

    /// Writes `bits` to the data-holding register of `ch`; only the 12-bit
    /// field is kept.
    pub fn write_data(&mut self, ch: Channel, bits: u32)
        ensures
            *final(self) == old(self).with_data(ch, held_bits(bits)),
    {
        let kept = bits & DHR12_MASK;
        match ch {
            Channel::One => self.dhr12r1 = kept,
            Channel::Two => self.dhr12r2 = kept,
        }
    }

    /// Reads the 12-bit value field of the data-holding register of `ch`.
    pub fn read_field(&self, ch: Channel) -> (r: u16)
        ensures
            r == held_bits(self.data(ch)),
    {
        let bits = match ch {
            Channel::One => self.dhr12r1,
            Channel::Two => self.dhr12r2,
        };
        let field = bits & DHR12_MASK;
        assert(field <= 0xfff) by (bit_vector)
            requires
                field == bits & 0x0fff,
        ;
        field as u16
    }
}

/// A register of the clock-control unit that the driver writes.
#[derive(Clone, Copy, Debug, PartialEq, Eq, Structural)]
pub enum RccReg {
    Apb1enr,
    Apb1rstr,
}

/// The clock-control registers of the bus that the DAC sits on, with the
/// sequence of writes made to them.
pub struct RccRegisters {
    pub apb1enr: u32,
    pub apb1rstr: u32,
    /// Every write, oldest first: which register and the word written.
    pub writes: Ghost<Seq<(RccReg, u32)>>,
}

impl RccRegisters {
    /// The current content of `reg`.
    pub open spec fn value(self, reg: RccReg) -> u32 {
        match reg {
            RccReg::Apb1enr => self.apb1enr,
            RccReg::Apb1rstr => self.apb1rstr,
        }
    }

    /// The registers in their post-reset state, with nothing written yet.
    pub fn new() -> (r: RccRegisters)
        ensures
            r.apb1enr == 0,
            r.apb1rstr == 0,
            r.writes@ == Seq::<(RccReg, u32)>::empty(),
    {
        RccRegisters { apb1enr: 0, apb1rstr: 0, writes: Ghost(Seq::empty()) }
    }

    /// Reads `reg`.
    pub fn read(&self, reg: RccReg) -> (r: u32)
        ensures
            r == self.value(reg),
    {
        match reg {
            RccReg::Apb1enr => self.apb1enr,
            RccReg::Apb1rstr => self.apb1rstr,
        }
    }

    /// Writes `word` to `reg` and records the write.
    pub fn write(&mut self, reg: RccReg, word: u32)
        ensures
            final(self).value(reg) == word,
            final(self).value(other_rcc_reg(reg)) == old(self).value(other_rcc_reg(reg)),
            final(self).writes@ == old(self).writes@.push((reg, word)),
    {
        match reg {
            RccReg::Apb1enr => self.apb1enr = word,
            RccReg::Apb1rstr => self.apb1rstr = word,
        }
        self.writes = Ghost(self.writes@.push((reg, word)));
    }
}

/// The clock-control register that is not `reg`.
pub open spec fn other_rcc_reg(reg: RccReg) -> RccReg {
    match reg {
        RccReg::Apb1enr => RccReg::Apb1rstr,
        RccReg::Apb1rstr => RccReg::Apb1enr,
    }
}

/// Exclusive ownership of the DAC peripheral.
///
/// It cannot be copied or cloned, and `take` hands out at most one per
/// `claimed` flag, so at most one set of channel identities is derived from it.
#[derive(Debug)]
pub struct Dac {
    _private: (),
}

impl Dac {
    /// Claims the peripheral, unless `claimed` says it was claimed before.
    pub fn take(claimed: &mut bool) -> (r: Option<Dac>)
        ensures
            r.is_some() == !*old(claimed),
            *final(claimed),
    {
        if *claimed {
            None
        } else {
            *claimed = true;
            Some(Dac { _private: () })
        }
    }
}

} // verus!
