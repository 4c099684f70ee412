//! Channel identities, the pin-to-channel mapping, peripheral bring-up and
//! the per-channel output operations.
use vstd::prelude::*;

use crate::gpio::{Floating, Input, Sealed, PA4, PA5};
use crate::registers::{
    enable_bit, held_bits, Channel, Dac, DacRegisters, RccReg, RccRegisters, DACEN, DACRST, EN1,
    EN2,
};

verus! {

/// Relies on `cast::u32`: widening a `u16` to `u32` is lossless.
#[verifier::external_body]
fn widen(v: u16) -> (r: u32)
    ensures
        r == v as u32,
{
    cast::u32(v)
}

/// A numeric width in which values are written to and read from a channel.
///
/// The value's bits go into the 12-bit register field unscaled; reading the
/// field back yields its low-order bits at this width.
pub trait DacValue: Sized {
    /// The word handed to the data-holding register.
    spec fn raw(self) -> u32;

    /// The value read back from the 12-bit field `field`.
    spec fn from_field(field: u16) -> Self;

    /// The word handed to the data-holding register.
    fn to_raw(&self) -> (r: u32)
        ensures
            r == self.raw(),
    ;

    /// The value read back from the 12-bit field `field`.
    fn of_field(field: u16) -> (r: Self)
        ensures
            r == Self::from_field(field),
    ;
}

/// The native width: 12-bit values in a 16-bit container.
impl DacValue for u16 {
    open spec fn raw(self) -> u32 {
        self as u32
    }

    open spec fn from_field(field: u16) -> u16 {
        field
    }

    fn to_raw(&self) -> (r: u32) {
        widen(*self)
    }

    fn of_field(field: u16) -> (r: u16) {
        field
    }
}

/// The narrow width: the value occupies the low 8 bits of the field, and a
/// read keeps only those.
impl DacValue for u8 {
    open spec fn raw(self) -> u32 {
        self as u32
    }

    open spec fn from_field(field: u16) -> u8 {
        field as u8
    }

    fn to_raw(&self) -> (r: u32) {
        widen(*self as u16)
    }

    fn of_field(field: u16) -> (r: u8) {
        field as u8
    }
}

/// The register block after `v` is written to the data-holding register of
/// `ch`: its bits, unscaled, cut to the 12-bit field; nothing else changes.
pub open spec fn written<V: DacValue>(regs: DacRegisters, ch: Channel, v: V) -> DacRegisters {
    regs.with_data(ch, held_bits(v.raw()))
}

/// The value of width `V` read back from the data-holding register of `ch`.
pub open spec fn read_back<V: DacValue>(regs: DacRegisters, ch: Channel) -> V {
    V::from_field(held_bits(regs.data(ch)) as u16)
}

/// A channel identity: which physical channel a token stands for.
pub trait DacChannel {
    spec fn id() -> Channel;
}

/// Channel 1's identity, obtainable only from `dac`.
#[derive(Debug)]
pub struct C1 {
    _private: (),
}

/// Channel 2's identity, obtainable only from `dac`.
#[derive(Debug)]
pub struct C2 {
    _private: (),
}

impl DacChannel for C1 {
    open spec fn id() -> Channel {
        Channel::One
    }
}

impl DacChannel for C2 {
    open spec fn id() -> Channel {
        Channel::Two
    }
}

/// Writing and reading back a channel's data-holding register at width `V`.
pub trait DacOut<V: DacValue>: DacChannel {
    /// Writes `val`'s bits, unscaled, to this channel's data-holding register;
    /// bits above the 12-bit field are dropped by the hardware.
    fn set_value(&mut self, regs: &mut DacRegisters, val: V)
        ensures
            *final(regs) == written(*old(regs), Self::id(), val),
    ;

    /// Reads this channel's 12-bit field back at width `V`.
    fn get_value(&mut self, regs: &DacRegisters) -> (r: V)
        ensures
            r == read_back::<V>(*regs, Self::id()),
    ;
}

/// Enabling a channel's analog output.
pub trait DacPin: DacChannel {
    /// Sets this channel's output-enable bit in the shared control register,
    /// leaving every other bit and register as it was.
    fn enable(&mut self, regs: &mut DacRegisters)
        ensures
            *final(regs) == old(regs).with_cr(old(regs).cr | enable_bit(Self::id())),
    ;
}

impl DacPin for C1 {
    fn enable(&mut self, regs: &mut DacRegisters) {
        regs.set_cr_bits(EN1);
    }
}

impl DacPin for C2 {
    fn enable(&mut self, regs: &mut DacRegisters) {
        regs.set_cr_bits(EN2);
    }
}

impl<V: DacValue> DacOut<V> for C1 {
    fn set_value(&mut self, regs: &mut DacRegisters, val: V) {
        let bits = val.to_raw();
        regs.write_data(Channel::One, bits);
    }

    fn get_value(&mut self, regs: &DacRegisters) -> (r: V) {
        let field = regs.read_field(Channel::One);
        V::of_field(field)
    }
}

impl<V: DacValue> DacOut<V> for C2 {
    fn set_value(&mut self, regs: &mut DacRegisters, val: V) {
        let bits = val.to_raw();
        regs.write_data(Channel::Two, bits);
    }

    fn get_value(&mut self, regs: &DacRegisters) -> (r: V) {
        let field = regs.read_field(Channel::Two);
        V::of_field(field)
    }
}

/// The compile-time mapping from pin tokens to the channel identities that
/// they unlock on peripheral `P`.
///
/// Only pin sets wired to the peripheral implement it, and no other crate
/// can add an implementation, so `dac` does not accept any other.
pub trait Pins<P>: Sealed {
    /// The channel identity, or pair of identities, that these pins unlock.
    type Output;

    /// Consumes the pin tokens together with the peripheral handle and makes
    /// their channel identities.
    fn into_channels(self, peripheral: P) -> Self::Output;
}

impl Pins<Dac> for PA4<Input<Floating>> {
    type Output = C1;

    fn into_channels(self, _peripheral: Dac) -> C1 {
        C1 { _private: () }
    }
}

impl Pins<Dac> for PA5<Input<Floating>> {
    type Output = C2;

    fn into_channels(self, _peripheral: Dac) -> C2 {
        C2 { _private: () }
    }
}

impl Pins<Dac> for (PA4<Input<Floating>>, PA5<Input<Floating>>) {
    type Output = (C1, C2);

    fn into_channels(self, _peripheral: Dac) -> (C1, C2) {
        (C1 { _private: () }, C2 { _private: () })
    }
}

/// The clock-control registers after the DAC bring-up sequence: the clock
/// enabled, then the reset bit pulsed, all other bits untouched.
pub open spec fn brought_up(before: RccRegisters, after: RccRegisters) -> bool {
    let enr = before.apb1enr | DACEN;
    let rst = before.apb1rstr | DACRST;
    let released = rst & !DACRST;
    &&& after.apb1enr == enr
    &&& after.apb1rstr == released
    &&& after.writes@ =~= before.writes@ + seq![
        (RccReg::Apb1enr, enr),
        (RccReg::Apb1rstr, rst),
        (RccReg::Apb1rstr, released),
    ]
}

/// Brings up the DAC and returns the channel identities of `pins`.
///
/// Consumes the peripheral handle and the pin tokens. Enables the DAC clock,
/// then sets and clears its reset bit, each by a read-modify-write. The reset
/// pulse returns the DAC's registers to their post-reset state: no channel
/// enabled, both data-holding registers zero.
pub fn dac<PINS: Pins<Dac>>(
    peripheral: Dac,
    pins: PINS,
    rcc: &mut RccRegisters,
    regs: &mut DacRegisters,
) -> (r: PINS::Output)
    ensures
        brought_up(*old(rcc), *final(rcc)),
        final(regs).cr == 0,
        final(regs).dhr12r1 == 0,
        final(regs).dhr12r2 == 0,
{
    let enr = rcc.read(RccReg::Apb1enr);
    rcc.write(RccReg::Apb1enr, enr | DACEN);
    let rstr = rcc.read(RccReg::Apb1rstr);
    rcc.write(RccReg::Apb1rstr, rstr | DACRST);
    regs.reset();
    let rstr = rcc.read(RccReg::Apb1rstr);
    rcc.write(RccReg::Apb1rstr, rstr & !DACRST);
    pins.into_channels(peripheral)
}

/// Bring-up as a method of the peripheral handle.
pub trait DacExt: Sized {
    /// Brings up the peripheral and returns the channel identities of `pins`.
    fn dac<PINS: Pins<Dac>>(
        self,
        pins: PINS,
        rcc: &mut RccRegisters,
        regs: &mut DacRegisters,
    ) -> (r: PINS::Output)
        ensures
            brought_up(*old(rcc), *final(rcc)),
            final(regs).cr == 0,
            final(regs).dhr12r1 == 0,
            final(regs).dhr12r2 == 0,
    ;
}

impl DacExt for Dac {
    fn dac<PINS: Pins<Dac>>(
        self,
        pins: PINS,
        rcc: &mut RccRegisters,
        regs: &mut DacRegisters,
    ) -> (r: PINS::Output) {
        dac(self, pins, rcc, regs)
    }
}

/// The 12-bit value that a proportional rescaling would give for the 8-bit
/// value `v` (0 to 0, 255 to 4095).
pub open spec fn proportional_12(v: u8) -> int {
    v * 4095 / 255
}

/// Bring-up enables the DAC clock first, then sets the reset bit, then clears
/// it; the clock stays enabled, the reset is released, and no other bit of
/// either register changes.
pub proof fn bring_up_order(before: RccRegisters, after: RccRegisters)
    requires
        brought_up(before, after),
    ensures
        ({
            let n = before.writes@.len() as int;
            &&& after.writes@.len() == n + 3
            &&& after.writes@.subrange(0, n) == before.writes@
            &&& after.writes@[n].0 == RccReg::Apb1enr && after.writes@[n].1 & DACEN == DACEN
            &&& after.writes@[n + 1].0 == RccReg::Apb1rstr && after.writes@[n + 1].1 & DACRST
                == DACRST
            &&& after.writes@[n + 2].0 == RccReg::Apb1rstr && after.writes@[n + 2].1 & DACRST == 0
        }),
        after.apb1enr & DACEN == DACEN,
        after.apb1rstr & DACRST == 0,
        after.apb1enr & !DACEN == before.apb1enr & !DACEN,
        after.apb1rstr & !DACRST == before.apb1rstr & !DACRST,
{
    let n = before.writes@.len() as int;
    assert(after.writes@.subrange(0, n) =~= before.writes@);
    let enr = before.apb1enr;
    let rstr = before.apb1rstr;
    assert((enr | 0x2000_0000u32) & 0x2000_0000u32 == 0x2000_0000u32) by (bit_vector);
    assert((rstr | 0x2000_0000u32) & 0x2000_0000u32 == 0x2000_0000u32) by (bit_vector);
    assert(((rstr | 0x2000_0000u32) & !0x2000_0000u32) & 0x2000_0000u32 == 0) by (bit_vector);
    assert((enr | 0x2000_0000u32) & !0x2000_0000u32 == enr & !0x2000_0000u32) by (bit_vector);
    assert(((rstr | 0x2000_0000u32) & !0x2000_0000u32) & !0x2000_0000u32 == rstr
        & !0x2000_0000u32) by (bit_vector);
}

/// Enabling channel `ch` sets its own enable bit and no other bit of the
/// control register: the other channel's enable state and both data-holding
/// registers are as before.
pub proof fn enable_sets_only_own_bit(regs: DacRegisters, ch: Channel)
    ensures
        ({
            let after = regs.with_cr(regs.cr | enable_bit(ch));
            &&& after.is_enabled(ch)
            &&& after.is_enabled(ch.other()) == regs.is_enabled(ch.other())
            &&& after.cr & !enable_bit(ch) == regs.cr & !enable_bit(ch)
            &&& after.data(Channel::One) == regs.data(Channel::One)
            &&& after.data(Channel::Two) == regs.data(Channel::Two)
        }),
{
    let cr = regs.cr;
    assert((cr | 1u32) & 1u32 != 0) by (bit_vector);
    assert((cr | 0x1_0000u32) & 0x1_0000u32 != 0) by (bit_vector);
    assert((cr | 1u32) & 0x1_0000u32 == cr & 0x1_0000u32) by (bit_vector);
    assert((cr | 0x1_0000u32) & 1u32 == cr & 1u32) by (bit_vector);
    assert((cr | 1u32) & !1u32 == cr & !1u32) by (bit_vector);
    assert((cr | 0x1_0000u32) & !0x1_0000u32 == cr & !0x1_0000u32) by (bit_vector);
}

/// At the native width, every 12-bit value written to a channel reads back
/// unchanged.
pub proof fn wide_round_trip(regs: DacRegisters, ch: Channel, v: u16)
    requires
        v < 4096,
    ensures
        read_back::<u16>(written(regs, ch, v), ch) == v,
{
    assert((v as u32) & 0x0fffu32 == v as u32) by (bit_vector)
        requires
            v < 4096,
    ;
}

/// At the narrow width, every 8-bit value reads back unchanged, and it sits
/// unscaled in the low bits of the field: read at the native width it is
/// the same number, not its proportional 12-bit equivalent.
pub proof fn narrow_round_trip_unscaled(regs: DacRegisters, ch: Channel, v: u8)
    ensures
        read_back::<u8>(written(regs, ch, v), ch) == v,
        read_back::<u16>(written(regs, ch, v), ch) == v as u16,
        v > 0 ==> read_back::<u16>(written(regs, ch, v), ch) != proportional_12(v),
{
    assert((v as u32) & 0x0fffu32 == v as u32) by (bit_vector);
    assert(v > 0 ==> v * 4095 / 255 >= 16 * v) by (nonlinear_arith);
}

/// Writing one channel leaves the other channel's register, and so what it
/// reads back at any width, as well as the control register, unchanged.
pub proof fn no_cross_talk<V: DacValue, W: DacValue>(regs: DacRegisters, ch: Channel, v: V)
    ensures
        written(regs, ch, v).data(ch.other()) == regs.data(ch.other()),
        read_back::<W>(written(regs, ch, v), ch.other()) == read_back::<W>(regs, ch.other()),
        written(regs, ch, v).cr == regs.cr,
{
}

} // verus!
