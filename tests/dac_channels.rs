use dac_hal::{
    dac, Dac, DacExt, DacOut, DacPin, DacRegisters, DacValue, RccRegisters, C1, C2, DACEN,
    DACRST, EN1, EN2, PA4, PA5,
};

fn claim() -> Dac {
    let mut claimed = false;
    Dac::take(&mut claimed).expect("first claim succeeds")
}

fn acquire_both() -> (C1, C2, DacRegisters) {
    let mut rcc = RccRegisters::new();
    let mut regs = DacRegisters::new();
    let (c1, c2) = dac(
        claim(),
        (PA4::floating_input(), PA5::floating_input()),
        &mut rcc,
        &mut regs,
    );
    (c1, c2, regs)
}

#[test]
fn acquire_single_pin_channel_one() {
    let mut rcc = RccRegisters::new();
    let mut regs = DacRegisters::new();
    let c1: C1 = dac(claim(), PA4::floating_input(), &mut rcc, &mut regs);
    let _ = c1;
}

#[test]
fn acquire_single_pin_channel_two() {
    let mut rcc = RccRegisters::new();
    let mut regs = DacRegisters::new();
    let c2: C2 = dac(claim(), PA5::floating_input(), &mut rcc, &mut regs);
    let _ = c2;
}

#[test]
fn acquire_pin_pair() {
    let mut rcc = RccRegisters::new();
    let mut regs = DacRegisters::new();
    let (c1, c2): (C1, C2) = claim().dac(
        (PA4::floating_input(), PA5::floating_input()),
        &mut rcc,
        &mut regs,
    );
    let _ = (c1, c2);
}

#[test]
fn handle_is_claimed_once() {
    let mut claimed = false;
    assert!(Dac::take(&mut claimed).is_some());
    assert!(claimed);
    assert!(Dac::take(&mut claimed).is_none());
}

#[test]
fn bring_up_enables_clock_and_releases_reset() {
    let mut rcc = RccRegisters::new();
    let mut regs = DacRegisters::new();
    let _c1: C1 = dac(claim(), PA4::floating_input(), &mut rcc, &mut regs);
    assert_eq!(rcc.apb1enr, DACEN);
    assert_eq!(rcc.apb1rstr, 0);
}

#[test]
fn bring_up_keeps_other_clock_bits() {
    let mut rcc = RccRegisters::new();
    rcc.apb1enr = 0x0000_0011;
    rcc.apb1rstr = 0x0000_0200 | DACRST;
    let mut regs = DacRegisters::new();
    let _c2: C2 = dac(claim(), PA5::floating_input(), &mut rcc, &mut regs);
    assert_eq!(rcc.apb1enr, 0x0000_0011 | DACEN);
    assert_eq!(rcc.apb1rstr, 0x0000_0200);
}

#[test]
fn bring_up_resets_dac_registers() {
    let mut rcc = RccRegisters::new();
    let mut regs = DacRegisters::new();
    regs.cr = EN1 | EN2;
    regs.dhr12r1 = 0x0123;
    regs.dhr12r2 = 0x0fff;
    let (mut c1, mut c2): (C1, C2) = dac(
        claim(),
        (PA4::floating_input(), PA5::floating_input()),
        &mut rcc,
        &mut regs,
    );
    assert_eq!(regs.cr, 0);
    let v1: u16 = c1.get_value(&regs);
    let v2: u16 = c2.get_value(&regs);
    assert_eq!(v1, 0);
    assert_eq!(v2, 0);
}

#[test]
fn enable_channel_one_sets_only_its_bit() {
    let (mut c1, _c2, mut regs) = acquire_both();
    c1.enable(&mut regs);
    assert_eq!(regs.cr, EN1);
    assert_eq!(regs.cr & EN2, 0);
}

#[test]
fn enable_channel_two_sets_only_its_bit() {
    let (_c1, mut c2, mut regs) = acquire_both();
    regs.cr = 0x0000_0004;
    c2.enable(&mut regs);
    assert_eq!(regs.cr, 0x0000_0004 | EN2);
    assert_eq!(regs.cr & EN1, 0);
}

#[test]
fn enable_is_idempotent() {
    let (mut c1, mut c2, mut regs) = acquire_both();
    c1.enable(&mut regs);
    c2.enable(&mut regs);
    c1.enable(&mut regs);
    assert_eq!(regs.cr, EN1 | EN2);
    assert_eq!(regs.dhr12r1, 0);
    assert_eq!(regs.dhr12r2, 0);
}

#[test]
fn wide_values_round_trip() {
    let (mut c1, mut c2, mut regs) = acquire_both();
    for v in 0u16..4096 {
        c1.set_value(&mut regs, v);
        let r1: u16 = c1.get_value(&regs);
        assert_eq!(r1, v);
        c2.set_value(&mut regs, v);
        let r2: u16 = c2.get_value(&regs);
        assert_eq!(r2, v);
    }
}

#[test]
fn wide_value_above_field_is_truncated() {
    let (mut c1, _c2, mut regs) = acquire_both();
    c1.set_value(&mut regs, 0x1234u16);
    assert_eq!(regs.dhr12r1, 0x234);
    let r: u16 = c1.get_value(&regs);
    assert_eq!(r, 0x234);
    c1.set_value(&mut regs, u16::MAX);
    let r: u16 = c1.get_value(&regs);
    assert_eq!(r, 0x0fff);
}

#[test]
fn narrow_values_round_trip_unscaled() {
    let (_c1, mut c2, mut regs) = acquire_both();
    for v in 0u8..=255 {
        c2.set_value(&mut regs, v);
        let narrow: u8 = c2.get_value(&regs);
        assert_eq!(narrow, v);
        let wide: u16 = c2.get_value(&regs);
        assert_eq!(wide, v as u16);
        let scaled = (v as u32) * 4095 / 255;
        if v > 0 {
            assert_ne!(wide as u32, scaled);
        }
    }
}

#[test]
fn narrow_read_of_wide_value_keeps_low_bits() {
    let (mut c1, _c2, mut regs) = acquire_both();
    c1.set_value(&mut regs, 0x0abcu16);
    let narrow: u8 = c1.get_value(&regs);
    assert_eq!(narrow, 0xbc);
}

#[test]
fn narrow_full_scale_is_not_rescaled() {
    let (mut c1, _c2, mut regs) = acquire_both();
    c1.set_value(&mut regs, 255u8);
    let wide: u16 = c1.get_value(&regs);
    assert_eq!(wide, 255);
    assert_ne!(wide, 4095);
}

#[test]
fn single_pin_enable_set_get() {
    let mut rcc = RccRegisters::new();
    let mut regs = DacRegisters::new();
    let mut c1: C1 = dac(claim(), PA4::floating_input(), &mut rcc, &mut regs);
    c1.enable(&mut regs);
    c1.set_value(&mut regs, 2048u16);
    let v: u16 = c1.get_value(&regs);
    assert_eq!(v, 2048u16);
    assert_eq!(regs.cr, EN1);
}

#[test]
fn pin_pair_channels_have_no_cross_talk() {
    let mut rcc = RccRegisters::new();
    let mut regs = DacRegisters::new();
    let (mut c1, mut c2): (C1, C2) = dac(
        claim(),
        (PA4::floating_input(), PA5::floating_input()),
        &mut rcc,
        &mut regs,
    );
    c1.set_value(&mut regs, 1000u16);
    c2.set_value(&mut regs, 3000u16);
    let v1: u16 = c1.get_value(&regs);
    let v2: u16 = c2.get_value(&regs);
    assert_eq!(v1, 1000);
    assert_eq!(v2, 3000);
    c2.set_value(&mut regs, 17u8);
    let v1: u16 = c1.get_value(&regs);
    assert_eq!(v1, 1000);
    let v2: u8 = c2.get_value(&regs);
    assert_eq!(v2, 17);
}

#[test]
fn raw_bits_of_values() {
    assert_eq!(2048u16.to_raw(), 2048u32);
    assert_eq!(0xabcdu16.to_raw(), 0xabcdu32);
    assert_eq!(200u8.to_raw(), 200u32);
    assert_eq!(<u16 as DacValue>::of_field(0x0fff), 0x0fff);
    assert_eq!(<u8 as DacValue>::of_field(0x0fff), 0xff);
}
