//! Typed pin tokens, as handed out by the GPIO layer.
//!
//! A token stands for exclusive use of one pin in one electrical mode; it has
//! no runtime content.
use core::marker::PhantomData;
use vstd::prelude::*;

verus! {

/// Floating (neither pulled up nor down) input mode.
#[derive(Debug)]
pub struct Floating;

/// Input mode, with its pull configuration `MODE`.
#[derive(Debug)]
pub struct Input<MODE> {
    _mode: PhantomData<MODE>,
}

/// Pin 4 of port A, in mode `MODE`.
#[derive(Debug)]
pub struct PA4<MODE> {
    _mode: PhantomData<MODE>,
}

/// Pin 5 of port A, in mode `MODE`.
#[derive(Debug)]
pub struct PA5<MODE> {
    _mode: PhantomData<MODE>,
}

impl PA4<Input<Floating>> {
    /// The token of pin 4 of port A configured as a floating input.
    pub fn floating_input() -> Self {
        PA4 { _mode: PhantomData }
    }
}

impl PA5<Input<Floating>> {
    /// The token of pin 5 of port A configured as a floating input.
    pub fn floating_input() -> Self {
        PA5 { _mode: PhantomData }
    }
}

/// Implemented only by the pin sets of this module, and not nameable from
/// outside the crate, so no other crate can add a pin mapping.
pub trait Sealed {}

impl Sealed for PA4<Input<Floating>> {}

impl Sealed for PA5<Input<Floating>> {}

impl Sealed for (PA4<Input<Floating>>, PA5<Input<Floating>>) {}

} // verus!
