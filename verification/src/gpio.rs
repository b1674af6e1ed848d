//! General Purpose Input/Output (GPIO)
//!
//! Typestates of a pin and the bit of the port registers that belongs to
//! it. The port registers are read and written by the caller; a pin says
//! which bit to look at or change.

use crate::Sealed;
use core::marker::PhantomData;
use vstd::prelude::*;

verus! {

/// Marker trait for GPIO pin modes.
pub trait PinMode: Sealed {}

pub struct Input;

pub struct InputOutput;

pub struct Af1;

pub struct Af2;

impl Sealed for Input {}

impl Sealed for InputOutput {}

impl Sealed for Af1 {}

impl Sealed for Af2 {}

impl PinMode for Input {}

impl PinMode for InputOutput {}

impl PinMode for Af1 {}

impl PinMode for Af2 {}

/// Marker trait for GPIO pin power supply.
pub trait PowerSupply: Sealed {}

pub struct Vddio;

pub struct Vddioh;

impl Sealed for Vddio {}

impl Sealed for Vddioh {}

impl PowerSupply for Vddio {}

impl PowerSupply for Vddioh {}

/// Marker trait for GPIO pin input pad modes.
pub trait PadMode: Sealed {}

pub struct HighImpedance;

pub struct PullUpWeak;

pub struct PullUpStrong;

pub struct PullDownWeak;

pub struct PullDownStrong;

impl Sealed for HighImpedance {}

impl Sealed for PullUpWeak {}

impl Sealed for PullUpStrong {}

impl Sealed for PullDownWeak {}

impl Sealed for PullDownStrong {}

impl PadMode for HighImpedance {}

impl PadMode for PullUpWeak {}

impl PadMode for PullUpStrong {}

impl PadMode for PullDownWeak {}

impl PadMode for PullDownStrong {}

/// Marker trait for GPIO pin output drive strengths.
pub trait DriveStrength: Sealed {}

pub struct Strength0;

pub struct Strength1;

pub struct Strength2;

pub struct Strength3;

impl Sealed for Strength0 {}

impl Sealed for Strength1 {}

impl Sealed for Strength2 {}

impl Sealed for Strength3 {}

impl DriveStrength for Strength0 {}

impl DriveStrength for Strength1 {}

impl DriveStrength for Strength2 {}

impl DriveStrength for Strength3 {}

/// The bit of pin `n` in its port's registers.
pub open spec fn pin_mask(n: u8) -> u32 {
    (1u32 << n) as u32
}

/// Pins are independent: setting or clearing pin `n`'s bit in a port
/// register makes it read as set or clear, and leaves the bit of every other
/// pin `m` as it was.
pub proof fn lemma_pins_independent(n: u8, m: u8, word: u32)
    requires
        n < 32,
        m < 32,
    ensures
        (word | pin_mask(n)) & pin_mask(n) != 0,
        (word & !pin_mask(n)) & pin_mask(n) == 0,
        n != m ==> (word | pin_mask(n)) & pin_mask(m) == word & pin_mask(m),
        n != m ==> (word & !pin_mask(n)) & pin_mask(m) == word & pin_mask(m),
{
    assert({
        &&& (word | (1u32 << n)) & (1u32 << n) != 0
        &&& (word & !(1u32 << n)) & (1u32 << n) == 0
        &&& n != m ==> (word | (1u32 << n)) & (1u32 << m) == word & (1u32 << m)
        &&& n != m ==> (word & !(1u32 << n)) & (1u32 << m) == word & (1u32 << m)
    }) by (bit_vector)
        requires
            n < 32,
            m < 32,
    ;
}

/// Zero-sized abstraction type for a GPIO pin.
///
/// - `P` is the GPIO port number (e.g. `0` for `Gpio0`, `1` for `Gpio1`, etc.)
/// - `N` is the GPIO pin number.
/// - `MODE` is one of the pin modes (e.g. `Input`, `InputOutput`, `Af1`, `Af2`).
pub struct Pin<
    const P: u8,
    const N: u8,
    MODE: PinMode = Input,
    SUPPLY: PowerSupply = Vddio,
    PAD: PadMode = HighImpedance,
    DRIVE: DriveStrength = Strength0,
> {
    _mode: PhantomData<MODE>,
    _supply: PhantomData<SUPPLY>,
    _pad: PhantomData<PAD>,
    _drive: PhantomData<DRIVE>,
}

/// A write of a pin's bit to one of its port's atomic set or clear
/// registers.
#[derive(Clone, Copy, PartialEq, Eq, Debug, Structural)]
pub enum PortReg {
    /// `OUTEN_SET`: enable the output driver
    OutenSet,
    /// `OUTEN_CLR`: disable the output driver
    OutenClr,
    /// `EN0_SET`
    En0Set,
    /// `EN0_CLR`
    En0Clr,
    /// `EN1_SET`
    En1Set,
    /// `EN1_CLR`
    En1Clr,
}

impl<
    const P: u8,
    const N: u8,
    MODE: PinMode,
    SUPPLY: PowerSupply,
    PAD: PadMode,
    DRIVE: DriveStrength,
> Pin<P, N, MODE, SUPPLY, PAD, DRIVE> {
    /// A port has 32 pins.
    #[verifier::type_invariant]
    closed spec fn pin_exists(self) -> bool {
        N < 32
    }
}

/// Methods that work in every pin mode.
impl<const P: u8, const N: u8, MODE: PinMode> Pin<P, N, MODE> {
    /// Take pin `N` of port `P`. Only the port's peripheral hands out pins,
    /// once each.
    pub fn new() -> Self
        requires
            N < 32,
    {
        Self { _mode: PhantomData, _supply: PhantomData, _pad: PhantomData, _drive: PhantomData }
    }

    /// This pin's bit in its port's registers.
    pub fn mask(&self) -> (mask: u32)
        requires
            N < 32,
        ensures
            mask == pin_mask(N),
    {
        1u32 << N
    }

    /// Whether the pin reads high, given the port's input register `input`.
    pub fn is_high(&self, input: u32) -> (high: bool)
        requires
            N < 32,
        ensures
            high == (input & pin_mask(N) != 0),
    {
        input & self.mask() != 0
    }

    /// Whether the pin reads low, given the port's input register `input`.
    pub fn is_low(&self, input: u32) -> (low: bool)
        requires
            N < 32,
        ensures
            low == (input & pin_mask(N) == 0),
    {
        input & self.mask() == 0
    }
}

/// Methods for input pins.
impl<const P: u8, const N: u8> Pin<P, N, Input> {
    /// The pin as an input/output pin, and the write that makes it one: its
    /// bit to the port's output enable set register.
    pub fn into_input_output(self) -> (result: (Pin<P, N, InputOutput>, Vec<(PortReg, u32)>))
        ensures
            result.1@ == seq![(PortReg::OutenSet, pin_mask(N))],
    {
        proof {
            use_type_invariant(&self);
        }
        let mask = self.mask();
        let mut writes: Vec<(PortReg, u32)> = Vec::new();
        writes.push((PortReg::OutenSet, mask));
        assert(writes@ =~= seq![(PortReg::OutenSet, pin_mask(N))]);
        (Pin { _mode: PhantomData, _supply: PhantomData, _pad: PhantomData, _drive: PhantomData }, writes)
    }

    /// The pin as an alternate function 1 pin, and the writes that make it
    /// one, in order: its bit to `EN0_SET`, `EN1_CLR`, then `EN0_CLR`.
    pub fn into_af1(self) -> (result: (Pin<P, N, Af1>, Vec<(PortReg, u32)>))
        ensures
            result.1@ == seq![
                (PortReg::En0Set, pin_mask(N)),
                (PortReg::En1Clr, pin_mask(N)),
                (PortReg::En0Clr, pin_mask(N)),
            ],
    {
        proof {
            use_type_invariant(&self);
        }
        let mask = self.mask();
        let mut writes: Vec<(PortReg, u32)> = Vec::new();
        writes.push((PortReg::En0Set, mask));
        writes.push((PortReg::En1Clr, mask));
        writes.push((PortReg::En0Clr, mask));
        assert(writes@ =~= seq![
            (PortReg::En0Set, pin_mask(N)),
            (PortReg::En1Clr, pin_mask(N)),
            (PortReg::En0Clr, pin_mask(N)),
        ]);
        (Pin { _mode: PhantomData, _supply: PhantomData, _pad: PhantomData, _drive: PhantomData }, writes)
    }

    /// The pin as an alternate function 2 pin, and the writes that make it
    /// one, in order: its bit to `EN1_SET`, then `EN0_CLR`.
    pub fn into_af2(self) -> (result: (Pin<P, N, Af2>, Vec<(PortReg, u32)>))
        ensures
            result.1@ == seq![(PortReg::En1Set, pin_mask(N)), (PortReg::En0Clr, pin_mask(N))],
    {
        proof {
            use_type_invariant(&self);
        }
        let mask = self.mask();
        let mut writes: Vec<(PortReg, u32)> = Vec::new();
        writes.push((PortReg::En1Set, mask));
        writes.push((PortReg::En0Clr, mask));
        assert(writes@ =~= seq![(PortReg::En1Set, pin_mask(N)), (PortReg::En0Clr, pin_mask(N))]);
        (Pin { _mode: PhantomData, _supply: PhantomData, _pad: PhantomData, _drive: PhantomData }, writes)
    }
}

/// Methods for input/output pins.
impl<const P: u8, const N: u8> Pin<P, N, InputOutput> {
    /// The pin as an input pin, and the write that makes it one: its bit to
    /// the port's output enable clear register.
    pub fn into_input(self) -> (result: (Pin<P, N, Input>, Vec<(PortReg, u32)>))
        ensures
            result.1@ == seq![(PortReg::OutenClr, pin_mask(N))],
    {
        proof {
            use_type_invariant(&self);
        }
        let mask = self.mask();
        let mut writes: Vec<(PortReg, u32)> = Vec::new();
        writes.push((PortReg::OutenClr, mask));
        assert(writes@ =~= seq![(PortReg::OutenClr, pin_mask(N))]);
        (Pin { _mode: PhantomData, _supply: PhantomData, _pad: PhantomData, _drive: PhantomData }, writes)
    }

    /// The word to write to the port's output set register to drive the
    /// pin high.
    pub fn set_high(&mut self) -> (set: u32)
        requires
            N < 32,
        ensures
            set == pin_mask(N),
            *final(self) == *old(self),
    {
        self.mask()
    }

    /// The word to write to the port's output clear register to drive the
    /// pin low.
    pub fn set_low(&mut self) -> (clear: u32)
        requires
            N < 32,
        ensures
            clear == pin_mask(N),
            *final(self) == *old(self),
    {
        self.mask()
    }

    /// Whether the pin is driven high, given the port's output register.
    pub fn is_set_high(&self, output: u32) -> (high: bool)
        requires
            N < 32,
        ensures
            high == (output & pin_mask(N) != 0),
    {
        output & self.mask() != 0
    }

    /// Whether the pin is driven low, given the port's output register.
    pub fn is_set_low(&self, output: u32) -> (low: bool)
        requires
            N < 32,
        ensures
            low == (output & pin_mask(N) == 0),
    {
        output & self.mask() == 0
    }

    /// The port's voltage select register with this pin moved to VDDIO,
    /// given its current value `vssel`.
    pub fn set_power_vddio(&mut self, vssel: u32) -> (updated: u32)
        requires
            N < 32,
        ensures
            updated == vssel & !pin_mask(N),
            *final(self) == *old(self),
    {
        vssel & !self.mask()
    }

    /// The port's voltage select register with this pin moved to VDDIOH,
    /// given its current value `vssel`.
    pub fn set_power_vddioh(&mut self, vssel: u32) -> (updated: u32)
        requires
            N < 32,
        ensures
            updated == vssel | pin_mask(N),
            *final(self) == *old(self),
    {
        vssel | self.mask()
    }
}

} // verus!
