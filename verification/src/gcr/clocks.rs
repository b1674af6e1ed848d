//! # Clock and Oscillator Configuration
//!
//! A typestate API for enabling oscillators, configuring the system clock,
//! and calculating clock frequencies. The register writes that accompany
//! each transition are made by the caller before it takes the new state.

use crate::Sealed;
use core::marker::PhantomData;
use vstd::prelude::*;

verus! {

/// The oscillators the system clock can select.
#[derive(Clone, Copy, PartialEq, Eq, Debug, Structural)]
pub enum OscillatorSourceEnum {
    /// Internal Primary Oscillator (120 MHz)
    Ipo,
    /// Internal Secondary Oscillator (60 MHz)
    Iso,
    /// Internal Phase-Locked Loop (100/200 MHz)
    Ipll,
    /// Internal Baud Rate Oscillator (7.3728 MHz)
    Ibro,
    /// External RTC Oscillator (32.768 kHz)
    ///
    /// Requires initialization of the RTC peripheral. Currently unsupported.
    Ertco,
}

/// Frequency of an oscillator source. The PLL's is that of its system
/// branch; its CNN branch runs at twice this.
pub open spec fn base_frequency(source: OscillatorSourceEnum) -> u32 {
    match source {
        OscillatorSourceEnum::Ipo => 120_000_000,
        OscillatorSourceEnum::Iso => 60_000_000,
        OscillatorSourceEnum::Ipll => 100_000_000,
        OscillatorSourceEnum::Ibro => 7_372_800,
        OscillatorSourceEnum::Ertco => 32_768,
    }
}

/// Marker trait for an oscillator source.
pub trait OscillatorSource: Sealed {
    const SOURCE: OscillatorSourceEnum;
    const BASE_FREQUENCY: u32;

    /// A source's frequency is the one [`base_frequency`] gives it.
    proof fn lemma_source()
        ensures
            Self::BASE_FREQUENCY == base_frequency(Self::SOURCE),
    ;
}

#[derive(Clone, Copy)]
pub struct InternalPrimaryOscillator;

#[derive(Clone, Copy)]
pub struct InternalSecondaryOscillator;

#[derive(Clone, Copy)]
pub struct InternalPll;

#[derive(Clone, Copy)]
pub struct InternalBaudRateOscillator;

#[derive(Clone, Copy)]
pub struct ExternalRtcOscillator;

impl Sealed for InternalPrimaryOscillator {}

impl Sealed for InternalSecondaryOscillator {}

impl Sealed for InternalPll {}

impl Sealed for InternalBaudRateOscillator {}

impl Sealed for ExternalRtcOscillator {}

impl OscillatorSource for InternalPrimaryOscillator {
    const SOURCE: OscillatorSourceEnum = OscillatorSourceEnum::Ipo;
    const BASE_FREQUENCY: u32 = 120_000_000;

    proof fn lemma_source() {
    }
}

impl OscillatorSource for InternalSecondaryOscillator {
    const SOURCE: OscillatorSourceEnum = OscillatorSourceEnum::Iso;
    const BASE_FREQUENCY: u32 = 60_000_000;

    proof fn lemma_source() {
    }
}

impl OscillatorSource for InternalPll {
    const SOURCE: OscillatorSourceEnum = OscillatorSourceEnum::Ipll;
    /// System clock branch. The CNN branch runs at twice this.
    const BASE_FREQUENCY: u32 = 100_000_000;

    proof fn lemma_source() {
    }
}

impl InternalPll {
    /// Frequency of the PLL's CNN branch, twice the system branch.
    pub const CNN_FREQUENCY: u32 = 200_000_000;
}

impl OscillatorSource for InternalBaudRateOscillator {
    const SOURCE: OscillatorSourceEnum = OscillatorSourceEnum::Ibro;
    const BASE_FREQUENCY: u32 = 7_372_800;

    proof fn lemma_source() {
    }
}

impl OscillatorSource for ExternalRtcOscillator {
    const SOURCE: OscillatorSourceEnum = OscillatorSourceEnum::Ertco;
    const BASE_FREQUENCY: u32 = 32_768;

    proof fn lemma_source() {
    }
}

/// Marker trait for the state of an oscillator.
pub trait OscillatorState: Sealed {}

#[derive(Clone, Copy)]
pub struct Disabled;

#[derive(Clone, Copy)]
pub struct Enabled;

impl Sealed for Disabled {}

impl Sealed for Enabled {}

impl OscillatorState for Disabled {}

impl OscillatorState for Enabled {}

/// Marker trait for a clock option (enabled oscillator or derived clock).
pub trait ClockOption: Sealed {}

#[derive(Clone, Copy)]
pub struct SystemClock;

#[derive(Clone, Copy)]
pub struct PeripheralClock;

impl Sealed for SystemClock {}

impl Sealed for PeripheralClock {}

impl ClockOption for SystemClock {}

impl ClockOption for PeripheralClock {}

impl ClockOption for InternalPrimaryOscillator {}

impl ClockOption for InternalSecondaryOscillator {}

impl ClockOption for InternalPll {}

impl ClockOption for InternalBaudRateOscillator {}

impl ClockOption for ExternalRtcOscillator {}

/// Marker trait for the system clock divider.
pub trait SystemClockDivider: Sealed {
    const DIVISOR: u32;

    /// Every divider is one the divider field can hold.
    proof fn lemma_divisor()
        ensures
            valid_system_divisor(Self::DIVISOR),
    ;
}

pub struct DivUnknown;

pub struct Div1;

pub struct Div2;

pub struct Div4;

pub struct Div8;

pub struct Div16;

pub struct Div32;

pub struct Div64;

pub struct Div128;

impl Sealed for DivUnknown {}

impl Sealed for Div1 {}

impl Sealed for Div2 {}

impl Sealed for Div4 {}

impl Sealed for Div8 {}

impl Sealed for Div16 {}

impl Sealed for Div32 {}

impl Sealed for Div64 {}

impl Sealed for Div128 {}

impl SystemClockDivider for DivUnknown {
    const DIVISOR: u32 = 1;

    proof fn lemma_divisor() {
    }
}

impl SystemClockDivider for Div1 {
    const DIVISOR: u32 = 1;

    proof fn lemma_divisor() {
    }
}

impl SystemClockDivider for Div2 {
    const DIVISOR: u32 = 2;

    proof fn lemma_divisor() {
    }
}

impl SystemClockDivider for Div4 {
    const DIVISOR: u32 = 4;

    proof fn lemma_divisor() {
    }
}

impl SystemClockDivider for Div8 {
    const DIVISOR: u32 = 8;

    proof fn lemma_divisor() {
    }
}

impl SystemClockDivider for Div16 {
    const DIVISOR: u32 = 16;

    proof fn lemma_divisor() {
    }
}

impl SystemClockDivider for Div32 {
    const DIVISOR: u32 = 32;

    proof fn lemma_divisor() {
    }
}

impl SystemClockDivider for Div64 {
    const DIVISOR: u32 = 64;

    proof fn lemma_divisor() {
    }
}

impl SystemClockDivider for Div128 {
    const DIVISOR: u32 = 128;

    proof fn lemma_divisor() {
    }
}

/// Whether `divisor` is one the system clock divider field can hold.
pub open spec fn valid_system_divisor(divisor: u32) -> bool {
    divisor == 1 || divisor == 2 || divisor == 4 || divisor == 8 || divisor == 16
        || divisor == 32 || divisor == 64 || divisor == 128
}

/// The `CLKCTRL.SYSCLK_DIV` field value that selects `divisor`: its
/// base-two logarithm.
pub fn sysclk_div_field(divisor: u32) -> (field: u8)
    requires
        valid_system_divisor(divisor),
    ensures
        field < 8,
        1u32 << field == divisor,
{
    let field: u8 = if divisor == 1 {
        0
    } else if divisor == 2 {
        1
    } else if divisor == 4 {
        2
    } else if divisor == 8 {
        3
    } else if divisor == 16 {
        4
    } else if divisor == 32 {
        5
    } else if divisor == 64 {
        6
    } else {
        7
    };
    assert(1u32 << field == divisor) by (bit_vector)
        requires
            (divisor == 1 && field == 0) || (divisor == 2 && field == 1) || (divisor == 4 && field == 2)
                || (divisor == 8 && field == 3) || (divisor == 16 && field == 4) || (divisor == 32
                && field == 5) || (divisor == 64 && field == 6) || (divisor == 128 && field == 7),
    ;
    field
}

/// The state of a physical oscillator. To use an oscillator it must be
/// enabled; then it can be converted into a clock.
pub struct Oscillator<O: OscillatorSource, S: OscillatorState> {
    _source: PhantomData<O>,
    _state: PhantomData<S>,
}

/// Clocks drive peripherals once the system clock is configured. They can be
/// copied freely.
pub struct Clock<SRC: ClockOption> {
    pub _src: PhantomData<SRC>,
    pub frequency: u32,
}

impl<SRC: ClockOption> Clone for Clock<SRC> {
    fn clone(&self) -> (copy: Self)
        ensures
            copy == *self,
    {
        *self
    }
}

impl<SRC: ClockOption> Copy for Clock<SRC> {}

/// Protects the initialization of an [`Oscillator`], so that each
/// oscillator source is initialized once.
pub struct OscillatorGuard<O: OscillatorSource> {
    _source: PhantomData<O>,
}

impl<O: OscillatorSource> OscillatorGuard<O> {
    pub fn new() -> Self {
        Self { _source: PhantomData }
    }
}

/// One guard for each [`Oscillator`] source.
pub struct OscillatorGuards {
    pub ipo: OscillatorGuard<InternalPrimaryOscillator>,
    pub iso: OscillatorGuard<InternalSecondaryOscillator>,
    pub ipll: OscillatorGuard<InternalPll>,
    pub ibro: OscillatorGuard<InternalBaudRateOscillator>,
    pub ertco: OscillatorGuard<ExternalRtcOscillator>,
}

impl OscillatorGuards {
    pub fn new() -> Self {
        Self {
            ipo: OscillatorGuard::new(),
            iso: OscillatorGuard::new(),
            ipll: OscillatorGuard::new(),
            ibro: OscillatorGuard::new(),
            ertco: OscillatorGuard::new(),
        }
    }
}

/// How an oscillator is started: the source it is, and whether its enable
/// bit is set before its ready flag is awaited. The baud rate oscillator
/// always runs, so only its ready flag is awaited.
#[derive(Clone, Copy, PartialEq, Eq, Debug, Structural)]
pub struct OscillatorStart {
    pub source: OscillatorSourceEnum,
    pub set_enable: bool,
}

/// The start of oscillator `source`.
pub open spec fn oscillator_start(source: OscillatorSourceEnum) -> OscillatorStart {
    OscillatorStart { source, set_enable: source != OscillatorSourceEnum::Ibro }
}

impl<O: OscillatorSource> Oscillator<O, Disabled> {
    /// Taking an oscillator consumes its guard.
    pub fn new(_guard: OscillatorGuard<O>) -> Self {
        Self { _source: PhantomData, _state: PhantomData }
    }

    /// The oscillator once started, and how to start it: its enable bit set
    /// (unless it always runs) and its ready flag observed. The external RTC
    /// oscillator needs the RTC peripheral, which is not supported.
    pub fn enable(self) -> (result: (Oscillator<O, Enabled>, OscillatorStart))
        requires
            O::SOURCE != OscillatorSourceEnum::Ertco,
        ensures
            result.1 == oscillator_start(O::SOURCE),
    {
        let start = OscillatorStart {
            source: O::SOURCE,
            set_enable: !matches!(O::SOURCE, OscillatorSourceEnum::Ibro),
        };
        (Oscillator { _source: PhantomData, _state: PhantomData }, start)
    }
}

impl<O: OscillatorSource + ClockOption> Oscillator<O, Enabled> {
    /// The clock of an enabled oscillator runs at its base frequency.
    pub fn into_clock(self) -> (clock: Clock<O>)
        ensures
            clock.frequency == O::BASE_FREQUENCY,
            clock.frequency == base_frequency(O::SOURCE),
    {
        proof {
            O::lemma_source();
        }
        Clock { _src: PhantomData, frequency: O::BASE_FREQUENCY }
    }
}

/// System clock setup configuration (source and divider).
pub struct SystemClockConfig<S: OscillatorSource, D: SystemClockDivider> {
    _source: PhantomData<S>,
    _divider: PhantomData<D>,
}

/// Frozen system clock configuration and the resulting clocks.
pub struct SystemClockResults {
    pub sys_clk: Clock<SystemClock>,
    pub pclk: Clock<PeripheralClock>,
}

/// Frequency of the system clock for a source and divisor.
pub open spec fn system_frequency(base: u32, divisor: u32) -> int {
    base as int / divisor as int
}

/// The `CLKCTRL.SYSCLK_SEL` value that selects a system clock source.
#[derive(Clone, Copy, PartialEq, Eq, Debug, Structural)]
pub enum SysclkSel {
    Ipo,
    Iso,
    Ipll,
    Ibro,
}

/// The selector of every source but the external RTC oscillator.
pub open spec fn sysclk_sel(source: OscillatorSourceEnum) -> SysclkSel {
    match source {
        OscillatorSourceEnum::Ipo => SysclkSel::Ipo,
        OscillatorSourceEnum::Iso => SysclkSel::Iso,
        OscillatorSourceEnum::Ipll => SysclkSel::Ipll,
        _ => SysclkSel::Ibro,
    }
}

/// The oscillator that a `SYSCLK_SEL` value switches the system clock to.
pub open spec fn selected_source(sel: SysclkSel) -> OscillatorSourceEnum {
    match sel {
        SysclkSel::Ipo => OscillatorSourceEnum::Ipo,
        SysclkSel::Iso => OscillatorSourceEnum::Iso,
        SysclkSel::Ipll => OscillatorSourceEnum::Ipll,
        SysclkSel::Ibro => OscillatorSourceEnum::Ibro,
    }
}

/// The selector for a source switches the system clock to that very source,
/// and no two sources share a selector.
pub proof fn lemma_selector_names_source(a: OscillatorSourceEnum, b: OscillatorSourceEnum)
    requires
        a != OscillatorSourceEnum::Ertco,
        b != OscillatorSourceEnum::Ertco,
    ensures
        selected_source(sysclk_sel(a)) == a,
        sysclk_sel(a) == sysclk_sel(b) ==> a == b,
{
}

/// Selecting the oscillator `S` switches the system clock to `S` itself, so
/// it runs at the frequency that `S` reports.
pub proof fn lemma_selector_runs_at_source<S: OscillatorSource>()
    requires
        S::SOURCE != OscillatorSourceEnum::Ertco,
    ensures
        selected_source(sysclk_sel(S::SOURCE)) == S::SOURCE,
        base_frequency(selected_source(sysclk_sel(S::SOURCE))) == S::BASE_FREQUENCY,
{
    S::lemma_source();
}

impl<S: OscillatorSource, D: SystemClockDivider> SystemClockConfig<S, D> {
    pub fn new() -> Self {
        SystemClockConfig { _source: PhantomData, _divider: PhantomData }
    }

    /// Select `NewS` as the system clock source: the new configuration and
    /// the `SYSCLK_SEL` value to write before the system clock reports
    /// ready. The oscillator must already be enabled, which the type of
    /// `_oscillator` ensures.
    pub fn set_source<NewS: OscillatorSource>(
        self,
        _oscillator: &Oscillator<NewS, Enabled>,
    ) -> (result: (SystemClockConfig<NewS, D>, SysclkSel))
        requires
            NewS::SOURCE != OscillatorSourceEnum::Ertco,
        ensures
            result.1 == sysclk_sel(NewS::SOURCE),
    {
        let sel = match NewS::SOURCE {
            OscillatorSourceEnum::Ipo => SysclkSel::Ipo,
            OscillatorSourceEnum::Iso => SysclkSel::Iso,
            OscillatorSourceEnum::Ipll => SysclkSel::Ipll,
            _ => SysclkSel::Ibro,
        };
        (SystemClockConfig { _source: PhantomData, _divider: PhantomData }, sel)
    }

    /// Select `NewD` as the system clock divider: the new configuration and
    /// the `SYSCLK_DIV` value to write before the system clock reports
    /// ready, the base-two logarithm of the divisor.
    pub fn set_divider<NewD: SystemClockDivider>(self) -> (result: (SystemClockConfig<S, NewD>, u8))
        ensures
            result.1 < 8,
            1u32 << result.1 == NewD::DIVISOR,
    {
        proof {
            NewD::lemma_divisor();
        }
        let field = sysclk_div_field(NewD::DIVISOR);
        (SystemClockConfig { _source: PhantomData, _divider: PhantomData }, field)
    }

    /// Freeze the configuration: the system clock runs at the source's base
    /// frequency over the divisor, the peripheral clock at half of that.
    pub fn freeze(self) -> (results: SystemClockResults)
        ensures
            results.sys_clk.frequency == system_frequency(base_frequency(S::SOURCE), D::DIVISOR),
            results.pclk.frequency == system_frequency(base_frequency(S::SOURCE), D::DIVISOR) / 2,
            results.sys_clk.frequency == system_frequency(S::BASE_FREQUENCY, D::DIVISOR),
    {
        proof {
            S::lemma_source();
            D::lemma_divisor();
        }
        let frequency = S::BASE_FREQUENCY / D::DIVISOR;
        SystemClockResults {
            sys_clk: Clock { _src: PhantomData, frequency },
            pclk: Clock { _src: PhantomData, frequency: frequency / 2 },
        }
    }
}

/// The sources and dividers are the ones their names say.
pub proof fn lemma_clock_constants()
    ensures
        <InternalPrimaryOscillator as OscillatorSource>::SOURCE == OscillatorSourceEnum::Ipo,
        <InternalSecondaryOscillator as OscillatorSource>::SOURCE == OscillatorSourceEnum::Iso,
        <InternalPll as OscillatorSource>::SOURCE == OscillatorSourceEnum::Ipll,
        <InternalBaudRateOscillator as OscillatorSource>::SOURCE == OscillatorSourceEnum::Ibro,
        <ExternalRtcOscillator as OscillatorSource>::SOURCE == OscillatorSourceEnum::Ertco,
        <InternalPll as OscillatorSource>::BASE_FREQUENCY * 2 == InternalPll::CNN_FREQUENCY,
        <DivUnknown as SystemClockDivider>::DIVISOR == 1,
        <Div1 as SystemClockDivider>::DIVISOR == 1,
        <Div2 as SystemClockDivider>::DIVISOR == 2,
        <Div4 as SystemClockDivider>::DIVISOR == 4,
        <Div8 as SystemClockDivider>::DIVISOR == 8,
        <Div16 as SystemClockDivider>::DIVISOR == 16,
        <Div32 as SystemClockDivider>::DIVISOR == 32,
        <Div64 as SystemClockDivider>::DIVISOR == 64,
        <Div128 as SystemClockDivider>::DIVISOR == 128,
{
}

} // verus!
