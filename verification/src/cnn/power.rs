//! Powering the accelerator up and down
//!
//! The four quadrants share one set of power controls in the global
//! configuration registers: a reset, a RAM enable, a power enable and an
//! isolation bit per quadrant, all four moved together. The order of the
//! steps is what keeps the accelerator safe: every power, RAM and isolation
//! change happens with the quadrants held in reset, and the clock runs only
//! into a powered, released accelerator.

use super::{CnnClockDiv, CnnClockSource, LOAD_SWITCH_SETTLE_MS};
use vstd::prelude::*;

verus! {

/// The clock the accelerator's divider is fed from, as `PCLKDIV.CNNCLKSEL`
/// names it.
#[derive(Clone, Copy, PartialEq, Eq, Debug, Structural)]
pub enum CnnClockSel {
    Pclk,
    Iso,
    Ipll,
}

/// The selector of a clock source.
pub open spec fn clock_sel(source: CnnClockSource) -> CnnClockSel {
    match source {
        CnnClockSource::Peripheral(_) => CnnClockSel::Pclk,
        CnnClockSource::Iso => CnnClockSel::Iso,
        CnnClockSource::Ipll(_) => CnnClockSel::Ipll,
    }
}

impl CnnClockSource {
    /// The `CNNCLKSEL` value that selects this source.
    pub fn select(&self) -> (sel: CnnClockSel)
        ensures
            sel == clock_sel(*self),
    {
        match self {
            CnnClockSource::Peripheral(_) => CnnClockSel::Pclk,
            CnnClockSource::Iso => CnnClockSel::Iso,
            CnnClockSource::Ipll(_) => CnnClockSel::Ipll,
        }
    }
}

/// One step of powering the accelerator up or down. The four register
/// steps act on all four quadrants at once.
#[derive(Clone, Copy, PartialEq, Eq, Debug, Structural)]
pub enum PowerStep {
    /// `GCFR.REG3`: hold (true) or release (false) the quadrants in reset
    Reset(bool),
    /// `GCFR.REG1`: enable the quadrant RAMs
    RamEnable(bool),
    /// `GCFR.REG0`: close the quadrant load switches
    PowerEnable(bool),
    /// `GCFR.REG2`: isolate the quadrants from the rest of the chip
    Isolate(bool),
    /// Wait this many milliseconds for the load switches to settle
    SettleMs(u32),
    /// Wait until the PLL reports lock
    WaitPllReady,
    /// `PCLKDIV`: select the source and the divider in one write, so the
    /// accelerator is never clocked by the new source through the old divider
    SelectClock(CnnClockSel, CnnClockDiv),
    /// Open (true) or gate (false) the accelerator's peripheral clock
    PeripheralClock(bool),
    /// `GCFR.REG2`: retain data and RAM contents across low-power modes
    Retention(bool),
}

/// What the power steps control, quadrant for quadrant.
#[derive(Clone, Copy, PartialEq, Eq, Debug, Structural)]
pub struct PowerState {
    pub reset: bool,
    pub ram: bool,
    pub power: bool,
    pub isolated: bool,
    pub clocked: bool,
    pub retention: bool,
}

/// The state after one step.
pub open spec fn apply_step(s: PowerState, step: PowerStep) -> PowerState {
    match step {
        PowerStep::Reset(on) => PowerState { reset: on, ..s },
        PowerStep::RamEnable(on) => PowerState { ram: on, ..s },
        PowerStep::PowerEnable(on) => PowerState { power: on, ..s },
        PowerStep::Isolate(on) => PowerState { isolated: on, ..s },
        PowerStep::PeripheralClock(on) => PowerState { clocked: on, ..s },
        PowerStep::Retention(on) => PowerState { retention: on, ..s },
        _ => s,
    }
}

/// The state after a sequence of steps, taken in order.
pub open spec fn apply_steps(s: PowerState, steps: Seq<PowerStep>) -> PowerState
    decreases steps.len(),
{
    if steps.len() == 0 {
        s
    } else {
        apply_step(apply_steps(s, steps.drop_last()), steps.last())
    }
}

/// Powered, released from reset and isolation, and clocked.
pub open spec fn is_on(s: PowerState) -> bool {
    !s.reset && s.ram && s.power && !s.isolated && s.clocked
}

/// Unpowered, isolated, unclocked, and out of reset, as after power-on.
pub open spec fn is_off(s: PowerState) -> bool {
    !s.reset && !s.ram && !s.power && s.isolated && !s.clocked
}

/// Whether a step changes the power, RAM or isolation of the quadrants.
pub open spec fn switches_power(step: PowerStep) -> bool {
    step is RamEnable || step is PowerEnable || step is Isolate
}

/// The power-up sequence: reset asserted; RAMs, then power, enabled; the
/// load switches settle; isolation, then reset, released; the PLL awaited
/// if it is the source; the clock selected; the peripheral clock opened.
pub open spec fn enable_steps(source: CnnClockSource, divider: CnnClockDiv) -> Seq<PowerStep> {
    seq![
        PowerStep::Reset(true),
        PowerStep::RamEnable(true),
        PowerStep::PowerEnable(true),
        PowerStep::SettleMs(LOAD_SWITCH_SETTLE_MS),
        PowerStep::Isolate(false),
        PowerStep::Reset(false),
    ] + (if source is Ipll {
        seq![PowerStep::WaitPllReady]
    } else {
        Seq::empty()
    }) + seq![
        PowerStep::SelectClock(clock_sel(source), divider),
        PowerStep::PeripheralClock(true),
    ]
}

/// The power-down sequence: the peripheral clock gated; reset asserted;
/// isolation on; power, then RAMs, off; reset released.
pub open spec fn disable_steps() -> Seq<PowerStep> {
    seq![
        PowerStep::PeripheralClock(false),
        PowerStep::Reset(true),
        PowerStep::Isolate(true),
        PowerStep::PowerEnable(false),
        PowerStep::RamEnable(false),
        PowerStep::Reset(false),
    ]
}

/// The power-up steps for `source` through `divider`.
pub(crate) fn power_up(source: CnnClockSource, divider: CnnClockDiv) -> (steps: Vec<PowerStep>)
    ensures
        steps@ == enable_steps(source, divider),
{
    let mut steps: Vec<PowerStep> = Vec::new();
    steps.push(PowerStep::Reset(true));
    steps.push(PowerStep::RamEnable(true));
    steps.push(PowerStep::PowerEnable(true));
    steps.push(PowerStep::SettleMs(LOAD_SWITCH_SETTLE_MS));
    steps.push(PowerStep::Isolate(false));
    steps.push(PowerStep::Reset(false));
    let is_pll = matches!(source, CnnClockSource::Ipll(_));
    if is_pll {
        steps.push(PowerStep::WaitPllReady);
    }
    steps.push(PowerStep::SelectClock(source.select(), divider));
    steps.push(PowerStep::PeripheralClock(true));
    assert(steps@ =~= enable_steps(source, divider));
    steps
}

/// The power-down steps.
pub(crate) fn power_down() -> (steps: Vec<PowerStep>)
    ensures
        steps@ == disable_steps(),
{
    let mut steps: Vec<PowerStep> = Vec::new();
    steps.push(PowerStep::PeripheralClock(false));
    steps.push(PowerStep::Reset(true));
    steps.push(PowerStep::Isolate(true));
    steps.push(PowerStep::PowerEnable(false));
    steps.push(PowerStep::RamEnable(false));
    steps.push(PowerStep::Reset(false));
    assert(steps@ =~= disable_steps());
    steps
}

/// Powering up leaves the accelerator on from any state, and powering down
/// leaves it off; neither touches retention. Down after up returns an
/// accelerator that was off to exactly the state it started in.
pub proof fn lemma_power_sequences(s: PowerState, source: CnnClockSource, divider: CnnClockDiv)
    ensures
        is_on(apply_steps(s, enable_steps(source, divider))),
        apply_steps(s, enable_steps(source, divider)).retention == s.retention,
        is_off(apply_steps(s, disable_steps())),
        apply_steps(s, disable_steps()).retention == s.retention,
        is_off(s) ==> apply_steps(apply_steps(s, enable_steps(source, divider)), disable_steps()) == s,
{
    reveal_with_fuel(apply_steps, 10);
    let up = enable_steps(source, divider);
    if source is Ipll {
        assert(up =~= seq![
            PowerStep::Reset(true),
            PowerStep::RamEnable(true),
            PowerStep::PowerEnable(true),
            PowerStep::SettleMs(LOAD_SWITCH_SETTLE_MS),
            PowerStep::Isolate(false),
            PowerStep::Reset(false),
            PowerStep::WaitPllReady,
            PowerStep::SelectClock(clock_sel(source), divider),
            PowerStep::PeripheralClock(true),
        ]);
    } else {
        assert(up =~= seq![
            PowerStep::Reset(true),
            PowerStep::RamEnable(true),
            PowerStep::PowerEnable(true),
            PowerStep::SettleMs(LOAD_SWITCH_SETTLE_MS),
            PowerStep::Isolate(false),
            PowerStep::Reset(false),
            PowerStep::SelectClock(clock_sel(source), divider),
            PowerStep::PeripheralClock(true),
        ]);
    }
}

/// Every power, RAM and isolation change of either sequence is made with the
/// quadrants held in reset. Powering up opens the clock only once the
/// quadrants are powered and released; powering down gates it before
/// anything else changes.
pub proof fn lemma_power_changes_under_reset(s: PowerState, source: CnnClockSource, divider: CnnClockDiv)
    ensures
        forall|i: int|
            0 <= i < enable_steps(source, divider).len() && switches_power(
                #[trigger] enable_steps(source, divider)[i],
            ) ==> apply_steps(s, enable_steps(source, divider).take(i)).reset,
        forall|i: int|
            0 <= i < enable_steps(source, divider).len() && #[trigger] enable_steps(source, divider)[i]
                == PowerStep::PeripheralClock(true) ==> {
                let before = apply_steps(s, enable_steps(source, divider).take(i));
                before.power && before.ram && !before.isolated && !before.reset
            },
        forall|i: int|
            0 <= i < disable_steps().len() && switches_power(#[trigger] disable_steps()[i])
                ==> apply_steps(s, disable_steps().take(i)).reset,
        forall|i: int|
            0 < i < disable_steps().len() ==> !(#[trigger] apply_steps(s, disable_steps().take(i))).clocked,
{
    reveal_with_fuel(apply_steps, 10);
    let up = enable_steps(source, divider);
    let down = disable_steps();
    assert forall|i: int|
        0 <= i < up.len() && switches_power(#[trigger] up[i]) implies apply_steps(s, up.take(i)).reset by {
        assert(1 <= i <= 4);
        if i == 1 {
            assert(up.take(i) =~= seq![PowerStep::Reset(true)]);
        } else if i == 2 {
            assert(up.take(i) =~= seq![PowerStep::Reset(true), PowerStep::RamEnable(true)]);
        } else if i == 3 {
            assert(false);
        } else {
            assert(up.take(i) =~= seq![
                PowerStep::Reset(true),
                PowerStep::RamEnable(true),
                PowerStep::PowerEnable(true),
                PowerStep::SettleMs(LOAD_SWITCH_SETTLE_MS),
            ]);
        }
    }
    assert forall|i: int|
        0 <= i < up.len() && #[trigger] up[i] == PowerStep::PeripheralClock(true) implies {
            let before = apply_steps(s, up.take(i));
            before.power && before.ram && !before.isolated && !before.reset
        } by {
        assert(i == up.len() - 1);
        assert(up.take(i) =~= up.drop_last());
        assert(up.drop_last().last() is SelectClock);
        if source is Ipll {
            assert(up.drop_last().drop_last().last() == PowerStep::WaitPllReady);
            assert(up.drop_last().drop_last().drop_last() =~= seq![
                PowerStep::Reset(true),
                PowerStep::RamEnable(true),
                PowerStep::PowerEnable(true),
                PowerStep::SettleMs(LOAD_SWITCH_SETTLE_MS),
                PowerStep::Isolate(false),
                PowerStep::Reset(false),
            ]);
        } else {
            assert(up.drop_last().drop_last() =~= seq![
                PowerStep::Reset(true),
                PowerStep::RamEnable(true),
                PowerStep::PowerEnable(true),
                PowerStep::SettleMs(LOAD_SWITCH_SETTLE_MS),
                PowerStep::Isolate(false),
                PowerStep::Reset(false),
            ]);
        }
    }
    assert forall|i: int|
        0 <= i < down.len() && switches_power(#[trigger] down[i]) implies apply_steps(s, down.take(i)).reset by {
        assert(2 <= i <= 4);
        if i == 2 {
            assert(down.take(i) =~= seq![PowerStep::PeripheralClock(false), PowerStep::Reset(true)]);
        } else if i == 3 {
            assert(down.take(i) =~= seq![
                PowerStep::PeripheralClock(false),
                PowerStep::Reset(true),
                PowerStep::Isolate(true),
            ]);
        } else {
            assert(down.take(i) =~= seq![
                PowerStep::PeripheralClock(false),
                PowerStep::Reset(true),
                PowerStep::Isolate(true),
                PowerStep::PowerEnable(false),
            ]);
        }
    }
    assert forall|i: int| 0 < i < down.len() implies !(#[trigger] apply_steps(s, down.take(i))).clocked by {
        if i == 1 {
            assert(down.take(i) =~= seq![PowerStep::PeripheralClock(false)]);
        } else if i == 2 {
            assert(down.take(i) =~= seq![PowerStep::PeripheralClock(false), PowerStep::Reset(true)]);
        } else if i == 3 {
            assert(down.take(i) =~= seq![
                PowerStep::PeripheralClock(false),
                PowerStep::Reset(true),
                PowerStep::Isolate(true),
            ]);
        } else if i == 4 {
            assert(down.take(i) =~= seq![
                PowerStep::PeripheralClock(false),
                PowerStep::Reset(true),
                PowerStep::Isolate(true),
                PowerStep::PowerEnable(false),
            ]);
        } else {
            assert(down.take(i) =~= seq![
                PowerStep::PeripheralClock(false),
                PowerStep::Reset(true),
                PowerStep::Isolate(true),
                PowerStep::PowerEnable(false),
                PowerStep::RamEnable(false),
            ]);
        }
    }
}

} // verus!
