//! # CNN Accelerator (MAX78002)
//!
//! Four CNNx16 quadrants, 16 processors each, 128 layers. A [`Network`] is a
//! descriptor produced by the network generator; nothing here computes a
//! register value of a layer.
//!
//! Call order, matching the generated C:
//!
//! ```text
//! enable -> init -> load_weights -> load_bias -> configure -> write_u32
//!        -> start -> wait -> read_u32
//! ```
//!
//! [`Cnn`] holds the accelerator's software state (pipeline, clock source,
//! divider) and a typestate for whether it is powered. Each step returns the
//! register words, addresses and data it takes, and the caller performs the
//! memory-mapped writes and reads in the order given.

pub mod boost;
pub mod config;
pub mod data;
pub mod fields;
pub mod memory;
pub mod network;
pub mod power;
pub mod regs;
pub mod run;
pub mod validate;

pub use boost::BoostPolarity;
pub use config::{emit_layer, LayerSink, MASTER_QUADRANT};
pub use network::{Direct, Fifo, InputMode, InputRegion, Layer, Network, OutputRegion, Stream, WeightRegion};
use network::{start_go_word, start_master_word, start_other_word, stop_word};
pub use power::{CnnClockSel, PowerStep};
pub use regs::{LayerReg, LayerRegs, Quadrant, Reg};
pub use run::{SRAM_CONTROL, ZEROIZE_NO_BIAS, ZEROIZE_WITH_BIAS};
pub use validate::Invalid;

use crate::gcr::clocks::{Clock, Disabled, Enabled, InternalPll, PeripheralClock};
use crate::Sealed;
use core::marker::PhantomData;
use power::{clock_sel, disable_steps, enable_steps, power_down, power_up};
use regs::QUADRANTS;
use vstd::prelude::*;

verus! {

/// Highest clock frequency the accelerator supports, with the datapath pipeline enabled
pub const MAX_PIPELINED_FREQUENCY: u32 = 200_000_000;

/// Highest clock frequency the accelerator supports with the pipeline disabled
pub const MAX_NON_PIPELINED_FREQUENCY: u32 = 50_000_000;

/// Settling time for the CNN power-domain load switches, in milliseconds
pub const LOAD_SWITCH_SETTLE_MS: u32 = 10;

/// Whether the accelerator datapath pipeline is enabled
#[derive(Clone, Copy, PartialEq, Eq, Debug, Default, Structural)]
pub enum Pipeline {
    #[default]
    Enabled,
    Disabled,
}

impl Pipeline {
    /// The `NO_PIPELINE` bit (5) of every `CTL` word, set when disabled.
    pub fn ctl_bits(self) -> (bits: u32)
        ensures
            bits == (if self == Pipeline::Enabled {
                0u32
            } else {
                0x20u32
            }),
    {
        match self {
            Pipeline::Enabled => 0,
            Pipeline::Disabled => 0x20,
        }
    }
}

/// Clock source for the accelerator
#[derive(Clone, Copy)]
pub enum CnnClockSource {
    Peripheral(Clock<PeripheralClock>),
    Iso,
    Ipll(Clock<InternalPll>),
}

/// Frequency of a source before the CNN divider. The PLL feeds the
/// accelerator from its CNN branch, not the branch its `Clock` reports.
pub open spec fn source_frequency(source: CnnClockSource) -> u32 {
    match source {
        CnnClockSource::Peripheral(clock) => clock.frequency,
        CnnClockSource::Iso => 60_000_000,
        CnnClockSource::Ipll(_) => InternalPll::CNN_FREQUENCY,
    }
}

impl CnnClockSource {
    /// Frequency of this source before the CNN divider is applied.
    pub fn frequency(&self) -> (frequency: u32)
        ensures
            frequency == source_frequency(*self),
    {
        match self {
            CnnClockSource::Peripheral(clock) => clock.frequency,
            CnnClockSource::Iso => 60_000_000,
            CnnClockSource::Ipll(_) => InternalPll::CNN_FREQUENCY,
        }
    }
}

/// Divider applied to the selected clock source.
#[derive(Clone, Copy, PartialEq, Eq, Debug, Default, Structural)]
pub enum CnnClockDiv {
    Div1,
    /// The reset value.
    #[default]
    Div2,
    Div4,
    Div8,
    Div16,
}

pub open spec fn spec_divisor(div: CnnClockDiv) -> u32 {
    match div {
        CnnClockDiv::Div1 => 1,
        CnnClockDiv::Div2 => 2,
        CnnClockDiv::Div4 => 4,
        CnnClockDiv::Div8 => 8,
        CnnClockDiv::Div16 => 16,
    }
}

impl CnnClockDiv {
    pub fn divisor(self) -> (divisor: u32)
        ensures
            divisor == spec_divisor(self),
    {
        match self {
            CnnClockDiv::Div1 => 1,
            CnnClockDiv::Div2 => 2,
            CnnClockDiv::Div4 => 4,
            CnnClockDiv::Div8 => 8,
            CnnClockDiv::Div16 => 16,
        }
    }
}

/// Whether the accelerator may run at `frequency` with this pipeline mode.
pub open spec fn frequency_supported(pipeline: Pipeline, frequency: int) -> bool {
    &&& frequency <= MAX_PIPELINED_FREQUENCY
    &&& pipeline == Pipeline::Enabled || frequency <= MAX_NON_PIPELINED_FREQUENCY
}

/// The accelerator clock a source and divider give.
pub open spec fn divided_frequency(source: CnnClockSource, divider: CnnClockDiv) -> int {
    source_frequency(source) as int / spec_divisor(divider) as int
}

/// Power state of the accelerator.
pub trait CnnState: Sealed {}

impl CnnState for Disabled {}

impl CnnState for Enabled {}

/// CTL bits a completion interrupt handler must clear: `DONE` and `CNN_EN`,
/// and `STREAM_EN` as well for a streaming network.
pub fn ack_mask(streaming: bool) -> (mask: u32)
    ensures
        mask == (if streaming {
            0x5001u32
        } else {
            0x1001u32
        }),
{
    // DONE is bit 12, CNN_EN bit 0, STREAM_EN bit 14.
    if streaming {
        0x5001
    } else {
        0x1001
    }
}

/// Whether a `CTL` value has the `DONE` bit (12) set.
pub open spec fn ctl_complete(ctl: u32) -> bool {
    ctl & 0x1000 != 0
}

/// Acknowledging a completion clears it, and on a non-streaming network
/// stops the quadrant too. Stopping and resuming toggle only `CNN_EN`, so a
/// running network that is stopped and resumed has its `CTL` back unchanged.
pub proof fn lemma_acknowledge_stop_resume(ctl: u32, streaming: bool)
    ensures
        !ctl_complete(ctl & !(if streaming {
            0x5001u32
        } else {
            0x1001u32
        })),
        ctl & !(if streaming {
            0x5001u32
        } else {
            0x1001u32
        }) & 1 == 0,
        (ctl & !1u32) & 1 == 0,
        (ctl | 1u32) & 1 == 1,
        ctl & 1 == 1 ==> (ctl & !1u32) | 1u32 == ctl,
        (ctl & !1u32) & !1u32 == ctl & !1u32,
{
    assert(ctl & !0x5001u32 & 0x1000 == 0 && ctl & !0x1001u32 & 0x1000 == 0) by (bit_vector);
    assert(ctl & !0x5001u32 & 1 == 0 && ctl & !0x1001u32 & 1 == 0) by (bit_vector);
    assert((ctl & !1u32) & 1 == 0 && (ctl | 1u32) & 1 == 1) by (bit_vector);
    assert(ctl & 1 == 1 ==> (ctl & !1u32) | 1u32 == ctl) by (bit_vector);
    assert((ctl & !1u32) & !1u32 == ctl & !1u32) by (bit_vector);
}

/// The order in which a layer's registers must be written.
pub const EMIT_ORDER: [LayerReg; 20] = [
    LayerReg::Next,
    LayerReg::Rows,
    LayerReg::Cols,
    LayerReg::PoolRows,
    LayerReg::PoolCols,
    LayerReg::Stride,
    LayerReg::Wptr,
    LayerReg::WptrTs,
    LayerReg::WptrMask,
    LayerReg::WptrMp,
    LayerReg::Rptr,
    LayerReg::Lctl,
    LayerReg::Lctl2,
    LayerReg::Mcnt,
    LayerReg::Moffs,
    LayerReg::Ochan,
    LayerReg::Oned,
    LayerReg::Tptr,
    LayerReg::Post,
    LayerReg::En,
];

/// The software state of the accelerator: what [`Cnn`] holds besides its
/// power state.
pub struct CnnSettings {
    pub pipeline: Pipeline,
    pub source: Option<CnnClockSource>,
    pub divider: CnnClockDiv,
}

/// The settings of an accelerator in pipeline mode `pipeline` once enabled
/// with `source` through `divider`.
pub open spec fn enabled_settings(pipeline: Pipeline, source: CnnClockSource, divider: CnnClockDiv) -> CnnSettings {
    CnnSettings { pipeline, source: Some(source), divider }
}

/// The settings after the divider is changed to `divider`.
pub open spec fn with_divider(settings: CnnSettings, divider: CnnClockDiv) -> CnnSettings {
    CnnSettings { divider, ..settings }
}

/// The settings after the divider is changed to each of `dividers` in turn.
pub open spec fn with_dividers(settings: CnnSettings, dividers: Seq<CnnClockDiv>) -> CnnSettings
    decreases dividers.len(),
{
    if dividers.len() == 0 {
        settings
    } else {
        with_divider(with_dividers(settings, dividers.drop_last()), dividers.last())
    }
}

/// The accelerator clock the settings give: the source through the
/// divider, or nothing without a source.
pub open spec fn settings_frequency(settings: CnnSettings) -> int {
    match settings.source {
        Some(source) => divided_frequency(source, settings.divider),
        None => 0,
    }
}

/// After `enable` and any number of divider changes, the accelerator runs
/// from the source it was enabled with, through the last divider set (the
/// one given to `enable` if there was no change), in the same pipeline mode.
pub proof fn lemma_frequency_follows_last_divider(
    pipeline: Pipeline,
    source: CnnClockSource,
    divider: CnnClockDiv,
    dividers: Seq<CnnClockDiv>,
)
    ensures
        with_dividers(enabled_settings(pipeline, source, divider), dividers).pipeline == pipeline,
        with_dividers(enabled_settings(pipeline, source, divider), dividers).source == Some(source),
        settings_frequency(with_dividers(enabled_settings(pipeline, source, divider), dividers))
            == divided_frequency(
            source,
            if dividers.len() == 0 {
                divider
            } else {
                dividers.last()
            },
        ),
    decreases dividers.len(),
{
    if dividers.len() > 0 {
        lemma_frequency_follows_last_divider(pipeline, source, divider, dividers.drop_last());
    }
}

/// CNN accelerator
pub struct Cnn<S: CnnState> {
    pipeline: Pipeline,
    source: Option<CnnClockSource>,
    divider: CnnClockDiv,
    _state: PhantomData<S>,
}

impl<S: CnnState> View for Cnn<S> {
    type V = CnnSettings;

    closed spec fn view(&self) -> CnnSettings {
        CnnSettings { pipeline: self.pipeline, source: self.source, divider: self.divider }
    }
}

impl<S: CnnState> Cnn<S> {
    /// A selected clock source, through the divider, never exceeds what the
    /// pipeline mode allows.
    #[verifier::type_invariant]
    closed spec fn clock_within_rating(self) -> bool {
        self.source matches Some(source) ==> frequency_supported(
            self.pipeline,
            divided_frequency(source, self.divider),
        )
    }
}

/// One step of initializing the accelerator. A step on a quadrant register
/// is made in every quadrant, quadrant 0 first, before the next step starts.
#[derive(Clone, Copy, PartialEq, Eq, Debug, Structural)]
pub enum InitStep {
    /// `CTL` := `CLK_EN`, with `NO_PIPELINE` as given
    ClockOn { no_pipeline: bool },
    /// The shared `AON` register := the word: ready-select 0, no quadrant
    /// powered down
    Aon(u32),
    /// `SRAM` := the word
    Sram(u32),
    /// `TEST` := the word
    Test(u32),
    /// Wait until every quadrant's `TEST.ZERO_DONE` reads set
    WaitZeroDone,
    /// `CTL` := `ctl`, then `LCNT` := the layer range
    Stop { ctl: u32, first_layer: u8, last_layer: u8 },
}

/// The `NO_PIPELINE` bit (5) a pipeline mode adds to every `CTL` word.
pub open spec fn pipeline_bits(pipeline: Pipeline) -> u32 {
    if pipeline == Pipeline::Enabled {
        0u32
    } else {
        0x20u32
    }
}

/// The initialization of an accelerator in pipeline mode `pipeline` for a
/// network with or without bias, input path `fifo` and layers
/// `first..=last`: clock on, `AON` cleared, `SRAM` set, the zeroize command
/// started in all four quadrants before any is waited on, `TEST` cleared,
/// then the stop word and the layer range.
pub open spec fn init_steps(pipeline: Pipeline, bias: bool, fifo: bool, first: u8, last: u8) -> Seq<InitStep> {
    seq![
        InitStep::ClockOn { no_pipeline: pipeline == Pipeline::Disabled },
        InitStep::Aon(0),
        InitStep::Sram(SRAM_CONTROL),
        InitStep::Test(if bias { ZEROIZE_WITH_BIAS } else { ZEROIZE_NO_BIAS }),
        InitStep::WaitZeroDone,
        InitStep::Test(0),
        InitStep::Stop { ctl: stop_word(fifo) | pipeline_bits(pipeline), first_layer: first, last_layer: last },
    ]
}

/// The arm-and-go writes to `CTL`, as (quadrant, word) in order: the master
/// armed with `CNN_EN` clear, the other three armed with it set, then the
/// go word to the master.
pub open spec fn start_writes(pipeline: Pipeline, fifo: bool) -> Seq<(u8, u32)> {
    let p = pipeline_bits(pipeline);
    seq![
        (0u8, start_master_word(fifo) | p),
        (1u8, start_other_word(fifo) | p),
        (2u8, start_other_word(fifo) | p),
        (3u8, start_other_word(fifo) | p),
        (0u8, start_go_word(fifo) | p),
    ]
}

impl Cnn<Disabled> {
    /// Take the accelerator, unpowered, with the pipeline enabled, no clock
    /// source and the reset divider.
    pub fn new() -> (cnn: Self)
        ensures
            cnn@.pipeline == Pipeline::Enabled,
            cnn@.source is None,
            cnn@.divider == CnnClockDiv::Div2,
    {
        Cnn { pipeline: Pipeline::Enabled, source: None, divider: CnnClockDiv::Div2, _state: PhantomData }
    }

    /// Select the pipeline mode; disabling it caps the clock frequency. An
    /// unpowered accelerator has no clock source.
    pub fn with_pipeline(self, mode: Pipeline) -> (cnn: Self)
        ensures
            cnn@.pipeline == mode,
            cnn@.source is None,
            cnn@.divider == self@.divider,
    {
        Cnn { pipeline: mode, source: None, divider: self.divider, _state: PhantomData }
    }

    /// Power the accelerator up and start its clock from `source` through
    /// `divider`: the accelerator, and the steps that do it, in order
    /// (see [`power::enable_steps`]).
    pub fn enable(self, source: CnnClockSource, divider: CnnClockDiv) -> (result: (Cnn<Enabled>, Vec<PowerStep>))
        requires
            frequency_supported(self@.pipeline, divided_frequency(source, divider)),
        ensures
            result.0@ == enabled_settings(self@.pipeline, source, divider),
            result.1@ == enable_steps(source, divider),
    {
        let steps = power_up(source, divider);
        (Cnn { pipeline: self.pipeline, source: Some(source), divider, _state: PhantomData }, steps)
    }
}

impl Cnn<Enabled> {
    /// The steps that initialize the accelerator for `network`, in order
    /// (see [`init_steps`]). The zeroize also clears bias memory when the
    /// network has bias.
    pub fn init<M: InputMode>(&self, network: &Network<M>) -> (steps: Vec<InitStep>)
        ensures
            steps@ == init_steps(
                self@.pipeline,
                network.bias is Some,
                M::FIFO,
                network.first_layer,
                network.last_layer,
            ),
    {
        proof {
            M::lemma_control_words();
        }
        let zeroize = if network.has_bias() {
            ZEROIZE_WITH_BIAS
        } else {
            ZEROIZE_NO_BIAS
        };
        let mut steps: Vec<InitStep> = Vec::new();
        steps.push(InitStep::ClockOn { no_pipeline: matches!(self.pipeline, Pipeline::Disabled) });
        steps.push(InitStep::Aon(0));
        steps.push(InitStep::Sram(SRAM_CONTROL));
        steps.push(InitStep::Test(zeroize));
        steps.push(InitStep::WaitZeroDone);
        steps.push(InitStep::Test(0));
        steps.push(
            InitStep::Stop {
                ctl: M::STOP_SM | self.pipeline.ctl_bits(),
                first_layer: network.first_layer,
                last_layer: network.last_layer,
            },
        );
        assert(steps@ =~= init_steps(
            self@.pipeline,
            network.bias is Some,
            M::FIFO,
            network.first_layer,
            network.last_layer,
        ));
        steps
    }

    /// The `CTL` writes that start inference, as (quadrant, word) in order
    /// (see [`start_writes`]). A streaming network needs FIFO input.
    pub fn start<M: InputMode>(&self, network: &Network<M>) -> (writes: Vec<(u8, u32)>)
        requires
            M::FIFO || !(exists|i: int| 0 <= i < network.layers@.len() && network.layers@[i].stream is Some),
        ensures
            writes@ == start_writes(self@.pipeline, M::FIFO),
    {
        proof {
            M::lemma_control_words();
        }
        let pipeline = self.pipeline.ctl_bits();
        let mut writes: Vec<(u8, u32)> = Vec::new();
        writes.push((0, M::START_MASTER | pipeline));
        writes.push((1, M::START_OTHER | pipeline));
        writes.push((2, M::START_OTHER | pipeline));
        writes.push((3, M::START_OTHER | pipeline));
        writes.push((0, M::START_GO | pipeline));
        assert(writes@ =~= start_writes(self@.pipeline, M::FIFO));
        writes
    }

    /// The `CTL` value that acknowledges completion, given the value `ctl`
    /// read from a quadrant: the acknowledge mask cleared.
    pub fn acknowledge<M: InputMode>(&self, network: &Network<M>, ctl: u32) -> (cleared: u32)
        ensures
            cleared == ctl & !(if exists|i: int|
                0 <= i < network.layers@.len() && network.layers@[i].stream is Some {
                0x5001u32
            } else {
                0x1001u32
            }),
    {
        let mask = ack_mask(network.is_streaming());
        ctl & !mask
    }

    /// Whether the accelerator has signalled completion, given the `CTL`
    /// value read from the master quadrant: its `DONE` bit (12).
    pub fn is_complete(&self, ctl: u32) -> (complete: bool)
        ensures
            complete == ctl_complete(ctl),
    {
        ctl & 0x1000 != 0
    }

    /// The master quadrant's `CTL` value that halts the network where it
    /// stands, given the value `ctl` read: `CNN_EN` (bit 0) cleared.
    pub fn stop(&self, ctl: u32) -> (halted: u32)
        ensures
            halted == ctl & !1u32,
    {
        ctl & !1u32
    }

    /// The master quadrant's `CTL` value that releases it again after
    /// [`stop`](Cnn::stop), given the value `ctl` read: `CNN_EN` set.
    pub fn resume(&self, ctl: u32) -> (running: u32)
        ensures
            running == ctl | 1u32,
    {
        ctl | 1u32
    }

    /// The accelerator clock frequency, after the divider. It never exceeds
    /// the rating of the pipeline mode.
    pub fn frequency(&self) -> (frequency: u32)
        ensures
            frequency == settings_frequency(self@),
            frequency_supported(self@.pipeline, frequency as int),
    {
        proof {
            use_type_invariant(self);
        }
        match self.source {
            Some(source) => source.frequency() / self.divider.divisor(),
            None => 0,
        }
    }

    /// The selected clock source
    pub fn source(&self) -> (source: CnnClockSource)
        ensures
            source == (match self@.source {
                Some(source) => source,
                None => CnnClockSource::Iso,
            }),
    {
        match self.source {
            Some(source) => source,
            None => CnnClockSource::Iso,
        }
    }

    /// Change the clock divider without repeating the power-up sequence: the
    /// one step that selects the source and the new divider together.
    pub fn set_divider(&mut self, divider: CnnClockDiv) -> (step: PowerStep)
        requires
            frequency_supported(
                old(self)@.pipeline,
                divided_frequency(
                    match old(self)@.source {
                        Some(source) => source,
                        None => CnnClockSource::Iso,
                    },
                    divider,
                ),
            ),
        ensures
            final(self)@ == with_divider(old(self)@, divider),
            step == PowerStep::SelectClock(
                clock_sel(
                    match old(self)@.source {
                        Some(source) => source,
                        None => CnnClockSource::Iso,
                    },
                ),
                divider,
            ),
    {
        let source = self.source();
        let step = PowerStep::SelectClock(source.select(), divider);
        self.divider = divider;
        step
    }

    /// Gate the clock and power the accelerator down: the accelerator, and
    /// the steps that do it, in order (see [`power::disable_steps`]). The
    /// source is forgotten; pipeline and divider are kept.
    pub fn disable(self) -> (result: (Cnn<Disabled>, Vec<PowerStep>))
        ensures
            result.0@.pipeline == self@.pipeline,
            result.0@.source is None,
            result.0@.divider == self@.divider,
            result.1@ == disable_steps(),
    {
        let steps = power_down();
        (Cnn { pipeline: self.pipeline, source: None, divider: self.divider, _state: PhantomData }, steps)
    }
}

impl<S: CnnState> Cnn<S> {
    /// The configured pipeline mode
    pub fn pipeline(&self) -> (pipeline: Pipeline)
        ensures
            pipeline == self@.pipeline,
    {
        self.pipeline
    }

    /// Retain (or stop retaining) the accelerator's data and RAM contents
    /// across the low-power modes: the one step that does it.
    pub fn set_retention(&self, enable: bool) -> (step: PowerStep)
        ensures
            step == PowerStep::Retention(enable),
    {
        PowerStep::Retention(enable)
    }

    /// Register file for one quadrant
    pub fn quadrant(&self, index: u8) -> (quadrant: Quadrant)
        requires
            index < QUADRANTS,
        ensures
            quadrant@ == index,
    {
        Quadrant::new(index)
    }
}

} // verus!
