//! Full network descriptor

use super::fields::{
    Ccnt, Ena, Fmax, Lctl, Lctl2, Mcnt1, Mcnt2, Ochan, Oned, Pccnt, Post, Prcnt, Rcnt,
    RptrBase, Stream1, Stream2, Stride, Tptr, WptrBase, WptrChoffs, WptrMoffs, WptrToffs,
    Nxtlyr,
};
use crate::Sealed;
use core::marker::PhantomData;
use vstd::prelude::*;

verus! {

/// `CTL` value that halts the state machine, written during init.
pub open spec fn stop_word(fifo: bool) -> u32 {
    if fifo {
        0x0010_8008
    } else {
        0x0010_0008
    }
}

/// `CTL` value that arms the master quadrant, with `CNN_EN` clear.
pub open spec fn start_master_word(fifo: bool) -> u32 {
    if fifo {
        0x0018_c808
    } else {
        0x0010_0808
    }
}

/// `CTL` value that arms a non-master quadrant, with `CNN_EN` set.
pub open spec fn start_other_word(fifo: bool) -> u32 {
    if fifo {
        0x0018_c809
    } else {
        0x0010_0809
    }
}

/// `CTL` value written to the master last, which starts the network.
pub open spec fn start_go_word(fifo: bool) -> u32 {
    if fifo {
        0x0018_c809
    } else {
        0x0010_0009
    }
}

/// How input data reaches the accelerator.
pub trait InputMode: Sealed {
    /// Whether input arrives through the FIFO.
    const FIFO: bool;

    /// `CTL` value that halts the state machine, written during init.
    const STOP_SM: u32;

    /// `CTL` value that arms the master quadrant. `CNN_EN` is **clear**
    /// here; setting it would start the master before the others are armed.
    const START_MASTER: u32;

    /// `CTL` value that arms a non-master quadrant, with `CNN_EN` set.
    const START_OTHER: u32;

    /// `CTL` value written to the master last, which starts the network.
    const START_GO: u32;

    /// The control words are those of the input path the mode selects.
    proof fn lemma_control_words()
        ensures
            Self::STOP_SM == stop_word(Self::FIFO),
            Self::START_MASTER == start_master_word(Self::FIFO),
            Self::START_OTHER == start_other_word(Self::FIFO),
            Self::START_GO == start_go_word(Self::FIFO),
    ;
}

/// Input written directly into data memory before the network starts.
pub struct Direct;

/// Input streamed through the FIFOs while the network runs.
pub struct Fifo;

impl Sealed for Direct {}

impl Sealed for Fifo {}

impl InputMode for Direct {
    const FIFO: bool = false;
    const STOP_SM: u32 = 0x0010_0008;
    const START_MASTER: u32 = 0x0010_0808;
    const START_OTHER: u32 = 0x0010_0809;
    const START_GO: u32 = 0x0010_0009;

    proof fn lemma_control_words() {
    }
}

impl InputMode for Fifo {
    const FIFO: bool = true;
    const STOP_SM: u32 = 0x0010_8008;
    const START_MASTER: u32 = 0x0018_c808;
    const START_OTHER: u32 = 0x0018_c809;
    const START_GO: u32 = 0x0018_c809;

    proof fn lemma_control_words() {
    }
}

/// Direct input is not a FIFO and FIFO input is, so each mode's control
/// words are the ones [`stop_word`] and its siblings give for it.
pub proof fn lemma_input_modes()
    ensures
        !<Direct as InputMode>::FIFO,
        <Fifo as InputMode>::FIFO,
        <Direct as InputMode>::STOP_SM == 0x0010_0008,
        <Direct as InputMode>::START_MASTER == 0x0010_0808,
        <Direct as InputMode>::START_OTHER == 0x0010_0809,
        <Direct as InputMode>::START_GO == 0x0010_0009,
        <Fifo as InputMode>::STOP_SM == 0x0010_8008,
        <Fifo as InputMode>::START_MASTER == 0x0018_c808,
        <Fifo as InputMode>::START_OTHER == 0x0018_c809,
        <Fifo as InputMode>::START_GO == 0x0018_c809,
{
}

/// Streaming configuration for one layer.
#[derive(Clone, PartialEq, Eq, Debug, Default)]
pub struct Stream {
    pub slot: u8,
    pub start: Stream1,
    pub delta: Stream2,
    pub rollover: Fmax,
}

/// One hardware layer: the value of every layer register, with the four
/// registers that differ between quadrants held once per quadrant.
#[derive(Clone, PartialEq, Eq, Debug, Default)]
pub struct Layer {
    pub next: Nxtlyr,
    pub rows: Rcnt,
    pub cols: Ccnt,
    pub oned: Oned,
    pub pool_rows: Prcnt,
    pub pool_cols: Pccnt,
    pub stride: Stride,
    pub wptr_ts: WptrToffs,
    pub wptr_moffs: Option<WptrMoffs>,
    pub wptr_choffs: WptrChoffs,
    pub rptr: RptrBase,
    pub lctl2: Lctl2,
    pub mcnt1: Option<Mcnt1>,
    pub mcnt2: Mcnt2,
    pub ochan: Ochan,
    pub tptr: Tptr,
    pub lctl: [Lctl; 4],
    pub post: [Post; 4],
    pub wptr: [WptrBase; 4],
    pub ena: [Ena; 4],
    pub stream: Option<Stream>,
    /// Program into the master quadrant only
    pub master_only: bool,
}

/// Whether a layer holds the fixed words of the passthrough layer the
/// generator inserts before an average pool that follows an element-wise op.
pub open spec fn spec_is_synthetic(layer: Layer) -> bool {
    &&& layer.rows@ == 0x0001_0000
    &&& layer.cols@ == 0x0001_0000
    &&& layer.stride@ == 0x0000_0010
    &&& layer.oned@ == 0x0000_0100
    &&& layer.lctl[0]@ == 0x0000_0920
    &&& layer.post[0]@ == 0x0300_0000
    &&& layer.ena[0]@ == 0x0000_0001
}

impl Layer {
    /// A layer with every register zero, no optional register, no streaming,
    /// programmed into every quadrant. The same value as `Default`.
    pub fn new() -> (layer: Self)
        ensures
            layer.next@ == 0 && layer.rows@ == 0 && layer.cols@ == 0 && layer.oned@ == 0,
            layer.pool_rows@ == 0 && layer.pool_cols@ == 0 && layer.stride@ == 0,
            layer.wptr_ts@ == 0 && layer.wptr_moffs is None && layer.wptr_choffs@ == 0,
            layer.rptr@ == 0 && layer.lctl2@ == 0 && layer.mcnt1 is None,
            layer.mcnt2@ == 0 && layer.ochan@ == 0 && layer.tptr@ == 0,
            forall|q: int|
                0 <= q < 4 ==> layer.lctl[q]@ == 0 && layer.post[q]@ == 0 && layer.wptr[q]@ == 0
                    && layer.ena[q]@ == 0,
            layer.stream is None,
            !layer.master_only,
    {
        Layer {
            next: Nxtlyr::new(),
            rows: Rcnt::new(),
            cols: Ccnt::new(),
            oned: Oned::new(),
            pool_rows: Prcnt::new(),
            pool_cols: Pccnt::new(),
            stride: Stride::new(),
            wptr_ts: WptrToffs::new(),
            wptr_moffs: None,
            wptr_choffs: WptrChoffs::new(),
            rptr: RptrBase::new(),
            lctl2: Lctl2::new(),
            mcnt1: None,
            mcnt2: Mcnt2::new(),
            ochan: Ochan::new(),
            tptr: Tptr::new(),
            lctl: [Lctl::new(), Lctl::new(), Lctl::new(), Lctl::new()],
            post: [Post::new(), Post::new(), Post::new(), Post::new()],
            wptr: [WptrBase::new(), WptrBase::new(), WptrBase::new(), WptrBase::new()],
            ena: [Ena::new(), Ena::new(), Ena::new(), Ena::new()],
            stream: None,
            master_only: false,
        }
    }

    /// Whether this is the generator's inserted passthrough layer.
    pub fn is_synthetic(&self) -> (synthetic: bool)
        ensures
            synthetic == spec_is_synthetic(*self),
    {
        self.rows.bits() == 0x0001_0000 && self.cols.bits() == 0x0001_0000
            && self.stride.bits() == 0x0000_0010 && self.oned.bits() == 0x0000_0100
            && self.lctl[0].bits() == 0x0000_0920 && self.post[0].bits() == 0x0300_0000
            && self.ena[0].bits() == 0x0000_0001
    }
}

/// A contiguous run of weights destined for one processor's kernel memory.
#[derive(Clone, Copy, PartialEq, Eq, Debug)]
pub struct WeightRegion<'a> {
    pub quadrant: u8,
    pub processor: u8,
    /// Byte offset within the processor's kernel memory window.
    pub offset: u32,
    pub data: &'a [u32],
}

/// A region of data memory the network reads its input from.
#[derive(Clone, Copy, PartialEq, Eq, Debug, Structural)]
pub struct InputRegion {
    pub quadrant: u8,
    pub instance: u8,
    /// Word offset within the memory instance.
    pub word: u16,
    /// Length in words.
    pub len: u16,
}

/// A region of data memory holding part of the network's output.
#[derive(Clone, Copy, PartialEq, Eq, Debug, Structural)]
pub struct OutputRegion {
    pub quadrant: u8,
    pub instance: u8,
    /// Word offset within the memory instance.
    pub word: u16,
    /// Length in words.
    pub len: u16,
}

/// A network: its layers, where its weights, bias, input and output live,
/// and how its input arrives.
pub struct Network<'a, M: InputMode = Direct> {
    pub layers: &'a [Layer],
    /// Index of the first hardware layer to execute
    pub first_layer: u8,
    /// Index of the last hardware layer
    pub last_layer: u8,
    pub weights: &'a [WeightRegion<'a>],
    /// Bias data per quadrant
    pub bias: Option<&'a [&'a [u8]; 4]>,
    /// Where the input goes in data memory, before the network starts
    pub input: &'a [InputRegion],
    pub output: &'a [OutputRegion],
    pub _mode: PhantomData<M>,
}

/// Total words a sequence of input regions covers.
pub open spec fn input_span(regions: Seq<InputRegion>) -> nat
    decreases regions.len(),
{
    if regions.len() == 0 {
        0
    } else {
        input_span(regions.drop_last()) + regions.last().len as nat
    }
}

/// Total words a sequence of output regions covers.
pub open spec fn output_span(regions: Seq<OutputRegion>) -> nat
    decreases regions.len(),
{
    if regions.len() == 0 {
        0
    } else {
        output_span(regions.drop_last()) + regions.last().len as nat
    }
}

/// The words of a prefix of the input regions never exceed the total.
pub proof fn lemma_input_span_prefix(regions: Seq<InputRegion>, n: int)
    requires
        0 <= n <= regions.len(),
    ensures
        input_span(regions.take(n)) <= input_span(regions),
    decreases regions.len(),
{
    if n < regions.len() {
        assert(regions.drop_last().take(n) =~= regions.take(n));
        lemma_input_span_prefix(regions.drop_last(), n);
    } else {
        assert(regions.take(n) =~= regions);
    }
}

/// The words of a prefix of the output regions never exceed the total.
pub proof fn lemma_output_span_prefix(regions: Seq<OutputRegion>, n: int)
    requires
        0 <= n <= regions.len(),
    ensures
        output_span(regions.take(n)) <= output_span(regions),
    decreases regions.len(),
{
    if n < regions.len() {
        assert(regions.drop_last().take(n) =~= regions.take(n));
        lemma_output_span_prefix(regions.drop_last(), n);
    } else {
        assert(regions.take(n) =~= regions);
    }
}

impl<'a, M: InputMode> Network<'a, M> {
    pub fn new(
        layers: &'a [Layer],
        first_layer: u8,
        last_layer: u8,
        weights: &'a [WeightRegion<'a>],
        bias: Option<&'a [&'a [u8]; 4]>,
        input: &'a [InputRegion],
        output: &'a [OutputRegion],
    ) -> (network: Self)
        ensures
            network.layers == layers,
            network.first_layer == first_layer,
            network.last_layer == last_layer,
            network.weights == weights,
            network.bias == bias,
            network.input == input,
            network.output == output,
    {
        Self { layers, first_layer, last_layer, weights, bias, input, output, _mode: PhantomData }
    }

    /// Whether any layer streams. Streaming requires FIFO input.
    pub fn is_streaming(&self) -> (streaming: bool)
        ensures
            streaming == exists|i: int| 0 <= i < self.layers@.len() && self.layers@[i].stream is Some,
    {
        let mut i: usize = 0;
        while i < self.layers.len()
            invariant
                i <= self.layers@.len(),
                forall|j: int| 0 <= j < i ==> self.layers@[j].stream is None,
            decreases self.layers@.len() - i,
        {
            if self.layers[i].stream.is_some() {
                return true;
            }
            i += 1;
        }
        false
    }

    pub fn has_bias(&self) -> (bias: bool)
        ensures
            bias == self.bias is Some,
    {
        self.bias.is_some()
    }

    /// Total words the input regions cover.
    pub fn input_words(&self) -> (words: usize)
        requires
            input_span(self.input@) <= usize::MAX,
        ensures
            words == input_span(self.input@),
    {
        let mut words: usize = 0;
        let mut i: usize = 0;
        while i < self.input.len()
            invariant
                i <= self.input@.len(),
                words == input_span(self.input@.take(i as int)),
                input_span(self.input@) <= usize::MAX,
            decreases self.input@.len() - i,
        {
            proof {
                assert(self.input@.take(i + 1).drop_last() =~= self.input@.take(i as int));
                lemma_input_span_prefix(self.input@, i + 1);
            }
            words = words + self.input[i].len as usize;
            i += 1;
        }
        assert(self.input@.take(i as int) =~= self.input@);
        words
    }

    /// Total words the output regions cover.
    pub fn output_words(&self) -> (words: usize)
        requires
            output_span(self.output@) <= usize::MAX,
        ensures
            words == output_span(self.output@),
    {
        let mut words: usize = 0;
        let mut i: usize = 0;
        while i < self.output.len()
            invariant
                i <= self.output@.len(),
                words == output_span(self.output@.take(i as int)),
                output_span(self.output@) <= usize::MAX,
            decreases self.output@.len() - i,
        {
            proof {
                assert(self.output@.take(i + 1).drop_last() =~= self.output@.take(i as int));
                lemma_output_span_prefix(self.output@, i + 1);
            }
            words = words + self.output[i].len as usize;
            i += 1;
        }
        assert(self.output@.take(i as int) =~= self.output@);
        words
    }
}

} // verus!
