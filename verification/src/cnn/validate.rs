//! Checks a network before anything reaches the accelerator

use super::config::{emit_layer, layer_writes, MASTER_QUADRANT};
use super::data::{bias_tables_fit, input_regions_fit, output_regions_fit, weight_regions_fit};
use super::fields::{declared_bits, reserved_bits};
use super::memory::{bias_fits, data_burst_fits, kernel_burst_fits, DATA_WINDOW_BYTES, KERNEL_WINDOW_BYTES, BIAS_ENTRIES};
use super::network::{InputMode, Layer, Network, WeightRegion, InputRegion, OutputRegion};
use super::regs::{LayerReg, DATA_INSTANCES_PER_QUADRANT, MAX_LAYERS, PROCESSORS_PER_QUADRANT, QUADRANTS};
use vstd::prelude::*;

verus! {

/// Why a network cannot be programmed
#[derive(Clone, Copy, PartialEq, Eq, Debug, Structural)]
pub enum Invalid {
    /// More layers than the register file holds
    TooManyLayers { layers: usize },
    /// `first_layer`/`last_layer` do not index the layer table
    LayerRange { first: u8, last: u8, layers: usize },
    /// A weight region names a quadrant or processor that does not exist
    WeightTarget { region: usize },
    /// A weight region runs past the end of a processor's kernel window
    WeightOverrun { region: usize },
    /// More bias values than a quadrant's bias memory holds
    BiasOverrun { quadrant: u8 },
    /// A data region names a quadrant or instance that does not exist
    DataTarget { region: usize, input: bool },
    /// A data region runs past the end of its memory window
    DataOverrun { region: usize, input: bool },
    /// `MASK_ENA` is neither zero nor a mirror of `PROC_ENA`
    MaskEnables { layer: u8, quadrant: u8 },
    /// `SIENA` is set outside the master quadrant, or names the master itself
    SourceEnables { layer: u8, quadrant: u8 },
    /// `SHIFT_CNT` has spilled into the bit `DW_BCAST` occupies
    ShiftCountCollision { layer: u8, quadrant: u8 },
    /// A register has bits set that belong to no field
    ReservedBits { layer: u8, quadrant: u8, reg: LayerReg, bits: u32 },
    /// A layer streams, which needs FIFO input, on a network with direct input
    Streaming { layer: u8 },
}

/// The layer table check: at most `MAX_LAYERS` layers, and a start and end
/// that index the table in order.
pub open spec fn layer_table_check(layers: nat, first: u8, last: u8) -> Result<(), Invalid> {
    if layers > MAX_LAYERS {
        Err(Invalid::TooManyLayers { layers: layers as usize })
    } else if first > last || last >= (if layers > 1 { layers } else { 1 }) {
        Err(Invalid::LayerRange { first, last, layers: layers as usize })
    } else {
        Ok(())
    }
}

/// What is wrong with weight region number `region`, if anything.
pub open spec fn weight_error(w: WeightRegion, region: int) -> Option<Invalid> {
    if w.quadrant >= QUADRANTS || w.processor >= PROCESSORS_PER_QUADRANT {
        Some(Invalid::WeightTarget { region: region as usize })
    } else if w.offset % 4 != 0 || w.offset + 4 * w.data@.len() > KERNEL_WINDOW_BYTES {
        Some(Invalid::WeightOverrun { region: region as usize })
    } else {
        None
    }
}

/// The first error among weight regions `i..`.
pub open spec fn weights_check(ws: Seq<WeightRegion>, i: int) -> Result<(), Invalid>
    decreases ws.len() - i,
{
    if i < 0 || i >= ws.len() {
        Ok(())
    } else {
        match weight_error(ws[i], i) {
            Some(e) => Err(e),
            None => weights_check(ws, i + 1),
        }
    }
}

/// The first quadrant from `q` whose bias table overruns its memory.
pub open spec fn bias_check(tables: Seq<&[u8]>, q: int) -> Result<(), Invalid>
    decreases 4 - q,
{
    if q < 0 || q >= 4 || q >= tables.len() {
        Ok(())
    } else if tables[q]@.len() > BIAS_ENTRIES {
        Err(Invalid::BiasOverrun { quadrant: q as u8 })
    } else {
        bias_check(tables, q + 1)
    }
}

/// What is wrong with a data region, if anything.
pub open spec fn data_error(quadrant: u8, instance: u8, word: u16, len: u16, region: int, input: bool) -> Option<Invalid> {
    if quadrant >= QUADRANTS || instance >= DATA_INSTANCES_PER_QUADRANT {
        Some(Invalid::DataTarget { region: region as usize, input })
    } else if 4 * (word + len) > DATA_WINDOW_BYTES {
        Some(Invalid::DataOverrun { region: region as usize, input })
    } else {
        None
    }
}

/// The first error among input regions `i..`.
pub open spec fn input_check(rs: Seq<InputRegion>, i: int) -> Result<(), Invalid>
    decreases rs.len() - i,
{
    if i < 0 || i >= rs.len() {
        Ok(())
    } else {
        match data_error(rs[i].quadrant, rs[i].instance, rs[i].word, rs[i].len, i, true) {
            Some(e) => Err(e),
            None => input_check(rs, i + 1),
        }
    }
}

/// The first error among output regions `i..`.
pub open spec fn output_check(rs: Seq<OutputRegion>, i: int) -> Result<(), Invalid>
    decreases rs.len() - i,
{
    if i < 0 || i >= rs.len() {
        Ok(())
    } else {
        match data_error(rs[i].quadrant, rs[i].instance, rs[i].word, rs[i].len, i, false) {
            Some(e) => Err(e),
            None => output_check(rs, i + 1),
        }
    }
}

/// The first write from `j` on that sets a reserved bit: its register and
/// the reserved bits it sets.
pub open spec fn first_reserved(writes: Seq<(LayerReg, u32)>, j: int) -> Option<(LayerReg, u32)>
    decreases writes.len() - j,
{
    if j < 0 || j >= writes.len() {
        None
    } else if writes[j].1 & !declared_bits(writes[j].0) != 0 {
        Some((writes[j].0, writes[j].1 & !declared_bits(writes[j].0)))
    } else {
        first_reserved(writes, j + 1)
    }
}

/// What is wrong with layer `layer` (numbered `index`) in quadrant `q`, in
/// the order the checks run: mask enables, source enables, the shift count
/// collision, then reserved bits.
pub open spec fn layer_error(layer: Layer, index: u8, q: u8) -> Option<Invalid> {
    let ena = layer.ena[q as int]@;
    let lctl = layer.lctl[q as int]@;
    let post = layer.post[q as int]@;
    let mask = (ena >> 16u32) & 0xffff;
    let siena = (lctl >> 12u32) & 0xf;
    if mask != 0 && mask != ena & 0xffff {
        Some(Invalid::MaskEnables { layer: index, quadrant: q })
    } else if (siena != 0 && q != MASTER_QUADRANT) || siena & 1 != 0 {
        Some(Invalid::SourceEnables { layer: index, quadrant: q })
    } else if lctl & 0x2_0000 != 0 && post & 0x8000_0000 == 0 && (lctl >> 26u32) & 0xf >= 8 {
        Some(Invalid::ShiftCountCollision { layer: index, quadrant: q })
    } else {
        match first_reserved(layer_writes(layer, q as int), 0) {
            Some((reg, bits)) => Some(Invalid::ReservedBits { layer: index, quadrant: q, reg, bits }),
            None => None,
        }
    }
}

/// The first error of layer `layer` among quadrants `q..`.
pub open spec fn quadrants_check(layer: Layer, index: u8, q: int) -> Result<(), Invalid>
    decreases 4 - q,
{
    if q < 0 || q >= 4 {
        Ok(())
    } else {
        match layer_error(layer, index, q as u8) {
            Some(e) => Err(e),
            None => quadrants_check(layer, index, q + 1),
        }
    }
}

/// The first error among layers `i..`: a streaming layer when the input is
/// not a FIFO, then each layer checked quadrant by quadrant.
pub open spec fn layers_check(layers: Seq<Layer>, fifo: bool, i: int) -> Result<(), Invalid>
    decreases layers.len() - i,
{
    if i < 0 || i >= layers.len() {
        Ok(())
    } else if !fifo && layers[i].stream is Some {
        Err(Invalid::Streaming { layer: i as u8 })
    } else {
        match quadrants_check(layers[i], i as u8, 0) {
            Err(e) => Err(e),
            Ok(()) => layers_check(layers, fifo, i + 1),
        }
    }
}

/// The outcome of validating a network: the first check that fails, in the
/// order layer table, weights, bias, data regions, layers. A streaming layer
/// is rejected unless the network's input is a FIFO.
pub open spec fn validation<M: InputMode>(net: &Network<'_, M>) -> Result<(), Invalid> {
    let table = layer_table_check(net.layers@.len(), net.first_layer, net.last_layer);
    if table is Err {
        table
    } else if weights_check(net.weights@, 0) is Err {
        weights_check(net.weights@, 0)
    } else if net.bias is Some && bias_check(net.bias.unwrap()@, 0) is Err {
        bias_check(net.bias.unwrap()@, 0)
    } else if input_check(net.input@, 0) is Err {
        input_check(net.input@, 0)
    } else if output_check(net.output@, 0) is Err {
        output_check(net.output@, 0)
    } else {
        layers_check(net.layers@, M::FIFO, 0)
    }
}

/// A network that validates can be programmed: its layer table fits the
/// register file and `first_layer..=last_layer` indexes it; every weight
/// region, bias table and data region lies inside its memory; and in every
/// quadrant each layer passes the enable and shift-count rules and writes no
/// register with a bit that belongs to no field. No layer streams unless
/// the input is a FIFO.
pub proof fn lemma_valid_network_fits<M: InputMode>(net: &Network<'_, M>)
    requires
        validation(net) is Ok,
    ensures
        net.layers@.len() <= MAX_LAYERS,
        net.first_layer <= net.last_layer,
        net.last_layer < net.layers@.len() || (net.layers@.len() == 0 && net.last_layer == 0),
        weight_regions_fit(net.weights@),
        bias_tables_fit(net.bias),
        input_regions_fit(net.input@),
        output_regions_fit(net.output@),
        !M::FIFO ==> forall|i: int| 0 <= i < net.layers@.len() ==> (#[trigger] net.layers@[i]).stream is None,
        forall|i: int, q: u8|
            0 <= i < net.layers@.len() && q < QUADRANTS ==> #[trigger] layer_error(
                net.layers@[i],
                i as u8,
                q,
            ) is None,
        forall|i: int, q: int, t: int|
            0 <= i < net.layers@.len() && 0 <= q < QUADRANTS && 0 <= t < layer_writes(
                net.layers@[i],
                q,
            ).len() ==> #[trigger] layer_writes(net.layers@[i], q)[t].1 & !declared_bits(
                layer_writes(net.layers@[i], q)[t].0,
            ) == 0,
{
    lemma_weights_ok(net.weights@, 0);
    if net.bias is Some {
        lemma_bias_ok(net.bias.unwrap()@, 0);
    }
    lemma_input_ok(net.input@, 0);
    lemma_output_ok(net.output@, 0);
    lemma_layers_ok(net.layers@, M::FIFO, 0);
    assert forall|i: int, q: u8|
        0 <= i < net.layers@.len() && q < QUADRANTS implies #[trigger] layer_error(
            net.layers@[i],
            i as u8,
            q,
        ) is None by {
        lemma_quadrants_ok(net.layers@[i], i as u8, 0);
        assert(layer_error(net.layers@[i], i as u8, (q as int) as u8) is None);
    }
    assert forall|i: int, q: int, t: int|
        0 <= i < net.layers@.len() && 0 <= q < QUADRANTS && 0 <= t < layer_writes(
            net.layers@[i],
            q,
        ).len() implies #[trigger] layer_writes(net.layers@[i], q)[t].1 & !declared_bits(
            layer_writes(net.layers@[i], q)[t].0,
        ) == 0 by {
        lemma_quadrants_ok(net.layers@[i], i as u8, 0);
        assert(layer_error(net.layers@[i], i as u8, q as u8) is None);
        assert(q as u8 as int == q);
        lemma_no_reserved(layer_writes(net.layers@[i], q), 0);
    }
}

/// The data regions are accepted exactly when each names one of the four
/// quadrants and one of its four data memory instances, and ends inside the
/// instance's 128 KiB window: `4 * (word + len) <= 0x2_0000`. Nothing
/// tighter than the window is asked of a region.
pub proof fn lemma_data_regions_accepted(inputs: Seq<InputRegion>, outputs: Seq<OutputRegion>)
    ensures
        input_check(inputs, 0) is Ok <==> forall|i: int|
            0 <= i < inputs.len() ==> {
                &&& (#[trigger] inputs[i]).quadrant < 4
                &&& inputs[i].instance < 4
                &&& 4 * (inputs[i].word + inputs[i].len) <= 0x2_0000
            },
        output_check(outputs, 0) is Ok <==> forall|i: int|
            0 <= i < outputs.len() ==> {
                &&& (#[trigger] outputs[i]).quadrant < 4
                &&& outputs[i].instance < 4
                &&& 4 * (outputs[i].word + outputs[i].len) <= 0x2_0000
            },
{
    lemma_input_accepted(inputs, 0);
    lemma_output_accepted(outputs, 0);
}

/// The weight regions are accepted exactly when each names one of the four
/// quadrants and one of its sixteen processors, starts on a word and ends
/// inside the processor's 128 KiB kernel window; the bias tables exactly
/// when none holds more than the 2048 entries of its quadrant's bias memory.
pub proof fn lemma_weights_and_bias_accepted(ws: Seq<WeightRegion>, tables: Seq<&[u8]>)
    ensures
        weights_check(ws, 0) is Ok <==> forall|i: int|
            0 <= i < ws.len() ==> {
                &&& (#[trigger] ws[i]).quadrant < 4
                &&& ws[i].processor < 16
                &&& ws[i].offset % 4 == 0
                &&& ws[i].offset + 4 * ws[i].data@.len() <= 0x2_0000
            },
        bias_check(tables, 0) is Ok <==> forall|q: int|
            0 <= q < 4 && q < tables.len() ==> (#[trigger] tables[q])@.len() <= 2048,
{
    lemma_weights_accepted(ws, 0);
    lemma_bias_accepted(tables, 0);
}

proof fn lemma_weights_accepted(ws: Seq<WeightRegion>, k: int)
    requires
        0 <= k <= ws.len(),
    ensures
        weights_check(ws, k) is Ok <==> forall|i: int|
            k <= i < ws.len() ==> {
                &&& (#[trigger] ws[i]).quadrant < 4
                &&& ws[i].processor < 16
                &&& ws[i].offset % 4 == 0
                &&& ws[i].offset + 4 * ws[i].data@.len() <= 0x2_0000
            },
    decreases ws.len() - k,
{
    if k < ws.len() {
        lemma_weights_accepted(ws, k + 1);
    }
}

proof fn lemma_bias_accepted(tables: Seq<&[u8]>, k: int)
    requires
        0 <= k <= 4,
    ensures
        bias_check(tables, k) is Ok <==> forall|q: int|
            k <= q < 4 && q < tables.len() ==> (#[trigger] tables[q])@.len() <= 2048,
    decreases 4 - k,
{
    if k < 4 && k < tables.len() {
        lemma_bias_accepted(tables, k + 1);
    }
}

proof fn lemma_input_accepted(rs: Seq<InputRegion>, k: int)
    requires
        0 <= k <= rs.len(),
    ensures
        input_check(rs, k) is Ok <==> forall|i: int|
            k <= i < rs.len() ==> {
                &&& (#[trigger] rs[i]).quadrant < 4
                &&& rs[i].instance < 4
                &&& 4 * (rs[i].word + rs[i].len) <= 0x2_0000
            },
    decreases rs.len() - k,
{
    if k < rs.len() {
        lemma_input_accepted(rs, k + 1);
    }
}

proof fn lemma_output_accepted(rs: Seq<OutputRegion>, k: int)
    requires
        0 <= k <= rs.len(),
    ensures
        output_check(rs, k) is Ok <==> forall|i: int|
            k <= i < rs.len() ==> {
                &&& (#[trigger] rs[i]).quadrant < 4
                &&& rs[i].instance < 4
                &&& 4 * (rs[i].word + rs[i].len) <= 0x2_0000
            },
    decreases rs.len() - k,
{
    if k < rs.len() {
        lemma_output_accepted(rs, k + 1);
    }
}

proof fn lemma_weights_ok(ws: Seq<WeightRegion>, k: int)
    requires
        0 <= k,
        weights_check(ws, k) is Ok,
    ensures
        forall|i: int| k <= i < ws.len() ==> weight_error(#[trigger] ws[i], i) is None,
    decreases ws.len() - k,
{
    if k < ws.len() {
        lemma_weights_ok(ws, k + 1);
    }
}

proof fn lemma_bias_ok(tables: Seq<&[u8]>, k: int)
    requires
        0 <= k,
        bias_check(tables, k) is Ok,
    ensures
        forall|q: int| k <= q < 4 && q < tables.len() ==> (#[trigger] tables[q])@.len() <= BIAS_ENTRIES,
    decreases 4 - k,
{
    if k < 4 && k < tables.len() {
        lemma_bias_ok(tables, k + 1);
    }
}

proof fn lemma_input_ok(rs: Seq<InputRegion>, k: int)
    requires
        0 <= k,
        input_check(rs, k) is Ok,
    ensures
        forall|i: int|
            k <= i < rs.len() ==> data_error(
                (#[trigger] rs[i]).quadrant,
                rs[i].instance,
                rs[i].word,
                rs[i].len,
                i,
                true,
            ) is None,
    decreases rs.len() - k,
{
    if k < rs.len() {
        lemma_input_ok(rs, k + 1);
    }
}

proof fn lemma_output_ok(rs: Seq<OutputRegion>, k: int)
    requires
        0 <= k,
        output_check(rs, k) is Ok,
    ensures
        forall|i: int|
            k <= i < rs.len() ==> data_error(
                (#[trigger] rs[i]).quadrant,
                rs[i].instance,
                rs[i].word,
                rs[i].len,
                i,
                false,
            ) is None,
    decreases rs.len() - k,
{
    if k < rs.len() {
        lemma_output_ok(rs, k + 1);
    }
}

proof fn lemma_layers_ok(layers: Seq<Layer>, fifo: bool, k: int)
    requires
        0 <= k,
        layers_check(layers, fifo, k) is Ok,
    ensures
        forall|i: int| k <= i < layers.len() ==> quadrants_check(#[trigger] layers[i], i as u8, 0) is Ok,
        forall|i: int| k <= i < layers.len() && !fifo ==> (#[trigger] layers[i]).stream is None,
    decreases layers.len() - k,
{
    if k < layers.len() {
        lemma_layers_ok(layers, fifo, k + 1);
    }
}

proof fn lemma_quadrants_ok(layer: Layer, index: u8, k: int)
    requires
        0 <= k,
        quadrants_check(layer, index, k) is Ok,
    ensures
        forall|q: int| k <= q < 4 ==> #[trigger] layer_error(layer, index, q as u8) is None,
    decreases 4 - k,
{
    if k < 4 {
        lemma_quadrants_ok(layer, index, k + 1);
    }
}

proof fn lemma_no_reserved(writes: Seq<(LayerReg, u32)>, k: int)
    requires
        0 <= k,
        first_reserved(writes, k) is None,
    ensures
        forall|t: int| k <= t < writes.len() ==> (#[trigger] writes[t]).1 & !declared_bits(writes[t].0) == 0,
    decreases writes.len() - k,
{
    if k < writes.len() {
        lemma_no_reserved(writes, k + 1);
    }
}

impl<'a, M: InputMode> Network<'a, M> {
    /// Check the network against everything knowable without hardware
    pub fn validate(&self) -> (result: Result<(), Invalid>)
        ensures
            result == validation(self),
    {
        self.check_layer_table()?;
        self.check_weights()?;
        self.check_bias()?;
        self.check_data()?;
        self.check_layers()
    }

    fn check_layer_table(&self) -> (result: Result<(), Invalid>)
        ensures
            result == layer_table_check(self.layers@.len(), self.first_layer, self.last_layer),
    {
        let layers = self.layers.len();
        if layers > MAX_LAYERS as usize {
            return Err(Invalid::TooManyLayers { layers });
        }
        let bound = if layers > 1 { layers } else { 1 };
        if self.first_layer > self.last_layer || self.last_layer as usize >= bound {
            return Err(Invalid::LayerRange { first: self.first_layer, last: self.last_layer, layers });
        }
        Ok(())
    }

    fn check_weights(&self) -> (result: Result<(), Invalid>)
        ensures
            result == weights_check(self.weights@, 0),
    {
        let mut region: usize = 0;
        while region < self.weights.len()
            invariant
                region <= self.weights@.len(),
                weights_check(self.weights@, 0) == weights_check(self.weights@, region as int),
            decreases self.weights@.len() - region,
        {
            let w = &self.weights[region];
            if w.quadrant >= QUADRANTS || w.processor >= PROCESSORS_PER_QUADRANT {
                return Err(Invalid::WeightTarget { region });
            }
            if w.offset % 4 != 0 || !kernel_burst_fits(w.offset, w.data.len()) {
                return Err(Invalid::WeightOverrun { region });
            }
            region += 1;
        }
        Ok(())
    }

    fn check_bias(&self) -> (result: Result<(), Invalid>)
        ensures
            result == (if self.bias is Some {
                bias_check(self.bias.unwrap()@, 0)
            } else {
                Ok(())
            }),
    {
        let tables = match self.bias {
            Some(tables) => tables,
            None => {
                return Ok(());
            },
        };
        let mut quadrant: usize = 0;
        while quadrant < 4
            invariant
                quadrant <= 4,
                tables@.len() == 4,
                self.bias == Some(tables),
                bias_check(tables@, 0) == bias_check(tables@, quadrant as int),
            decreases 4 - quadrant,
        {
            if !bias_fits(tables[quadrant].len()) {
                return Err(Invalid::BiasOverrun { quadrant: quadrant as u8 });
            }
            quadrant += 1;
        }
        Ok(())
    }

    fn check_data(&self) -> (result: Result<(), Invalid>)
        ensures
            result == (if input_check(self.input@, 0) is Err {
                input_check(self.input@, 0)
            } else {
                output_check(self.output@, 0)
            }),
    {
        let mut region: usize = 0;
        while region < self.input.len()
            invariant
                region <= self.input@.len(),
                input_check(self.input@, 0) == input_check(self.input@, region as int),
            decreases self.input@.len() - region,
        {
            let r = self.input[region];
            check_region(r.quadrant, r.instance, r.word, r.len, region, true)?;
            region += 1;
        }
        let mut region: usize = 0;
        while region < self.output.len()
            invariant
                region <= self.output@.len(),
                input_check(self.input@, 0) == Ok::<(), Invalid>(()),
                output_check(self.output@, 0) == output_check(self.output@, region as int),
            decreases self.output@.len() - region,
        {
            let r = self.output[region];
            check_region(r.quadrant, r.instance, r.word, r.len, region, false)?;
            region += 1;
        }
        Ok(())
    }

    fn check_layers(&self) -> (result: Result<(), Invalid>)
        ensures
            result == layers_check(self.layers@, M::FIFO, 0),
    {
        let mut i: usize = 0;
        while i < self.layers.len()
            invariant
                i <= self.layers@.len(),
                layers_check(self.layers@, M::FIFO, 0) == layers_check(self.layers@, M::FIFO, i as int),
            decreases self.layers@.len() - i,
        {
            let index = i as u8;
            let layer = &self.layers[i];
            if !M::FIFO && layer.stream.is_some() {
                return Err(Invalid::Streaming { layer: index });
            }
            let mut q: u8 = 0;
            while q < QUADRANTS
                invariant
                    q <= QUADRANTS,
                    i < self.layers@.len(),
                    *layer == self.layers@[i as int],
                    index == i as u8,
                    !M::FIFO ==> layer.stream is None,
                    layers_check(self.layers@, M::FIFO, 0) == layers_check(self.layers@, M::FIFO, i as int),
                    quadrants_check(*layer, index, 0) == quadrants_check(*layer, index, q as int),
                decreases QUADRANTS - q,
            {
                let checked = check_layer_quadrant(layer, index, q);
                if checked.is_err() {
                    return checked;
                }
                q += 1;
            }
            i += 1;
        }
        Ok(())
    }
}

/// Checks one data region.
fn check_region(quadrant: u8, instance: u8, word: u16, len: u16, region: usize, input: bool) -> (result: Result<(), Invalid>)
    ensures
        result == (match data_error(quadrant, instance, word, len, region as int, input) {
            Some(e) => Err(e),
            None => Ok(()),
        }),
{
    if quadrant >= QUADRANTS || instance >= DATA_INSTANCES_PER_QUADRANT {
        return Err(Invalid::DataTarget { region, input });
    }
    if !data_burst_fits(word as u32, len as usize) {
        return Err(Invalid::DataOverrun { region, input });
    }
    Ok(())
}

/// Checks one layer in one quadrant.
fn check_layer_quadrant(layer: &Layer, index: u8, q: u8) -> (result: Result<(), Invalid>)
    requires
        q < QUADRANTS,
    ensures
        result == (match layer_error(*layer, index, q) {
            Some(e) => Err(e),
            None => Ok(()),
        }),
{
    let (lctl, post, ena) = (layer.lctl[q as usize], layer.post[q as usize], layer.ena[q as usize]);
    let mask = ena.mask_ena();
    if mask != 0 && mask != ena.proc_ena() {
        return Err(Invalid::MaskEnables { layer: index, quadrant: q });
    }
    let siena = lctl.siena();
    let names_master = siena & 1 != 0;
    if (siena != 0 && q != MASTER_QUADRANT) || names_master {
        return Err(Invalid::SourceEnables { layer: index, quadrant: q });
    }
    // With tcalc clear the field holds in_expand - 1, and a value of 8 or
    // more sets bit 29 on its own, which the hardware reads as DW_BCAST.
    if lctl.rd_ahead() && !post.tcalc() && lctl.shift_cnt() >= 8 {
        return Err(Invalid::ShiftCountCollision { layer: index, quadrant: q });
    }
    check_reserved(layer, index, q)
}

/// Rejects any register in one layer-quadrant holding a bit no field covers
fn check_reserved(layer: &Layer, index: u8, quadrant: u8) -> (result: Result<(), Invalid>)
    requires
        quadrant < QUADRANTS,
    ensures
        result == (match first_reserved(layer_writes(*layer, quadrant as int), 0) {
            Some((reg, bits)) => Err(Invalid::ReservedBits { layer: index, quadrant, reg, bits }),
            None => Ok(()),
        }),
{
    let mut writes: Vec<(LayerReg, u32)> = Vec::new();
    emit_layer(&mut writes, layer, quadrant);
    let ghost all = layer_writes(*layer, quadrant as int);
    assert(writes@ =~= all);
    let mut j: usize = 0;
    while j < writes.len()
        invariant
            j <= writes@.len(),
            writes@ == all,
            all == layer_writes(*layer, quadrant as int),
            first_reserved(all, 0) == first_reserved(all, j as int),
        decreases writes@.len() - j,
    {
        let (reg, bits) = writes[j];
        assert((reg, bits) == all[j as int]);
        let reserved = reserved_bits(reg, bits);
        if reserved != 0 {
            assert(first_reserved(all, j as int) == Some((reg, reserved)));
            return Err(Invalid::ReservedBits { layer: index, quadrant, reg, bits: reserved });
        }
        j += 1;
    }
    Ok(())
}

} // verus!
