//! Weights, bias, and moving data in and out
//!
//! Each function here says where the data goes: the address of every word
//! written to or read from the accelerator's memories, in order.

use super::memory::{
    bias_fits, bias_words, data_addr, kernel_burst, kernel_burst_fits, spec_data_addr,
    spec_kernel_addr, write_bias, write_kernel, KernelWrite, BIAS_ENTRIES, DATA_WINDOW_BYTES,
    KERNEL_WINDOW_BYTES,
};
use super::network::{input_span, output_span, Direct, InputMode, InputRegion, Network, OutputRegion, WeightRegion};
use super::regs::{DATA_INSTANCES_PER_QUADRANT, PROCESSORS_PER_QUADRANT, QUADRANTS};
use super::Cnn;
use crate::gcr::clocks::Enabled;
use vstd::prelude::*;

verus! {

/// Whether a data region names an existing quadrant and instance and stays
/// inside its memory window.
pub open spec fn region_fits(quadrant: u8, instance: u8, word: u16, len: u16) -> bool {
    &&& quadrant < QUADRANTS
    &&& instance < DATA_INSTANCES_PER_QUADRANT
    &&& 4 * (word + len) <= DATA_WINDOW_BYTES
}

/// Address of word `j` of a data region.
pub open spec fn region_word_addr(quadrant: u8, instance: u8, word: u16, j: int) -> u32 {
    (spec_data_addr(quadrant as int, instance as int) + 4 * (word + j)) as u32
}

/// Every input region fits its memory.
pub open spec fn input_regions_fit(rs: Seq<InputRegion>) -> bool {
    forall|i: int| 0 <= i < rs.len() ==> region_fits(rs[i].quadrant, rs[i].instance, rs[i].word, rs[i].len)
}

/// Every output region fits its memory.
pub open spec fn output_regions_fit(rs: Seq<OutputRegion>) -> bool {
    forall|i: int| 0 <= i < rs.len() ==> region_fits(rs[i].quadrant, rs[i].instance, rs[i].word, rs[i].len)
}

/// The addresses of the words of the input regions, region by region.
pub open spec fn input_addrs(rs: Seq<InputRegion>) -> Seq<u32>
    decreases rs.len(),
{
    if rs.len() == 0 {
        Seq::empty()
    } else {
        let r = rs.last();
        input_addrs(rs.drop_last()) + Seq::new(
            r.len as nat,
            |j: int| region_word_addr(r.quadrant, r.instance, r.word, j),
        )
    }
}

/// The addresses of the words of the output regions, region by region.
pub open spec fn output_addrs(rs: Seq<OutputRegion>) -> Seq<u32>
    decreases rs.len(),
{
    if rs.len() == 0 {
        Seq::empty()
    } else {
        let r = rs.last();
        output_addrs(rs.drop_last()) + Seq::new(
            r.len as nat,
            |j: int| region_word_addr(r.quadrant, r.instance, r.word, j),
        )
    }
}

/// There is one input address per input word.
pub proof fn lemma_input_addrs_len(rs: Seq<InputRegion>)
    ensures
        input_addrs(rs).len() == input_span(rs),
    decreases rs.len(),
{
    if rs.len() > 0 {
        lemma_input_addrs_len(rs.drop_last());
    }
}

/// There is one output address per output word.
pub proof fn lemma_output_addrs_len(rs: Seq<OutputRegion>)
    ensures
        output_addrs(rs).len() == output_span(rs),
    decreases rs.len(),
{
    if rs.len() > 0 {
        lemma_output_addrs_len(rs.drop_last());
    }
}

/// The little-endian word of four bytes.
pub open spec fn le_word(b0: u8, b1: u8, b2: u8, b3: u8) -> u32 {
    (b0 + 0x100 * b1 + 0x1_0000 * b2 + 0x100_0000 * b3) as u32
}

/// Byte `t` (0 least significant) of a word.
pub open spec fn le_byte(w: u32, t: int) -> u8 {
    if t == 0 {
        (w & 0xff) as u8
    } else if t == 1 {
        ((w >> 8u32) & 0xff) as u8
    } else if t == 2 {
        ((w >> 16u32) & 0xff) as u8
    } else {
        ((w >> 24u32) & 0xff) as u8
    }
}

/// Packing four bytes into a word, least significant first, and unpacking
/// the word again gives the same four bytes, and every word is the packing
/// of its own bytes: the 8-bit input and output paths lose nothing.
pub proof fn lemma_le_round_trip(b0: u8, b1: u8, b2: u8, b3: u8, w: u32)
    ensures
        le_byte(le_word(b0, b1, b2, b3), 0) == b0,
        le_byte(le_word(b0, b1, b2, b3), 1) == b1,
        le_byte(le_word(b0, b1, b2, b3), 2) == b2,
        le_byte(le_word(b0, b1, b2, b3), 3) == b3,
        le_word(le_byte(w, 0), le_byte(w, 1), le_byte(w, 2), le_byte(w, 3)) == w,
{
    let packed = le_word(b0, b1, b2, b3);
    assert(packed == (b0 + 0x100 * b1 + 0x1_0000 * b2 + 0x100_0000 * b3) as u32);
    assert({
        let p = (b0 + 0x100 * b1 + 0x1_0000 * b2 + 0x100_0000 * b3) as u32;
        &&& (p & 0xff) as u8 == b0
        &&& ((p >> 8u32) & 0xff) as u8 == b1
        &&& ((p >> 16u32) & 0xff) as u8 == b2
        &&& ((p >> 24u32) & 0xff) as u8 == b3
    }) by (bit_vector);
    assert(((w & 0xff) as u8 + 0x100 * ((w >> 8u32) & 0xff) as u8 + 0x1_0000 * ((w >> 16u32) & 0xff) as u8
        + 0x100_0000 * ((w >> 24u32) & 0xff) as u8) as u32 == w) by (bit_vector);
}

/// Whether every weight region names an existing processor and stays,
/// word-aligned, inside its kernel window.
pub open spec fn weight_regions_fit(ws: Seq<WeightRegion>) -> bool {
    forall|i: int|
        0 <= i < ws.len() ==> {
            &&& ws[i].quadrant < QUADRANTS
            &&& ws[i].processor < PROCESSORS_PER_QUADRANT
            &&& ws[i].offset % 4 == 0
            &&& ws[i].offset + 4 * ws[i].data@.len() <= KERNEL_WINDOW_BYTES
        }
}

/// The writes that load weight regions, region by region.
pub open spec fn weight_writes(ws: Seq<WeightRegion>) -> Seq<KernelWrite>
    decreases ws.len(),
{
    if ws.len() == 0 {
        Seq::empty()
    } else {
        let w = ws.last();
        weight_writes(ws.drop_last()) + kernel_burst(
            (spec_kernel_addr(w.quadrant as int, w.processor as int) + w.offset) as u32,
            w.data@,
        )
    }
}

/// Loading the weights loads every word of every region: the kernel write
/// pointer of the region's start, at `0x5140_0000 + quadrant * 0x0100_0000
/// + processor * 0x2_0000 + offset`, is armed, and word `j` of the region
/// goes to that start plus `4 * j`.
pub proof fn lemma_weight_load_complete(ws: Seq<WeightRegion>, r: int, j: int)
    requires
        weight_regions_fit(ws),
        0 <= r < ws.len(),
        0 <= j < ws[r].data@.len(),
    ensures
        weight_writes(ws).contains(
            KernelWrite::Arm(
                ((0x5140_0000 + ws[r].quadrant * 0x0100_0000 + ws[r].processor * 0x2_0000
                    + ws[r].offset) as u32) | 1,
            ),
        ),
        weight_writes(ws).contains(
            KernelWrite::Word(
                (0x5140_0000 + ws[r].quadrant * 0x0100_0000 + ws[r].processor * 0x2_0000 + ws[r].offset
                    + 4 * j) as u32,
                ws[r].data@[j],
            ),
        ),
    decreases ws.len(),
{
    let rest = ws.drop_last();
    let w = ws.last();
    let start = (spec_kernel_addr(w.quadrant as int, w.processor as int) + w.offset) as u32;
    let a = weight_writes(rest);
    let b = kernel_burst(start, w.data@);
    assert(weight_writes(ws) == a + b);
    if r == ws.len() - 1 {
        assert((a + b)[a.len() as int] == b[0]);
        assert((a + b)[a.len() + 1 + j] == b[1 + j]);
    } else {
        assert(rest[r] == ws[r]);
        lemma_weight_load_complete(rest, r, j);
        let arm = choose|t: int|
            0 <= t < a.len() && a[t] == KernelWrite::Arm(
                ((0x5140_0000 + ws[r].quadrant * 0x0100_0000 + ws[r].processor * 0x2_0000
                    + ws[r].offset) as u32) | 1,
            );
        let word = choose|t: int|
            0 <= t < a.len() && a[t] == KernelWrite::Word(
                (0x5140_0000 + ws[r].quadrant * 0x0100_0000 + ws[r].processor * 0x2_0000 + ws[r].offset
                    + 4 * j) as u32,
                ws[r].data@[j],
            );
        assert((a + b)[arm] == a[arm]);
        assert((a + b)[word] == a[word]);
    }
}

/// The writes that load the bias tables of quadrants `0..n`, quadrant by
/// quadrant.
pub open spec fn bias_writes(tables: Seq<&[u8]>, n: int) -> Seq<(u32, u32)>
    decreases n,
{
    if n <= 0 {
        Seq::empty()
    } else {
        bias_writes(tables, n - 1) + bias_words(n - 1, tables[n - 1]@)
    }
}

/// Loading the bias writes every entry of every quadrant's table, once, and
/// nothing else: entry `i` of quadrant `q`'s table, zero-extended, goes to
/// the word at `0x5118_0000 + q * 0x0100_0000 + 4 * i`; there are as many
/// writes as the four tables hold entries, quadrant 0's first, then those of
/// quadrants 1, 2 and 3, each table in its own order.
pub proof fn lemma_bias_load_complete(tables: Seq<&[u8]>)
    requires
        tables.len() == 4,
        bias_entries_fit(tables),
    ensures
        bias_writes(tables, 4).len() == tables[0]@.len() + tables[1]@.len() + tables[2]@.len()
            + tables[3]@.len(),
        forall|q: int, i: int|
            0 <= q < 4 && 0 <= i < tables[q]@.len() ==> bias_writes(tables, 4).contains(
                ((0x5118_0000 + q * 0x0100_0000 + 4 * i) as u32, #[trigger] tables[q]@[i] as u32),
            ),
        forall|i: int|
            0 <= i < tables[0]@.len() ==> #[trigger] bias_writes(tables, 4)[i] == (
                (0x5118_0000 + 4 * i) as u32,
                tables[0]@[i] as u32,
            ),
        forall|i: int|
            0 <= i < tables[1]@.len() ==> #[trigger] bias_writes(tables, 4)[tables[0]@.len() + i] == (
                (0x5218_0000 + 4 * i) as u32,
                tables[1]@[i] as u32,
            ),
        forall|i: int|
            0 <= i < tables[2]@.len() ==> #[trigger] bias_writes(tables, 4)[tables[0]@.len()
                + tables[1]@.len() + i] == ((0x5318_0000 + 4 * i) as u32, tables[2]@[i] as u32),
        forall|i: int|
            0 <= i < tables[3]@.len() ==> #[trigger] bias_writes(tables, 4)[tables[0]@.len()
                + tables[1]@.len() + tables[2]@.len() + i] == (
                (0x5418_0000 + 4 * i) as u32,
                tables[3]@[i] as u32,
            ),
{
    let b0 = bias_words(0, tables[0]@);
    let b1 = bias_words(1, tables[1]@);
    let b2 = bias_words(2, tables[2]@);
    let b3 = bias_words(3, tables[3]@);
    let all = bias_writes(tables, 4);
    assert(bias_writes(tables, 1) == bias_writes(tables, 0) + b0);
    assert(bias_writes(tables, 1) =~= b0);
    assert(bias_writes(tables, 2) == b0 + b1);
    assert(bias_writes(tables, 3) == b0 + b1 + b2);
    assert(all == b0 + b1 + b2 + b3);
    let o1 = b0.len() as int;
    let o2 = o1 + b1.len();
    let o3 = o2 + b2.len();
    assert forall|q: int, i: int|
        0 <= q < 4 && 0 <= i < tables[q]@.len() implies all.contains(
        ((0x5118_0000 + q * 0x0100_0000 + 4 * i) as u32, #[trigger] tables[q]@[i] as u32),
    ) by {
        let k = if q == 0 {
            i
        } else if q == 1 {
            o1 + i
        } else if q == 2 {
            o2 + i
        } else {
            o3 + i
        };
        assert(all[k] == ((0x5118_0000 + q * 0x0100_0000 + 4 * i) as u32, tables[q]@[i] as u32));
    }
}

/// Whether every table holds at most one quadrant's bias memory of entries.
pub open spec fn bias_entries_fit(tables: Seq<&[u8]>) -> bool {
    forall|q: int| 0 <= q < tables.len() ==> (#[trigger] tables[q])@.len() <= BIAS_ENTRIES
}

/// Whether every bias table fits its quadrant's bias memory.
pub open spec fn bias_tables_fit(bias: Option<&[&[u8]; 4]>) -> bool {
    match bias {
        Some(tables) => bias_entries_fit(tables@),
        None => true,
    }
}

/// The addresses of every word of the input regions.
fn input_addresses(rs: &[InputRegion]) -> (addrs: Vec<u32>)
    requires
        input_regions_fit(rs@),
    ensures
        addrs@ == input_addrs(rs@),
{
    let mut addrs: Vec<u32> = Vec::new();
    let mut i: usize = 0;
    while i < rs.len()
        invariant
            i <= rs@.len(),
            input_regions_fit(rs@),
            addrs@ == input_addrs(rs@.take(i as int)),
        decreases rs@.len() - i,
    {
        let r = rs[i];
        let base = data_addr(r.quadrant, r.instance);
        let ghost before = addrs@;
        let mut j: u32 = 0;
        while j < r.len as u32
            invariant
                j <= r.len,
                region_fits(r.quadrant, r.instance, r.word, r.len),
                base == spec_data_addr(r.quadrant as int, r.instance as int),
                addrs@ == before + Seq::new(
                    j as nat,
                    |t: int| region_word_addr(r.quadrant, r.instance, r.word, t),
                ),
            decreases r.len - j,
        {
            addrs.push(base + (r.word as u32 + j) * 4);
            j += 1;
            assert(addrs@ =~= before + Seq::new(
                j as nat,
                |t: int| region_word_addr(r.quadrant, r.instance, r.word, t),
            ));
        }
        assert(rs@.take(i + 1).drop_last() =~= rs@.take(i as int));
        i += 1;
    }
    assert(rs@.take(i as int) =~= rs@);
    addrs
}

/// The addresses of every word of the output regions.
fn output_addresses(rs: &[OutputRegion]) -> (addrs: Vec<u32>)
    requires
        output_regions_fit(rs@),
    ensures
        addrs@ == output_addrs(rs@),
{
    let mut addrs: Vec<u32> = Vec::new();
    let mut i: usize = 0;
    while i < rs.len()
        invariant
            i <= rs@.len(),
            output_regions_fit(rs@),
            addrs@ == output_addrs(rs@.take(i as int)),
        decreases rs@.len() - i,
    {
        let r = rs[i];
        let base = data_addr(r.quadrant, r.instance);
        let ghost before = addrs@;
        let mut j: u32 = 0;
        while j < r.len as u32
            invariant
                j <= r.len,
                region_fits(r.quadrant, r.instance, r.word, r.len),
                base == spec_data_addr(r.quadrant as int, r.instance as int),
                addrs@ == before + Seq::new(
                    j as nat,
                    |t: int| region_word_addr(r.quadrant, r.instance, r.word, t),
                ),
            decreases r.len - j,
        {
            addrs.push(base + (r.word as u32 + j) * 4);
            j += 1;
            assert(addrs@ =~= before + Seq::new(
                j as nat,
                |t: int| region_word_addr(r.quadrant, r.instance, r.word, t),
            ));
        }
        assert(rs@.take(i + 1).drop_last() =~= rs@.take(i as int));
        i += 1;
    }
    assert(rs@.take(i as int) =~= rs@);
    addrs
}

/// Whether one data region fits its memory.
fn region_in_bounds(quadrant: u8, instance: u8, word: u16, len: u16) -> (fits: bool)
    ensures
        fits == region_fits(quadrant, instance, word, len),
{
    quadrant < QUADRANTS && instance < DATA_INSTANCES_PER_QUADRANT && ((word as u32) + (len as u32)) * 4
        <= DATA_WINDOW_BYTES
}

impl<'a, M: InputMode> Network<'a, M> {
    /// Whether every weight region names an existing processor and stays,
    /// word-aligned, inside its kernel window: what loading the weights
    /// needs.
    pub fn weights_in_bounds(&self) -> (fits: bool)
        ensures
            fits == weight_regions_fit(self.weights@),
    {
        let mut k: usize = 0;
        while k < self.weights.len()
            invariant
                k <= self.weights@.len(),
                weight_regions_fit(self.weights@.take(k as int)),
            decreases self.weights@.len() - k,
        {
            let w = &self.weights[k];
            if w.quadrant >= QUADRANTS || w.processor >= PROCESSORS_PER_QUADRANT || w.offset % 4 != 0
                || !kernel_burst_fits(w.offset, w.data.len()) {
                assert(self.weights@[k as int] == *w);
                return false;
            }
            assert(self.weights@.take(k + 1) =~= self.weights@.take(k as int).push(*w));
            k += 1;
        }
        assert(self.weights@.take(k as int) =~= self.weights@);
        true
    }

    /// Whether every bias table fits its quadrant's bias memory: what
    /// loading the bias needs.
    pub fn bias_in_bounds(&self) -> (fits: bool)
        ensures
            fits == bias_tables_fit(self.bias),
    {
        match self.bias {
            None => true,
            Some(tables) => {
                let mut q: usize = 0;
                while q < 4
                    invariant
                        q <= 4,
                        self.bias == Some(tables),
                        forall|p: int| 0 <= p < q ==> tables@[p]@.len() <= BIAS_ENTRIES,
                    decreases 4 - q,
                {
                    if !bias_fits(tables[q].len()) {
                        assert(tables@[q as int]@.len() > BIAS_ENTRIES);
                        return false;
                    }
                    q += 1;
                }
                true
            },
        }
    }

    /// Whether every input region fits its memory: what writing the input
    /// needs.
    pub fn input_in_bounds(&self) -> (fits: bool)
        ensures
            fits == input_regions_fit(self.input@),
    {
        let mut k: usize = 0;
        while k < self.input.len()
            invariant
                k <= self.input@.len(),
                forall|i: int|
                    0 <= i < k ==> region_fits(
                        self.input@[i].quadrant,
                        self.input@[i].instance,
                        self.input@[i].word,
                        self.input@[i].len,
                    ),
            decreases self.input@.len() - k,
        {
            let r = self.input[k];
            if !region_in_bounds(r.quadrant, r.instance, r.word, r.len) {
                return false;
            }
            k += 1;
        }
        true
    }

    /// Whether every output region fits its memory: what reading the
    /// output needs.
    pub fn output_in_bounds(&self) -> (fits: bool)
        ensures
            fits == output_regions_fit(self.output@),
    {
        let mut k: usize = 0;
        while k < self.output.len()
            invariant
                k <= self.output@.len(),
                forall|i: int|
                    0 <= i < k ==> region_fits(
                        self.output@[i].quadrant,
                        self.output@[i].instance,
                        self.output@[i].word,
                        self.output@[i].len,
                    ),
            decreases self.output@.len() - k,
        {
            let r = self.output[k];
            if !region_in_bounds(r.quadrant, r.instance, r.word, r.len) {
                return false;
            }
            k += 1;
        }
        true
    }
}

impl Cnn<Enabled> {
    /// Every write that loads the network's weights, region by region: for
    /// each, its kernel write pointer armed at the burst's start, then each
    /// word at the next address (see [`weight_writes`]).
    pub fn load_weights<M: InputMode>(&self, network: &Network<M>) -> (writes: Vec<KernelWrite>)
        requires
            weight_regions_fit(network.weights@),
        ensures
            writes@ == weight_writes(network.weights@),
    {
        let mut out: Vec<KernelWrite> = Vec::new();
        let mut k: usize = 0;
        while k < network.weights.len()
            invariant
                k <= network.weights@.len(),
                weight_regions_fit(network.weights@),
                out@ == weight_writes(network.weights@.take(k as int)),
            decreases network.weights@.len() - k,
        {
            let region = &network.weights[k];
            let mut burst = write_kernel(region.quadrant, region.processor, region.offset, region.data);
            out.append(&mut burst);
            assert(network.weights@.take(k + 1).drop_last() =~= network.weights@.take(k as int));
            k += 1;
        }
        assert(network.weights@.take(k as int) =~= network.weights@);
        out
    }

    /// Every write that loads the network's bias, if it has any: quadrant by
    /// quadrant, each entry zero-extended into its own word (see
    /// [`bias_writes`]).
    pub fn load_bias<M: InputMode>(&self, network: &Network<M>) -> (writes: Vec<(u32, u32)>)
        requires
            bias_tables_fit(network.bias),
        ensures
            writes@ == (match network.bias {
                Some(tables) => bias_writes(tables@, 4),
                None => Seq::empty(),
            }),
    {
        let mut out: Vec<(u32, u32)> = Vec::new();
        match network.bias {
            None => {},
            Some(tables) => {
                let mut q: usize = 0;
                while q < 4
                    invariant
                        q <= 4,
                        tables@.len() == 4,
                        bias_entries_fit(tables@),
                        out@ == bias_writes(tables@, q as int),
                    decreases 4 - q,
                {
                    assert(tables@[q as int]@.len() <= BIAS_ENTRIES);
                    let mut words = write_bias(q as u8, tables[q]);
                    out.append(&mut words);
                    q += 1;
                }
            },
        }
        out
    }

    /// Where a network's 32-bit input goes: word `k` of `src` is written to
    /// the `k`-th input address. Must precede `start`.
    pub fn write_u32<M: InputMode>(&self, network: &Network<M>, src: &[u32]) -> (pokes: Vec<(u32, u32)>)
        requires
            input_regions_fit(network.input@),
            src@.len() >= input_span(network.input@),
        ensures
            pokes@.len() == input_span(network.input@),
            forall|k: int| 0 <= k < pokes@.len() ==> pokes@[k] == (input_addrs(network.input@)[k], src@[k]),
    {
        let addrs = input_addresses(network.input);
        proof {
            lemma_input_addrs_len(network.input@);
        }
        let mut pokes: Vec<(u32, u32)> = Vec::new();
        let mut k: usize = 0;
        while k < addrs.len()
            invariant
                k <= addrs@.len(),
                addrs@.len() <= src@.len(),
                pokes@.len() == k,
                forall|i: int| 0 <= i < k ==> pokes@[i] == (addrs@[i], src@[i]),
            decreases addrs@.len() - k,
        {
            pokes.push((addrs[k], src[k]));
            k += 1;
        }
        pokes
    }

    /// Where a network's 8-bit input goes, four channels per word: bytes
    /// `4k` to `4k + 3` of `src`, least significant first, make the word
    /// written to the `k`-th input address.
    ///
    /// Only `(N, 1, 1)` shapes. Anything with spatial extent, an image say,
    /// is one word per pixel and would need interleaving from CHW first.
    pub fn write_u8(&self, network: &Network<Direct>, src: &[u8]) -> (pokes: Vec<(u32, u32)>)
        requires
            input_regions_fit(network.input@),
            src@.len() >= 4 * input_span(network.input@),
        ensures
            pokes@.len() == input_span(network.input@),
            forall|k: int|
                0 <= k < pokes@.len() ==> pokes@[k] == (
                    input_addrs(network.input@)[k],
                    le_word(src@[4 * k], src@[4 * k + 1], src@[4 * k + 2], src@[4 * k + 3]),
                ),
    {
        let addrs = input_addresses(network.input);
        proof {
            lemma_input_addrs_len(network.input@);
        }
        let n = src.len();
        let mut pokes: Vec<(u32, u32)> = Vec::new();
        let mut k: usize = 0;
        while k < addrs.len()
            invariant
                k <= addrs@.len(),
                n == src@.len(),
                4 * addrs@.len() <= src@.len(),
                pokes@.len() == k,
                forall|i: int|
                    0 <= i < k ==> pokes@[i] == (
                        addrs@[i],
                        le_word(src@[4 * i], src@[4 * i + 1], src@[4 * i + 2], src@[4 * i + 3]),
                    ),
            decreases addrs@.len() - k,
        {
            let pos = 4 * k;
            let packed = (src[pos] as u32) + (src[pos + 1] as u32) * 0x100 + (src[pos + 2] as u32)
                * 0x1_0000 + (src[pos + 3] as u32) * 0x100_0000;
            pokes.push((addrs[k], packed));
            k += 1;
        }
        pokes
    }

    /// Where a network's 32-bit output is read from: word `k` of the output
    /// comes from the `k`-th address returned.
    pub fn read_u32<M: InputMode>(&self, network: &Network<M>) -> (addrs: Vec<u32>)
        requires
            output_regions_fit(network.output@),
        ensures
            addrs@ == output_addrs(network.output@),
            addrs@.len() == output_span(network.output@),
    {
        proof {
            lemma_output_addrs_len(network.output@);
        }
        output_addresses(network.output)
    }

    /// A network's 8-bit output, four channels per word: `words` holds the
    /// output words read at the addresses [`read_u32`](Cnn::read_u32) gives,
    /// and each becomes four bytes, least significant first.
    ///
    /// Only `(N, 1, 1)` shapes. Anything with spatial extent comes back
    /// pixel-major, not CHW, and would need de-interleaving.
    pub fn read_u8<M: InputMode>(&self, network: &Network<M>, words: &[u32]) -> (bytes: Vec<u8>)
        requires
            words@.len() >= output_span(network.output@),
            4 * output_span(network.output@) <= usize::MAX,
        ensures
            bytes@.len() == 4 * output_span(network.output@),
            forall|k: int, t: int|
                0 <= k < output_span(network.output@) && 0 <= t < 4 ==> bytes@[4 * k + t] == le_byte(words@[k], t),
    {
        let needed = network.output_words();
        let mut bytes: Vec<u8> = Vec::new();
        let mut k: usize = 0;
        while k < needed
            invariant
                needed == output_span(network.output@),
                k <= needed,
                needed <= words@.len(),
                bytes@.len() == 4 * k,
                forall|i: int, t: int| 0 <= i < k && 0 <= t < 4 ==> bytes@[4 * i + t] == le_byte(words@[i], t),
            decreases needed - k,
        {
            let w = words[k];
            bytes.push((w & 0xff) as u8);
            bytes.push(((w >> 8) & 0xff) as u8);
            bytes.push(((w >> 16) & 0xff) as u8);
            bytes.push(((w >> 24) & 0xff) as u8);
            k += 1;
            assert forall|i: int, t: int| 0 <= i < k && 0 <= t < 4 implies bytes@[4 * i + t] == le_byte(words@[i], t) by {
                if i < k - 1 {
                } else {
                    assert(4 * i + t == 4 * (k - 1) + t);
                }
            }
        }
        bytes
    }
}

} // verus!
