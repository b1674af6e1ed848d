//! # CNN Accelerator Memories
//!
//! Addresses of the bias, TRAM, kernel and data memories, and the bounds a
//! transfer into them must respect.

use super::regs::{
    quadrant_base, spec_quadrant_base, DATA_INSTANCES_PER_QUADRANT, PROCESSORS_PER_QUADRANT,
    QUADRANTS,
};
use vstd::prelude::*;

verus! {

/// Offset of the bias memory within a quadrant.
pub const BIAS_BASE: u32 = 0x0018_0000;

/// Offset of the TRAM within a quadrant.
pub const TRAM_BASE: u32 = 0x0020_0000;

/// Offset of the kernel memory within a quadrant.
pub const KERNEL_BASE: u32 = 0x0040_0000;

/// Offset of the data SRAM within a quadrant.
pub const DATA_BASE: u32 = 0x0080_0000;

/// Address stride between kernel memories, and between data SRAM instances.
pub const MEMORY_STRIDE: u32 = 0x0002_0000;

/// Address stride between TRAM instances.
pub const TRAM_STRIDE: u32 = 0x0001_0000;

/// Bias entries per quadrant.
pub const BIAS_ENTRIES: u32 = 2048;

/// TRAM words per processor.
pub const TRAM_WORDS: u32 = 12288;

/// Address space of one data SRAM window, shared by four processors.
pub const DATA_WINDOW_BYTES: u32 = MEMORY_STRIDE;

/// Address space allotted to one processor within a data SRAM window, in words.
pub const DATA_INSTANCE_STRIDE_WORDS: u32 = 8192;

/// Words actually backed by memory within one processor's slot.
pub const DATA_INSTANCE_WORDS: u32 = 5120;

/// Total kernel memory across the whole accelerator, in bytes.
pub const TOTAL_KERNEL_BYTES: u32 = 2_396_160;

/// Kernels available to a processor that is not first in its quadrant.
pub const KERNELS_PER_PROCESSOR: u32 = 4096;

/// Kernels available to the first processor of each quadrant.
/// The extra is for input-layer processing.
pub const KERNELS_FIRST_PROCESSOR: u32 = KERNELS_PER_PROCESSOR + 1024;

/// Address space of one processor's kernel memory window.
pub const KERNEL_WINDOW_BYTES: u32 = MEMORY_STRIDE;

pub open spec fn spec_bias_addr(quadrant: int) -> int {
    spec_quadrant_base(quadrant) + BIAS_BASE
}

pub open spec fn spec_tram_addr(quadrant: int, processor: int) -> int {
    spec_quadrant_base(quadrant) + TRAM_BASE + processor * TRAM_STRIDE
}

pub open spec fn spec_kernel_addr(quadrant: int, processor: int) -> int {
    spec_quadrant_base(quadrant) + KERNEL_BASE + processor * MEMORY_STRIDE
}

pub open spec fn spec_data_addr(quadrant: int, instance: int) -> int {
    spec_quadrant_base(quadrant) + DATA_BASE + instance * MEMORY_STRIDE
}

/// Address of the bias memory for `quadrant`.
pub fn bias_addr(quadrant: u8) -> (addr: u32)
    requires
        quadrant < QUADRANTS,
    ensures
        addr == spec_bias_addr(quadrant as int),
{
    quadrant_base(quadrant) + BIAS_BASE
}

/// Address of the TRAM for `processor` within `quadrant`.
pub fn tram_addr(quadrant: u8, processor: u8) -> (addr: u32)
    requires
        quadrant < QUADRANTS,
        processor < PROCESSORS_PER_QUADRANT,
    ensures
        addr == spec_tram_addr(quadrant as int, processor as int),
{
    quadrant_base(quadrant) + TRAM_BASE + (processor as u32) * TRAM_STRIDE
}

/// Address of the kernel memory for `processor` within `quadrant`.
pub fn kernel_addr(quadrant: u8, processor: u8) -> (addr: u32)
    requires
        quadrant < QUADRANTS,
        processor < PROCESSORS_PER_QUADRANT,
    ensures
        addr == spec_kernel_addr(quadrant as int, processor as int),
{
    quadrant_base(quadrant) + KERNEL_BASE + (processor as u32) * MEMORY_STRIDE
}

/// Address of data SRAM `instance` within `quadrant`.
/// An instance is the memory shared by four processors.
pub fn data_addr(quadrant: u8, instance: u8) -> (addr: u32)
    requires
        quadrant < QUADRANTS,
        instance < DATA_INSTANCES_PER_QUADRANT,
    ensures
        addr == spec_data_addr(quadrant as int, instance as int),
{
    quadrant_base(quadrant) + DATA_BASE + (instance as u32) * MEMORY_STRIDE
}

/// Number of kernels addressable by `processor` within its quadrant
pub fn kernel_capacity(processor: u8) -> (kernels: u32)
    ensures
        kernels == (if processor == 0 {
            KERNELS_FIRST_PROCESSOR
        } else {
            KERNELS_PER_PROCESSOR
        }),
{
    if processor == 0 {
        KERNELS_FIRST_PROCESSOR
    } else {
        KERNELS_PER_PROCESSOR
    }
}

/// Whether `entries` bias values fit in one quadrant's bias memory.
pub fn bias_fits(entries: usize) -> (fits: bool)
    ensures
        fits == (entries <= BIAS_ENTRIES),
{
    entries <= BIAS_ENTRIES as usize
}

/// Whether a burst of `words` words at byte `offset` stays inside a
/// processor's kernel memory window.
pub fn kernel_burst_fits(offset: u32, words: usize) -> (fits: bool)
    ensures
        fits == (offset + 4 * words <= KERNEL_WINDOW_BYTES),
{
    if words > (KERNEL_WINDOW_BYTES / 4) as usize {
        false
    } else {
        (offset as u64) + (words as u64) * 4 <= KERNEL_WINDOW_BYTES as u64
    }
}

/// Whether `words` words starting at word `word_offset` stay inside a data
/// SRAM instance's address window.
pub fn data_burst_fits(word_offset: u32, words: usize) -> (fits: bool)
    ensures
        fits == (4 * (word_offset + words) <= DATA_WINDOW_BYTES),
{
    if words > (DATA_WINDOW_BYTES / 4) as usize {
        false
    } else {
        ((word_offset as u64) + (words as u64)) * 4 <= DATA_WINDOW_BYTES as u64
    }
}

/// One write into a processor's kernel memory.
#[derive(Clone, Copy, PartialEq, Eq, Debug, Structural)]
pub enum KernelWrite {
    /// The byte 1 at this address, which arms the auto-incrementing kernel
    /// write pointer
    Arm(u32),
    /// A word at this address
    Word(u32, u32),
}

/// Address of the byte that arms the auto-incrementing kernel write pointer
/// for a burst starting at kernel address `addr`.
pub fn arm_kernel_ptr(addr: u32) -> (arm: u32)
    ensures
        arm == addr | 1,
{
    addr | 1
}

/// A burst of kernel words from `start`: the write pointer armed, then word
/// `i` at `start + 4 * i`.
pub open spec fn kernel_burst(start: u32, data: Seq<u32>) -> Seq<KernelWrite> {
    seq![KernelWrite::Arm(start | 1)] + Seq::new(
        data.len(),
        |i: int| KernelWrite::Word((start + 4 * i) as u32, data[i]),
    )
}

/// The writes that push a burst of packed kernel words into a processor's
/// kernel memory at byte `offset`, which must be word-aligned and leave
/// the burst inside the window.
pub fn write_kernel(quadrant: u8, processor: u8, offset: u32, data: &[u32]) -> (writes: Vec<KernelWrite>)
    requires
        quadrant < QUADRANTS,
        processor < PROCESSORS_PER_QUADRANT,
        offset % 4 == 0,
        offset + 4 * data@.len() <= KERNEL_WINDOW_BYTES,
    ensures
        writes@ == kernel_burst((spec_kernel_addr(quadrant as int, processor as int) + offset) as u32, data@),
{
    let base = kernel_addr(quadrant, processor) + offset;
    let mut writes: Vec<KernelWrite> = Vec::new();
    writes.push(KernelWrite::Arm(arm_kernel_ptr(base)));
    let mut i: usize = 0;
    while i < data.len()
        invariant
            i <= data@.len(),
            base == spec_kernel_addr(quadrant as int, processor as int) + offset,
            quadrant < QUADRANTS,
            processor < PROCESSORS_PER_QUADRANT,
            offset + 4 * data@.len() <= KERNEL_WINDOW_BYTES,
            writes@ == seq![KernelWrite::Arm(base | 1)] + Seq::new(
                i as nat,
                |j: int| KernelWrite::Word((base + 4 * j) as u32, data@[j]),
            ),
        decreases data@.len() - i,
    {
        writes.push(KernelWrite::Word(base + (i as u32) * 4, data[i]));
        i += 1;
        assert(writes@ =~= seq![KernelWrite::Arm(base | 1)] + Seq::new(
            i as nat,
            |j: int| KernelWrite::Word((base + 4 * j) as u32, data@[j]),
        ));
    }
    writes
}

/// The words of a quadrant's bias table: entry `i`, zero-extended, at
/// `bias_addr(quadrant) + 4 * i`.
pub open spec fn bias_words(quadrant: int, data: Seq<u8>) -> Seq<(u32, u32)> {
    Seq::new(data.len(), |i: int| ((spec_bias_addr(quadrant) + 4 * i) as u32, data[i] as u32))
}

/// The writes of bias values into a quadrant's bias memory, one word per
/// entry. The table must fit.
pub fn write_bias(quadrant: u8, data: &[u8]) -> (writes: Vec<(u32, u32)>)
    requires
        quadrant < QUADRANTS,
        data@.len() <= BIAS_ENTRIES,
    ensures
        writes@ == bias_words(quadrant as int, data@),
{
    let base = bias_addr(quadrant);
    let mut writes: Vec<(u32, u32)> = Vec::new();
    let mut i: usize = 0;
    while i < data.len()
        invariant
            i <= data@.len() <= BIAS_ENTRIES,
            quadrant < QUADRANTS,
            base == spec_bias_addr(quadrant as int),
            writes@ == Seq::new(i as nat, |j: int| ((base + 4 * j) as u32, data@[j] as u32)),
        decreases data@.len() - i,
    {
        writes.push((base + (i as u32) * 4, data[i] as u32));
        i += 1;
        assert(writes@ =~= Seq::new(i as nat, |j: int| ((base + 4 * j) as u32, data@[j] as u32)));
    }
    assert(writes@ =~= bias_words(quadrant as int, data@));
    writes
}

/// Address of word `word_offset + i` of a data SRAM instance.
pub open spec fn data_word_addr(quadrant: int, instance: int, word_offset: int, i: int) -> u32 {
    (spec_data_addr(quadrant, instance) + 4 * (word_offset + i)) as u32
}

/// The writes that copy words into a data SRAM instance from word
/// `word_offset` on, which must stay inside the instance's window.
pub fn write_data(quadrant: u8, instance: u8, word_offset: u32, src: &[u32]) -> (writes: Vec<(u32, u32)>)
    requires
        quadrant < QUADRANTS,
        instance < DATA_INSTANCES_PER_QUADRANT,
        4 * (word_offset + src@.len()) <= DATA_WINDOW_BYTES,
    ensures
        writes@ == Seq::new(
            src@.len(),
            |i: int| (data_word_addr(quadrant as int, instance as int, word_offset as int, i), src@[i]),
        ),
{
    let addrs = read_data(quadrant, instance, word_offset, src.len());
    let mut writes: Vec<(u32, u32)> = Vec::new();
    let mut i: usize = 0;
    while i < src.len()
        invariant
            i <= src@.len() == addrs@.len(),
            forall|j: int| 0 <= j < addrs@.len() ==> addrs@[j] == data_word_addr(
                quadrant as int,
                instance as int,
                word_offset as int,
                j,
            ),
            writes@ == Seq::new(
                i as nat,
                |j: int| (data_word_addr(quadrant as int, instance as int, word_offset as int, j), src@[j]),
            ),
        decreases src@.len() - i,
    {
        writes.push((addrs[i], src[i]));
        i += 1;
        assert(writes@ =~= Seq::new(
            i as nat,
            |j: int| (data_word_addr(quadrant as int, instance as int, word_offset as int, j), src@[j]),
        ));
    }
    writes
}

/// The addresses of `words` words of a data SRAM instance from word
/// `word_offset` on, which must stay inside the instance's window.
pub fn read_data(quadrant: u8, instance: u8, word_offset: u32, words: usize) -> (addrs: Vec<u32>)
    requires
        quadrant < QUADRANTS,
        instance < DATA_INSTANCES_PER_QUADRANT,
        4 * (word_offset + words) <= DATA_WINDOW_BYTES,
    ensures
        addrs@.len() == words,
        forall|i: int|
            0 <= i < words ==> addrs@[i] == data_word_addr(quadrant as int, instance as int, word_offset as int, i),
{
    let base = data_addr(quadrant, instance);
    let mut addrs: Vec<u32> = Vec::new();
    let mut i: usize = 0;
    while i < words
        invariant
            i <= words,
            4 * (word_offset + words) <= DATA_WINDOW_BYTES,
            base == spec_data_addr(quadrant as int, instance as int),
            quadrant < QUADRANTS,
            instance < DATA_INSTANCES_PER_QUADRANT,
            addrs@.len() == i,
            forall|j: int|
                0 <= j < i ==> addrs@[j] == data_word_addr(quadrant as int, instance as int, word_offset as int, j),
        decreases words - i,
    {
        addrs.push(base + (word_offset + i as u32) * 4);
        i += 1;
    }
    addrs
}

} // verus!
