use max7800x_hal::cnn::memory::{
    arm_kernel_ptr, bias_addr, bias_fits, data_addr, kernel_addr, kernel_burst_fits,
    kernel_capacity, read_data, tram_addr, write_bias, write_data, write_kernel, KernelWrite,
    BIAS_ENTRIES, DATA_INSTANCE_STRIDE_WORDS, DATA_INSTANCE_WORDS, DATA_WINDOW_BYTES,
    KERNEL_WINDOW_BYTES, TOTAL_KERNEL_BYTES,
};
use max7800x_hal::cnn::regs::{
    LayerReg, Quadrant, ALL_LAYER_REGS, DATA_INSTANCES_PER_QUADRANT, PROCESSORS_PER_QUADRANT,
    QUADRANTS,
};

#[test]
fn quadrant_bases() {
    assert_eq!(Quadrant::new(0).base(), 0x5100_0000);
    assert_eq!(Quadrant::new(1).base(), 0x5200_0000);
    assert_eq!(Quadrant::new(2).base(), 0x5300_0000);
    assert_eq!(Quadrant::new(3).base(), 0x5400_0000);
}

#[test]
fn layer_registers() {
    let at = |q, n, r| Quadrant::new(q).layer(n).reg(r).addr();
    // kws20_demo, layer 0 quadrant 0
    assert_eq!(at(0, 0, LayerReg::Rows), 0x5110_0004);
    assert_eq!(at(0, 0, LayerReg::Oned), 0x5110_000c);
    assert_eq!(at(0, 0, LayerReg::En), 0x5110_0048);
    assert_eq!(at(0, 0, LayerReg::Post), 0x5110_004c);
    // mobilefacenet-112, layer 3 quadrant 0
    assert_eq!(at(0, 3, LayerReg::Tptr), 0x5110_0344);
    // cifar-100-mobilenet-v2, layer 72 quadrant 3
    assert_eq!(at(3, 72, LayerReg::Rows), 0x5410_4804);
    // pascalvoc-retinanetv7_3, layer 115 quadrant 2
    assert_eq!(at(2, 115, LayerReg::Rows), 0x5310_7304);
}

#[test]
fn layer_reg_offsets_are_unique_and_ordered() {
    let mut seen = [false; 0x50];
    for r in ALL_LAYER_REGS {
        let off = r.offset() as usize;
        assert!(off < 0x50 && off % 4 == 0, "bad offset {off:#x}");
        assert!(!seen[off], "duplicate offset {off:#x}");
        seen[off] = true;
    }
}

#[test]
fn kernel_addresses() {
    // weights.h KERNELS blobs run from 0x51400000 to 0x545e0000.
    assert_eq!(kernel_addr(0, 0), 0x5140_0000);
    assert_eq!(kernel_addr(0, 1), 0x5142_0000);
    assert_eq!(kernel_addr(0, 15), 0x515e_0000);
    assert_eq!(kernel_addr(3, 15), 0x545e_0000);
}

#[test]
fn bias_addresses() {
    // cnn_load_bias writes 0x51180000 through 0x54180000.
    assert_eq!(bias_addr(0), 0x5118_0000);
    assert_eq!(bias_addr(3), 0x5418_0000);
}

#[test]
fn tram_addresses() {
    assert_eq!(tram_addr(0, 0), 0x5120_0000);
    assert_eq!(tram_addr(0, 15), 0x512f_0000);
    assert_eq!(tram_addr(3, 0), 0x5420_0000);
    // 16 processors of 0x10000 fit between TRAM and the kernel memory.
    assert!(tram_addr(0, 15) + 0x1_0000 <= kernel_addr(0, 0));
}

#[test]
fn data_addresses() {
    // kws20_demo cnn_load_data walks 0x51800000..0x51860000 per quadrant.
    assert_eq!(data_addr(0, 0), 0x5180_0000);
    assert_eq!(data_addr(0, 3), 0x5186_0000);
    // imagenet loads its input at 0x54860000.
    assert_eq!(data_addr(3, 3), 0x5486_0000);
}

/// The per-processor capacities sum to the advertised kernel memory.
#[test]
fn kernel_capacity_totals_match_datasheet() {
    let kernels: u32 = (0..QUADRANTS)
        .map(|_| {
            (0..PROCESSORS_PER_QUADRANT)
                .map(kernel_capacity)
                .sum::<u32>()
        })
        .sum();
    assert_eq!(kernels * 9, TOTAL_KERNEL_BYTES);
}

#[test]
fn data_window_holds_four_processor_slots() {
    assert_eq!(
        DATA_INSTANCE_STRIDE_WORDS * (DATA_INSTANCES_PER_QUADRANT as u32) * 4,
        DATA_WINDOW_BYTES
    );
    // Backed memory is smaller than the address space it sits in.
    assert!(DATA_INSTANCE_WORDS < DATA_INSTANCE_STRIDE_WORDS);
    // 64 processors x 5120 words x 4 bytes is the advertised 1.31MB.
    let total =
        DATA_INSTANCE_WORDS as u64 * (QUADRANTS as u64) * (PROCESSORS_PER_QUADRANT as u64) * 4;
    assert_eq!(total, 1_310_720);
}

/// `imagenet` writes 12544 words to one instance in a single call.
#[test]
fn bound_admits_the_largest_shipped_input_load() {
    assert!(12544 * 4 <= DATA_WINDOW_BYTES);
    assert!(12544 > DATA_INSTANCE_WORDS);
}

#[test]
fn kernel_burst_addresses_match_the_weight_blobs() {
    // kws20_demo, the first five records of processor 0.
    assert_eq!(kernel_addr(0, 0) + 0x000, 0x5140_0000);
    assert_eq!(kernel_addr(0, 0) + 0x210, 0x5140_0210);
    assert_eq!(kernel_addr(0, 0) + 0x2b0, 0x5140_02b0);
    assert_eq!(kernel_addr(0, 0) + 0x450, 0x5140_0450);
    assert_eq!(kernel_addr(0, 0) + 0x500, 0x5140_0500);
    // The next processor starts a fresh window.
    assert_eq!(kernel_addr(0, 1) + 0x000, 0x5142_0000);
    assert_eq!(kernel_addr(0, 1) + 0x210, 0x5142_0210);
}

#[test]
fn bound_admits_the_largest_shipped_weight_bursts() {
    assert!(kernel_burst_fits(0, 5686));
    assert!(kernel_burst_fits(0x5b7c - 4611 * 4, 4611));
    // Roughly a fifth of the window is in use at worst.
    assert!(0x5b7c * 5 < KERNEL_WINDOW_BYTES);
}

#[test]
fn bound_admits_every_shipped_bias_table() {
    for entries in [
        256, 229, 224, // kinetics
        856, 832, 894, // pascalvoc-retinanetv7_3
        1392, 1296, 1268, 1280, // cifar-100-effnet2
        1384, 1376, // imagenet
        1632, 1628, 1620, // cifar-100-mobilenet-v2-0.75
        1840, 1776, // mobilefacenet-112
    ] {
        assert!(bias_fits(entries), "{entries} entries rejected");
    }
    assert!(bias_fits(BIAS_ENTRIES as usize));
    assert!(!bias_fits(BIAS_ENTRIES as usize + 1));
}

#[test]
fn bias_region_is_one_word_per_entry() {
    assert_eq!(bias_addr(0) + BIAS_ENTRIES * 4, bias_addr(0) + 8192);
    // POST.bias_addr is 12 bits, so it addresses more words than exist.
    assert!(BIAS_ENTRIES <= 1 << 12);
    // The region fits between the bias base and the TRAM.
    assert!(bias_addr(0) + BIAS_ENTRIES * 4 <= tram_addr(0, 0));
}

#[test]
fn output_addresses_match_the_generated_unload() {
    let at = |q, i, word: u32| data_addr(q, i) + word * 4;
    assert_eq!(at(0, 0, 2048), 0x5180_2000);
    assert_eq!(at(0, 1, 2048), 0x5182_2000);
    assert_eq!(at(0, 2, 2048), 0x5184_2000);
    assert_eq!(at(0, 3, 2048), 0x5186_2000);
    assert_eq!(at(1, 0, 2048), 0x5280_2000);
    assert_eq!(at(1, 1, 2048), 0x5282_2000);
}

#[test]
fn eight_bit_output_walks_instances_not_words() {
    let at = |q, i, word: u32| data_addr(q, i) + word * 4;
    assert_eq!(at(0, 0, 10240), 0x5180_a000);
    // One `addr += 0x8000` step in the generated loop.
    assert_eq!(at(0, 1, 10240), at(0, 0, 10240) + 0x2_0000);
    assert_eq!(at(0, 2, 10240), 0x5184_a000);
    assert_eq!(at(1, 0, 10240), 0x5280_a000);

    assert!(10240 > DATA_INSTANCE_WORDS);
    assert!(10240 * 4 < DATA_WINDOW_BYTES);
}

#[test]
fn word_unpacks_least_significant_byte_first() {
    let val: u32 = 0x4433_2211;
    assert_eq!(val.to_le_bytes(), [0x11, 0x22, 0x33, 0x44]);
    assert_eq!(
        val.to_le_bytes(),
        [
            (val & 0xff) as u8,
            ((val >> 8) & 0xff) as u8,
            ((val >> 16) & 0xff) as u8,
            ((val >> 24) & 0xff) as u8,
        ]
    );
}

#[test]
fn bound_rejects_bursts_that_leave_the_window() {
    assert!(kernel_burst_fits(0, (KERNEL_WINDOW_BYTES / 4) as usize));
    assert!(!kernel_burst_fits(0, (KERNEL_WINDOW_BYTES / 4) as usize + 1));
    assert!(!kernel_burst_fits(KERNEL_WINDOW_BYTES, 1));
    assert!(kernel_burst_fits(KERNEL_WINDOW_BYTES - 4, 1));
    // The arithmetic must not wrap.
    assert!(!kernel_burst_fits(u32::MAX, 1));
}

/// No two layer registers share an address.
#[test]
fn every_layer_register_has_its_own_address() {
    let mut seen = std::collections::HashSet::new();
    for q in 0..QUADRANTS {
        for n in 0..128u8 {
            for r in ALL_LAYER_REGS {
                assert!(seen.insert(Quadrant::new(q).layer(n).reg(r).addr()));
            }
        }
    }
    assert_eq!(seen.len(), 4 * 128 * 20);
}

/// A kernel burst arms the write pointer at its start, then writes each word
/// at the next address.
#[test]
fn kernel_bursts_arm_then_write() {
    assert_eq!(arm_kernel_ptr(0x5140_0210), 0x5140_0211);
    assert_eq!(
        write_kernel(0, 1, 0x210, &[5, 6]),
        vec![
            KernelWrite::Arm(0x5142_0211),
            KernelWrite::Word(0x5142_0210, 5),
            KernelWrite::Word(0x5142_0214, 6),
        ]
    );
    assert_eq!(write_kernel(3, 15, 0, &[]), vec![KernelWrite::Arm(0x545e_0001)]);
}

/// Each bias entry takes a word of its own, zero-extended.
#[test]
fn bias_entries_are_zero_extended_words() {
    assert_eq!(
        write_bias(2, &[0xff, 0x80, 1]),
        vec![(0x5318_0000, 0xff), (0x5318_0004, 0x80), (0x5318_0008, 1)]
    );
    assert!(write_bias(0, &[]).is_empty());
}

/// Data words are placed from a word offset on, and read from the same
/// addresses.
#[test]
fn data_words_go_from_their_offset() {
    assert_eq!(
        write_data(1, 3, 960, &[10, 11]),
        vec![(0x5286_0f00, 10), (0x5286_0f04, 11)]
    );
    assert_eq!(read_data(1, 3, 960, 2), vec![0x5286_0f00, 0x5286_0f04]);
    assert_eq!(read_data(0, 0, 2048, 1), vec![0x5180_2000]);
    assert!(read_data(0, 0, 0, 0).is_empty());
}
