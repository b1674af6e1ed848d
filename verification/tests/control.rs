use max7800x_hal::cnn::network::{Direct, Fifo, InputMode};
use max7800x_hal::cnn::regs::{LayerReg, ALL_LAYER_REGS};
use max7800x_hal::cnn::run::{self, START_GO, START_MASTER, START_OTHER, STOP_SM};
use max7800x_hal::cnn::{
    ack_mask, CnnClockDiv, Pipeline, EMIT_ORDER, MASTER_QUADRANT, MAX_NON_PIPELINED_FREQUENCY,
    MAX_PIPELINED_FREQUENCY, SRAM_CONTROL, ZEROIZE_NO_BIAS, ZEROIZE_WITH_BIAS,
};
use max7800x_hal::gcr::clocks::{InternalPll, OscillatorSource};

#[test]
fn emit_order_covers_every_register_once() {
    for expected in ALL_LAYER_REGS {
        let count = EMIT_ORDER.iter().filter(|r| **r == expected).count();
        assert_eq!(count, 1, "{expected:?} appears {count} times in EMIT_ORDER");
    }
    assert_eq!(EMIT_ORDER.len(), ALL_LAYER_REGS.len());
}

#[test]
fn enables_are_written_last() {
    assert_eq!(*EMIT_ORDER.last().unwrap(), LayerReg::En);
}

#[test]
fn oned_is_written_after_output_channel_count() {
    let pos = |r: LayerReg| EMIT_ORDER.iter().position(|x| *x == r).unwrap();
    assert!(pos(LayerReg::Oned) > pos(LayerReg::Ochan));
    assert!(pos(LayerReg::Post) > pos(LayerReg::Tptr));
}

#[test]
fn dividers_match_their_names() {
    assert_eq!(CnnClockDiv::Div1.divisor(), 1);
    assert_eq!(CnnClockDiv::Div2.divisor(), 2);
    assert_eq!(CnnClockDiv::Div4.divisor(), 4);
    assert_eq!(CnnClockDiv::Div8.divisor(), 8);
    assert_eq!(CnnClockDiv::Div16.divisor(), 16);
    // The reset value of PCLKDIV.CNNCLKDIV is div-by-2, not div-by-1.
    assert_eq!(CnnClockDiv::default(), CnnClockDiv::Div2);
}

#[test]
fn the_divider_defaults_to_the_reset_value() {
    assert_eq!(CnnClockDiv::default(), CnnClockDiv::Div2);
}

fn pll_source_uses_the_cnn_branch_body() {
    assert_eq!(InternalPll::CNN_FREQUENCY, MAX_PIPELINED_FREQUENCY);
    assert_eq!(
        InternalPll::CNN_FREQUENCY,
        2 * <InternalPll as OscillatorSource>::BASE_FREQUENCY
    );
}

/// The PLL's CNN branch runs at twice the system branch.
#[test]
fn mod_pll_source_uses_the_cnn_branch() {
    pll_source_uses_the_cnn_branch_body();
}

#[test]
fn tests_pll_source_uses_the_cnn_branch() {
    pll_source_uses_the_cnn_branch_body();
}

fn full_speed_needs_the_pipeline_and_the_pll_body() {
    // Only the PLL undivided reaches the rated maximum.
    assert_eq!(
        InternalPll::CNN_FREQUENCY / CnnClockDiv::Div1.divisor(),
        MAX_PIPELINED_FREQUENCY
    );
    // Div4 is the fastest PLL setting a non-pipelined part can take.
    assert!(InternalPll::CNN_FREQUENCY / CnnClockDiv::Div4.divisor() <= MAX_NON_PIPELINED_FREQUENCY);
    assert!(InternalPll::CNN_FREQUENCY / CnnClockDiv::Div2.divisor() > MAX_NON_PIPELINED_FREQUENCY);
}

#[test]
fn mod_full_speed_needs_the_pipeline_and_the_pll() {
    full_speed_needs_the_pipeline_and_the_pll_body();
}

#[test]
fn tests_full_speed_needs_the_pipeline_and_the_pll() {
    full_speed_needs_the_pipeline_and_the_pll_body();
}

#[test]
fn pipeline_defaults_to_enabled() {
    assert_eq!(Pipeline::default(), Pipeline::Enabled);
}

fn init_constants_match_the_generated_sources_body() {
    assert_eq!(SRAM_CONTROL, 0x0000_040e);
    assert_eq!(ZEROIZE_NO_BIAS, 0x0000_1880);
    assert_eq!(ZEROIZE_WITH_BIAS, 0x0000_1c80);
    // Bias selection is the only difference between the two.
    assert_eq!(ZEROIZE_WITH_BIAS ^ ZEROIZE_NO_BIAS, 1 << 10);
    // Both run the zeroize, and neither runs any BIST.
    for word in [ZEROIZE_NO_BIAS, ZEROIZE_WITH_BIAS] {
        assert_ne!(word & (1 << 7), 0, "ZERO_RUN clear");
        assert_eq!(word & 0b101_0101, 0, "a BIST run bit is set");
    }
}

#[test]
fn mod_init_constants_match_the_generated_sources() {
    init_constants_match_the_generated_sources_body();
}

#[test]
fn run_init_constants_match_the_generated_sources() {
    init_constants_match_the_generated_sources_body();
}

#[test]
fn tests_init_constants_match_the_generated_sources() {
    init_constants_match_the_generated_sources_body();
}

/// The generator folds `NO_PIPELINE` into the stop-SM and arm words.
#[test]
fn mod_pipeline_contributes_to_every_control_word() {
    assert_eq!(Pipeline::Enabled.ctl_bits(), 0);
    assert_eq!(Pipeline::Disabled.ctl_bits(), 1 << 5);

    // The published constants are the pipelined case.
    for word in [
        Direct::STOP_SM,
        Direct::START_MASTER,
        Fifo::STOP_SM,
        Fifo::START_MASTER,
    ] {
        assert_eq!(word & (1 << 5), 0, "{word:#010x} already has NO_PIPELINE");
    }

    assert_eq!(Direct::STOP_SM | Pipeline::Disabled.ctl_bits(), 0x0010_0028);
    assert_eq!(Fifo::STOP_SM | Pipeline::Disabled.ctl_bits(), 0x0010_8028);
}

fn run_pipeline_body() {
    assert_eq!(Pipeline::Enabled.ctl_bits(), 0);
    assert_eq!(Pipeline::Disabled.ctl_bits(), 1 << 5);

    let p = Pipeline::Disabled.ctl_bits();
    for word in [STOP_SM, START_MASTER, START_OTHER, START_GO] {
        assert_eq!(word & (1 << 5), 0, "{word:#010x} already has NO_PIPELINE");
    }
    assert_eq!(STOP_SM | p, 0x0010_0028);
    assert_eq!(START_MASTER | p, 0x0010_0828);
    assert_eq!(START_GO | p, 0x0010_0029);
}

#[test]
fn run_pipeline_contributes_to_every_control_word() {
    run_pipeline_body();
}

#[test]
fn tests_pipeline_contributes_to_every_control_word() {
    run_pipeline_body();
}

/// The arm-and-go sequence, cross-checked against `cnn_start`.
#[test]
fn mod_start_sequence_matches_the_generated_sources() {
    let p = Pipeline::Enabled.ctl_bits();

    // kws20_demo, direct input.
    assert_eq!(Direct::START_MASTER | p, 0x0010_0808);
    assert_eq!(Direct::START_OTHER | p, 0x0010_0809);
    assert_eq!(Direct::START_GO | p, 0x0010_0009);

    // mobilefacenet-112, FIFO input.
    assert_eq!(Fifo::START_MASTER | p, 0x0018_c808);
    assert_eq!(Fifo::START_OTHER | p, 0x0018_c809);
    assert_eq!(Fifo::START_GO | p, 0x0018_c809);
}

fn run_start_sequence_body() {
    assert_eq!(STOP_SM, 0x0010_0008);
    assert_eq!(START_MASTER, 0x0010_0808);
    assert_eq!(START_OTHER, 0x0010_0809);
    assert_eq!(START_GO, 0x0010_0009);

    // Bits 10:9 carry the master quadrant index.
    assert_eq!((START_MASTER >> 9) & 0b11, MASTER_QUADRANT as u32);
    assert_eq!(START_MASTER & 1, 0, "master must arm with CNN_EN clear");
    assert_eq!(START_MASTER | 1, START_OTHER, "they differ only in CNN_EN");
    for word in [STOP_SM, START_MASTER, START_OTHER, START_GO] {
        assert_ne!(word & (1 << 3), 0, "{word:#010x} has CLK_EN clear");
        assert_ne!(word & (1 << 20), 0, "{word:#010x} has MEXPRESS clear");
    }
}

#[test]
fn run_start_sequence_matches_the_generated_sources() {
    run_start_sequence_body();
}

#[test]
fn tests_start_sequence_matches_the_generated_sources() {
    run_start_sequence_body();
}

/// Disabling the pipeline changes every word in the start sequence.
#[test]
fn start_sequence_carries_the_pipeline_bit() {
    let p = Pipeline::Disabled.ctl_bits();
    assert_eq!(Direct::START_MASTER | p, 0x0010_0828);
    assert_eq!(Direct::START_GO | p, 0x0010_0029);
    assert_eq!(Fifo::START_OTHER | p, 0x0018_c829);
}

#[test]
fn mod_acknowledge_masks_match_the_generated_isr() {
    // kws20_demo: `&= ~((1 << 12) | 1)`
    assert_eq!(ack_mask(false), (1 << 12) | 1);
    // mobilefacenet-112: `&= ~((1 << 12) | (1 << 14) | 1)`
    assert_eq!(ack_mask(true), (1 << 12) | (1 << 14) | 1);
    // Clearing DONE is what makes the next completion detectable.
    assert_ne!(ack_mask(false) & (1 << 12), 0);
    assert_ne!(ack_mask(true) & (1 << 12), 0);
}

fn run_acknowledge_body() {
    assert_eq!(run::ack_mask(), (1 << 12) | 1);
    assert_ne!(run::ack_mask() & (1 << 12), 0);
}

#[test]
fn run_acknowledge_masks_match_the_generated_isr() {
    run_acknowledge_body();
}

#[test]
fn tests_acknowledge_masks_match_the_generated_isr() {
    run_acknowledge_body();
}

#[test]
fn mod_stop_and_resume_toggle_the_enable_bit() {
    assert_eq!(Direct::START_GO & 1, 1);
    assert_eq!(Fifo::START_GO & 1, 1);
    assert_ne!(ack_mask(false) & 1, 0, "the ISR also clears CNN_EN");
}

fn run_stop_and_resume_body() {
    assert_eq!(START_GO & 1, 1);
    assert_ne!(run::ack_mask() & 1, 0, "the ISR also clears CNN_EN");
}

#[test]
fn run_stop_and_resume_toggle_the_enable_bit() {
    run_stop_and_resume_body();
}

#[test]
fn tests_stop_and_resume_toggle_the_enable_bit() {
    run_stop_and_resume_body();
}

/// `LCNT_MAX` takes hardware layer indices, so the last index is one less
/// than the layer count.
fn layer_count_body() {
    for (layers, expected) in [(9u32, 0x08u32), (34, 0x21), (33, 0x20), (73, 0x48)] {
        let last = layers - 1;
        assert_eq!(last | (0 << 8), expected, "{layers} layers");
    }
}

#[test]
fn mod_layer_count_encoding() {
    layer_count_body();
}

#[test]
fn run_layer_count_encoding() {
    layer_count_body();
}

#[test]
fn tests_layer_count_encoding() {
    layer_count_body();
}
