use max7800x_hal::cnn::fields::{
    Ccnt, Ena, Fmax, Lctl, Lctl2, Mcnt2, Nxtlyr, Ochan, Oned, Pccnt, Post, Prcnt, Rcnt, RptrBase,
    Stream1, Stream2, Stride, Tptr, WptrBase, WptrChoffs, WptrToffs,
};
use max7800x_hal::cnn::memory::data_addr;
use max7800x_hal::cnn::network::{
    Direct, Fifo, InputMode, InputRegion, Layer, Network, OutputRegion, Stream,
};

/// Verified against generated `cnn.c`: `kws20_demo` for direct mode,
/// `mobilefacenet-112` for FIFO.
#[test]
fn control_words_match_the_generated_sources() {
    assert_eq!(Direct::STOP_SM, 0x0010_0008);
    assert_eq!(Direct::START_MASTER, 0x0010_0808);
    assert_eq!(Direct::START_OTHER, 0x0010_0809);
    assert_eq!(Direct::START_GO, 0x0010_0009);

    assert_eq!(Fifo::STOP_SM, 0x0010_8008);
    assert_eq!(Fifo::START_MASTER, 0x0018_c808);
    assert_eq!(Fifo::START_OTHER, 0x0018_c809);
    assert_eq!(Fifo::START_GO, 0x0018_c809);
}

/// The master is armed with `CNN_EN` clear and every other quadrant with it set.
#[test]
fn master_arms_with_enable_clear() {
    for (master, other) in [
        (Direct::START_MASTER, Direct::START_OTHER),
        (Fifo::START_MASTER, Fifo::START_OTHER),
    ] {
        assert_eq!(master & 1, 0, "master must arm with CNN_EN clear");
        assert_eq!(other & 1, 1, "other quadrants must arm with CNN_EN set");
        assert_eq!(master | 1, other, "the two differ only in CNN_EN");
    }
}

#[test]
fn every_control_word_keeps_clocks_on() {
    for word in [
        Direct::STOP_SM,
        Direct::START_MASTER,
        Direct::START_OTHER,
        Direct::START_GO,
        Fifo::STOP_SM,
        Fifo::START_MASTER,
        Fifo::START_OTHER,
        Fifo::START_GO,
    ] {
        assert_ne!(word & (1 << 3), 0, "{word:#010x} has CLK_EN clear");
        assert_ne!(word & (1 << 20), 0, "{word:#010x} has MEXPRESS clear");
    }
}

#[test]
fn fifo_mode_sets_the_fifo_bits() {
    assert_ne!(Fifo::STOP_SM & (1 << 15), 0, "FIFO_EN");
    assert_eq!(Direct::STOP_SM & (1 << 15), 0);

    assert_ne!(Fifo::START_MASTER & (1 << 14), 0, "STREAM_EN");
    assert_ne!(Fifo::START_MASTER & (1 << 19), 0, "STREAM_FIFO");
    assert_eq!(Direct::START_MASTER & ((1 << 14) | (1 << 19)), 0);
}

#[test]
fn go_word_differs_between_modes() {
    assert_eq!(Direct::START_GO & (1 << 11), 0);
    assert_ne!(Fifo::START_GO & (1 << 11), 0);
    assert_eq!(Fifo::START_GO, Fifo::START_OTHER);
    assert_ne!(Direct::START_GO, Direct::START_OTHER);
}

fn synthetic_layer() -> Layer {
    Layer {
        next: Nxtlyr::new(),
        rows: Rcnt::from_bits(0x0001_0000),
        cols: Ccnt::from_bits(0x0001_0000),
        oned: Oned::from_bits(0x0000_0100),
        pool_rows: Prcnt::new(),
        pool_cols: Pccnt::new(),
        stride: Stride::from_bits(0x0000_0010),
        wptr_ts: WptrToffs::new(),
        wptr_moffs: None,
        wptr_choffs: WptrChoffs::new(),
        rptr: RptrBase::from_bits(0x2000),
        lctl2: Lctl2::new(),
        mcnt1: None,
        mcnt2: Mcnt2::new(),
        ochan: Ochan::new(),
        tptr: Tptr::new(),
        lctl: [Lctl::from_bits(0x920), Lctl::new(), Lctl::new(), Lctl::new()],
        post: [Post::from_bits(0x0300_0000), Post::new(), Post::new(), Post::new()],
        wptr: [WptrBase::from_bits(0x2000); 4],
        ena: [Ena::from_bits(1), Ena::new(), Ena::new(), Ena::new()],
        stream: None,
        master_only: true,
    }
}

fn recognises_the_inserted_passthrough_layer_body() {
    assert!(synthetic_layer().is_synthetic());

    // A real layer with any of the fixed words changed is not synthetic.
    let mut real = synthetic_layer();
    real.lctl[0] = Lctl::from_bits(0x0000_eb20);
    assert!(!real.is_synthetic());

    let mut real = synthetic_layer();
    real.rows = Rcnt::from_bits(0x0002_007f);
    assert!(!real.is_synthetic());
}

#[test]
fn network_recognises_the_inserted_passthrough_layer() {
    recognises_the_inserted_passthrough_layer_body();
}

#[test]
fn tests_recognises_the_inserted_passthrough_layer() {
    recognises_the_inserted_passthrough_layer_body();
}

/// Passthrough layers skip these two writes entirely
#[test]
fn network_passthrough_layers_omit_two_registers() {
    let layer = synthetic_layer();
    assert!(layer.wptr_moffs.is_none());
    assert!(layer.mcnt1.is_none());
}

#[test]
fn tests_passthrough_layers_omit_two_registers() {
    let layer = synthetic_layer();
    assert!(layer.wptr_moffs.is_none());
    assert!(layer.mcnt1.is_none());
}

#[test]
fn network_reports_streaming_and_bias() {
    const LAYERS: [Layer; 0] = [];
    let net: Network<Direct> = Network::new(&LAYERS, 0, 0, &[], None, &[], &[]);
    assert!(!net.is_streaming());
    assert!(!net.has_bias());

    let layers = [synthetic_layer()];
    let net: Network<Direct> = Network::new(&layers, 0, 0, &[], None, &[], &[]);
    assert!(!net.is_streaming());

    let mut streaming = synthetic_layer();
    streaming.stream = Some(Stream {
        slot: 0,
        start: Stream1::from_bits(0x147),
        delta: Stream2::from_bits(0x0142_0022),
        rollover: Fmax::from_bits(0x148),
    });
    let layers = [streaming];
    let net: Network<Fifo> = Network::new(&layers, 0, 0, &[], None, &[], &[]);
    assert!(net.is_streaming());
}

const KWS20_OUTPUT: [OutputRegion; 6] = [
    OutputRegion { quadrant: 0, instance: 0, word: 2048, len: 4 },
    OutputRegion { quadrant: 0, instance: 1, word: 2048, len: 4 },
    OutputRegion { quadrant: 0, instance: 2, word: 2048, len: 4 },
    OutputRegion { quadrant: 0, instance: 3, word: 2048, len: 4 },
    OutputRegion { quadrant: 1, instance: 0, word: 2048, len: 4 },
    OutputRegion { quadrant: 1, instance: 1, word: 2048, len: 1 },
];

const MOBILEFACENET_OUTPUT: [OutputRegion; 16] =
    [OutputRegion { quadrant: 0, instance: 0, word: 10240, len: 1 }; 16];

/// `kws20_demo` produces 21 words of 32-bit output from six regions.
#[test]
fn network_output_words_sums_the_regions() {
    let net: Network<Direct> = Network::new(&[], 0, 0, &[], None, &[], &KWS20_OUTPUT);
    assert_eq!(net.output_words(), 21);

    // mobilefacenet-112: 64 channels of 8-bit output as 16 single words.
    let net: Network<Fifo> = Network::new(&[], 0, 0, &[], None, &[], &MOBILEFACENET_OUTPUT);
    assert_eq!(net.output_words(), 16);
    assert_eq!(net.output_words() * 4, 64);
}

#[test]
fn tests_output_words_sums_the_regions() {
    let net: Network = Network::new(&[], 0, 0, &[], None, &[], &KWS20_OUTPUT);
    assert_eq!(net.output_words(), 21);

    let net: Network = Network::new(&[], 0, 0, &[], None, &[], &MOBILEFACENET_OUTPUT);
    assert_eq!(net.output_words(), 16);
    assert_eq!(net.output_words() * 4, 64);
}

fn kinetics_input() -> [InputRegion; 12] {
    core::array::from_fn(|i| InputRegion {
        quadrant: (i / 4) as u8,
        instance: (i % 4) as u8,
        word: 960,
        len: 7200,
    })
}

/// `kinetics` spreads its input over twelve regions of 7200 words.
#[test]
fn network_input_words_sums_the_regions() {
    let regions = kinetics_input();
    let net: Network<Direct> = Network::new(&[], 0, 0, &[], None, &regions, &[]);
    assert_eq!(net.input_words(), 12 * 7200);

    let net: Network<Direct> = Network::new(&[], 0, 0, &[], None, &[], &[]);
    assert_eq!(net.input_words(), 0);
}

#[test]
fn tests_input_words_sums_the_regions() {
    let regions = kinetics_input();
    let net: Network = Network::new(&[], 0, 0, &[], None, &regions, &[]);
    assert_eq!(net.input_words(), 12 * 7200);

    let net: Network = Network::new(&[], 0, 0, &[], None, &[], &[]);
    assert_eq!(net.input_words(), 0);
}

fn input_regions_match_the_generated_addresses_body() {
    let addr = |r: InputRegion| data_addr(r.quadrant, r.instance) + r.word as u32 * 4;

    for (quadrant, instance, word, expected) in [
        (0u8, 0u8, 0u16, 0x5180_0000u32),
        (3, 3, 0, 0x5486_0000),
        (0, 0, 960, 0x5180_0f00),
        (0, 3, 960, 0x5186_0f00),
        (1, 0, 960, 0x5280_0f00),
        (2, 3, 960, 0x5386_0f00),
    ] {
        assert_eq!(addr(InputRegion { quadrant, instance, word, len: 1 }), expected);
    }
}

#[test]
fn network_input_regions_match_the_generated_addresses() {
    input_regions_match_the_generated_addresses_body();
}

#[test]
fn tests_input_regions_match_the_generated_addresses() {
    input_regions_match_the_generated_addresses_body();
}

/// `new` and `Default` give the same layer.
#[test]
fn new_matches_default() {
    assert_eq!(Layer::new(), Layer::default());
}
