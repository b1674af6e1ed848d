use max7800x_hal::cnn::fields::{Ena, Fmax, Lctl, Mcnt1, Post, Rcnt, Stream1, Stream2};
use max7800x_hal::cnn::memory::KERNEL_WINDOW_BYTES;
use max7800x_hal::cnn::network::{
    Direct, Fifo, InputRegion, Layer, Network, OutputRegion, Stream, WeightRegion,
};
use max7800x_hal::cnn::regs::LayerReg;
use max7800x_hal::cnn::validate::Invalid;

fn net(layers: &[Layer]) -> Network<'_> {
    Network::new(
        layers,
        0,
        (layers.len() as u8).saturating_sub(1),
        &[],
        None,
        &[],
        &[],
    )
}

#[test]
fn a_blank_layer_is_valid() {
    assert_eq!(net(&[Layer::default()]).validate(), Ok(()));
}

/// `kws20_demo` layer 0: `LCTL = 0xeb20` on the master naming quadrants
/// 1-3, `0x0b20` elsewhere, and `ENA = 0xffffffff`.
#[test]
fn the_shipped_shape_validates() {
    let mut layer = Layer::default();
    layer.lctl = [
        Lctl::from_bits(0x0000_eb20),
        Lctl::from_bits(0x0000_0b20),
        Lctl::from_bits(0x0000_0b20),
        Lctl::from_bits(0x0000_0b20),
    ];
    layer.ena = [Ena::from_bits(0xffff_ffff); 4];
    assert_eq!(net(&[layer]).validate(), Ok(()));
}

#[test]
fn shipped_enable_words_pass() {
    for bits in [
        0x0000_000fu32,
        0x0000_00ff,
        0x0000_0fff,
        0x0000_ffff,
        0x0007_0007,
        0x000f_000f,
        0x00ff_00ff,
        0x0fff_0fff,
        0x7000_7000,
        0xf000_f000,
        0xffff_ffff,
    ] {
        let mut layer = Layer::default();
        layer.ena = [Ena::from_bits(bits); 4];
        assert_eq!(net(&[layer]).validate(), Ok(()), "{bits:#010x}");
    }
}

#[test]
fn mismatched_mask_enables_are_rejected() {
    let mut layer = Layer::default();
    layer.ena = [Ena::from_bits(0x000f_00ff); 4];
    assert_eq!(
        net(&[layer]).validate(),
        Err(Invalid::MaskEnables { layer: 0, quadrant: 0 })
    );
}

#[test]
fn source_enables_belong_to_the_master() {
    let mut layer = Layer::default();
    layer.lctl[1] = Lctl::from_bits(0b1110 << 12);
    assert_eq!(
        net(&[layer]).validate(),
        Err(Invalid::SourceEnables { layer: 0, quadrant: 1 })
    );

    let mut layer = Layer::default();
    layer.lctl[0] = Lctl::from_bits(0b1111 << 12);
    assert_eq!(
        net(&[layer]).validate(),
        Err(Invalid::SourceEnables { layer: 0, quadrant: 0 })
    );
}

#[test]
fn read_ahead_shift_collision_is_rejected() {
    let bad = Lctl::from_bits((1 << 17) | (8 << 26));
    let mut layer = Layer::default();
    layer.lctl = [bad; 4];
    assert_eq!(
        net(&[layer]).validate(),
        Err(Invalid::ShiftCountCollision { layer: 0, quadrant: 0 })
    );

    // Seven fits in the three bits below DW_BCAST.
    let mut layer = Layer::default();
    layer.lctl = [Lctl::from_bits((1 << 17) | (7 << 26)); 4];
    assert_eq!(net(&[layer]).validate(), Ok(()));

    // With tcalc the field is a different, smaller quantity.
    let mut layer = Layer::default();
    layer.lctl = [bad; 4];
    layer.post = [Post::from_bits(1 << 31); 4];
    assert_eq!(net(&[layer]).validate(), Ok(()));

    // Read-ahead is what makes the field mean in_expand at all.
    let mut layer = Layer::default();
    layer.lctl = [Lctl::from_bits(15 << 26); 4];
    assert_eq!(net(&[layer]).validate(), Ok(()));
}

#[test]
fn layer_bounds_are_checked() {
    let layers = [Layer::default(), Layer::default()];
    let n: Network = Network::new(&layers, 1, 0, &[], None, &[], &[]);
    assert_eq!(
        n.validate(),
        Err(Invalid::LayerRange { first: 1, last: 0, layers: 2 })
    );

    let n: Network = Network::new(&layers, 0, 2, &[], None, &[], &[]);
    assert!(matches!(n.validate(), Err(Invalid::LayerRange { .. })));
}

#[test]
fn weight_regions_are_bounds_checked() {
    const DATA: [u32; 4] = [0; 4];

    let bad = [WeightRegion { quadrant: 4, processor: 0, offset: 0, data: &DATA }];
    let n: Network = Network::new(&[], 0, 0, &bad, None, &[], &[]);
    assert_eq!(n.validate(), Err(Invalid::WeightTarget { region: 0 }));

    // One word short of the window is fine; the window itself is not.
    let bad = [WeightRegion {
        quadrant: 0,
        processor: 0,
        offset: KERNEL_WINDOW_BYTES - 4,
        data: &DATA,
    }];
    let n: Network = Network::new(&[], 0, 0, &bad, None, &[], &[]);
    assert_eq!(n.validate(), Err(Invalid::WeightOverrun { region: 0 }));
}

#[test]
fn data_regions_are_bounds_checked() {
    let bad = [InputRegion { quadrant: 0, instance: 4, word: 0, len: 1 }];
    let n: Network = Network::new(&[], 0, 0, &[], None, &bad, &[]);
    assert_eq!(
        n.validate(),
        Err(Invalid::DataTarget { region: 0, input: true })
    );

    let bad = [OutputRegion { quadrant: 0, instance: 0, word: 32767, len: 4 }];
    let n: Network = Network::new(&[], 0, 0, &[], None, &[], &bad);
    assert_eq!(
        n.validate(),
        Err(Invalid::DataOverrun { region: 0, input: false })
    );
}

#[test]
fn bias_tables_are_bounds_checked() {
    const BIG: [u8; 2049] = [0; 2049];
    const TABLES: [&[u8]; 4] = [&[], &BIG, &[], &[]];
    let n: Network = Network::new(&[], 0, 0, &[], Some(&TABLES), &[], &[]);
    assert_eq!(n.validate(), Err(Invalid::BiasOverrun { quadrant: 1 }));
}

/// `RCNT` bits 11 and 12 sit between `CNT` and `PAD_CNT`; only the
/// reserved-bit check can see a count that overran into them.
#[test]
fn reserved_bits_are_rejected() {
    let mut layer = Layer::default();
    layer.rows = Rcnt::from_bits(0x0000_0800);
    assert_eq!(
        net(&[layer.clone()]).validate(),
        Err(Invalid::ReservedBits {
            layer: 0,
            quadrant: 0,
            reg: LayerReg::Rows,
            bits: 0x0000_0800,
        })
    );
    assert_eq!(Rcnt::from_bits(0x0000_0800).cnt(), 0);

    // The same word without the stray bit is fine.
    layer.rows = Rcnt::from_bits(0x0002_007f);
    assert_eq!(net(&[layer]).validate(), Ok(()));
}

#[test]
fn suppressed_registers_are_not_checked() {
    let mut layer = Layer::default();
    layer.mcnt1 = Some(Mcnt1::from_bits(0xfff8_0000));
    assert!(matches!(
        net(&[layer.clone()]).validate(),
        Err(Invalid::ReservedBits { reg: LayerReg::Mcnt, .. })
    ));

    layer.mcnt1 = None;
    assert_eq!(net(&[layer]).validate(), Ok(()));
}

#[test]
fn reserved_bits_are_reported_per_quadrant() {
    let mut layer = Layer::default();
    layer.lctl[2] = Lctl::from_bits(0x8000_0000);
    assert_eq!(
        net(&[layer]).validate(),
        Err(Invalid::ReservedBits {
            layer: 0,
            quadrant: 2,
            reg: LayerReg::Lctl,
            bits: 0x8000_0000,
        })
    );
}

/// More layers than the register file holds is refused before anything else.
#[test]
fn too_many_layers_are_rejected() {
    let layers = vec![Layer::default(); 129];
    let n: Network = Network::new(&layers, 0, 0, &[], None, &[], &[]);
    assert_eq!(n.validate(), Err(Invalid::TooManyLayers { layers: 129 }));

    let layers = vec![Layer::default(); 128];
    let n: Network = Network::new(&layers, 0, 127, &[], None, &[], &[]);
    assert_eq!(n.validate(), Ok(()));
}

/// A weight burst whose offset is not a whole word cannot be written.
#[test]
fn unaligned_weight_offsets_are_rejected() {
    const DATA: [u32; 1] = [0];
    let bad = [WeightRegion { quadrant: 0, processor: 0, offset: 2, data: &DATA }];
    let n: Network = Network::new(&[], 0, 0, &bad, None, &[], &[]);
    assert_eq!(n.validate(), Err(Invalid::WeightOverrun { region: 0 }));
}

/// Streaming needs FIFO input: a direct-input network with a streaming layer
/// is rejected, naming the layer; with FIFO input the same layer passes.
#[test]
fn streaming_layers_need_fifo_input() {
    let mut layer = Layer::default();
    layer.stream = Some(Stream {
        slot: 0,
        start: Stream1::from_bits(0x147),
        delta: Stream2::from_bits(0x0142_0022),
        rollover: Fmax::from_bits(0x148),
    });
    let layers = [Layer::default(), layer];
    let n: Network<Direct> = Network::new(&layers, 0, 1, &[], None, &[], &[]);
    assert_eq!(n.validate(), Err(Invalid::Streaming { layer: 1 }));
    let n: Network<Fifo> = Network::new(&layers, 0, 1, &[], None, &[], &[]);
    assert_eq!(n.validate(), Ok(()));
}
