use max7800x_hal::cnn::config::{emit_layer, MASTER_QUADRANT};
use max7800x_hal::cnn::fields::{Fmax, Rcnt, Stream1, Stream2};
use max7800x_hal::cnn::network::{Layer, Stream};
use max7800x_hal::cnn::regs::LayerReg;
use max7800x_hal::cnn::run::START_MASTER;

/// Records the writes of one layer-quadrant, in order.
struct Recorder {
    writes: Vec<(LayerReg, u32)>,
}

impl Recorder {
    fn of(layer: &Layer, quadrant: u8) -> Self {
        let mut writes: Vec<(LayerReg, u32)> = Vec::new();
        emit_layer(&mut writes, layer, quadrant);
        Recorder { writes }
    }

    fn len(&self) -> usize {
        self.writes.len()
    }
}

/// Streaming registers live outside the per-layer file, so they are not
/// part of this sequence.
#[test]
fn streaming_is_not_emitted_here() {
    let mut layer = Layer {
        rows: Rcnt::from_bits(0x0002_007f),
        ..Layer::default()
    };
    let without = Recorder::of(&layer, 0).len();
    layer.stream = Some(Stream {
        slot: 0,
        start: Stream1::from_bits(0x147),
        delta: Stream2::from_bits(0x0142_0022),
        rollover: Fmax::from_bits(0x148),
    });
    assert_eq!(Recorder::of(&layer, 0).len(), without);
}

#[test]
fn master_quadrant_is_zero() {
    assert_eq!(MASTER_QUADRANT, 0);
    // The `CTL` arm words encode the master index in bits 10:9.
    assert_eq!((START_MASTER >> 9) & 0b11, MASTER_QUADRANT as u32);
}

/// A blank layer writes nothing: every register is zero, and zero writes
/// are suppressed.
#[test]
fn a_blank_layer_emits_nothing() {
    let mut writes: Vec<(LayerReg, u32)> = Vec::new();
    emit_layer(&mut writes, &Layer::default(), 0);
    assert!(writes.is_empty());
}

/// Writes come in the fixed order, with only the non-zero registers, and
/// the per-quadrant registers are taken from the quadrant being programmed.
#[test]
fn writes_follow_the_emit_order() {
    let mut layer = Layer::default();
    layer.rows = Rcnt::from_bits(0x0002_007f);
    layer.ena[2] = max7800x_hal::cnn::fields::Ena::from_bits(0xffff_ffff);
    layer.lctl[2] = max7800x_hal::cnn::fields::Lctl::from_bits(0x0b20);
    layer.lctl[0] = max7800x_hal::cnn::fields::Lctl::from_bits(0xeb20);

    let mut writes: Vec<(LayerReg, u32)> = Vec::new();
    emit_layer(&mut writes, &layer, 2);
    assert_eq!(
        writes,
        vec![
            (LayerReg::Rows, 0x0002_007f),
            (LayerReg::Lctl, 0x0b20),
            (LayerReg::En, 0xffff_ffff),
        ]
    );

    let mut writes: Vec<(LayerReg, u32)> = Vec::new();
    emit_layer(&mut writes, &layer, 0);
    assert_eq!(
        writes,
        vec![(LayerReg::Rows, 0x0002_007f), (LayerReg::Lctl, 0xeb20)]
    );
}
