use max7800x_hal::cnn::fields::{
    reserved_bits, Activation, Ccnt, EltwiseFn, Ena, LayerRegister, Lctl, Lctl2, Mcnt1, Mcnt2,
    Nxtlyr, Ochan, Oned, Pccnt, PoolMode, Post, Prcnt, Rcnt, RptrBase, ShiftDir, Stride, Tptr,
    WeightScale, WptrBase, WptrChoffs, WptrMoffs, WptrToffs, ALL_TYPED_REGS,
};
use max7800x_hal::cnn::regs::{LayerReg, ALL_LAYER_REGS};

/// The shift-and-mask getters are shared by every field, so one register
/// covers a field at offset 0, one abutting its neighbour, a flag, and a
/// field running to bit 31.
#[test]
fn getters_shift_and_mask() {
    let all = Rcnt::from_bits(u32::MAX);
    assert_eq!(all.cnt(), 0x7ff);
    assert_eq!(all.pad_cnt(), 0b11);
    assert!(all.pad_ena());
    assert_eq!(all.diff(), 0xffff);

    // Each field sees only its own bits.
    assert_eq!(Rcnt::from_bits(0xffff_0000).cnt(), 0);
    assert_eq!(Rcnt::from_bits(0x0000_ffff).diff(), 0);
    assert_eq!(Rcnt::from_bits(!(1 << 15)).pad_ena(), false);

    // A full-width field is not truncated, and a zero word reads as zero.
    assert_eq!(Ochan::from_bits(u32::MAX).ochan(), u32::MAX);
    assert_eq!(Rcnt::from_bits(0).diff(), 0);
}

/// mobilefacenet-112 layer 0: 112x112 input, pad 1, no pooling.
#[test]
fn mobilefacenet_layer0() {
    let rows = Rcnt::from_bits(0x0001_806f);
    assert_eq!(rows.cnt(), 111);
    assert!(rows.pad_ena());
    assert_eq!(rows.pad_cnt() + 1, 1);
    assert_eq!(rows.diff(), 1);

    let stride = Stride::from_bits(0x0000_0010);
    assert_eq!(stride.stride() + 1, 1);
    assert_eq!(stride.mp_stride(), 1);

    let wptr = WptrBase::from_bits(0x0000_2000);
    assert_eq!(wptr.offset(), 0);
    assert_eq!(wptr.instance(), 1);
    assert_eq!(wptr.group(), 0);
}

/// mobilefacenet-112 layer 1: 2x2 pool, stride 2.
#[test]
fn mobilefacenet_layer1() {
    let rows = Rcnt::from_bits(0x0072_806e);
    assert_eq!(rows.cnt(), 110);
    assert!(rows.pad_ena());
    assert_eq!(rows.diff(), 114);

    let cols = Ccnt::from_bits(0x0002_806e);
    assert_eq!(cols.cnt(), 110);
    assert_eq!(cols.diff(), 2);

    let pool = Prcnt::from_bits(0x0000_0001);
    assert_eq!(pool.pool_cnt(), 1);
    assert_eq!(pool.pool_inc(), 0);

    let stride = Stride::from_bits(0x0000_0021);
    assert_eq!(stride.stride() + 1, 2);
    assert_eq!(stride.mp_stride(), 2);
}

/// kws20_demo layer 0: Conv1d, so the column count is degenerate.
#[test]
fn kws20_layer0() {
    let rows = Rcnt::from_bits(0x0002_007f);
    assert_eq!(rows.cnt(), 127);
    assert!(!rows.pad_ena());
    assert_eq!(rows.diff(), 2);

    let cols = Ccnt::from_bits(0x0001_0000);
    assert_eq!(cols.cnt(), 0);
    assert_eq!(cols.diff(), 1);
}

/// The passthrough layer the generator inserts before an average pool that
/// follows an element-wise op writes a fixed set of words.
#[test]
fn inserted_passthrough_layer() {
    let rows = Rcnt::from_bits(0x0001_0000);
    assert_eq!(rows.cnt(), 0);
    assert_eq!(rows.diff(), 1);

    let stride = Stride::from_bits(0x0000_0010);
    assert_eq!(stride.stride(), 0);
    assert_eq!(stride.mp_stride(), 1);
}

#[test]
fn nxtlyr_encodes_link_and_stop() {
    let sequential = Nxtlyr::new();
    assert!(!sequential.link_en());
    assert!(!sequential.stop());
    assert_eq!(sequential.bits(), 0);

    // Link-layer mode on a non-final layer: LINK_EN | (ll + 1).
    let linked = Nxtlyr::from_bits(0x87);
    assert_eq!(linked.bits(), 0x87);
    assert_eq!(linked.next(), 7);

    // Link-layer mode on the final layer.
    let stopped = Nxtlyr::from_bits(0x100);
    assert_eq!(stopped.bits(), 0x100);

    // The snoop-loop override force-writes a link back to layer 0.
    let loop_back = Nxtlyr::from_bits(0x80);
    assert!(loop_back.link_en());
    assert_eq!(loop_back.next(), 0);
}

/// kws20_demo layer 0: Conv1d, master quadrant, in a network with no bias.
#[test]
fn kws20_layer0_control() {
    let master = Lctl::from_bits(0x0000_eb20);
    assert!(master.unnamed5());
    assert!(master.relu());
    assert!(master.global_wptr());
    assert_eq!(master.siena(), 0b1110);
    assert!(!master.rd_ahead());

    // The same layer on a non-master quadrant differs only in SIENA.
    let slave = Lctl::from_bits(0x0000_0b20);
    assert_eq!(slave.siena(), 0);
    assert_eq!(slave.bits(), master.bits() & !(0xf << 12));

    let l2 = Lctl2::from_bits(0x0019_8011);
    assert_eq!(l2.maxpass(), 1);
    assert_eq!(l2.wptr_inc(), 1);
    assert_eq!(l2.xpch_max(), 408);

    let oned = Oned::from_bits(0x0000_1100);
    assert!(oned.oned_ena());
    assert_eq!(oned.oned_width(), 1);
    assert!(!oned.elt_ena());
    assert_eq!(oned.operands() + 1, 1);

    assert_eq!(Ochan::from_bits(0x0000_00cf).ochan() + 1, 208);
    assert_eq!(Mcnt1::from_bits(0x0000_0678).mexp_max(), 0x678);

    let ena = Ena::from_bits(0xffff_ffff);
    assert_eq!(ena.proc_ena(), 0xffff);
    assert_eq!(ena.mask_ena(), ena.proc_ena());
}

/// cifar-100-effnet2 layer 15 is the only shipped layer that sets LCTL bit
/// 29. It is a genuine depthwise broadcast, not a `shift_cnt` spill:
/// `rd_ahead` is clear, so `shift_cnt` is not written at all.
#[test]
fn lctl_bit29_is_depthwise_broadcast_in_practice() {
    let l = Lctl::from_bits(0x2088_0b20);
    assert!(!l.rd_ahead());
    assert!(l.dw_bcast());
    assert_eq!(l.cprime_max() + 1, 3);
    assert_eq!(l.rprime_max() + 1, 3);
}

/// The unguarded case `validate()` must reject: read-ahead without tcalc
/// and a large input expansion sets bit 29 through `shift_cnt` alone.
#[test]
fn lctl_shift_cnt_can_forge_broadcast() {
    let l = Lctl::from_bits((1 << 17) | (8 << 26));
    assert!(l.dw_bcast());
    assert_eq!(l.shift_cnt(), 8);
}

/// The inserted average-pool reset layer writes a fixed control word.
#[test]
fn inserted_passthrough_layer_control() {
    let l = Lctl::from_bits(0x920);
    assert!(l.unnamed5());
    assert!(l.maxpool());
    assert!(l.global_wptr());
    assert!(!l.pool_ena());
    assert_eq!(l.siena(), 0);

    let ena = Ena::from_bits(1);
    assert_eq!(ena.proc_ena(), 1);
    assert_eq!(ena.mask_ena(), 0);
}

/// Element-wise layers encode the operand count minus one.
#[test]
fn eltwise_operands() {
    let o = Oned::from_bits(0x0004_6003);
    assert!(o.elt_ena());
    assert!(!o.oned_ena());
    assert_eq!(o.elt_fn(), 1);
    assert_eq!(o.operands() + 1, 2);
    assert!(!o.pool_first());

    // Same layer with pooling ahead of the element-wise op.
    let pooled = Oned::from_bits(0x0005_6003);
    assert!(pooled.pool_first());
    assert_eq!(pooled.bits(), o.bits() | (1 << 16));
}

const POSTS: [u32; 16] = [
    0x0000_1000,
    0x0000_113e,
    0x0000_15b0,
    0x0000_2000,
    0x0000_3100,
    0x0000_5430,
    0x0000_73f0,
    0x0000_8000,
    0x0002_2000,
    0x0002_34c4,
    0x0002_5000,
    0x0002_73b0,
    0x0100_0000,
    0x0300_0000,
    0x1000_1200,
    0x4100_d004,
];

/// Five bits of signed magnitude, not two's complement.
#[test]
fn output_shift_is_signed_magnitude() {
    // The worked example from the specification.
    let p = Post::from_bits((3 << 13) | (1 << 17));
    assert_eq!(p.scale_mag(), 3);
    assert!(p.scale_dir());
    assert_eq!(p.bits() >> 13, 0b1_0011);
    assert_ne!(p.bits() >> 13, 0b1_1101, "encoded as two's complement");
    assert_eq!(p.output_shift(), -3);

    for shift in -15..=15i32 {
        let raw = (shift.unsigned_abs() << 13) | ((shift < 0) as u32) << 17;
        assert_eq!(Post::from_bits(raw).output_shift(), shift, "shift {shift}");
    }

    // Every scale actually shipped, decoded from the golden words.
    assert_eq!(Post::from_bits(0x0000_8000).output_shift(), 4);
    assert_eq!(Post::from_bits(0x0000_73f0).output_shift(), 3);
    assert_eq!(Post::from_bits(0x0002_2000).output_shift(), -1);
    assert_eq!(Post::from_bits(0x0002_5000).output_shift(), -2);
    assert_eq!(Post::from_bits(0x0002_73b0).output_shift(), -3);
    assert_eq!(Post::from_bits(0x4100_d004).output_shift(), 6);
}

#[test]
fn shift_direction_matches_the_raw_bit() {
    assert_eq!(Post::from_bits(2 << 13).shift_dir(), ShiftDir::Left);
    assert_eq!(
        Post::from_bits((2 << 13) | (1 << 17)).shift_dir(),
        ShiftDir::Right
    );
    assert!(Post::from_bits(1 << 17).scale_dir());
}

/// cifar-100-effnet2 layer 15: depthwise, so `dw_ena` and `ts_ena` are
/// written together.
#[test]
fn effnet2_layer15_post() {
    let p = Post::from_bits(0x4100_3000);
    assert!(p.dw_ena());
    assert!(p.ts_ena(), "dw_ena is always written with ts_ena");
    assert!(p.bias_en());
    assert_eq!(p.bias_addr(), 0);
    assert_eq!(p.output_shift(), 1);
    assert_eq!(p.weight_scale(), WeightScale::Bits8);
}

/// The inserted average-pool reset layer writes `POST = 0x0300_0000`.
#[test]
fn inserted_passthrough_layer_post() {
    let p = Post::from_bits(0x0300_0000);
    assert!(p.ts_ena());
    assert!(p.onexone_ena());
    assert!(!p.bias_en());
    assert_eq!(p.output_shift(), 0, "passthrough must not shift");
}

#[test]
fn weight_scale_codes_match_the_generator() {
    assert_eq!(WeightScale::from_code(0), WeightScale::Bits8);
    assert_eq!(WeightScale::from_code(1), WeightScale::Bits1);
    assert_eq!(WeightScale::from_code(2), WeightScale::Bits2);
    assert_eq!(WeightScale::from_code(3), WeightScale::Bits4);
    for s in [
        WeightScale::Bits8,
        WeightScale::Bits1,
        WeightScale::Bits2,
        WeightScale::Bits4,
    ] {
        assert_eq!(Post::from_bits((s as u32) << 22).weight_scale(), s);
    }
    // Every shipped network uses 8-bit weights.
    for bits in POSTS {
        assert_eq!(Post::from_bits(bits).weight_scale(), WeightScale::Bits8);
    }
}

#[test]
fn eltwise_codes_match_the_generator() {
    assert_eq!(EltwiseFn::from_code(0b00), EltwiseFn::Sub);
    assert_eq!(EltwiseFn::from_code(0b01), EltwiseFn::Add);
    assert_eq!(EltwiseFn::from_code(0b10), EltwiseFn::Or);
    assert_eq!(EltwiseFn::from_code(0b11), EltwiseFn::Xor);
    // The shipped element-wise layers are adds.
    assert_eq!(Oned::from_bits(0x0004_6003).eltwise_fn(), EltwiseFn::Add);
    for f in [
        EltwiseFn::Sub,
        EltwiseFn::Add,
        EltwiseFn::Or,
        EltwiseFn::Xor,
    ] {
        assert_eq!(Oned::from_bits((f as u32) << 14).eltwise_fn(), f);
    }
}

#[test]
fn pool_mode_follows_maxpool() {
    assert_eq!(Lctl::from_bits(0x920).pool_mode(), PoolMode::Max);
    assert_eq!(Lctl::new().pool_mode(), PoolMode::Avg);
    assert_eq!(Lctl::from_bits(1 << 8).pool_mode(), PoolMode::Max);
}

/// Activation spans two registers, so it round-trips through both.
#[test]
fn activation_spans_lctl_and_post() {
    let lctl = Lctl::from_bits(0x0000_eb20);
    let post = Post::from_bits(0x0000_2000);
    assert_eq!(Activation::decode(lctl, post), Some(Activation::Relu));

    for (l, p, act) in [
        (0, 0, Activation::Identity),
        (1 << 9, 0, Activation::Relu),
        (0, 1 << 26, Activation::Abs),
    ] {
        let decoded = Activation::decode(Lctl::from_bits(l), Post::from_bits(p));
        assert_eq!(decoded, Some(act));
    }

    // Both bits set is not a valid encoding.
    let both = Lctl::from_bits(1 << 9);
    let abs = Post::from_bits(1 << 26);
    assert_eq!(Activation::decode(both, abs), None);
}

fn assert_reg<R: LayerRegister>(expected: LayerReg, bits: u32) {
    assert_eq!(R::REG, expected);
    assert_eq!(<R as LayerRegister>::from_bits(bits).bits(), bits);
}

/// Pins the value-type to register-slot mapping one type at a time.
#[test]
fn every_type_maps_to_its_own_slot() {
    assert_reg::<Nxtlyr>(LayerReg::Next, 0x87);
    assert_reg::<Rcnt>(LayerReg::Rows, 0x0002_007f);
    assert_reg::<Ccnt>(LayerReg::Cols, 0x0001_0000);
    assert_reg::<Oned>(LayerReg::Oned, 0x0000_1100);
    assert_reg::<Prcnt>(LayerReg::PoolRows, 0x1);
    assert_reg::<Pccnt>(LayerReg::PoolCols, 0x1);
    assert_reg::<Stride>(LayerReg::Stride, 0x20);
    assert_reg::<WptrBase>(LayerReg::Wptr, 0x800);
    assert_reg::<WptrToffs>(LayerReg::WptrTs, 0x1);
    assert_reg::<WptrMoffs>(LayerReg::WptrMask, 0x8000);
    assert_reg::<WptrChoffs>(LayerReg::WptrMp, 0x1);
    assert_reg::<RptrBase>(LayerReg::Rptr, 0x2000);
    assert_reg::<Lctl>(LayerReg::Lctl, 0x0000_eb20);
    assert_reg::<Lctl2>(LayerReg::Lctl2, 0x0019_8011);
    assert_reg::<Mcnt1>(LayerReg::Mcnt, 0x678);
    assert_reg::<Mcnt2>(LayerReg::Moffs, 0x1200);
    assert_reg::<Ochan>(LayerReg::Ochan, 0xcf);
    assert_reg::<Tptr>(LayerReg::Tptr, 0x0140_027f);
    assert_reg::<Ena>(LayerReg::En, 0xffff_ffff);
    assert_reg::<Post>(LayerReg::Post, 0x0000_3000);
}

#[test]
fn typed_registers_cover_every_slot_once() {
    assert_eq!(ALL_TYPED_REGS.len(), ALL_LAYER_REGS.len());
    for expected in ALL_LAYER_REGS {
        let count = ALL_TYPED_REGS.iter().filter(|r| **r == expected).count();
        assert_eq!(count, 1, "{expected:?} has {count} value types");
    }
}

/// A register whose fields tile the whole word can have nothing reserved.
#[test]
fn full_width_registers_reserve_nothing() {
    for reg in [
        LayerReg::Stride,
        LayerReg::WptrTs,
        LayerReg::WptrMask,
        LayerReg::WptrMp,
        LayerReg::Rptr,
        LayerReg::Ochan,
        LayerReg::Tptr,
        LayerReg::En,
        LayerReg::Post,
    ] {
        assert_eq!(reserved_bits(reg, u32::MAX), 0, "{reg:?}");
    }
}

/// The registers where the check can actually fire, with the reserved
/// windows spelled out.
#[test]
fn reserved_windows_are_where_expected() {
    for (reg, bits) in [
        (LayerReg::Next, 0xffff_fe00u32),
        (LayerReg::Rows, 0x0000_1800),
        (LayerReg::Cols, 0x0000_1800),
        (LayerReg::Oned, 0xffc0_0000),
        (LayerReg::PoolRows, 0xffff_ff00),
        (LayerReg::PoolCols, 0xffff_ff00),
        (LayerReg::Wptr, 0xffe0_0000),
        (LayerReg::Lctl, 0x8000_041f),
        (LayerReg::Lctl2, 0xffe0_0000),
        (LayerReg::Mcnt, 0xfff8_0000),
        (LayerReg::Moffs, 0xfff8_0000),
    ] {
        assert_eq!(reserved_bits(reg, u32::MAX), bits, "{reg:?}");
        assert_eq!(reserved_bits(reg, !bits), 0, "{reg:?}");
    }
}

/// A word made only of reserved bits reads as zero through every field.
#[test]
fn reserved_bits_read_as_nothing() {
    let rows = Rcnt::from_bits(0x0000_1800);
    assert_eq!((rows.cnt(), rows.pad_cnt(), rows.pad_ena(), rows.diff()), (0, 0, false, 0));
    let next = Nxtlyr::from_bits(0xffff_fe00);
    assert_eq!((next.next(), next.link_en(), next.stop()), (0, false, false));
    let lctl = Lctl::from_bits(0x8000_041f);
    assert_eq!(
        (lctl.siena(), lctl.cprime_max(), lctl.rprime_max(), lctl.shift_cnt()),
        (0, 0, 0, 0)
    );
    assert!(!lctl.unnamed5() && !lctl.chw() && !lctl.pool_ena() && !lctl.maxpool());
    assert!(!lctl.relu() && !lctl.global_wptr() && !lctl.wide_out() && !lctl.rd_ahead());
    assert!(!lctl.dw_bcast() && !lctl.bypass());
    let oned = Oned::from_bits(0xffc0_0000);
    assert_eq!((oned.tscnt_max(), oned.operands(), oned.elt_fn()), (0, 0, 0));
    assert_eq!(Mcnt1::from_bits(0xfff8_0000).mexp_max(), 0);
    assert_eq!(Mcnt2::from_bits(0xfff8_0000).mexp_sad(), 0);
    assert_eq!(Lctl2::from_bits(0xffe0_0000).xpch_max(), 0);
    assert_eq!(WptrBase::from_bits(0xffe0_0000).group(), 0);
    assert_eq!(Prcnt::from_bits(0xffff_ff00).pool_inc(), 0);
    assert_eq!(Pccnt::from_bits(0xffff_ff00).pool_cnt(), 0);

    // Each declared bit of a partly reserved register shows up in a field.
    assert_eq!(Rcnt::from_bits(1 << 12 | 1 << 10).cnt(), 1 << 10);
    assert!(Lctl::from_bits(1 << 5).unnamed5());
    assert_eq!(Lctl::from_bits(1 << 29).shift_cnt(), 0b1000);
}
