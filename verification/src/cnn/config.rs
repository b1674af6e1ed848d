//! Layer Configuration
//!
//! Turns a [`Layer`] into the sequence of register writes that programs it.

use super::fields::{lemma_register_slots, LayerRegister};
use super::network::{spec_is_synthetic, InputMode, Layer, Network};
use super::regs::{
    lemma_layer_registers_distinct, layer_reg_offset, spec_layer_addr, LayerReg, Quadrant, Reg, MAX_LAYERS,
    QUADRANTS,
};
use super::Cnn;
use crate::gcr::clocks::Enabled;
use vstd::arithmetic::div_mod::{lemma_fundamental_div_mod_converse_div, lemma_fundamental_div_mod_converse_mod};
use vstd::prelude::*;

verus! {

/// Index of the master quadrant.
pub const MASTER_QUADRANT: u8 = 0;

/// Somewhere register writes go: the register file itself, or a recorder
/// to compare against other implementations.
pub trait LayerSink {
    /// Every write this sink has received, oldest first.
    spec fn written(&self) -> Seq<(LayerReg, u32)>;

    fn write(&mut self, reg: LayerReg, bits: u32)
        ensures
            final(self).written() == old(self).written().push((reg, bits)),
    ;
}

/// A vector records the writes it receives, in order.
impl LayerSink for Vec<(LayerReg, u32)> {
    open spec fn written(&self) -> Seq<(LayerReg, u32)> {
        self@
    }

    fn write(&mut self, reg: LayerReg, bits: u32) {
        self.push((reg, bits));
    }
}

/// The write a register contributes: none when its value is zero.
pub open spec fn emitted(reg: LayerReg, bits: u32) -> Seq<(LayerReg, u32)> {
    if bits != 0 {
        seq![(reg, bits)]
    } else {
        Seq::empty()
    }
}

/// The write an optional register contributes: none when it is absent.
pub open spec fn emitted_opt(reg: LayerReg, bits: Option<u32>) -> Seq<(LayerReg, u32)> {
    match bits {
        Some(b) => emitted(reg, b),
        None => Seq::empty(),
    }
}

/// The writes that program `layer` into quadrant `q`, in the generator's
/// order: `Oned` after `Ochan`, `Ena` last because it arms the processors,
/// and every zero value left out.
pub open spec fn layer_writes(layer: Layer, q: int) -> Seq<(LayerReg, u32)> {
    emitted(LayerReg::Next, layer.next@)
        + emitted(LayerReg::Rows, layer.rows@)
        + emitted(LayerReg::Cols, layer.cols@)
        + emitted(LayerReg::PoolRows, layer.pool_rows@)
        + emitted(LayerReg::PoolCols, layer.pool_cols@)
        + emitted(LayerReg::Stride, layer.stride@)
        + emitted(LayerReg::Wptr, layer.wptr[q]@)
        + emitted(LayerReg::WptrTs, layer.wptr_ts@)
        + emitted_opt(
            LayerReg::WptrMask,
            match layer.wptr_moffs {
                Some(m) => Some(m@),
                None => None,
            },
        )
        + emitted(LayerReg::WptrMp, layer.wptr_choffs@)
        + emitted(LayerReg::Rptr, layer.rptr@)
        + emitted(LayerReg::Lctl, layer.lctl[q]@)
        + emitted(LayerReg::Lctl2, layer.lctl2@)
        + emitted_opt(
            LayerReg::Mcnt,
            match layer.mcnt1 {
                Some(m) => Some(m@),
                None => None,
            },
        )
        + emitted(LayerReg::Moffs, layer.mcnt2@)
        + emitted(LayerReg::Ochan, layer.ochan@)
        + emitted(LayerReg::Oned, layer.oned@)
        + emitted(LayerReg::Tptr, layer.tptr@)
        + emitted(LayerReg::Post, layer.post[q]@)
        + emitted(LayerReg::En, layer.ena[q]@)
}

/// Where a register comes in the order a layer is written (see
/// [`EMIT_ORDER`](super::EMIT_ORDER)).
pub open spec fn emit_position(reg: LayerReg) -> int {
    match reg {
        LayerReg::Next => 0,
        LayerReg::Rows => 1,
        LayerReg::Cols => 2,
        LayerReg::PoolRows => 3,
        LayerReg::PoolCols => 4,
        LayerReg::Stride => 5,
        LayerReg::Wptr => 6,
        LayerReg::WptrTs => 7,
        LayerReg::WptrMask => 8,
        LayerReg::WptrMp => 9,
        LayerReg::Rptr => 10,
        LayerReg::Lctl => 11,
        LayerReg::Lctl2 => 12,
        LayerReg::Mcnt => 13,
        LayerReg::Moffs => 14,
        LayerReg::Ochan => 15,
        LayerReg::Oned => 16,
        LayerReg::Tptr => 17,
        LayerReg::Post => 18,
        LayerReg::En => 19,
    }
}

/// [`EMIT_ORDER`](super::EMIT_ORDER) lists every register exactly once, each
/// at its emit position.
pub proof fn lemma_emit_order(r: LayerReg)
    ensures
        super::EMIT_ORDER@.len() == 20,
        0 <= emit_position(r) < 20,
        super::EMIT_ORDER@[emit_position(r)] == r,
        forall|i: int| 0 <= i < 20 ==> emit_position(#[trigger] super::EMIT_ORDER@[i]) == i,
{
}

/// Writes in strictly increasing emit order, none of them zero, none past `limit`.
pub open spec fn ordered_up_to(writes: Seq<(LayerReg, u32)>, limit: int) -> bool {
    &&& forall|s: int, t: int|
        0 <= s < t < writes.len() ==> emit_position(#[trigger] writes[s].0) < emit_position(
            #[trigger] writes[t].0,
        )
    &&& forall|t: int| 0 <= t < writes.len() ==> (#[trigger] writes[t]).1 != 0 && emit_position(writes[t].0) <= limit
}

/// A layer is written in the fixed order, each register at most once, no
/// register with the value zero, and the enables last of all.
pub proof fn lemma_layer_writes_in_order(layer: Layer, q: int)
    ensures
        forall|s: int, t: int|
            0 <= s < t < layer_writes(layer, q).len() ==> emit_position(
                #[trigger] layer_writes(layer, q)[s].0,
            ) < emit_position(#[trigger] layer_writes(layer, q)[t].0),
        forall|s: int, t: int|
            0 <= s < layer_writes(layer, q).len() && 0 <= t < layer_writes(layer, q).len() && s != t
                ==> (#[trigger] layer_writes(layer, q)[s]).0 != (#[trigger] layer_writes(layer, q)[t]).0,
        forall|t: int| 0 <= t < layer_writes(layer, q).len() ==> (#[trigger] layer_writes(layer, q)[t]).1 != 0,
        forall|t: int|
            0 <= t < layer_writes(layer, q).len() && (#[trigger] layer_writes(layer, q)[t]).0 == LayerReg::En
                ==> t == layer_writes(layer, q).len() - 1,
{
    let moffs = match layer.wptr_moffs {
        Some(m) => Some(m@),
        None => None,
    };
    let mcnt1 = match layer.mcnt1 {
        Some(m) => Some(m@),
        None => None,
    };
    let w0 = emitted(LayerReg::Next, layer.next@);
    lemma_extend_in_order(Seq::empty(), -1, LayerReg::Next, Some(layer.next@));
    assert(Seq::<(LayerReg, u32)>::empty() + w0 =~= w0);
    let w1 = w0 + emitted(LayerReg::Rows, layer.rows@);
    lemma_extend_in_order(w0, 0, LayerReg::Rows, Some(layer.rows@));
    let w2 = w1 + emitted(LayerReg::Cols, layer.cols@);
    lemma_extend_in_order(w1, 1, LayerReg::Cols, Some(layer.cols@));
    let w3 = w2 + emitted(LayerReg::PoolRows, layer.pool_rows@);
    lemma_extend_in_order(w2, 2, LayerReg::PoolRows, Some(layer.pool_rows@));
    let w4 = w3 + emitted(LayerReg::PoolCols, layer.pool_cols@);
    lemma_extend_in_order(w3, 3, LayerReg::PoolCols, Some(layer.pool_cols@));
    let w5 = w4 + emitted(LayerReg::Stride, layer.stride@);
    lemma_extend_in_order(w4, 4, LayerReg::Stride, Some(layer.stride@));
    let w6 = w5 + emitted(LayerReg::Wptr, layer.wptr[q]@);
    lemma_extend_in_order(w5, 5, LayerReg::Wptr, Some(layer.wptr[q]@));
    let w7 = w6 + emitted(LayerReg::WptrTs, layer.wptr_ts@);
    lemma_extend_in_order(w6, 6, LayerReg::WptrTs, Some(layer.wptr_ts@));
    let w8 = w7 + emitted_opt(LayerReg::WptrMask, moffs);
    lemma_extend_in_order(w7, 7, LayerReg::WptrMask, moffs);
    let w9 = w8 + emitted(LayerReg::WptrMp, layer.wptr_choffs@);
    lemma_extend_in_order(w8, 8, LayerReg::WptrMp, Some(layer.wptr_choffs@));
    let w10 = w9 + emitted(LayerReg::Rptr, layer.rptr@);
    lemma_extend_in_order(w9, 9, LayerReg::Rptr, Some(layer.rptr@));
    let w11 = w10 + emitted(LayerReg::Lctl, layer.lctl[q]@);
    lemma_extend_in_order(w10, 10, LayerReg::Lctl, Some(layer.lctl[q]@));
    let w12 = w11 + emitted(LayerReg::Lctl2, layer.lctl2@);
    lemma_extend_in_order(w11, 11, LayerReg::Lctl2, Some(layer.lctl2@));
    let w13 = w12 + emitted_opt(LayerReg::Mcnt, mcnt1);
    lemma_extend_in_order(w12, 12, LayerReg::Mcnt, mcnt1);
    let w14 = w13 + emitted(LayerReg::Moffs, layer.mcnt2@);
    lemma_extend_in_order(w13, 13, LayerReg::Moffs, Some(layer.mcnt2@));
    let w15 = w14 + emitted(LayerReg::Ochan, layer.ochan@);
    lemma_extend_in_order(w14, 14, LayerReg::Ochan, Some(layer.ochan@));
    let w16 = w15 + emitted(LayerReg::Oned, layer.oned@);
    lemma_extend_in_order(w15, 15, LayerReg::Oned, Some(layer.oned@));
    let w17 = w16 + emitted(LayerReg::Tptr, layer.tptr@);
    lemma_extend_in_order(w16, 16, LayerReg::Tptr, Some(layer.tptr@));
    let w18 = w17 + emitted(LayerReg::Post, layer.post[q]@);
    lemma_extend_in_order(w17, 17, LayerReg::Post, Some(layer.post[q]@));
    let w19 = w18 + emitted(LayerReg::En, layer.ena[q]@);
    lemma_extend_in_order(w18, 18, LayerReg::En, Some(layer.ena[q]@));
    assert(w19 == layer_writes(layer, q));
    let all = layer_writes(layer, q);
    assert forall|s: int, t: int|
        0 <= s < all.len() && 0 <= t < all.len() && s != t implies (#[trigger] all[s]).0 != (
        #[trigger] all[t]).0 by {
        if s < t {
            assert(emit_position(all[s].0) < emit_position(all[t].0));
        } else {
            assert(emit_position(all[t].0) < emit_position(all[s].0));
        }
    }
    assert forall|t: int| 0 <= t < all.len() && (#[trigger] all[t]).0 == LayerReg::En implies t == all.len()
        - 1 by {
        if t < all.len() - 1 {
            assert(emit_position(all[t].0) < emit_position(all[t + 1].0));
        }
    }
}

/// Appending the write of a register that comes after everything written so
/// far keeps the writes in order.
proof fn lemma_extend_in_order(acc: Seq<(LayerReg, u32)>, limit: int, reg: LayerReg, bits: Option<u32>)
    requires
        ordered_up_to(acc, limit),
        limit < emit_position(reg),
    ensures
        ordered_up_to(acc + emitted_opt(reg, bits), emit_position(reg)),
        forall|b: u32| emitted_opt(reg, Some(b)) == #[trigger] emitted(reg, b),
{
    let all = acc + emitted_opt(reg, bits);
    assert forall|s: int, t: int|
        0 <= s < t < all.len() implies emit_position(#[trigger] all[s].0) < emit_position(
        #[trigger] all[t].0,
    ) by {
        if t >= acc.len() {
            assert(all[t] == emitted_opt(reg, bits)[t - acc.len()]);
            assert(all[s] == acc[s]);
        }
    }
    assert forall|t: int| 0 <= t < all.len() implies (#[trigger] all[t]).1 != 0 && emit_position(all[t].0)
        <= emit_position(reg) by {
        if t >= acc.len() {
            assert(all[t] == emitted_opt(reg, bits)[t - acc.len()]);
        } else {
            assert(all[t] == acc[t]);
        }
    }
}

/// The writes in `ws` that go to register `reg`, in order.
#[verifier::opaque]
pub open spec fn writes_to(ws: Seq<(LayerReg, u32)>, reg: LayerReg) -> Seq<(LayerReg, u32)> {
    ws.filter(|w: (LayerReg, u32)| w.0 == reg)
}

/// `reg` is written exactly once, with `v`, when `v` is nonzero, and not at
/// all when it is zero.
pub open spec fn receives(ws: Seq<(LayerReg, u32)>, reg: LayerReg, v: u32) -> bool {
    if v != 0 {
        writes_to(ws, reg) == seq![(reg, v)]
    } else {
        writes_to(ws, reg).len() == 0
    }
}

/// `reg` is written once with the value of an optional register that is
/// present and nonzero, and not at all otherwise.
pub open spec fn receives_opt(ws: Seq<(LayerReg, u32)>, reg: LayerReg, v: Option<u32>) -> bool {
    match v {
        Some(b) => receives(ws, reg, b),
        None => writes_to(ws, reg).len() == 0,
    }
}

/// Programming quadrant `q` writes each register of the layer with the
/// layer's own field: the shared registers with the layer-wide words, and the
/// per-quadrant registers (`Wptr`, `Lctl`, `Post`, `En`) with the word for
/// quadrant `q` itself. A register whose word is zero or absent is not
/// written.
pub proof fn lemma_layer_register_values(layer: Layer, q: int)
    requires
        0 <= q < QUADRANTS,
    ensures
        receives(layer_writes(layer, q), LayerReg::Next, layer.next@),
        receives(layer_writes(layer, q), LayerReg::Rows, layer.rows@),
        receives(layer_writes(layer, q), LayerReg::Cols, layer.cols@),
        receives(layer_writes(layer, q), LayerReg::PoolRows, layer.pool_rows@),
        receives(layer_writes(layer, q), LayerReg::PoolCols, layer.pool_cols@),
        receives(layer_writes(layer, q), LayerReg::Stride, layer.stride@),
        receives(layer_writes(layer, q), LayerReg::Wptr, layer.wptr[q]@),
        receives(layer_writes(layer, q), LayerReg::WptrTs, layer.wptr_ts@),
        receives_opt(
            layer_writes(layer, q),
            LayerReg::WptrMask,
            match layer.wptr_moffs {
                Some(m) => Some(m@),
                None => None,
            },
        ),
        receives(layer_writes(layer, q), LayerReg::WptrMp, layer.wptr_choffs@),
        receives(layer_writes(layer, q), LayerReg::Rptr, layer.rptr@),
        receives(layer_writes(layer, q), LayerReg::Lctl, layer.lctl[q]@),
        receives(layer_writes(layer, q), LayerReg::Lctl2, layer.lctl2@),
        receives_opt(
            layer_writes(layer, q),
            LayerReg::Mcnt,
            match layer.mcnt1 {
                Some(m) => Some(m@),
                None => None,
            },
        ),
        receives(layer_writes(layer, q), LayerReg::Moffs, layer.mcnt2@),
        receives(layer_writes(layer, q), LayerReg::Ochan, layer.ochan@),
        receives(layer_writes(layer, q), LayerReg::Oned, layer.oned@),
        receives(layer_writes(layer, q), LayerReg::Tptr, layer.tptr@),
        receives(layer_writes(layer, q), LayerReg::Post, layer.post[q]@),
        receives(layer_writes(layer, q), LayerReg::En, layer.ena[q]@),
{
    lemma_layer_assigned(layer, q);
}

/// The word that `layer` holds for register `reg` in quadrant `q`.
spec fn layer_field(layer: Layer, q: int, reg: LayerReg) -> Option<u32> {
    match reg {
        LayerReg::Next => Some(layer.next@),
        LayerReg::Rows => Some(layer.rows@),
        LayerReg::Cols => Some(layer.cols@),
        LayerReg::PoolRows => Some(layer.pool_rows@),
        LayerReg::PoolCols => Some(layer.pool_cols@),
        LayerReg::Stride => Some(layer.stride@),
        LayerReg::Wptr => Some(layer.wptr[q]@),
        LayerReg::WptrTs => Some(layer.wptr_ts@),
        LayerReg::WptrMask => match layer.wptr_moffs {
            Some(m) => Some(m@),
            None => None,
        },
        LayerReg::WptrMp => Some(layer.wptr_choffs@),
        LayerReg::Rptr => Some(layer.rptr@),
        LayerReg::Lctl => Some(layer.lctl[q]@),
        LayerReg::Lctl2 => Some(layer.lctl2@),
        LayerReg::Mcnt => match layer.mcnt1 {
            Some(m) => Some(m@),
            None => None,
        },
        LayerReg::Moffs => Some(layer.mcnt2@),
        LayerReg::Ochan => Some(layer.ochan@),
        LayerReg::Oned => Some(layer.oned@),
        LayerReg::Tptr => Some(layer.tptr@),
        LayerReg::Post => Some(layer.post[q]@),
        LayerReg::En => Some(layer.ena[q]@),
    }
}

/// The writes `acc` have given every register up to emit position `j` its
/// word of the layer, and no other register anything.
spec fn assigned_through(acc: Seq<(LayerReg, u32)>, j: int, layer: Layer, q: int) -> bool {
    forall|reg: LayerReg|
        #[trigger] writes_to(acc, reg) == if emit_position(reg) <= j {
            emitted_opt(reg, layer_field(layer, q, reg))
        } else {
            Seq::empty()
        }
}

/// Writing the register at emit position `j` extends what was assigned.
proof fn lemma_assign_next(acc: Seq<(LayerReg, u32)>, j: int, reg: LayerReg, layer: Layer, q: int)
    requires
        assigned_through(acc, j - 1, layer, q),
        emit_position(reg) == j,
    ensures
        assigned_through(acc + emitted_opt(reg, layer_field(layer, q, reg)), j, layer, q),
{
    reveal(writes_to);
    let piece = emitted_opt(reg, layer_field(layer, q, reg));
    assert forall|r: LayerReg|
        #[trigger] writes_to(acc + piece, r) == if emit_position(r) <= j {
            emitted_opt(r, layer_field(layer, q, r))
        } else {
            Seq::empty()
        } by {
        lemma_emitted_to(r);
        assert(writes_to(acc + piece, r) == writes_to(acc, r) + writes_to(piece, r));
        assert(writes_to(acc, r) == if emit_position(r) <= j - 1 {
            emitted_opt(r, layer_field(layer, q, r))
        } else {
            Seq::empty()
        });
    }
}

/// Every register of a layer's writes for quadrant `q` gets its own word.
proof fn lemma_layer_assigned(layer: Layer, q: int)
    ensures
        assigned_through(layer_writes(layer, q), 19, layer, q),
{
    let w = Seq::<(LayerReg, u32)>::empty();
    assert forall|reg: LayerReg| #[trigger] writes_to(w, reg) == if emit_position(reg) <= -1 {
        emitted_opt(reg, layer_field(layer, q, reg))
    } else {
        Seq::empty()
    } by {
        lemma_emitted_to(reg);
    }
    lemma_assign_next(w, 0, LayerReg::Next, layer, q);
    let w = w + emitted_opt(LayerReg::Next, layer_field(layer, q, LayerReg::Next));
    lemma_assign_next(w, 1, LayerReg::Rows, layer, q);
    let w = w + emitted_opt(LayerReg::Rows, layer_field(layer, q, LayerReg::Rows));
    lemma_assign_next(w, 2, LayerReg::Cols, layer, q);
    let w = w + emitted_opt(LayerReg::Cols, layer_field(layer, q, LayerReg::Cols));
    lemma_assign_next(w, 3, LayerReg::PoolRows, layer, q);
    let w = w + emitted_opt(LayerReg::PoolRows, layer_field(layer, q, LayerReg::PoolRows));
    lemma_assign_next(w, 4, LayerReg::PoolCols, layer, q);
    let w = w + emitted_opt(LayerReg::PoolCols, layer_field(layer, q, LayerReg::PoolCols));
    lemma_assign_next(w, 5, LayerReg::Stride, layer, q);
    let w = w + emitted_opt(LayerReg::Stride, layer_field(layer, q, LayerReg::Stride));
    lemma_assign_next(w, 6, LayerReg::Wptr, layer, q);
    let w = w + emitted_opt(LayerReg::Wptr, layer_field(layer, q, LayerReg::Wptr));
    lemma_assign_next(w, 7, LayerReg::WptrTs, layer, q);
    let w = w + emitted_opt(LayerReg::WptrTs, layer_field(layer, q, LayerReg::WptrTs));
    lemma_assign_next(w, 8, LayerReg::WptrMask, layer, q);
    let w = w + emitted_opt(LayerReg::WptrMask, layer_field(layer, q, LayerReg::WptrMask));
    lemma_assign_next(w, 9, LayerReg::WptrMp, layer, q);
    let w = w + emitted_opt(LayerReg::WptrMp, layer_field(layer, q, LayerReg::WptrMp));
    lemma_assign_next(w, 10, LayerReg::Rptr, layer, q);
    let w = w + emitted_opt(LayerReg::Rptr, layer_field(layer, q, LayerReg::Rptr));
    lemma_assign_next(w, 11, LayerReg::Lctl, layer, q);
    let w = w + emitted_opt(LayerReg::Lctl, layer_field(layer, q, LayerReg::Lctl));
    lemma_assign_next(w, 12, LayerReg::Lctl2, layer, q);
    let w = w + emitted_opt(LayerReg::Lctl2, layer_field(layer, q, LayerReg::Lctl2));
    lemma_assign_next(w, 13, LayerReg::Mcnt, layer, q);
    let w = w + emitted_opt(LayerReg::Mcnt, layer_field(layer, q, LayerReg::Mcnt));
    lemma_assign_next(w, 14, LayerReg::Moffs, layer, q);
    let w = w + emitted_opt(LayerReg::Moffs, layer_field(layer, q, LayerReg::Moffs));
    lemma_assign_next(w, 15, LayerReg::Ochan, layer, q);
    let w = w + emitted_opt(LayerReg::Ochan, layer_field(layer, q, LayerReg::Ochan));
    lemma_assign_next(w, 16, LayerReg::Oned, layer, q);
    let w = w + emitted_opt(LayerReg::Oned, layer_field(layer, q, LayerReg::Oned));
    lemma_assign_next(w, 17, LayerReg::Tptr, layer, q);
    let w = w + emitted_opt(LayerReg::Tptr, layer_field(layer, q, LayerReg::Tptr));
    lemma_assign_next(w, 18, LayerReg::Post, layer, q);
    let w = w + emitted_opt(LayerReg::Post, layer_field(layer, q, LayerReg::Post));
    lemma_assign_next(w, 19, LayerReg::En, layer, q);
    let w = w + emitted_opt(LayerReg::En, layer_field(layer, q, LayerReg::En));
    assert(w =~= layer_writes(layer, q));
}

/// Of the write a register contributes, the part that goes to `reg`.
proof fn lemma_emitted_to(reg: LayerReg)
    ensures
        forall|r: LayerReg, v: u32|
            #[trigger] writes_to(emitted(r, v), reg) == if r == reg {
                emitted(r, v)
            } else {
                Seq::empty()
            },
        writes_to(Seq::empty(), reg) == Seq::<(LayerReg, u32)>::empty(),
{
    reveal(writes_to);
    reveal_with_fuel(Seq::filter, 1);
    assert(writes_to(Seq::empty(), reg) =~= Seq::<(LayerReg, u32)>::empty());
    assert forall|r: LayerReg, v: u32|
        #[trigger] writes_to(emitted(r, v), reg) == if r == reg {
            emitted(r, v)
        } else {
            Seq::empty()
        } by {
        reveal_with_fuel(Seq::filter, 2);
        if v != 0 {
            assert(seq![(r, v)].drop_last() =~= Seq::<(LayerReg, u32)>::empty());
        }
        assert(writes_to(emitted(r, v), reg) =~= if r == reg {
            emitted(r, v)
        } else {
            Seq::empty()
        });
    }
}

/// Writes a register unless its value is zero.
fn emit<S: LayerSink, R: LayerRegister>(sink: &mut S, value: R)
    ensures
        final(sink).written() == old(sink).written() + emitted(R::REG, value.spec_bits()),
{
    let bits = value.bits();
    if bits != 0 {
        sink.write(R::REG, bits);
    }
    assert(final(sink).written() =~= old(sink).written() + emitted(R::REG, value.spec_bits()));
}

/// Write one layer's configuration for one quadrant.
/// This order is the generator's, not the address order. `Oned` follows
/// `Ochan`, and `Ena` is last because it arms the processors.
pub fn emit_layer<S: LayerSink>(sink: &mut S, layer: &Layer, quadrant: u8)
    requires
        quadrant < QUADRANTS,
    ensures
        final(sink).written() == old(sink).written() + layer_writes(*layer, quadrant as int),
{
    let q = quadrant as usize;
    let ghost start = sink.written();
    proof {
        lemma_register_slots();
    }
    let ghost mut acc: Seq<(LayerReg, u32)> = Seq::empty();
    assert(sink.written() =~= start + acc);
    emit(sink, layer.next);
    proof {
        step(start, acc, emitted(LayerReg::Next, layer.next@));
        acc = acc + emitted(LayerReg::Next, layer.next@);
    }
    emit(sink, layer.rows);
    proof {
        step(start, acc, emitted(LayerReg::Rows, layer.rows@));
        acc = acc + emitted(LayerReg::Rows, layer.rows@);
    }
    emit(sink, layer.cols);
    proof {
        step(start, acc, emitted(LayerReg::Cols, layer.cols@));
        acc = acc + emitted(LayerReg::Cols, layer.cols@);
    }
    emit(sink, layer.pool_rows);
    proof {
        step(start, acc, emitted(LayerReg::PoolRows, layer.pool_rows@));
        acc = acc + emitted(LayerReg::PoolRows, layer.pool_rows@);
    }
    emit(sink, layer.pool_cols);
    proof {
        step(start, acc, emitted(LayerReg::PoolCols, layer.pool_cols@));
        acc = acc + emitted(LayerReg::PoolCols, layer.pool_cols@);
    }
    emit(sink, layer.stride);
    proof {
        step(start, acc, emitted(LayerReg::Stride, layer.stride@));
        acc = acc + emitted(LayerReg::Stride, layer.stride@);
    }
    emit(sink, layer.wptr[q]);
    proof {
        step(start, acc, emitted(LayerReg::Wptr, layer.wptr[q as int]@));
        acc = acc + emitted(LayerReg::Wptr, layer.wptr[q as int]@);
    }
    emit(sink, layer.wptr_ts);
    proof {
        step(start, acc, emitted(LayerReg::WptrTs, layer.wptr_ts@));
        acc = acc + emitted(LayerReg::WptrTs, layer.wptr_ts@);
    }
    let ghost moffs_bits = match layer.wptr_moffs {
        Some(m) => Some(m@),
        None => None,
    };
    if let Some(moffs) = layer.wptr_moffs {
        emit(sink, moffs);
    } else {
        assert(sink.written() =~= start + acc + emitted_opt(LayerReg::WptrMask, moffs_bits));
    }
    proof {
        step(start, acc, emitted_opt(LayerReg::WptrMask, moffs_bits));
        acc = acc + emitted_opt(LayerReg::WptrMask, moffs_bits);
    }
    emit(sink, layer.wptr_choffs);
    proof {
        step(start, acc, emitted(LayerReg::WptrMp, layer.wptr_choffs@));
        acc = acc + emitted(LayerReg::WptrMp, layer.wptr_choffs@);
    }
    emit(sink, layer.rptr);
    proof {
        step(start, acc, emitted(LayerReg::Rptr, layer.rptr@));
        acc = acc + emitted(LayerReg::Rptr, layer.rptr@);
    }
    emit(sink, layer.lctl[q]);
    proof {
        step(start, acc, emitted(LayerReg::Lctl, layer.lctl[q as int]@));
        acc = acc + emitted(LayerReg::Lctl, layer.lctl[q as int]@);
    }
    emit(sink, layer.lctl2);
    proof {
        step(start, acc, emitted(LayerReg::Lctl2, layer.lctl2@));
        acc = acc + emitted(LayerReg::Lctl2, layer.lctl2@);
    }
    let ghost mcnt1_bits = match layer.mcnt1 {
        Some(m) => Some(m@),
        None => None,
    };
    if let Some(mcnt1) = layer.mcnt1 {
        emit(sink, mcnt1);
    } else {
        assert(sink.written() =~= start + acc + emitted_opt(LayerReg::Mcnt, mcnt1_bits));
    }
    proof {
        step(start, acc, emitted_opt(LayerReg::Mcnt, mcnt1_bits));
        acc = acc + emitted_opt(LayerReg::Mcnt, mcnt1_bits);
    }
    emit(sink, layer.mcnt2);
    proof {
        step(start, acc, emitted(LayerReg::Moffs, layer.mcnt2@));
        acc = acc + emitted(LayerReg::Moffs, layer.mcnt2@);
    }
    emit(sink, layer.ochan);
    proof {
        step(start, acc, emitted(LayerReg::Ochan, layer.ochan@));
        acc = acc + emitted(LayerReg::Ochan, layer.ochan@);
    }
    emit(sink, layer.oned);
    proof {
        step(start, acc, emitted(LayerReg::Oned, layer.oned@));
        acc = acc + emitted(LayerReg::Oned, layer.oned@);
    }
    emit(sink, layer.tptr);
    proof {
        step(start, acc, emitted(LayerReg::Tptr, layer.tptr@));
        acc = acc + emitted(LayerReg::Tptr, layer.tptr@);
    }
    emit(sink, layer.post[q]);
    proof {
        step(start, acc, emitted(LayerReg::Post, layer.post[q as int]@));
        acc = acc + emitted(LayerReg::Post, layer.post[q as int]@);
    }
    emit(sink, layer.ena[q]);
    proof {
        step(start, acc, emitted(LayerReg::En, layer.ena[q as int]@));
        acc = acc + emitted(LayerReg::En, layer.ena[q as int]@);
    }
    assert(acc =~= layer_writes(*layer, quadrant as int));
}

/// Appending to a log that already ends in `acc` extends `acc`.
proof fn step(start: Seq<(LayerReg, u32)>, acc: Seq<(LayerReg, u32)>, more: Seq<(LayerReg, u32)>)
    ensures
        start + acc + more == start + (acc + more),
{
    assert(start + acc + more =~= start + (acc + more));
}

/// The writes that program `layer`, numbered `index`, into quadrant `q`,
/// each at its register's address: none outside the master quadrant for a
/// master-only layer.
pub open spec fn quadrant_program(layer: Layer, index: int, q: int) -> Seq<(u32, u32)> {
    if layer.master_only && q != MASTER_QUADRANT {
        Seq::empty()
    } else {
        layer_writes(layer, q).map_values(
            |w: (LayerReg, u32)| ((spec_layer_addr(q, index) + layer_reg_offset(w.0)) as u32, w.1),
        )
    }
}

/// The writes that program `layer` into quadrants `0..n`, quadrant by quadrant.
pub open spec fn quadrants_program(layer: Layer, index: int, n: int) -> Seq<(u32, u32)>
    decreases n,
{
    if n <= 0 {
        Seq::empty()
    } else {
        quadrants_program(layer, index, n - 1) + quadrant_program(layer, index, n - 1)
    }
}

/// The writes that program every layer, layer by layer.
pub open spec fn network_program(layers: Seq<Layer>) -> Seq<(u32, u32)>
    decreases layers.len(),
{
    if layers.len() == 0 {
        Seq::empty()
    } else {
        network_program(layers.drop_last()) + quadrants_program(
            layers.last(),
            layers.len() - 1,
            QUADRANTS as int,
        )
    }
}

/// The addresses and values of a list of register writes.
pub open spec fn reg_writes(writes: Seq<(Reg, u32)>) -> Seq<(u32, u32)> {
    writes.map_values(|w: (Reg, u32)| (w.0@, w.1))
}

/// The quadrant a register file address belongs to.
pub open spec fn addr_quadrant(addr: int) -> int {
    (addr - 0x5100_0000) / 0x0100_0000
}

/// The layer a register file address belongs to within its quadrant.
pub open spec fn addr_layer(addr: int) -> int {
    (addr % 0x0100_0000 - 0x10_0000) / 0x100
}

/// No two writes go to the same address.
pub open spec fn distinct_addrs(writes: Seq<(u32, u32)>) -> bool {
    forall|j: int, k: int| 0 <= j < k < writes.len() ==> (#[trigger] writes[j]).0 != (#[trigger] writes[k]).0
}

/// Configuring a network writes each register at most once, and only
/// registers of the layers it has, in the four quadrants.
pub proof fn lemma_configure_writes_once(layers: Seq<Layer>)
    requires
        layers.len() <= MAX_LAYERS,
    ensures
        distinct_addrs(network_program(layers)),
        forall|k: int|
            0 <= k < network_program(layers).len() ==> {
                let addr = (#[trigger] network_program(layers)[k]).0 as int;
                &&& 0 <= addr_quadrant(addr) < QUADRANTS
                &&& 0 <= addr_layer(addr) < layers.len()
            },
    decreases layers.len(),
{
    if layers.len() > 0 {
        let rest = layers.drop_last();
        let i = layers.len() - 1;
        lemma_configure_writes_once(rest);
        lemma_quadrants_program(layers.last(), i, QUADRANTS as int);
        let a = network_program(rest);
        let b = quadrants_program(layers.last(), i, QUADRANTS as int);
        assert(network_program(layers) == a + b);
        lemma_concat_distinct(a, b, |addr: int| addr_layer(addr) < i, |addr: int| addr_layer(addr) == i);
    }
}

/// Configuring a network programs every layer into every quadrant it runs
/// in: write `k` of layer `i` for quadrant `q` goes to that register's
/// address in the block of layer `i` of quadrant `q`, at
/// `0x5110_0000 + q * 0x0100_0000 + i * 0x100` plus the register's offset,
/// with its value. A master-only layer writes nothing outside quadrant 0.
pub proof fn lemma_configure_programs_each_layer(layers: Seq<Layer>, i: int, q: int, k: int)
    requires
        layers.len() <= MAX_LAYERS,
        0 <= i < layers.len(),
        0 <= q < QUADRANTS,
    ensures
        (!layers[i].master_only || q == 0) && 0 <= k < layer_writes(layers[i], q).len()
            ==> network_program(layers).contains(
            (
                (0x5110_0000 + q * 0x0100_0000 + i * 0x100 + layer_reg_offset(
                    layer_writes(layers[i], q)[k].0,
                )) as u32,
                layer_writes(layers[i], q)[k].1,
            ),
        ),
        layers[i].master_only ==> forall|t: int|
            0 <= t < network_program(layers).len() && addr_layer(
                (#[trigger] network_program(layers)[t]).0 as int,
            ) == i ==> addr_quadrant(network_program(layers)[t].0 as int) == 0,
{
    if (!layers[i].master_only || q == 0) && 0 <= k < layer_writes(layers[i], q).len() {
        let w = layer_writes(layers[i], q)[k];
        let x = ((spec_layer_addr(q, i) + layer_reg_offset(w.0)) as u32, w.1);
        assert(quadrant_program(layers[i], i, q)[k] == x);
        lemma_quadrants_contain(layers[i], i, 4, q, k);
        lemma_network_contains(layers, i, x);
    }
    if layers[i].master_only {
        lemma_master_only_stays(layers, i);
    }
}

/// Quadrant `q`'s writes of a layer are among those for quadrants `0..n`.
proof fn lemma_quadrants_contain(layer: Layer, i: int, n: int, q: int, k: int)
    requires
        0 <= q < n,
        0 <= k < quadrant_program(layer, i, q).len(),
    ensures
        quadrants_program(layer, i, n).contains(quadrant_program(layer, i, q)[k]),
    decreases n,
{
    let a = quadrants_program(layer, i, n - 1);
    let b = quadrant_program(layer, i, n - 1);
    if q == n - 1 {
        assert((a + b)[a.len() + k] == b[k]);
    } else {
        lemma_quadrants_contain(layer, i, n - 1, q, k);
        let t = choose|t: int| 0 <= t < a.len() && a[t] == quadrant_program(layer, i, q)[k];
        assert((a + b)[t] == a[t]);
    }
}

/// The writes of layer `i` for all quadrants are among those of the network.
proof fn lemma_network_contains(layers: Seq<Layer>, i: int, x: (u32, u32))
    requires
        0 <= i < layers.len(),
        quadrants_program(layers[i], i, QUADRANTS as int).contains(x),
    ensures
        network_program(layers).contains(x),
    decreases layers.len(),
{
    let rest = layers.drop_last();
    let a = network_program(rest);
    let b = quadrants_program(layers.last(), layers.len() - 1, QUADRANTS as int);
    assert(network_program(layers) == a + b);
    if i == layers.len() - 1 {
        let t = choose|t: int| 0 <= t < b.len() && b[t] == x;
        assert((a + b)[a.len() + t] == x);
    } else {
        assert(rest[i] == layers[i]);
        lemma_network_contains(rest, i, x);
        let t = choose|t: int| 0 <= t < a.len() && a[t] == x;
        assert((a + b)[t] == x);
    }
}

/// The writes of a master-only layer for quadrants `0..n` all go to quadrant 0.
proof fn lemma_master_quadrants(layer: Layer, i: int, n: int)
    requires
        layer.master_only,
        0 <= i < MAX_LAYERS,
        0 <= n <= QUADRANTS,
    ensures
        forall|t: int|
            0 <= t < quadrants_program(layer, i, n).len() ==> addr_quadrant(
                (#[trigger] quadrants_program(layer, i, n)[t]).0 as int,
            ) == 0,
    decreases n,
{
    if n > 0 {
        lemma_master_quadrants(layer, i, n - 1);
        lemma_quadrant_program(layer, i, n - 1);
        let a = quadrants_program(layer, i, n - 1);
        let b = quadrant_program(layer, i, n - 1);
        assert forall|t: int| 0 <= t < (a + b).len() implies addr_quadrant((#[trigger] (a + b)[t]).0 as int)
            == 0 by {
            if t >= a.len() {
                assert((a + b)[t] == b[t - a.len()]);
            } else {
                assert((a + b)[t] == a[t]);
            }
        }
    }
}

/// A master-only layer writes only to quadrant 0.
proof fn lemma_master_only_stays(layers: Seq<Layer>, i: int)
    requires
        layers.len() <= MAX_LAYERS,
        0 <= i < layers.len(),
        layers[i].master_only,
    ensures
        forall|t: int|
            0 <= t < network_program(layers).len() && addr_layer(
                (#[trigger] network_program(layers)[t]).0 as int,
            ) == i ==> addr_quadrant(network_program(layers)[t].0 as int) == 0,
    decreases layers.len(),
{
    let rest = layers.drop_last();
    let n = layers.len() - 1;
    let a = network_program(rest);
    let b = quadrants_program(layers.last(), n, QUADRANTS as int);
    assert(network_program(layers) == a + b);
    lemma_configure_writes_once(rest);
    lemma_quadrants_program(layers.last(), n, QUADRANTS as int);
    if i < n {
        assert(rest[i] == layers[i]);
        lemma_master_only_stays(rest, i);
    } else {
        lemma_master_quadrants(layers.last(), n, QUADRANTS as int);
    }
    assert forall|t: int|
        0 <= t < (a + b).len() && addr_layer((#[trigger] (a + b)[t]).0 as int) == i implies addr_quadrant(
        (a + b)[t].0 as int,
    ) == 0 by {
        if t >= a.len() {
            assert((a + b)[t] == b[t - a.len()]);
        } else {
            assert((a + b)[t] == a[t]);
        }
    }
}

/// Appending writes whose addresses all satisfy `right` to writes whose
/// addresses all satisfy `left`, where no address satisfies both, keeps the
/// addresses distinct.
proof fn lemma_concat_distinct(
    a: Seq<(u32, u32)>,
    b: Seq<(u32, u32)>,
    left: spec_fn(int) -> bool,
    right: spec_fn(int) -> bool,
)
    requires
        distinct_addrs(a),
        distinct_addrs(b),
        forall|k: int| 0 <= k < a.len() ==> left((#[trigger] a[k]).0 as int),
        forall|k: int| 0 <= k < b.len() ==> right((#[trigger] b[k]).0 as int),
        forall|addr: int| !(#[trigger] left(addr) && right(addr)),
    ensures
        distinct_addrs(a + b),
{
    let all = a + b;
    assert forall|j: int, k: int| 0 <= j < k < all.len() implies (#[trigger] all[j]).0 != (
    #[trigger] all[k]).0 by {
        if k < a.len() {
            assert(all[j] == a[j] && all[k] == a[k]);
        } else if j >= a.len() {
            assert(all[j] == b[j - a.len()] && all[k] == b[k - a.len()]);
        } else {
            assert(all[j] == a[j] && all[k] == b[k - a.len()]);
            assert(left(a[j].0 as int) && right(b[k - a.len()].0 as int));
        }
    }
}

/// The writes of a layer in quadrants `0..n` go to that layer's register
/// files, in those quadrants, each register at most once.
proof fn lemma_quadrants_program(layer: Layer, i: int, n: int)
    requires
        0 <= i < MAX_LAYERS,
        0 <= n <= QUADRANTS,
    ensures
        distinct_addrs(quadrants_program(layer, i, n)),
        forall|k: int|
            0 <= k < quadrants_program(layer, i, n).len() ==> {
                let addr = (#[trigger] quadrants_program(layer, i, n)[k]).0 as int;
                &&& 0 <= addr_quadrant(addr) < n
                &&& addr_layer(addr) == i
            },
    decreases n,
{
    if n > 0 {
        lemma_quadrants_program(layer, i, n - 1);
        lemma_quadrant_program(layer, i, n - 1);
        let a = quadrants_program(layer, i, n - 1);
        let b = quadrant_program(layer, i, n - 1);
        lemma_concat_distinct(
            a,
            b,
            |addr: int| addr_quadrant(addr) < n - 1,
            |addr: int| addr_quadrant(addr) == n - 1,
        );
    }
}

/// The writes of a layer in one quadrant go to that layer's register file
/// there, each register at most once.
proof fn lemma_quadrant_program(layer: Layer, i: int, q: int)
    requires
        0 <= i < MAX_LAYERS,
        0 <= q < QUADRANTS,
    ensures
        distinct_addrs(quadrant_program(layer, i, q)),
        forall|k: int|
            0 <= k < quadrant_program(layer, i, q).len() ==> {
                let addr = (#[trigger] quadrant_program(layer, i, q)[k]).0 as int;
                &&& addr_quadrant(addr) == q
                &&& addr_layer(addr) == i
            },
{
    if !(layer.master_only && q != MASTER_QUADRANT) {
        let ws = layer_writes(layer, q);
        let prog = quadrant_program(layer, i, q);
        lemma_layer_writes_in_order(layer, q);
        assert forall|k: int| 0 <= k < prog.len() implies {
            let addr = (#[trigger] prog[k]).0 as int;
            &&& addr_quadrant(addr) == q
            &&& addr_layer(addr) == i
            &&& addr == spec_layer_addr(q, i) + layer_reg_offset(ws[k].0)
        } by {
            lemma_layer_registers_distinct(q, i, ws[k].0, q, i, ws[k].0);
            lemma_block_address(q, i, layer_reg_offset(ws[k].0) as int);
        }
        assert forall|j: int, k: int| 0 <= j < k < prog.len() implies (#[trigger] prog[j]).0 != (
        #[trigger] prog[k]).0 by {
            lemma_layer_registers_distinct(q, i, ws[j].0, q, i, ws[k].0);
            lemma_block_address(q, i, layer_reg_offset(ws[j].0) as int);
            lemma_block_address(q, i, layer_reg_offset(ws[k].0) as int);
            assert(ws[j].0 != ws[k].0);
        }
    }
}

/// An address in the register file of layer `i` of quadrant `q` fits a
/// word and decodes back to `q` and `i`.
proof fn lemma_block_address(q: int, i: int, off: int)
    requires
        0 <= q < QUADRANTS,
        0 <= i < MAX_LAYERS,
        0 <= off < 0x50,
    ensures
        0 <= spec_layer_addr(q, i) + off <= u32::MAX,
        addr_quadrant(spec_layer_addr(q, i) + off) == q,
        addr_layer(spec_layer_addr(q, i) + off) == i,
{
    let addr = spec_layer_addr(q, i) + off;
    let r = 0x10_0000 + i * 0x100 + off;
    assert(addr - 0x5100_0000 == q * 0x0100_0000 + r);
    lemma_fundamental_div_mod_converse_div(addr - 0x5100_0000, 0x0100_0000, q, r);
    assert(addr == (0x51 + q) * 0x0100_0000 + r);
    lemma_fundamental_div_mod_converse_mod(addr, 0x0100_0000, 0x51 + q, r);
    lemma_fundamental_div_mod_converse_div(i * 0x100 + off, 0x100, i, off);
}

impl Cnn<Enabled> {
    /// Every register write that programs the layers of `network` into the
    /// register file, in order. An inserted passthrough layer must be
    /// master-only.
    pub fn configure<M: InputMode>(&self, network: &Network<M>) -> (writes: Vec<(Reg, u32)>)
        requires
            network.layers@.len() <= MAX_LAYERS,
            forall|i: int|
                0 <= i < network.layers@.len() && spec_is_synthetic(#[trigger] network.layers@[i])
                    ==> network.layers@[i].master_only,
        ensures
            reg_writes(writes@) == network_program(network.layers@),
    {
        let layers = network.layers;
        let mut out: Vec<(Reg, u32)> = Vec::new();
        let mut index: usize = 0;
        while index < layers.len()
            invariant
                index <= layers@.len(),
                layers@.len() <= MAX_LAYERS,
                reg_writes(out@) == network_program(layers@.take(index as int)),
            decreases layers@.len() - index,
        {
            let layer = &layers[index];
            let ghost done = out@;
            let mut quadrant: u8 = 0;
            while quadrant < QUADRANTS
                invariant
                    quadrant <= QUADRANTS,
                    index < layers@.len() <= MAX_LAYERS,
                    *layer == layers@[index as int],
                    reg_writes(done) == network_program(layers@.take(index as int)),
                    reg_writes(out@) == reg_writes(done) + quadrants_program(
                        *layer,
                        index as int,
                        quadrant as int,
                    ),
                decreases QUADRANTS - quadrant,
            {
                let ghost before = out@;
                if !(layer.master_only && quadrant != MASTER_QUADRANT) {
                    let regs = Quadrant::new(quadrant).layer(index as u8);
                    let mut writes: Vec<(LayerReg, u32)> = Vec::new();
                    emit_layer(&mut writes, layer, quadrant);
                    let ghost all = layer_writes(*layer, quadrant as int);
                    assert(writes@ =~= all);
                    let mut j: usize = 0;
                    while j < writes.len()
                        invariant
                            j <= writes@.len(),
                            writes@ == all,
                            regs@ == spec_layer_addr(quadrant as int, index as int),
                            quadrant < QUADRANTS,
                            index < MAX_LAYERS,
                            reg_writes(out@) == reg_writes(before) + all.take(j as int).map_values(
                                |w: (LayerReg, u32)|
                                    (
                                        (spec_layer_addr(quadrant as int, index as int) + layer_reg_offset(w.0)) as u32,
                                        w.1,
                                    ),
                            ),
                        decreases writes@.len() - j,
                    {
                        let (reg, bits) = writes[j];
                        let ghost prev = out@;
                        let target = regs.reg(reg);
                        out.push((target, bits));
                        let ghost f = |w: (LayerReg, u32)|
                            (
                                (spec_layer_addr(quadrant as int, index as int) + layer_reg_offset(w.0)) as u32,
                                w.1,
                            );
                        assert(reg_writes(out@) =~= reg_writes(prev).push((target@, bits)));
                        assert(all.take(j + 1).map_values(f) =~= all.take(j as int).map_values(f).push(f(all[j as int])));
                        j += 1;
                        assert(reg_writes(out@) =~= reg_writes(before) + all.take(j as int).map_values(
                            |w: (LayerReg, u32)|
                                (
                                    (spec_layer_addr(quadrant as int, index as int) + layer_reg_offset(w.0)) as u32,
                                    w.1,
                                ),
                        ));
                    }
                    assert(all.take(j as int) =~= all);
                } else {
                    assert(out@ =~= before);
                }
                assert(reg_writes(out@) =~= reg_writes(done) + quadrants_program(
                    *layer,
                    index as int,
                    quadrant + 1,
                ));
                quadrant += 1;
            }
            assert(layers@.take(index + 1).drop_last() =~= layers@.take(index as int));
            index += 1;
        }
        assert(layers@.take(index as int) =~= layers@);
        out
    }
}

} // verus!
