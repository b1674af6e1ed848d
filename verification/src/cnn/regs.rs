//! # CNN Accelerator Register Addresses
//!
//! Every address is derived from the base of quadrant 0.

use vstd::prelude::*;

verus! {

pub const QUADRANTS: u8 = 4;

pub const PROCESSORS_PER_QUADRANT: u8 = 16;

pub const DATA_INSTANCES_PER_QUADRANT: u8 = 4;

pub const MAX_LAYERS: u8 = 128;

/// Base address of quadrant 0
pub const QUADRANT0_BASE: u32 = 0x5100_0000;

/// Address stride between quadrants.
pub const QUADRANT_STRIDE: u32 = 0x0100_0000;

/// Offset of the per-layer register file within a quadrant
pub const LAYER_BASE: u32 = 0x0010_0000;

/// Address stride between layers within the register file
pub const LAYER_STRIDE: u32 = 0x100;

/// Base address of quadrant `q`, as a mathematical value.
pub open spec fn spec_quadrant_base(q: int) -> int {
    QUADRANT0_BASE + q * QUADRANT_STRIDE
}

/// Base address of quadrant `q`
pub fn quadrant_base(q: u8) -> (base: u32)
    requires
        q < QUADRANTS,
    ensures
        base == spec_quadrant_base(q as int),
{
    QUADRANT0_BASE + (q as u32) * QUADRANT_STRIDE
}

/// A single 32-bit memory-mapped register, named by its address.
#[derive(Clone, Copy, PartialEq, Eq, Debug, Structural)]
pub struct Reg(u32);

impl View for Reg {
    type V = u32;

    closed spec fn view(&self) -> u32 {
        self.0
    }
}

impl Reg {
    /// The register's address.
    pub fn addr(self) -> (addr: u32)
        ensures
            addr == self@,
    {
        self.0
    }
}

/// A register within the per-layer register file.
///
/// Each has a byte offset within a layer's 0x100-byte block; see
/// [`offset`](LayerReg::offset). The fields at each one are described in
/// [`fields`](super::fields).
#[derive(Clone, Copy, PartialEq, Eq, Debug, Structural)]
pub enum LayerReg {
    Next,
    Rows,
    Cols,
    /// 1D convolution configuration.
    Oned,
    /// Pooling rows.
    PoolRows,
    /// Pooling columns.
    PoolCols,
    /// Stride.
    Stride,
    /// SRAM write pointer.
    Wptr,
    /// Write pointer time slot offset.
    WptrTs,
    /// Write pointer mask offset.
    WptrMask,
    /// Write pointer multi-pass channel offset.
    WptrMp,
    /// SRAM read pointer.
    Rptr,
    /// Layer control.
    Lctl,
    /// Layer control 2.
    Lctl2,
    /// Mask count.
    Mcnt,
    /// Mask offset.
    Moffs,
    /// Output channel count.
    Ochan,
    /// TRAM pointer maximum.
    Tptr,
    /// Mask and processor enables.
    En,
    /// Post processing.
    Post,
}

/// Byte offset of a register within its layer's block.
pub open spec fn layer_reg_offset(r: LayerReg) -> u32 {
    match r {
        LayerReg::Next => 0x00,
        LayerReg::Rows => 0x04,
        LayerReg::Cols => 0x08,
        LayerReg::Oned => 0x0c,
        LayerReg::PoolRows => 0x10,
        LayerReg::PoolCols => 0x14,
        LayerReg::Stride => 0x18,
        LayerReg::Wptr => 0x1c,
        LayerReg::WptrTs => 0x20,
        LayerReg::WptrMask => 0x24,
        LayerReg::WptrMp => 0x28,
        LayerReg::Rptr => 0x2c,
        LayerReg::Lctl => 0x30,
        LayerReg::Lctl2 => 0x34,
        LayerReg::Mcnt => 0x38,
        LayerReg::Moffs => 0x3c,
        LayerReg::Ochan => 0x40,
        LayerReg::Tptr => 0x44,
        LayerReg::En => 0x48,
        LayerReg::Post => 0x4c,
    }
}

impl LayerReg {
    /// Byte offset of this register within a layer's 0x100-byte block.
    pub fn offset(self) -> (offset: u32)
        ensures
            offset == layer_reg_offset(self),
    {
        match self {
            LayerReg::Next => 0x00,
            LayerReg::Rows => 0x04,
            LayerReg::Cols => 0x08,
            LayerReg::Oned => 0x0c,
            LayerReg::PoolRows => 0x10,
            LayerReg::PoolCols => 0x14,
            LayerReg::Stride => 0x18,
            LayerReg::Wptr => 0x1c,
            LayerReg::WptrTs => 0x20,
            LayerReg::WptrMask => 0x24,
            LayerReg::WptrMp => 0x28,
            LayerReg::Rptr => 0x2c,
            LayerReg::Lctl => 0x30,
            LayerReg::Lctl2 => 0x34,
            LayerReg::Mcnt => 0x38,
            LayerReg::Moffs => 0x3c,
            LayerReg::Ochan => 0x40,
            LayerReg::Tptr => 0x44,
            LayerReg::En => 0x48,
            LayerReg::Post => 0x4c,
        }
    }
}

/// Every layer register, in declaration (address) order. The order in
/// which a layer is written is different; see `EMIT_ORDER`.
pub const ALL_LAYER_REGS: [LayerReg; 20] = [
    LayerReg::Next,
    LayerReg::Rows,
    LayerReg::Cols,
    LayerReg::Oned,
    LayerReg::PoolRows,
    LayerReg::PoolCols,
    LayerReg::Stride,
    LayerReg::Wptr,
    LayerReg::WptrTs,
    LayerReg::WptrMask,
    LayerReg::WptrMp,
    LayerReg::Rptr,
    LayerReg::Lctl,
    LayerReg::Lctl2,
    LayerReg::Mcnt,
    LayerReg::Moffs,
    LayerReg::Ochan,
    LayerReg::Tptr,
    LayerReg::En,
    LayerReg::Post,
];

/// One CNNx16 quadrant's register files
#[derive(Clone, Copy, PartialEq, Eq, Debug, Structural)]
pub struct Quadrant(u8);

impl View for Quadrant {
    type V = u8;

    closed spec fn view(&self) -> u8 {
        self.0
    }
}

/// Address of the register file of layer `n` in quadrant `q`.
pub open spec fn spec_layer_addr(q: int, n: int) -> int {
    spec_quadrant_base(q) + LAYER_BASE + n * LAYER_STRIDE
}

/// Every layer register has an address of its own: a quadrant, a layer and
/// a register name one address, and different ones name different
/// addresses. Offsets are word-aligned and stay inside a layer's block.
pub proof fn lemma_layer_registers_distinct(q1: int, n1: int, r1: LayerReg, q2: int, n2: int, r2: LayerReg)
    requires
        0 <= q1 < QUADRANTS,
        0 <= q2 < QUADRANTS,
        0 <= n1 < MAX_LAYERS,
        0 <= n2 < MAX_LAYERS,
    ensures
        layer_reg_offset(r1) % 4 == 0,
        layer_reg_offset(r1) < 0x50,
        spec_layer_addr(q1, n1) + layer_reg_offset(r1) == spec_layer_addr(q2, n2) + layer_reg_offset(r2)
            ==> q1 == q2 && n1 == n2 && r1 == r2,
{
}

/// [`ALL_LAYER_REGS`] lists every layer register exactly once, in
/// increasing address order.
pub proof fn lemma_all_layer_regs(r: LayerReg)
    ensures
        ALL_LAYER_REGS@.len() == 20,
        ALL_LAYER_REGS@[(layer_reg_offset(r) / 4) as int] == r,
        forall|i: int, j: int|
            0 <= i < j < 20 ==> layer_reg_offset(#[trigger] ALL_LAYER_REGS@[i]) < layer_reg_offset(
                #[trigger] ALL_LAYER_REGS@[j],
            ),
{
}

impl Quadrant {
    /// Create a handle to quadrant `index`
    pub fn new(index: u8) -> (quadrant: Self)
        requires
            index < QUADRANTS,
        ensures
            quadrant@ == index,
    {
        Self(index)
    }

    pub fn index(self) -> (index: u8)
        ensures
            index == self@,
    {
        self.0
    }

    pub fn base(self) -> (base: u32)
        requires
            self@ < QUADRANTS,
        ensures
            base == spec_quadrant_base(self@ as int),
    {
        quadrant_base(self.0)
    }

    /// The per-layer register file for layer `n`
    pub fn layer(self, n: u8) -> (regs: LayerRegs)
        requires
            self@ < QUADRANTS,
            n < MAX_LAYERS,
        ensures
            regs@ == spec_layer_addr(self@ as int, n as int),
    {
        LayerRegs { addr: self.base() + LAYER_BASE + (n as u32) * LAYER_STRIDE }
    }
}

/// The register file for one layer within one quadrant
#[derive(Clone, Copy, PartialEq, Eq, Debug, Structural)]
pub struct LayerRegs {
    addr: u32,
}

impl View for LayerRegs {
    type V = u32;

    closed spec fn view(&self) -> u32 {
        self.addr
    }
}

impl LayerRegs {
    /// The register at offset `r` within this layer's block.
    pub fn reg(self, r: LayerReg) -> (reg: Reg)
        requires
            self@ + layer_reg_offset(r) <= u32::MAX,
        ensures
            reg@ == self@ + layer_reg_offset(r),
    {
        Reg(self.addr + r.offset())
    }
}

} // verus!
