//! # CNN Layer Register Values
//!
//! One value type per layer register. Each wraps the 32-bit word written to
//! the register and reads its fields out by shift and mask.

use super::regs::LayerReg;
use vstd::prelude::*;

verus! {

/// A value type for one layer register.
pub trait LayerRegister: Copy + Sized {
    /// The register slot this value is written to.
    const REG: LayerReg;

    /// Bits this register's fields cover; the rest must read back zero.
    const DECLARED: u32;

    /// The word this value holds.
    spec fn spec_bits(self) -> u32;

    fn from_bits(bits: u32) -> (reg: Self)
        ensures
            reg.spec_bits() == bits,
    ;

    fn bits(self) -> (bits: u32)
        ensures
            bits == self.spec_bits(),
    ;

    /// Set bits that belong to no field, which means a miscompiled word.
    fn reserved(self) -> (reserved: u32)
        ensures
            reserved == self.spec_bits() & !Self::DECLARED,
    {
        self.bits() & !Self::DECLARED
    }
}

/// Next layer
#[derive(Clone, Copy, PartialEq, Eq, Default, Debug, Structural)]
pub struct Nxtlyr(u32);

impl View for Nxtlyr {
    type V = u32;

    closed spec fn view(&self) -> u32 {
        self.0
    }
}

impl Nxtlyr {
    /// A zeroed register.
    pub fn new() -> (reg: Self)
        ensures
            reg@ == 0,
    {
        Self(0)
    }

    pub fn from_bits(bits: u32) -> (reg: Self)
        ensures
            reg@ == bits,
    {
        Self(bits)
    }

    pub fn bits(self) -> (bits: u32)
        ensures
            bits == self@,
    {
        self.0
    }

    /// Index of the next layer when linking
    #[verifier::allow_in_spec]
    pub fn next(self) -> u32
        returns
            self@ & 0x7f,
    {
        self.0 & 0x7f
    }

    /// Link-layer mode
    #[verifier::allow_in_spec]
    pub fn link_en(self) -> bool
        returns
            (self@ & 0x80 != 0),
    {
        self.0 & 0x80 != 0
    }

    /// Stop after this layer
    #[verifier::allow_in_spec]
    pub fn stop(self) -> bool
        returns
            (self@ & 0x100 != 0),
    {
        self.0 & 0x100 != 0
    }

    /// Bits covered by a field above; every other bit is reserved.
    pub const DECLARED_BITS: u32 = 0x1ff;
}

/// Row count
#[derive(Clone, Copy, PartialEq, Eq, Default, Debug, Structural)]
pub struct Rcnt(u32);

impl View for Rcnt {
    type V = u32;

    closed spec fn view(&self) -> u32 {
        self.0
    }
}

impl Rcnt {
    /// A zeroed register.
    pub fn new() -> (reg: Self)
        ensures
            reg@ == 0,
    {
        Self(0)
    }

    pub fn from_bits(bits: u32) -> (reg: Self)
        ensures
            reg@ == bits,
    {
        Self(bits)
    }

    pub fn bits(self) -> (bits: u32)
        ensures
            bits == self@,
    {
        self.0
    }

    #[verifier::allow_in_spec]
    pub fn cnt(self) -> u32
        returns
            self@ & 0x7ff,
    {
        self.0 & 0x7ff
    }

    #[verifier::allow_in_spec]
    pub fn pad_cnt(self) -> u32
        returns
            (self@ >> 13u32) & 0x3,
    {
        (self.0 >> 13u32) & 0x3
    }

    #[verifier::allow_in_spec]
    pub fn pad_ena(self) -> bool
        returns
            (self@ & 0x8000 != 0),
    {
        self.0 & 0x8000 != 0
    }

    #[verifier::allow_in_spec]
    pub fn diff(self) -> u32
        returns
            (self@ >> 16u32) & 0xffff,
    {
        (self.0 >> 16u32) & 0xffff
    }

    /// Bits covered by a field above; every other bit is reserved.
    pub const DECLARED_BITS: u32 = 0xffffe7ff;
}

/// Column count
#[derive(Clone, Copy, PartialEq, Eq, Default, Debug, Structural)]
pub struct Ccnt(u32);

impl View for Ccnt {
    type V = u32;

    closed spec fn view(&self) -> u32 {
        self.0
    }
}

impl Ccnt {
    /// A zeroed register.
    pub fn new() -> (reg: Self)
        ensures
            reg@ == 0,
    {
        Self(0)
    }

    pub fn from_bits(bits: u32) -> (reg: Self)
        ensures
            reg@ == bits,
    {
        Self(bits)
    }

    pub fn bits(self) -> (bits: u32)
        ensures
            bits == self@,
    {
        self.0
    }

    #[verifier::allow_in_spec]
    pub fn cnt(self) -> u32
        returns
            self@ & 0x7ff,
    {
        self.0 & 0x7ff
    }

    #[verifier::allow_in_spec]
    pub fn pad_cnt(self) -> u32
        returns
            (self@ >> 13u32) & 0x3,
    {
        (self.0 >> 13u32) & 0x3
    }

    #[verifier::allow_in_spec]
    pub fn pad_ena(self) -> bool
        returns
            (self@ & 0x8000 != 0),
    {
        self.0 & 0x8000 != 0
    }

    #[verifier::allow_in_spec]
    pub fn diff(self) -> u32
        returns
            (self@ >> 16u32) & 0xffff,
    {
        (self.0 >> 16u32) & 0xffff
    }

    /// Bits covered by a field above; every other bit is reserved.
    pub const DECLARED_BITS: u32 = 0xffffe7ff;
}

/// Pooling rows
#[derive(Clone, Copy, PartialEq, Eq, Default, Debug, Structural)]
pub struct Prcnt(u32);

impl View for Prcnt {
    type V = u32;

    closed spec fn view(&self) -> u32 {
        self.0
    }
}

impl Prcnt {
    /// A zeroed register.
    pub fn new() -> (reg: Self)
        ensures
            reg@ == 0,
    {
        Self(0)
    }

    pub fn from_bits(bits: u32) -> (reg: Self)
        ensures
            reg@ == bits,
    {
        Self(bits)
    }

    pub fn bits(self) -> (bits: u32)
        ensures
            bits == self@,
    {
        self.0
    }

    #[verifier::allow_in_spec]
    pub fn pool_cnt(self) -> u32
        returns
            self@ & 0xf,
    {
        self.0 & 0xf
    }

    #[verifier::allow_in_spec]
    pub fn pool_inc(self) -> u32
        returns
            (self@ >> 4u32) & 0xf,
    {
        (self.0 >> 4u32) & 0xf
    }

    /// Bits covered by a field above; every other bit is reserved.
    pub const DECLARED_BITS: u32 = 0xff;
}

/// Pooling columns
#[derive(Clone, Copy, PartialEq, Eq, Default, Debug, Structural)]
pub struct Pccnt(u32);

impl View for Pccnt {
    type V = u32;

    closed spec fn view(&self) -> u32 {
        self.0
    }
}

impl Pccnt {
    /// A zeroed register.
    pub fn new() -> (reg: Self)
        ensures
            reg@ == 0,
    {
        Self(0)
    }

    pub fn from_bits(bits: u32) -> (reg: Self)
        ensures
            reg@ == bits,
    {
        Self(bits)
    }

    pub fn bits(self) -> (bits: u32)
        ensures
            bits == self@,
    {
        self.0
    }

    #[verifier::allow_in_spec]
    pub fn pool_cnt(self) -> u32
        returns
            self@ & 0xf,
    {
        self.0 & 0xf
    }

    #[verifier::allow_in_spec]
    pub fn pool_inc(self) -> u32
        returns
            (self@ >> 4u32) & 0xf,
    {
        (self.0 >> 4u32) & 0xf
    }

    /// Bits covered by a field above; every other bit is reserved.
    pub const DECLARED_BITS: u32 = 0xff;
}

/// Pooling and multi-pass stride
#[derive(Clone, Copy, PartialEq, Eq, Default, Debug, Structural)]
pub struct Stride(u32);

impl View for Stride {
    type V = u32;

    closed spec fn view(&self) -> u32 {
        self.0
    }
}

impl Stride {
    /// A zeroed register.
    pub fn new() -> (reg: Self)
        ensures
            reg@ == 0,
    {
        Self(0)
    }

    pub fn from_bits(bits: u32) -> (reg: Self)
        ensures
            reg@ == bits,
    {
        Self(bits)
    }

    pub fn bits(self) -> (bits: u32)
        ensures
            bits == self@,
    {
        self.0
    }

    /// Stride minus one
    #[verifier::allow_in_spec]
    pub fn stride(self) -> u32
        returns
            self@ & 0xf,
    {
        self.0 & 0xf
    }

    /// Multi-pass stride
    #[verifier::allow_in_spec]
    pub fn mp_stride(self) -> u32
        returns
            (self@ >> 4u32) & 0xfffffff,
    {
        (self.0 >> 4u32) & 0xfffffff
    }

    /// Bits covered by a field above; every other bit is reserved.
    pub const DECLARED_BITS: u32 = 0xffffffff;
}

/// Data SRAM write pointer
#[derive(Clone, Copy, PartialEq, Eq, Default, Debug, Structural)]
pub struct WptrBase(u32);

impl View for WptrBase {
    type V = u32;

    closed spec fn view(&self) -> u32 {
        self.0
    }
}

impl WptrBase {
    /// A zeroed register.
    pub fn new() -> (reg: Self)
        ensures
            reg@ == 0,
    {
        Self(0)
    }

    pub fn from_bits(bits: u32) -> (reg: Self)
        ensures
            reg@ == bits,
    {
        Self(bits)
    }

    pub fn bits(self) -> (bits: u32)
        ensures
            bits == self@,
    {
        self.0
    }

    #[verifier::allow_in_spec]
    pub fn offset(self) -> u32
        returns
            self@ & 0x1fff,
    {
        self.0 & 0x1fff
    }

    #[verifier::allow_in_spec]
    pub fn instance(self) -> u32
        returns
            (self@ >> 13u32) & 0x3,
    {
        (self.0 >> 13u32) & 0x3
    }

    #[verifier::allow_in_spec]
    pub fn group(self) -> u32
        returns
            (self@ >> 15u32) & 0x3f,
    {
        (self.0 >> 15u32) & 0x3f
    }

    /// Bits covered by a field above; every other bit is reserved.
    pub const DECLARED_BITS: u32 = 0x1fffff;
}

/// Write pointer time slot offset
#[derive(Clone, Copy, PartialEq, Eq, Default, Debug, Structural)]
pub struct WptrToffs(u32);

impl View for WptrToffs {
    type V = u32;

    closed spec fn view(&self) -> u32 {
        self.0
    }
}

impl WptrToffs {
    /// A zeroed register.
    pub fn new() -> (reg: Self)
        ensures
            reg@ == 0,
    {
        Self(0)
    }

    pub fn from_bits(bits: u32) -> (reg: Self)
        ensures
            reg@ == bits,
    {
        Self(bits)
    }

    pub fn bits(self) -> (bits: u32)
        ensures
            bits == self@,
    {
        self.0
    }

    /// Bits covered by a field above; every other bit is reserved.
    pub const DECLARED_BITS: u32 = 0xffffffff;
}

/// Write pointer mask offset
#[derive(Clone, Copy, PartialEq, Eq, Default, Debug, Structural)]
pub struct WptrMoffs(u32);

impl View for WptrMoffs {
    type V = u32;

    closed spec fn view(&self) -> u32 {
        self.0
    }
}

impl WptrMoffs {
    /// A zeroed register.
    pub fn new() -> (reg: Self)
        ensures
            reg@ == 0,
    {
        Self(0)
    }

    pub fn from_bits(bits: u32) -> (reg: Self)
        ensures
            reg@ == bits,
    {
        Self(bits)
    }

    pub fn bits(self) -> (bits: u32)
        ensures
            bits == self@,
    {
        self.0
    }

    /// Bits covered by a field above; every other bit is reserved.
    pub const DECLARED_BITS: u32 = 0xffffffff;
}

/// Write pointer multi-pass channel offset
#[derive(Clone, Copy, PartialEq, Eq, Default, Debug, Structural)]
pub struct WptrChoffs(u32);

impl View for WptrChoffs {
    type V = u32;

    closed spec fn view(&self) -> u32 {
        self.0
    }
}

impl WptrChoffs {
    /// A zeroed register.
    pub fn new() -> (reg: Self)
        ensures
            reg@ == 0,
    {
        Self(0)
    }

    pub fn from_bits(bits: u32) -> (reg: Self)
        ensures
            reg@ == bits,
    {
        Self(bits)
    }

    pub fn bits(self) -> (bits: u32)
        ensures
            bits == self@,
    {
        self.0
    }

    /// Bits covered by a field above; every other bit is reserved.
    pub const DECLARED_BITS: u32 = 0xffffffff;
}

/// Data SRAM read pointer
#[derive(Clone, Copy, PartialEq, Eq, Default, Debug, Structural)]
pub struct RptrBase(u32);

impl View for RptrBase {
    type V = u32;

    closed spec fn view(&self) -> u32 {
        self.0
    }
}

impl RptrBase {
    /// A zeroed register.
    pub fn new() -> (reg: Self)
        ensures
            reg@ == 0,
    {
        Self(0)
    }

    pub fn from_bits(bits: u32) -> (reg: Self)
        ensures
            reg@ == bits,
    {
        Self(bits)
    }

    pub fn bits(self) -> (bits: u32)
        ensures
            bits == self@,
    {
        self.0
    }

    /// Bits covered by a field above; every other bit is reserved.
    pub const DECLARED_BITS: u32 = 0xffffffff;
}

/// Layer control
#[derive(Clone, Copy, PartialEq, Eq, Default, Debug, Structural)]
pub struct Lctl(u32);

impl View for Lctl {
    type V = u32;

    closed spec fn view(&self) -> u32 {
        self.0
    }
}

impl Lctl {
    /// A zeroed register.
    pub fn new() -> (reg: Self)
        ensures
            reg@ == 0,
    {
        Self(0)
    }

    pub fn from_bits(bits: u32) -> (reg: Self)
        ensures
            reg@ == bits,
    {
        Self(bits)
    }

    pub fn bits(self) -> (bits: u32)
        ensures
            bits == self@,
    {
        self.0
    }

    #[verifier::allow_in_spec]
    pub fn unnamed5(self) -> bool
        returns
            (self@ & 0x20 != 0),
    {
        self.0 & 0x20 != 0
    }

    #[verifier::allow_in_spec]
    pub fn chw(self) -> bool
        returns
            (self@ & 0x40 != 0),
    {
        self.0 & 0x40 != 0
    }

    #[verifier::allow_in_spec]
    pub fn pool_ena(self) -> bool
        returns
            (self@ & 0x80 != 0),
    {
        self.0 & 0x80 != 0
    }

    #[verifier::allow_in_spec]
    pub fn maxpool(self) -> bool
        returns
            (self@ & 0x100 != 0),
    {
        self.0 & 0x100 != 0
    }

    #[verifier::allow_in_spec]
    pub fn relu(self) -> bool
        returns
            (self@ & 0x200 != 0),
    {
        self.0 & 0x200 != 0
    }

    #[verifier::allow_in_spec]
    pub fn global_wptr(self) -> bool
        returns
            (self@ & 0x800 != 0),
    {
        self.0 & 0x800 != 0
    }

    /// Source quadrant enables, master only
    #[verifier::allow_in_spec]
    pub fn siena(self) -> u32
        returns
            (self@ >> 12u32) & 0xf,
    {
        (self.0 >> 12u32) & 0xf
    }

    #[verifier::allow_in_spec]
    pub fn wide_out(self) -> bool
        returns
            (self@ & 0x10000 != 0),
    {
        self.0 & 0x10000 != 0
    }

    #[verifier::allow_in_spec]
    pub fn rd_ahead(self) -> bool
        returns
            (self@ & 0x20000 != 0),
    {
        self.0 & 0x20000 != 0
    }

    #[verifier::allow_in_spec]
    pub fn cprime_max(self) -> u32
        returns
            (self@ >> 18u32) & 0xf,
    {
        (self.0 >> 18u32) & 0xf
    }

    #[verifier::allow_in_spec]
    pub fn rprime_max(self) -> u32
        returns
            (self@ >> 22u32) & 0xf,
    {
        (self.0 >> 22u32) & 0xf
    }

    #[verifier::allow_in_spec]
    pub fn shift_cnt(self) -> u32
        returns
            (self@ >> 26u32) & 0xf,
    {
        (self.0 >> 26u32) & 0xf
    }

    #[verifier::allow_in_spec]
    pub fn dw_bcast(self) -> bool
        returns
            (self@ & 0x20000000 != 0),
    {
        self.0 & 0x20000000 != 0
    }

    #[verifier::allow_in_spec]
    pub fn bypass(self) -> bool
        returns
            (self@ & 0x40000000 != 0),
    {
        self.0 & 0x40000000 != 0
    }

    /// Bits covered by a field above; every other bit is reserved.
    pub const DECLARED_BITS: u32 = 0x7ffffbe0;
}

/// Layer control 2
#[derive(Clone, Copy, PartialEq, Eq, Default, Debug, Structural)]
pub struct Lctl2(u32);

impl View for Lctl2 {
    type V = u32;

    closed spec fn view(&self) -> u32 {
        self.0
    }
}

impl Lctl2 {
    /// A zeroed register.
    pub fn new() -> (reg: Self)
        ensures
            reg@ == 0,
    {
        Self(0)
    }

    pub fn from_bits(bits: u32) -> (reg: Self)
        ensures
            reg@ == bits,
    {
        Self(bits)
    }

    pub fn bits(self) -> (bits: u32)
        ensures
            bits == self@,
    {
        self.0
    }

    #[verifier::allow_in_spec]
    pub fn maxpass(self) -> u32
        returns
            self@ & 0xf,
    {
        self.0 & 0xf
    }

    #[verifier::allow_in_spec]
    pub fn wptr_inc(self) -> u32
        returns
            (self@ >> 4u32) & 0xff,
    {
        (self.0 >> 4u32) & 0xff
    }

    #[verifier::allow_in_spec]
    pub fn xpch_max(self) -> u32
        returns
            (self@ >> 12u32) & 0x1ff,
    {
        (self.0 >> 12u32) & 0x1ff
    }

    /// Bits covered by a field above; every other bit is reserved.
    pub const DECLARED_BITS: u32 = 0x1fffff;
}

/// Last mask memory word. Not written for passthrough layers
#[derive(Clone, Copy, PartialEq, Eq, Default, Debug, Structural)]
pub struct Mcnt1(u32);

impl View for Mcnt1 {
    type V = u32;

    closed spec fn view(&self) -> u32 {
        self.0
    }
}

impl Mcnt1 {
    /// A zeroed register.
    pub fn new() -> (reg: Self)
        ensures
            reg@ == 0,
    {
        Self(0)
    }

    pub fn from_bits(bits: u32) -> (reg: Self)
        ensures
            reg@ == bits,
    {
        Self(bits)
    }

    pub fn bits(self) -> (bits: u32)
        ensures
            bits == self@,
    {
        self.0
    }

    #[verifier::allow_in_spec]
    pub fn mexp_max(self) -> u32
        returns
            self@ & 0x7ffff,
    {
        self.0 & 0x7ffff
    }

    /// Bits covered by a field above; every other bit is reserved.
    pub const DECLARED_BITS: u32 = 0x7ffff;
}

/// First mask memory word
#[derive(Clone, Copy, PartialEq, Eq, Default, Debug, Structural)]
pub struct Mcnt2(u32);

impl View for Mcnt2 {
    type V = u32;

    closed spec fn view(&self) -> u32 {
        self.0
    }
}

impl Mcnt2 {
    /// A zeroed register.
    pub fn new() -> (reg: Self)
        ensures
            reg@ == 0,
    {
        Self(0)
    }

    pub fn from_bits(bits: u32) -> (reg: Self)
        ensures
            reg@ == bits,
    {
        Self(bits)
    }

    pub fn bits(self) -> (bits: u32)
        ensures
            bits == self@,
    {
        self.0
    }

    #[verifier::allow_in_spec]
    pub fn mexp_sad(self) -> u32
        returns
            self@ & 0x7ffff,
    {
        self.0 & 0x7ffff
    }

    /// Bits covered by a field above; every other bit is reserved.
    pub const DECLARED_BITS: u32 = 0x7ffff;
}

/// Output channel count minus one
#[derive(Clone, Copy, PartialEq, Eq, Default, Debug, Structural)]
pub struct Ochan(u32);

impl View for Ochan {
    type V = u32;

    closed spec fn view(&self) -> u32 {
        self.0
    }
}

impl Ochan {
    /// A zeroed register.
    pub fn new() -> (reg: Self)
        ensures
            reg@ == 0,
    {
        Self(0)
    }

    pub fn from_bits(bits: u32) -> (reg: Self)
        ensures
            reg@ == bits,
    {
        Self(bits)
    }

    pub fn bits(self) -> (bits: u32)
        ensures
            bits == self@,
    {
        self.0
    }

    #[verifier::allow_in_spec]
    pub fn ochan(self) -> u32
        returns
            self@,
    {
        self.0
    }

    /// Bits covered by a field above; every other bit is reserved.
    pub const DECLARED_BITS: u32 = 0xffffffff;
}

/// 1D convolution & element-wise configuration
#[derive(Clone, Copy, PartialEq, Eq, Default, Debug, Structural)]
pub struct Oned(u32);

impl View for Oned {
    type V = u32;

    closed spec fn view(&self) -> u32 {
        self.0
    }
}

impl Oned {
    /// A zeroed register.
    pub fn new() -> (reg: Self)
        ensures
            reg@ == 0,
    {
        Self(0)
    }

    pub fn from_bits(bits: u32) -> (reg: Self)
        ensures
            reg@ == bits,
    {
        Self(bits)
    }

    pub fn bits(self) -> (bits: u32)
        ensures
            bits == self@,
    {
        self.0
    }

    #[verifier::allow_in_spec]
    pub fn tscnt_max(self) -> u32
        returns
            self@ & 0xf,
    {
        self.0 & 0xf
    }

    #[verifier::allow_in_spec]
    pub fn oned_sad(self) -> u32
        returns
            (self@ >> 4u32) & 0xf,
    {
        (self.0 >> 4u32) & 0xf
    }

    #[verifier::allow_in_spec]
    pub fn oned_width(self) -> u32
        returns
            (self@ >> 8u32) & 0xf,
    {
        (self.0 >> 8u32) & 0xf
    }

    #[verifier::allow_in_spec]
    pub fn oned_ena(self) -> bool
        returns
            (self@ & 0x1000 != 0),
    {
        self.0 & 0x1000 != 0
    }

    #[verifier::allow_in_spec]
    pub fn elt_ena(self) -> bool
        returns
            (self@ & 0x2000 != 0),
    {
        self.0 & 0x2000 != 0
    }

    #[verifier::allow_in_spec]
    pub fn elt_fn(self) -> u32
        returns
            (self@ >> 14u32) & 0x3,
    {
        (self.0 >> 14u32) & 0x3
    }

    #[verifier::allow_in_spec]
    pub fn pool_first(self) -> bool
        returns
            (self@ & 0x10000 != 0),
    {
        self.0 & 0x10000 != 0
    }

    #[verifier::allow_in_spec]
    pub fn elt_conv(self) -> bool
        returns
            (self@ & 0x20000 != 0),
    {
        self.0 & 0x20000 != 0
    }

    /// Operand count minus one
    #[verifier::allow_in_spec]
    pub fn operands(self) -> u32
        returns
            (self@ >> 18u32) & 0xf,
    {
        (self.0 >> 18u32) & 0xf
    }

    /// Bits covered by a field above; every other bit is reserved.
    pub const DECLARED_BITS: u32 = 0x3fffff;
}

/// TRAM pointer
#[derive(Clone, Copy, PartialEq, Eq, Default, Debug, Structural)]
pub struct Tptr(u32);

impl View for Tptr {
    type V = u32;

    closed spec fn view(&self) -> u32 {
        self.0
    }
}

impl Tptr {
    /// A zeroed register.
    pub fn new() -> (reg: Self)
        ensures
            reg@ == 0,
    {
        Self(0)
    }

    pub fn from_bits(bits: u32) -> (reg: Self)
        ensures
            reg@ == bits,
    {
        Self(bits)
    }

    pub fn bits(self) -> (bits: u32)
        ensures
            bits == self@,
    {
        self.0
    }

    #[verifier::allow_in_spec]
    pub fn tptr_max(self) -> u32
        returns
            self@ & 0xffff,
    {
        self.0 & 0xffff
    }

    #[verifier::allow_in_spec]
    pub fn tptr_sad(self) -> u32
        returns
            (self@ >> 16u32) & 0xffff,
    {
        (self.0 >> 16u32) & 0xffff
    }

    /// Bits covered by a field above; every other bit is reserved.
    pub const DECLARED_BITS: u32 = 0xffffffff;
}

/// Post processing
#[derive(Clone, Copy, PartialEq, Eq, Default, Debug, Structural)]
pub struct Post(u32);

impl View for Post {
    type V = u32;

    closed spec fn view(&self) -> u32 {
        self.0
    }
}

impl Post {
    /// A zeroed register.
    pub fn new() -> (reg: Self)
        ensures
            reg@ == 0,
    {
        Self(0)
    }

    pub fn from_bits(bits: u32) -> (reg: Self)
        ensures
            reg@ == bits,
    {
        Self(bits)
    }

    pub fn bits(self) -> (bits: u32)
        ensures
            bits == self@,
    {
        self.0
    }

    #[verifier::allow_in_spec]
    pub fn bias_addr(self) -> u32
        returns
            self@ & 0xfff,
    {
        self.0 & 0xfff
    }

    #[verifier::allow_in_spec]
    pub fn bias_en(self) -> bool
        returns
            (self@ & 0x1000 != 0),
    {
        self.0 & 0x1000 != 0
    }

    /// Output shift magnitude
    #[verifier::allow_in_spec]
    pub fn scale_mag(self) -> u32
        returns
            (self@ >> 13u32) & 0xf,
    {
        (self.0 >> 13u32) & 0xf
    }

    /// Output shift direction, set for right
    #[verifier::allow_in_spec]
    pub fn scale_dir(self) -> bool
        returns
            (self@ & 0x20000 != 0),
    {
        self.0 & 0x20000 != 0
    }

    #[verifier::allow_in_spec]
    pub fn xpmp_cnt(self) -> u32
        returns
            (self@ >> 18u32) & 0xf,
    {
        (self.0 >> 18u32) & 0xf
    }

    #[verifier::allow_in_spec]
    pub fn wscale(self) -> u32
        returns
            (self@ >> 22u32) & 0x3,
    {
        (self.0 >> 22u32) & 0x3
    }

    #[verifier::allow_in_spec]
    pub fn ts_ena(self) -> bool
        returns
            (self@ & 0x1000000 != 0),
    {
        self.0 & 0x1000000 != 0
    }

    #[verifier::allow_in_spec]
    pub fn onexone_ena(self) -> bool
        returns
            (self@ & 0x2000000 != 0),
    {
        self.0 & 0x2000000 != 0
    }

    #[verifier::allow_in_spec]
    pub fn act_abs(self) -> bool
        returns
            (self@ & 0x4000000 != 0),
    {
        self.0 & 0x4000000 != 0
    }

    #[verifier::allow_in_spec]
    pub fn flatten_ena(self) -> bool
        returns
            (self@ & 0x8000000 != 0),
    {
        self.0 & 0x8000000 != 0
    }

    #[verifier::allow_in_spec]
    pub fn xpose_ena(self) -> bool
        returns
            (self@ & 0x10000000 != 0),
    {
        self.0 & 0x10000000 != 0
    }

    #[verifier::allow_in_spec]
    pub fn calcx4(self) -> bool
        returns
            (self@ & 0x20000000 != 0),
    {
        self.0 & 0x20000000 != 0
    }

    #[verifier::allow_in_spec]
    pub fn dw_ena(self) -> bool
        returns
            (self@ & 0x40000000 != 0),
    {
        self.0 & 0x40000000 != 0
    }

    #[verifier::allow_in_spec]
    pub fn tcalc(self) -> bool
        returns
            (self@ & 0x80000000 != 0),
    {
        self.0 & 0x80000000 != 0
    }

    /// Bits covered by a field above; every other bit is reserved.
    pub const DECLARED_BITS: u32 = 0xffffffff;
}

/// Processor and mask enables
#[derive(Clone, Copy, PartialEq, Eq, Default, Debug, Structural)]
pub struct Ena(u32);

impl View for Ena {
    type V = u32;

    closed spec fn view(&self) -> u32 {
        self.0
    }
}

impl Ena {
    /// A zeroed register.
    pub fn new() -> (reg: Self)
        ensures
            reg@ == 0,
    {
        Self(0)
    }

    pub fn from_bits(bits: u32) -> (reg: Self)
        ensures
            reg@ == bits,
    {
        Self(bits)
    }

    pub fn bits(self) -> (bits: u32)
        ensures
            bits == self@,
    {
        self.0
    }

    #[verifier::allow_in_spec]
    pub fn proc_ena(self) -> u32
        returns
            self@ & 0xffff,
    {
        self.0 & 0xffff
    }

    #[verifier::allow_in_spec]
    pub fn mask_ena(self) -> u32
        returns
            (self@ >> 16u32) & 0xffff,
    {
        (self.0 >> 16u32) & 0xffff
    }

    /// Bits covered by a field above; every other bit is reserved.
    pub const DECLARED_BITS: u32 = 0xffffffff;
}

/// Streaming start
#[derive(Clone, Copy, PartialEq, Eq, Default, Debug, Structural)]
pub struct Stream1(u32);

impl View for Stream1 {
    type V = u32;

    closed spec fn view(&self) -> u32 {
        self.0
    }
}

impl Stream1 {
    /// A zeroed register.
    pub fn new() -> (reg: Self)
        ensures
            reg@ == 0,
    {
        Self(0)
    }

    pub fn from_bits(bits: u32) -> (reg: Self)
        ensures
            reg@ == bits,
    {
        Self(bits)
    }

    pub fn bits(self) -> (bits: u32)
        ensures
            bits == self@,
    {
        self.0
    }
}

/// Streaming delta
#[derive(Clone, Copy, PartialEq, Eq, Default, Debug, Structural)]
pub struct Stream2(u32);

impl View for Stream2 {
    type V = u32;

    closed spec fn view(&self) -> u32 {
        self.0
    }
}

impl Stream2 {
    /// A zeroed register.
    pub fn new() -> (reg: Self)
        ensures
            reg@ == 0,
    {
        Self(0)
    }

    pub fn from_bits(bits: u32) -> (reg: Self)
        ensures
            reg@ == bits,
    {
        Self(bits)
    }

    pub fn bits(self) -> (bits: u32)
        ensures
            bits == self@,
    {
        self.0
    }
}

/// Streaming rollover
#[derive(Clone, Copy, PartialEq, Eq, Default, Debug, Structural)]
pub struct Fmax(u32);

impl View for Fmax {
    type V = u32;

    closed spec fn view(&self) -> u32 {
        self.0
    }
}

impl Fmax {
    /// A zeroed register.
    pub fn new() -> (reg: Self)
        ensures
            reg@ == 0,
    {
        Self(0)
    }

    pub fn from_bits(bits: u32) -> (reg: Self)
        ensures
            reg@ == bits,
    {
        Self(bits)
    }

    pub fn bits(self) -> (bits: u32)
        ensures
            bits == self@,
    {
        self.0
    }
}

impl LayerRegister for Nxtlyr {
    const REG: LayerReg = LayerReg::Next;

    const DECLARED: u32 = 0x1ff;

    open spec fn spec_bits(self) -> u32 {
        self@
    }

    fn from_bits(bits: u32) -> (reg: Self) {
        Self(bits)
    }

    fn bits(self) -> (bits: u32) {
        self.0
    }
}

impl LayerRegister for Rcnt {
    const REG: LayerReg = LayerReg::Rows;

    const DECLARED: u32 = 0xffffe7ff;

    open spec fn spec_bits(self) -> u32 {
        self@
    }

    fn from_bits(bits: u32) -> (reg: Self) {
        Self(bits)
    }

    fn bits(self) -> (bits: u32) {
        self.0
    }
}

impl LayerRegister for Ccnt {
    const REG: LayerReg = LayerReg::Cols;

    const DECLARED: u32 = 0xffffe7ff;

    open spec fn spec_bits(self) -> u32 {
        self@
    }

    fn from_bits(bits: u32) -> (reg: Self) {
        Self(bits)
    }

    fn bits(self) -> (bits: u32) {
        self.0
    }
}

impl LayerRegister for Prcnt {
    const REG: LayerReg = LayerReg::PoolRows;

    const DECLARED: u32 = 0xff;

    open spec fn spec_bits(self) -> u32 {
        self@
    }

    fn from_bits(bits: u32) -> (reg: Self) {
        Self(bits)
    }

    fn bits(self) -> (bits: u32) {
        self.0
    }
}

impl LayerRegister for Pccnt {
    const REG: LayerReg = LayerReg::PoolCols;

    const DECLARED: u32 = 0xff;

    open spec fn spec_bits(self) -> u32 {
        self@
    }

    fn from_bits(bits: u32) -> (reg: Self) {
        Self(bits)
    }

    fn bits(self) -> (bits: u32) {
        self.0
    }
}

impl LayerRegister for Stride {
    const REG: LayerReg = LayerReg::Stride;

    const DECLARED: u32 = 0xffffffff;

    open spec fn spec_bits(self) -> u32 {
        self@
    }

    fn from_bits(bits: u32) -> (reg: Self) {
        Self(bits)
    }

    fn bits(self) -> (bits: u32) {
        self.0
    }
}

impl LayerRegister for WptrBase {
    const REG: LayerReg = LayerReg::Wptr;

    const DECLARED: u32 = 0x1fffff;

    open spec fn spec_bits(self) -> u32 {
        self@
    }

    fn from_bits(bits: u32) -> (reg: Self) {
        Self(bits)
    }

    fn bits(self) -> (bits: u32) {
        self.0
    }
}

impl LayerRegister for WptrToffs {
    const REG: LayerReg = LayerReg::WptrTs;

    const DECLARED: u32 = 0xffffffff;

    open spec fn spec_bits(self) -> u32 {
        self@
    }

    fn from_bits(bits: u32) -> (reg: Self) {
        Self(bits)
    }

    fn bits(self) -> (bits: u32) {
        self.0
    }
}

impl LayerRegister for WptrMoffs {
    const REG: LayerReg = LayerReg::WptrMask;

    const DECLARED: u32 = 0xffffffff;

    open spec fn spec_bits(self) -> u32 {
        self@
    }

    fn from_bits(bits: u32) -> (reg: Self) {
        Self(bits)
    }

    fn bits(self) -> (bits: u32) {
        self.0
    }
}

impl LayerRegister for WptrChoffs {
    const REG: LayerReg = LayerReg::WptrMp;

    const DECLARED: u32 = 0xffffffff;

    open spec fn spec_bits(self) -> u32 {
        self@
    }

    fn from_bits(bits: u32) -> (reg: Self) {
        Self(bits)
    }

    fn bits(self) -> (bits: u32) {
        self.0
    }
}

impl LayerRegister for RptrBase {
    const REG: LayerReg = LayerReg::Rptr;

    const DECLARED: u32 = 0xffffffff;

    open spec fn spec_bits(self) -> u32 {
        self@
    }

    fn from_bits(bits: u32) -> (reg: Self) {
        Self(bits)
    }

    fn bits(self) -> (bits: u32) {
        self.0
    }
}

impl LayerRegister for Lctl {
    const REG: LayerReg = LayerReg::Lctl;

    const DECLARED: u32 = 0x7ffffbe0;

    open spec fn spec_bits(self) -> u32 {
        self@
    }

    fn from_bits(bits: u32) -> (reg: Self) {
        Self(bits)
    }

    fn bits(self) -> (bits: u32) {
        self.0
    }
}

impl LayerRegister for Lctl2 {
    const REG: LayerReg = LayerReg::Lctl2;

    const DECLARED: u32 = 0x1fffff;

    open spec fn spec_bits(self) -> u32 {
        self@
    }

    fn from_bits(bits: u32) -> (reg: Self) {
        Self(bits)
    }

    fn bits(self) -> (bits: u32) {
        self.0
    }
}

impl LayerRegister for Mcnt1 {
    const REG: LayerReg = LayerReg::Mcnt;

    const DECLARED: u32 = 0x7ffff;

    open spec fn spec_bits(self) -> u32 {
        self@
    }

    fn from_bits(bits: u32) -> (reg: Self) {
        Self(bits)
    }

    fn bits(self) -> (bits: u32) {
        self.0
    }
}

impl LayerRegister for Mcnt2 {
    const REG: LayerReg = LayerReg::Moffs;

    const DECLARED: u32 = 0x7ffff;

    open spec fn spec_bits(self) -> u32 {
        self@
    }

    fn from_bits(bits: u32) -> (reg: Self) {
        Self(bits)
    }

    fn bits(self) -> (bits: u32) {
        self.0
    }
}

impl LayerRegister for Ochan {
    const REG: LayerReg = LayerReg::Ochan;

    const DECLARED: u32 = 0xffffffff;

    open spec fn spec_bits(self) -> u32 {
        self@
    }

    fn from_bits(bits: u32) -> (reg: Self) {
        Self(bits)
    }

    fn bits(self) -> (bits: u32) {
        self.0
    }
}

impl LayerRegister for Oned {
    const REG: LayerReg = LayerReg::Oned;

    const DECLARED: u32 = 0x3fffff;

    open spec fn spec_bits(self) -> u32 {
        self@
    }

    fn from_bits(bits: u32) -> (reg: Self) {
        Self(bits)
    }

    fn bits(self) -> (bits: u32) {
        self.0
    }
}

impl LayerRegister for Tptr {
    const REG: LayerReg = LayerReg::Tptr;

    const DECLARED: u32 = 0xffffffff;

    open spec fn spec_bits(self) -> u32 {
        self@
    }

    fn from_bits(bits: u32) -> (reg: Self) {
        Self(bits)
    }

    fn bits(self) -> (bits: u32) {
        self.0
    }
}

impl LayerRegister for Post {
    const REG: LayerReg = LayerReg::Post;

    const DECLARED: u32 = 0xffffffff;

    open spec fn spec_bits(self) -> u32 {
        self@
    }

    fn from_bits(bits: u32) -> (reg: Self) {
        Self(bits)
    }

    fn bits(self) -> (bits: u32) {
        self.0
    }
}

impl LayerRegister for Ena {
    const REG: LayerReg = LayerReg::En;

    const DECLARED: u32 = 0xffffffff;

    open spec fn spec_bits(self) -> u32 {
        self@
    }

    fn from_bits(bits: u32) -> (reg: Self) {
        Self(bits)
    }

    fn bits(self) -> (bits: u32) {
        self.0
    }
}

/// Bits of `reg` that belong to a declared field.
pub open spec fn declared_bits(reg: LayerReg) -> u32 {
    match reg {
        LayerReg::Next => 0x1ff,
        LayerReg::Rows => 0xffffe7ff,
        LayerReg::Cols => 0xffffe7ff,
        LayerReg::PoolRows => 0xff,
        LayerReg::PoolCols => 0xff,
        LayerReg::Stride => 0xffffffff,
        LayerReg::Wptr => 0x1fffff,
        LayerReg::WptrTs => 0xffffffff,
        LayerReg::WptrMask => 0xffffffff,
        LayerReg::WptrMp => 0xffffffff,
        LayerReg::Rptr => 0xffffffff,
        LayerReg::Lctl => 0x7ffffbe0,
        LayerReg::Lctl2 => 0x1fffff,
        LayerReg::Mcnt => 0x7ffff,
        LayerReg::Moffs => 0x7ffff,
        LayerReg::Ochan => 0xffffffff,
        LayerReg::Oned => 0x3fffff,
        LayerReg::Tptr => 0xffffffff,
        LayerReg::Post => 0xffffffff,
        LayerReg::En => 0xffffffff,
    }
}

/// Each value type is written to its own register slot, and declares the
/// bits that slot's fields cover.
pub proof fn lemma_register_slots()
    ensures
        <Nxtlyr as LayerRegister>::REG == LayerReg::Next,
        <Rcnt as LayerRegister>::REG == LayerReg::Rows,
        <Ccnt as LayerRegister>::REG == LayerReg::Cols,
        <Prcnt as LayerRegister>::REG == LayerReg::PoolRows,
        <Pccnt as LayerRegister>::REG == LayerReg::PoolCols,
        <Stride as LayerRegister>::REG == LayerReg::Stride,
        <WptrBase as LayerRegister>::REG == LayerReg::Wptr,
        <WptrToffs as LayerRegister>::REG == LayerReg::WptrTs,
        <WptrMoffs as LayerRegister>::REG == LayerReg::WptrMask,
        <WptrChoffs as LayerRegister>::REG == LayerReg::WptrMp,
        <RptrBase as LayerRegister>::REG == LayerReg::Rptr,
        <Lctl as LayerRegister>::REG == LayerReg::Lctl,
        <Lctl2 as LayerRegister>::REG == LayerReg::Lctl2,
        <Mcnt1 as LayerRegister>::REG == LayerReg::Mcnt,
        <Mcnt2 as LayerRegister>::REG == LayerReg::Moffs,
        <Ochan as LayerRegister>::REG == LayerReg::Ochan,
        <Oned as LayerRegister>::REG == LayerReg::Oned,
        <Tptr as LayerRegister>::REG == LayerReg::Tptr,
        <Post as LayerRegister>::REG == LayerReg::Post,
        <Ena as LayerRegister>::REG == LayerReg::En,
        <Nxtlyr as LayerRegister>::DECLARED == declared_bits(LayerReg::Next),
        <Rcnt as LayerRegister>::DECLARED == declared_bits(LayerReg::Rows),
        <Ccnt as LayerRegister>::DECLARED == declared_bits(LayerReg::Cols),
        <Prcnt as LayerRegister>::DECLARED == declared_bits(LayerReg::PoolRows),
        <Pccnt as LayerRegister>::DECLARED == declared_bits(LayerReg::PoolCols),
        <Stride as LayerRegister>::DECLARED == declared_bits(LayerReg::Stride),
        <WptrBase as LayerRegister>::DECLARED == declared_bits(LayerReg::Wptr),
        <WptrToffs as LayerRegister>::DECLARED == declared_bits(LayerReg::WptrTs),
        <WptrMoffs as LayerRegister>::DECLARED == declared_bits(LayerReg::WptrMask),
        <WptrChoffs as LayerRegister>::DECLARED == declared_bits(LayerReg::WptrMp),
        <RptrBase as LayerRegister>::DECLARED == declared_bits(LayerReg::Rptr),
        <Lctl as LayerRegister>::DECLARED == declared_bits(LayerReg::Lctl),
        <Lctl2 as LayerRegister>::DECLARED == declared_bits(LayerReg::Lctl2),
        <Mcnt1 as LayerRegister>::DECLARED == declared_bits(LayerReg::Mcnt),
        <Mcnt2 as LayerRegister>::DECLARED == declared_bits(LayerReg::Moffs),
        <Ochan as LayerRegister>::DECLARED == declared_bits(LayerReg::Ochan),
        <Oned as LayerRegister>::DECLARED == declared_bits(LayerReg::Oned),
        <Tptr as LayerRegister>::DECLARED == declared_bits(LayerReg::Tptr),
        <Post as LayerRegister>::DECLARED == declared_bits(LayerReg::Post),
        <Ena as LayerRegister>::DECLARED == declared_bits(LayerReg::En),
{
}

/// Two [`Nxtlyr`] words read the same through every field exactly when they
/// agree on the declared bits: reserved bits are invisible, and every
/// declared bit is read by some field.
pub proof fn lemma_nxtlyr_fields(a: Nxtlyr, b: Nxtlyr)
    ensures
        (a@ & Nxtlyr::DECLARED_BITS == b@ & Nxtlyr::DECLARED_BITS) <==> {
            &&& a.next() == b.next()
            &&& a.link_en() == b.link_en()
            &&& a.stop() == b.stop()
        },
{
    let x = a@;
    let y = b@;
    assert((x & 0x1ff == y & 0x1ff) <==> {
        &&& x & 0x7f == y & 0x7f
        &&& (x & 0x80 != 0) == (y & 0x80 != 0)
        &&& (x & 0x100 != 0) == (y & 0x100 != 0)
    }) by (bit_vector);
}

/// Two [`Rcnt`] words read the same through every field exactly when they
/// agree on the declared bits: reserved bits are invisible, and every
/// declared bit is read by some field.
pub proof fn lemma_rcnt_fields(a: Rcnt, b: Rcnt)
    ensures
        (a@ & Rcnt::DECLARED_BITS == b@ & Rcnt::DECLARED_BITS) <==> {
            &&& a.cnt() == b.cnt()
            &&& a.pad_cnt() == b.pad_cnt()
            &&& a.pad_ena() == b.pad_ena()
            &&& a.diff() == b.diff()
        },
{
    let x = a@;
    let y = b@;
    assert((x & 0xffffe7ff == y & 0xffffe7ff) <==> {
        &&& x & 0x7ff == y & 0x7ff
        &&& (x >> 13u32) & 0x3 == (y >> 13u32) & 0x3
        &&& (x & 0x8000 != 0) == (y & 0x8000 != 0)
        &&& (x >> 16u32) & 0xffff == (y >> 16u32) & 0xffff
    }) by (bit_vector);
}

/// Two [`Ccnt`] words read the same through every field exactly when they
/// agree on the declared bits: reserved bits are invisible, and every
/// declared bit is read by some field.
pub proof fn lemma_ccnt_fields(a: Ccnt, b: Ccnt)
    ensures
        (a@ & Ccnt::DECLARED_BITS == b@ & Ccnt::DECLARED_BITS) <==> {
            &&& a.cnt() == b.cnt()
            &&& a.pad_cnt() == b.pad_cnt()
            &&& a.pad_ena() == b.pad_ena()
            &&& a.diff() == b.diff()
        },
{
    let x = a@;
    let y = b@;
    assert((x & 0xffffe7ff == y & 0xffffe7ff) <==> {
        &&& x & 0x7ff == y & 0x7ff
        &&& (x >> 13u32) & 0x3 == (y >> 13u32) & 0x3
        &&& (x & 0x8000 != 0) == (y & 0x8000 != 0)
        &&& (x >> 16u32) & 0xffff == (y >> 16u32) & 0xffff
    }) by (bit_vector);
}

/// Two [`Prcnt`] words read the same through every field exactly when they
/// agree on the declared bits: reserved bits are invisible, and every
/// declared bit is read by some field.
pub proof fn lemma_prcnt_fields(a: Prcnt, b: Prcnt)
    ensures
        (a@ & Prcnt::DECLARED_BITS == b@ & Prcnt::DECLARED_BITS) <==> {
            &&& a.pool_cnt() == b.pool_cnt()
            &&& a.pool_inc() == b.pool_inc()
        },
{
    let x = a@;
    let y = b@;
    assert((x & 0xff == y & 0xff) <==> {
        &&& x & 0xf == y & 0xf
        &&& (x >> 4u32) & 0xf == (y >> 4u32) & 0xf
    }) by (bit_vector);
}

/// Two [`Pccnt`] words read the same through every field exactly when they
/// agree on the declared bits: reserved bits are invisible, and every
/// declared bit is read by some field.
pub proof fn lemma_pccnt_fields(a: Pccnt, b: Pccnt)
    ensures
        (a@ & Pccnt::DECLARED_BITS == b@ & Pccnt::DECLARED_BITS) <==> {
            &&& a.pool_cnt() == b.pool_cnt()
            &&& a.pool_inc() == b.pool_inc()
        },
{
    let x = a@;
    let y = b@;
    assert((x & 0xff == y & 0xff) <==> {
        &&& x & 0xf == y & 0xf
        &&& (x >> 4u32) & 0xf == (y >> 4u32) & 0xf
    }) by (bit_vector);
}

/// Two [`Stride`] words read the same through every field exactly when they
/// agree on the declared bits: reserved bits are invisible, and every
/// declared bit is read by some field.
pub proof fn lemma_stride_fields(a: Stride, b: Stride)
    ensures
        (a@ & Stride::DECLARED_BITS == b@ & Stride::DECLARED_BITS) <==> {
            &&& a.stride() == b.stride()
            &&& a.mp_stride() == b.mp_stride()
        },
{
    let x = a@;
    let y = b@;
    assert((x & 0xffffffff == y & 0xffffffff) <==> {
        &&& x & 0xf == y & 0xf
        &&& (x >> 4u32) & 0xfffffff == (y >> 4u32) & 0xfffffff
    }) by (bit_vector);
}

/// Two [`WptrBase`] words read the same through every field exactly when they
/// agree on the declared bits: reserved bits are invisible, and every
/// declared bit is read by some field.
pub proof fn lemma_wptr_base_fields(a: WptrBase, b: WptrBase)
    ensures
        (a@ & WptrBase::DECLARED_BITS == b@ & WptrBase::DECLARED_BITS) <==> {
            &&& a.offset() == b.offset()
            &&& a.instance() == b.instance()
            &&& a.group() == b.group()
        },
{
    let x = a@;
    let y = b@;
    assert((x & 0x1fffff == y & 0x1fffff) <==> {
        &&& x & 0x1fff == y & 0x1fff
        &&& (x >> 13u32) & 0x3 == (y >> 13u32) & 0x3
        &&& (x >> 15u32) & 0x3f == (y >> 15u32) & 0x3f
    }) by (bit_vector);
}

/// Two [`Lctl`] words read the same through every field exactly when they
/// agree on the declared bits: reserved bits are invisible, and every
/// declared bit is read by some field.
pub proof fn lemma_lctl_fields(a: Lctl, b: Lctl)
    ensures
        (a@ & Lctl::DECLARED_BITS == b@ & Lctl::DECLARED_BITS) <==> {
            &&& a.unnamed5() == b.unnamed5()
            &&& a.chw() == b.chw()
            &&& a.pool_ena() == b.pool_ena()
            &&& a.maxpool() == b.maxpool()
            &&& a.relu() == b.relu()
            &&& a.global_wptr() == b.global_wptr()
            &&& a.siena() == b.siena()
            &&& a.wide_out() == b.wide_out()
            &&& a.rd_ahead() == b.rd_ahead()
            &&& a.cprime_max() == b.cprime_max()
            &&& a.rprime_max() == b.rprime_max()
            &&& a.shift_cnt() == b.shift_cnt()
            &&& a.dw_bcast() == b.dw_bcast()
            &&& a.bypass() == b.bypass()
        },
{
    let x = a@;
    let y = b@;
    assert((x & 0x7ffffbe0 == y & 0x7ffffbe0) <==> {
        &&& (x & 0x20 != 0) == (y & 0x20 != 0)
        &&& (x & 0x40 != 0) == (y & 0x40 != 0)
        &&& (x & 0x80 != 0) == (y & 0x80 != 0)
        &&& (x & 0x100 != 0) == (y & 0x100 != 0)
        &&& (x & 0x200 != 0) == (y & 0x200 != 0)
        &&& (x & 0x800 != 0) == (y & 0x800 != 0)
        &&& (x >> 12u32) & 0xf == (y >> 12u32) & 0xf
        &&& (x & 0x10000 != 0) == (y & 0x10000 != 0)
        &&& (x & 0x20000 != 0) == (y & 0x20000 != 0)
        &&& (x >> 18u32) & 0xf == (y >> 18u32) & 0xf
        &&& (x >> 22u32) & 0xf == (y >> 22u32) & 0xf
        &&& (x >> 26u32) & 0xf == (y >> 26u32) & 0xf
        &&& (x & 0x20000000 != 0) == (y & 0x20000000 != 0)
        &&& (x & 0x40000000 != 0) == (y & 0x40000000 != 0)
    }) by (bit_vector);
}

/// Two [`Lctl2`] words read the same through every field exactly when they
/// agree on the declared bits: reserved bits are invisible, and every
/// declared bit is read by some field.
pub proof fn lemma_lctl2_fields(a: Lctl2, b: Lctl2)
    ensures
        (a@ & Lctl2::DECLARED_BITS == b@ & Lctl2::DECLARED_BITS) <==> {
            &&& a.maxpass() == b.maxpass()
            &&& a.wptr_inc() == b.wptr_inc()
            &&& a.xpch_max() == b.xpch_max()
        },
{
    let x = a@;
    let y = b@;
    assert((x & 0x1fffff == y & 0x1fffff) <==> {
        &&& x & 0xf == y & 0xf
        &&& (x >> 4u32) & 0xff == (y >> 4u32) & 0xff
        &&& (x >> 12u32) & 0x1ff == (y >> 12u32) & 0x1ff
    }) by (bit_vector);
}

/// Two [`Mcnt1`] words read the same through every field exactly when they
/// agree on the declared bits: reserved bits are invisible, and every
/// declared bit is read by some field.
pub proof fn lemma_mcnt1_fields(a: Mcnt1, b: Mcnt1)
    ensures
        (a@ & Mcnt1::DECLARED_BITS == b@ & Mcnt1::DECLARED_BITS) <==> {
            &&& a.mexp_max() == b.mexp_max()
        },
{
    let x = a@;
    let y = b@;
    assert((x & 0x7ffff == y & 0x7ffff) <==> {
        &&& x & 0x7ffff == y & 0x7ffff
    }) by (bit_vector);
}

/// Two [`Mcnt2`] words read the same through every field exactly when they
/// agree on the declared bits: reserved bits are invisible, and every
/// declared bit is read by some field.
pub proof fn lemma_mcnt2_fields(a: Mcnt2, b: Mcnt2)
    ensures
        (a@ & Mcnt2::DECLARED_BITS == b@ & Mcnt2::DECLARED_BITS) <==> {
            &&& a.mexp_sad() == b.mexp_sad()
        },
{
    let x = a@;
    let y = b@;
    assert((x & 0x7ffff == y & 0x7ffff) <==> {
        &&& x & 0x7ffff == y & 0x7ffff
    }) by (bit_vector);
}

/// Two [`Ochan`] words read the same through every field exactly when they
/// agree on the declared bits: reserved bits are invisible, and every
/// declared bit is read by some field.
pub proof fn lemma_ochan_fields(a: Ochan, b: Ochan)
    ensures
        (a@ & Ochan::DECLARED_BITS == b@ & Ochan::DECLARED_BITS) <==> {
            &&& a.ochan() == b.ochan()
        },
{
    let x = a@;
    let y = b@;
    assert((x & 0xffffffff == y & 0xffffffff) <==> {
        &&& x == y
    }) by (bit_vector);
}

/// Two [`Oned`] words read the same through every field exactly when they
/// agree on the declared bits: reserved bits are invisible, and every
/// declared bit is read by some field.
pub proof fn lemma_oned_fields(a: Oned, b: Oned)
    ensures
        (a@ & Oned::DECLARED_BITS == b@ & Oned::DECLARED_BITS) <==> {
            &&& a.tscnt_max() == b.tscnt_max()
            &&& a.oned_sad() == b.oned_sad()
            &&& a.oned_width() == b.oned_width()
            &&& a.oned_ena() == b.oned_ena()
            &&& a.elt_ena() == b.elt_ena()
            &&& a.elt_fn() == b.elt_fn()
            &&& a.pool_first() == b.pool_first()
            &&& a.elt_conv() == b.elt_conv()
            &&& a.operands() == b.operands()
        },
{
    let x = a@;
    let y = b@;
    assert((x & 0x3fffff == y & 0x3fffff) <==> {
        &&& x & 0xf == y & 0xf
        &&& (x >> 4u32) & 0xf == (y >> 4u32) & 0xf
        &&& (x >> 8u32) & 0xf == (y >> 8u32) & 0xf
        &&& (x & 0x1000 != 0) == (y & 0x1000 != 0)
        &&& (x & 0x2000 != 0) == (y & 0x2000 != 0)
        &&& (x >> 14u32) & 0x3 == (y >> 14u32) & 0x3
        &&& (x & 0x10000 != 0) == (y & 0x10000 != 0)
        &&& (x & 0x20000 != 0) == (y & 0x20000 != 0)
        &&& (x >> 18u32) & 0xf == (y >> 18u32) & 0xf
    }) by (bit_vector);
}

/// Two [`Tptr`] words read the same through every field exactly when they
/// agree on the declared bits: reserved bits are invisible, and every
/// declared bit is read by some field.
pub proof fn lemma_tptr_fields(a: Tptr, b: Tptr)
    ensures
        (a@ & Tptr::DECLARED_BITS == b@ & Tptr::DECLARED_BITS) <==> {
            &&& a.tptr_max() == b.tptr_max()
            &&& a.tptr_sad() == b.tptr_sad()
        },
{
    let x = a@;
    let y = b@;
    assert((x & 0xffffffff == y & 0xffffffff) <==> {
        &&& x & 0xffff == y & 0xffff
        &&& (x >> 16u32) & 0xffff == (y >> 16u32) & 0xffff
    }) by (bit_vector);
}

/// Two [`Post`] words read the same through every field exactly when they
/// agree on the declared bits: reserved bits are invisible, and every
/// declared bit is read by some field.
pub proof fn lemma_post_fields(a: Post, b: Post)
    ensures
        (a@ & Post::DECLARED_BITS == b@ & Post::DECLARED_BITS) <==> {
            &&& a.bias_addr() == b.bias_addr()
            &&& a.bias_en() == b.bias_en()
            &&& a.scale_mag() == b.scale_mag()
            &&& a.scale_dir() == b.scale_dir()
            &&& a.xpmp_cnt() == b.xpmp_cnt()
            &&& a.wscale() == b.wscale()
            &&& a.ts_ena() == b.ts_ena()
            &&& a.onexone_ena() == b.onexone_ena()
            &&& a.act_abs() == b.act_abs()
            &&& a.flatten_ena() == b.flatten_ena()
            &&& a.xpose_ena() == b.xpose_ena()
            &&& a.calcx4() == b.calcx4()
            &&& a.dw_ena() == b.dw_ena()
            &&& a.tcalc() == b.tcalc()
        },
{
    let x = a@;
    let y = b@;
    assert((x & 0xffffffff == y & 0xffffffff) <==> {
        &&& x & 0xfff == y & 0xfff
        &&& (x & 0x1000 != 0) == (y & 0x1000 != 0)
        &&& (x >> 13u32) & 0xf == (y >> 13u32) & 0xf
        &&& (x & 0x20000 != 0) == (y & 0x20000 != 0)
        &&& (x >> 18u32) & 0xf == (y >> 18u32) & 0xf
        &&& (x >> 22u32) & 0x3 == (y >> 22u32) & 0x3
        &&& (x & 0x1000000 != 0) == (y & 0x1000000 != 0)
        &&& (x & 0x2000000 != 0) == (y & 0x2000000 != 0)
        &&& (x & 0x4000000 != 0) == (y & 0x4000000 != 0)
        &&& (x & 0x8000000 != 0) == (y & 0x8000000 != 0)
        &&& (x & 0x10000000 != 0) == (y & 0x10000000 != 0)
        &&& (x & 0x20000000 != 0) == (y & 0x20000000 != 0)
        &&& (x & 0x40000000 != 0) == (y & 0x40000000 != 0)
        &&& (x & 0x80000000 != 0) == (y & 0x80000000 != 0)
    }) by (bit_vector);
}

/// Two [`Ena`] words read the same through every field exactly when they
/// agree on the declared bits: reserved bits are invisible, and every
/// declared bit is read by some field.
pub proof fn lemma_ena_fields(a: Ena, b: Ena)
    ensures
        (a@ & Ena::DECLARED_BITS == b@ & Ena::DECLARED_BITS) <==> {
            &&& a.proc_ena() == b.proc_ena()
            &&& a.mask_ena() == b.mask_ena()
        },
{
    let x = a@;
    let y = b@;
    assert((x & 0xffffffff == y & 0xffffffff) <==> {
        &&& x & 0xffff == y & 0xffff
        &&& (x >> 16u32) & 0xffff == (y >> 16u32) & 0xffff
    }) by (bit_vector);
}

/// Every register that has a value type, in emit order.
pub const ALL_TYPED_REGS: [LayerReg; 20] = [
    LayerReg::Next,
    LayerReg::Rows,
    LayerReg::Cols,
    LayerReg::PoolRows,
    LayerReg::PoolCols,
    LayerReg::Stride,
    LayerReg::Wptr,
    LayerReg::WptrTs,
    LayerReg::WptrMask,
    LayerReg::WptrMp,
    LayerReg::Rptr,
    LayerReg::Lctl,
    LayerReg::Lctl2,
    LayerReg::Mcnt,
    LayerReg::Moffs,
    LayerReg::Ochan,
    LayerReg::Oned,
    LayerReg::Tptr,
    LayerReg::Post,
    LayerReg::En,
];

/// Set bits of `bits` that belong to no field of `reg`
pub fn reserved_bits(reg: LayerReg, bits: u32) -> (reserved: u32)
    ensures
        reserved == bits & !declared_bits(reg),
{
    match reg {
        LayerReg::Next => Nxtlyr::from_bits(bits).reserved(),
        LayerReg::Rows => Rcnt::from_bits(bits).reserved(),
        LayerReg::Cols => Ccnt::from_bits(bits).reserved(),
        LayerReg::PoolRows => Prcnt::from_bits(bits).reserved(),
        LayerReg::PoolCols => Pccnt::from_bits(bits).reserved(),
        LayerReg::Stride => Stride::from_bits(bits).reserved(),
        LayerReg::Wptr => WptrBase::from_bits(bits).reserved(),
        LayerReg::WptrTs => WptrToffs::from_bits(bits).reserved(),
        LayerReg::WptrMask => WptrMoffs::from_bits(bits).reserved(),
        LayerReg::WptrMp => WptrChoffs::from_bits(bits).reserved(),
        LayerReg::Rptr => RptrBase::from_bits(bits).reserved(),
        LayerReg::Lctl => Lctl::from_bits(bits).reserved(),
        LayerReg::Lctl2 => Lctl2::from_bits(bits).reserved(),
        LayerReg::Mcnt => Mcnt1::from_bits(bits).reserved(),
        LayerReg::Moffs => Mcnt2::from_bits(bits).reserved(),
        LayerReg::Ochan => Ochan::from_bits(bits).reserved(),
        LayerReg::Oned => Oned::from_bits(bits).reserved(),
        LayerReg::Tptr => Tptr::from_bits(bits).reserved(),
        LayerReg::Post => Post::from_bits(bits).reserved(),
        LayerReg::En => Ena::from_bits(bits).reserved(),
    }
}

/// Pooling mode, `LCTL.maxpool`
#[derive(Clone, Copy, PartialEq, Eq, Debug, Structural)]
pub enum PoolMode {
    Avg,
    Max,
}

impl Lctl {
    pub fn pool_mode(self) -> (mode: PoolMode)
        ensures
            mode == (if self@ & 0x100 != 0 {
                PoolMode::Max
            } else {
                PoolMode::Avg
            }),
    {
        if self.maxpool() {
            PoolMode::Max
        } else {
            PoolMode::Avg
        }
    }
}

/// Element-wise function, `ONED.elt_fn`. The code of each variant is its
/// position: subtract 0, add 1, or 2, xor 3.
#[derive(Clone, Copy, PartialEq, Eq, Debug, Structural)]
pub enum EltwiseFn {
    Sub,
    Add,
    Or,
    Xor,
}

/// The element-wise function a two-bit code selects.
pub open spec fn spec_eltwise_fn(code: u32) -> EltwiseFn {
    if code == 0 {
        EltwiseFn::Sub
    } else if code == 1 {
        EltwiseFn::Add
    } else if code == 2 {
        EltwiseFn::Or
    } else {
        EltwiseFn::Xor
    }
}

impl EltwiseFn {
    /// Decode the low two bits of `code`.
    pub fn from_code(code: u32) -> (f: Self)
        ensures
            f == spec_eltwise_fn(code & 0b11),
    {
        let low = code & 0b11;
        if low == 0b00 {
            Self::Sub
        } else if low == 0b01 {
            Self::Add
        } else if low == 0b10 {
            Self::Or
        } else {
            Self::Xor
        }
    }
}

impl Oned {
    pub fn eltwise_fn(self) -> (f: EltwiseFn)
        ensures
            f == spec_eltwise_fn((self@ >> 14u32) & 0x3),
    {
        let word = self.0;
        let code = self.elt_fn();
        assert(code & 0b11 == code) by (bit_vector)
            requires
                code == (word >> 14u32) & 0x3,
        ;
        EltwiseFn::from_code(code)
    }
}

/// Weight-width compensation, `POST.wscale`. The code of each variant is its
/// position.
#[derive(Clone, Copy, PartialEq, Eq, Debug, Structural)]
pub enum WeightScale {
    /// Eight-bit weights, or a bypass layer. No compensation.
    Bits8,
    /// One-bit weights, including binary.
    Bits1,
    Bits2,
    Bits4,
}

/// The weight scale a two-bit code selects.
pub open spec fn spec_weight_scale(code: u32) -> WeightScale {
    if code == 0 {
        WeightScale::Bits8
    } else if code == 1 {
        WeightScale::Bits1
    } else if code == 2 {
        WeightScale::Bits2
    } else {
        WeightScale::Bits4
    }
}

impl WeightScale {
    /// Decode the low two bits of `code`.
    pub fn from_code(code: u32) -> (scale: Self)
        ensures
            scale == spec_weight_scale(code & 0b11),
    {
        let low = code & 0b11;
        if low == 0 {
            Self::Bits8
        } else if low == 1 {
            Self::Bits1
        } else if low == 2 {
            Self::Bits2
        } else {
            Self::Bits4
        }
    }
}

/// Output shift direction, `POST.scale_dir`.
#[derive(Clone, Copy, PartialEq, Eq, Debug, Structural)]
pub enum ShiftDir {
    Left,
    Right,
}

/// Signed output shift of a `POST` word: the magnitude in bits 16:13, made
/// negative (a right shift) when bit 17 is set. Signed magnitude, not two's
/// complement.
pub open spec fn spec_output_shift(post: u32) -> int {
    let mag = ((post >> 13u32) & 0xf) as int;
    if post & 0x2_0000 != 0 {
        -mag
    } else {
        mag
    }
}

/// The output shift is at most fifteen either way, and its sign agrees with
/// the shift direction: negative only for a right shift, positive only for
/// a left one.
pub proof fn lemma_output_shift_range(post: u32)
    ensures
        -15 <= spec_output_shift(post) <= 15,
        spec_output_shift(post) < 0 ==> post & 0x2_0000 != 0,
        spec_output_shift(post) > 0 ==> post & 0x2_0000 == 0,
{
    assert((post >> 13u32) & 0xf <= 15) by (bit_vector);
}

impl Post {
    pub fn shift_dir(self) -> (dir: ShiftDir)
        ensures
            dir == (if self@ & 0x2_0000 != 0 {
                ShiftDir::Right
            } else {
                ShiftDir::Left
            }),
    {
        if self.scale_dir() {
            ShiftDir::Right
        } else {
            ShiftDir::Left
        }
    }

    /// Weight-width compensation.
    pub fn weight_scale(self) -> (scale: WeightScale)
        ensures
            scale == spec_weight_scale((self@ >> 22u32) & 0x3),
    {
        let word = self.0;
        let code = self.wscale();
        assert(code & 0b11 == code) by (bit_vector)
            requires
                code == (word >> 22u32) & 0x3,
        ;
        WeightScale::from_code(code)
    }

    pub fn output_shift(self) -> (shift: i32)
        ensures
            shift == spec_output_shift(self@),
    {
        let word = self.0;
        let raw = self.scale_mag();
        assert(raw <= 15) by (bit_vector)
            requires
                raw == (word >> 13u32) & 0xf,
        ;
        let mag = raw as i32;
        if self.scale_dir() {
            -mag
        } else {
            mag
        }
    }
}

/// Activation, which the hardware splits across two registers: ReLU is
/// `LCTL.relu` and absolute value is `POST.act_abs`.
#[derive(Clone, Copy, PartialEq, Eq, Debug, Structural)]
pub enum Activation {
    /// No activation: the output passes through unchanged.
    Identity,
    Relu,
    Abs,
}

impl Activation {
    /// Read the activation out of the two registers that carry it. Both
    /// bits set is not an encoding the hardware defines.
    pub fn decode(lctl: Lctl, post: Post) -> (act: Option<Self>)
        ensures
            act == (match (lctl@ & 0x200 != 0, post@ & 0x400_0000 != 0) {
                (false, false) => Some(Activation::Identity),
                (true, false) => Some(Activation::Relu),
                (false, true) => Some(Activation::Abs),
                (true, true) => None,
            }),
    {
        match (lctl.relu(), post.act_abs()) {
            (false, false) => Some(Self::Identity),
            (true, false) => Some(Self::Relu),
            (false, true) => Some(Self::Abs),
            (true, true) => None,
        }
    }
}

} // verus!
