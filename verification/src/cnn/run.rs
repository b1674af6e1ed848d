//! Run control words for direct input

use vstd::prelude::*;

verus! {

/// `CTL` bits a completion interrupt handler must clear for a network that
/// does not stream: `DONE` (bit 12) and `CNN_EN` (bit 0).
pub fn ack_mask() -> (mask: u32)
    ensures
        mask == 0x1001,
{
    0x1001
}

/// `CTL` value that halts the state machine on the direct input path,
/// verified against generated `cnn.c`.
pub const STOP_SM: u32 = 0x0010_0008;

/// `CTL` value that arms the master quadrant, with `CNN_EN` clear.
pub const START_MASTER: u32 = 0x0010_0808;

/// `CTL` value that arms the other quadrants, with `CNN_EN` set. Inverting
/// the two hangs the accelerator.
pub const START_OTHER: u32 = 0x0010_0809;

/// `CTL` value written to the master last, which starts the network.
pub const START_GO: u32 = 0x0010_0009;

/// SRAM control word.
pub const SRAM_CONTROL: u32 = 0x0000_040e;

/// Zeroize command for a network without bias.
pub const ZEROIZE_NO_BIAS: u32 = 0x0000_1880;

/// Zeroize command for a network with bias.
pub const ZEROIZE_WITH_BIAS: u32 = 0x0000_1c80;

} // verus!
