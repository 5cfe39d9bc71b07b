//! Sizes and bit positions of the device core's registers and FIFO.
use vstd::prelude::*;

verus! {

/// Bytes in one endpoint's hardware FIFO.
pub const FIFO_LEN_BYTES: usize = 1536;

/// 32-bit words in one endpoint's hardware FIFO.
pub const FIFO_LEN_ITEMS: usize = 384;

/// STALL bit of the endpoint-0 control registers (DIEP0CTL / DOEP0CTL).
pub const EP0CTL_STALL: u32 = 0x0020_0000;

/// MPS field of DIEP0CTL.
pub const DIEP0CTL_MPS_MASK: u32 = 0x3;

/// XFERSIZE field of DOEP0TSIZ.
pub const DOEP0TSIZ_XFERSIZE_MASK: u32 = 0x7f;

/// DAD (device address) field of DCFG, bits 4 to 10.
pub const DCFG_DAD_MASK: u32 = 0x7f0;

/// Bit offset of DCFG's DAD field.
pub const DCFG_DAD_SHIFT: u32 = 4;

/// USBRST (bus reset) flag of GINTSTS.
pub const GINTSTS_USBRST: u32 = 0x1000;

/// ENUMDONE (speed enumeration done) flag of GINTSTS.
pub const GINTSTS_ENUMDONE: u32 = 0x2000;

} // verus!
