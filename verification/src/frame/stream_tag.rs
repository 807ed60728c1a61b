//! Stream-tag constants: the first byte of every binary frame.

use vstd::prelude::*;

verus! {

/// Terminal stdout/stderr (multiplexed by the PTY into one stream).
pub const TERMINAL: u8 = 0x01;

} // verus!
