//! Fault kinds surfaced by the bus and the processor core.
//!
//! Every fault is propagated to the caller of the operation that detected it;
//! nothing is silently recovered or substituted.  An operation that reports a
//! fault leaves the machine state exactly as it was before the call.

use vstd::prelude::*;

verus! {

/// A fault detected while executing an instruction or dispatching a bus
/// access.
#[derive(Clone, Copy, Debug, PartialEq, Eq, Structural)]
pub enum Fault {
    /// An opcode (primary, or secondary after the prefix byte) with no
    /// registered handler.  `pc` is the address of the unrecognized opcode
    /// byte itself.
    DecodeFault { opcode: u8, pc: u16 },
    /// A read or write to an address outside every mapped range.
    AddressFault { addr: u16 },
    /// A write into a read-only region (cartridge ROM in this revision).
    WriteProtectFault { addr: u16 },
    /// A register-level protocol violation inside a mapped peripheral window:
    /// disabling the LCD outside the vertical blank, or touching a register
    /// that the peripheral does not support in the requested direction.
    ProtocolViolation { addr: u16 },
}

} // verus!
