//! The closed set of failures the core can surface.

use vstd::prelude::*;

verus! {

/// Everything that can go wrong while the hart executes.
///
/// Two severities share this type. `UnknownInstruction` is a recoverable
/// decode failure: the guest supplied an opcode / funct combination the core
/// does not know, the offending 32-bit word is carried along, and no state
/// was mutated before the failure was raised. `UnknownCsr` and
/// `FenceUnimplemented` indicate a configuration defect rather than a
/// guest-triggerable condition; callers are expected to halt on them.
#[derive(Clone, Copy, Debug, PartialEq, Eq, Structural)]
pub enum EmuError {
    /// Decode failure: no operation matches this instruction word.
    UnknownInstruction(u32),
    /// A CSR number outside the fixed machine-mode set was addressed.
    UnknownCsr(u16),
    /// The FENCE operation was reached; it is not implemented.
    FenceUnimplemented,
}

} // verus!
