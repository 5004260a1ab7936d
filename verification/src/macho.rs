//! Unwinding one frame from its compact unwind opcode.

use vstd::prelude::*;
use crate::arch::Arch;
use crate::unwind_rule::UnwindRule;
use crate::unwind_rule::reads_anywhere;

verus! {

/// Why a frame could not be unwound from its opcode.
#[derive(Clone, Copy, Debug, PartialEq, Eq)]
pub enum CompactUnwindInfoUnwinderError {
    /// The opcode has a kind that this architecture does not define.
    BadOpcodeKind(u8),
    /// A frame that is not the innermost one has no unwind information.
    FunctionHasNoInfo,
    /// The stack size of the frame is not in the opcode.
    CantHandleFramelessIndirect,
    /// The saved registers of a frameless opcode are not validly encoded.
    InvalidFramelessImmediate,
    /// The memory reader failed at the location of the return address.
    CouldNotReadReturnAddress,
    /// The memory reader failed at the location of the saved frame base.
    CouldNotReadBp,
}

#[derive(Debug, PartialEq, Eq)]
pub enum CuiUnwindResult<R: UnwindRule> {
    /// The rule for this frame. It has not been executed, and can be cached.
    ExecRule(R),
    /// The step has been made on the registers; the value is the caller's
    /// instruction pointer. Nothing can be cached for this address.
    Uncacheable(u64),
    /// The frame needs the call frame information at this offset.
    NeedDwarf(u32),
}

pub trait CompactUnwindInfoUnwinding: Arch {
    /// Decides from the opcode word how the frame is unwound. The registers
    /// change only where the result is `Uncacheable`.
    fn unwind_frame<F>(
        opcode: u32,
        regs: &mut Self::UnwindRegs,
        read_mem: &mut F,
        is_first_frame: bool,
    ) -> (result: Result<CuiUnwindResult<Self::UnwindRule>, CompactUnwindInfoUnwinderError>)
        where F: FnMut(u64) -> Result<u64, ()>
        requires
            reads_anywhere(*old(read_mem)),
        ensures
            *final(read_mem) == *old(read_mem),
            !(result matches Ok(CuiUnwindResult::Uncacheable(_))) ==> *final(regs) == *old(regs),
    ;
}

} // verus!
