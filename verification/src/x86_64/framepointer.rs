//! Unwinding by the frame pointer alone.

use vstd::prelude::*;
use crate::unwind_result::UnwindResult;
use super::unwind_rule::UnwindRuleX86_64;

verus! {

pub struct FramepointerUnwinderX86_64;

impl FramepointerUnwinderX86_64 {
    /// How the innermost frame of a function with a frame pointer is
    /// unwound. The instructions around the program counter are not
    /// inspected. The function is taken to stand at its entry, before its
    /// prologue has pushed anything: the return address is on top of the
    /// stack.
    pub open spec fn first_frame() -> UnwindResult<UnwindRuleX86_64> {
        UnwindResult::ExecRule(UnwindRuleX86_64::JustReturn)
    }

    pub fn unwind_first(&self) -> (result: UnwindResult<UnwindRuleX86_64>)
        ensures
            result == Self::first_frame(),
    {
        UnwindResult::ExecRule(UnwindRuleX86_64::JustReturn)
    }
}

} // verus!
