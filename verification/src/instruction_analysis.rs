//! Rules found by inspecting the instructions of a function.

use vstd::prelude::*;
use crate::arch::Arch;

verus! {

/// What an architecture offers for addresses that no unwind information
/// covers. Each function may answer that inspection gives no rule.
pub trait InstructionAnalysis: Arch {
    /// The rule for a program counter inside the prologue of the function
    /// whose code is `text_bytes`; `pc_offset` is the offset of the program
    /// counter in it.
    fn rule_from_prologue_analysis(text_bytes: &[u8], pc_offset: usize) -> (rule: Option<
        Self::UnwindRule,
    >)
        requires
            pc_offset <= text_bytes@.len(),
    ;

    /// The rule for a program counter inside an epilogue of the function
    /// whose code is `text_bytes`; `pc_offset` is the offset of the program
    /// counter in it.
    fn rule_from_epilogue_analysis(text_bytes: &[u8], pc_offset: usize) -> (rule: Option<
        Self::UnwindRule,
    >)
        requires
            pc_offset <= text_bytes@.len(),
    ;
}

} // verus!
