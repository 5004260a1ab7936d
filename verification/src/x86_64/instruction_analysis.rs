//! Instruction analysis on x86-64.

use vstd::prelude::*;
use crate::instruction_analysis::InstructionAnalysis;
use super::arch::ArchX86_64;
use super::unwind_rule::UnwindRuleX86_64;

verus! {

impl InstructionAnalysis for ArchX86_64 {
    /// No prologue is inspected on x86-64: there is never a rule.
    fn rule_from_prologue_analysis(_text_bytes: &[u8], _pc_offset: usize) -> (rule: Option<
        UnwindRuleX86_64,
    >)
        ensures
            rule is None,
    {
        None
    }

    /// No epilogue is inspected on x86-64: there is never a rule.
    fn rule_from_epilogue_analysis(_text_bytes: &[u8], _pc_offset: usize) -> (rule: Option<
        UnwindRuleX86_64,
    >)
        ensures
            rule is None,
    {
        None
    }
}

} // verus!
