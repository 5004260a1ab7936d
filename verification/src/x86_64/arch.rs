//! The x86-64 architecture as a type.

use vstd::prelude::*;
use crate::arch::Arch;
use super::unwind_rule::UnwindRuleX86_64;
use super::unwindregs::UnwindRegsX86_64;

verus! {

pub struct ArchX86_64;

impl Arch for ArchX86_64 {
    type UnwindRegs = UnwindRegsX86_64;

    type UnwindRule = UnwindRuleX86_64;
}

} // verus!
