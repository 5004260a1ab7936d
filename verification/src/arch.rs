//! An architecture: its register set and its rules.

use vstd::prelude::*;
use crate::unwind_rule::UnwindRule;

verus! {

pub trait Arch {
    type UnwindRegs;

    type UnwindRule: UnwindRule<UnwindRegs = Self::UnwindRegs>;
}

} // verus!
