//! The result of an unwinder that needs no outside help.

use vstd::prelude::*;
use crate::unwind_rule::UnwindRule;

verus! {

#[derive(Debug, PartialEq, Eq)]
pub enum UnwindResult<R: UnwindRule> {
    /// The rule to execute. It can be cached.
    ExecRule(R),
    /// The step has been made already; the value is the caller's instruction
    /// pointer. Nothing can be cached.
    Uncacheable(u64),
}

} // verus!
