//! The unwind rules of x86-64 and their execution.

use vstd::prelude::*;
use crate::error::Error;
use crate::unwind_rule::UnwindRule;
use crate::unwind_rule::can_answer;
use crate::unwind_rule::memory_word;
use crate::unwind_rule::reads_anywhere;
use crate::unwind_rule::reads_memory;
use super::unwindregs::UnwindRegsX86_64;

verus! {

/// How to step from a frame to its caller's frame. Offsets count words of
/// eight bytes, and addresses are computed modulo 2^64.
#[derive(Clone, Copy, Debug, PartialEq, Eq)]
pub enum UnwindRuleX86_64 {
    /// The return address is on top of the stack.
    JustReturn,
    /// The caller's stack pointer is `sp_offset_by_8` words above the stack
    /// pointer; the return address is in the word below it.
    OffsetSp { sp_offset_by_8: u16 },
    /// As `OffsetSp`, and the caller's frame base is stored
    /// `bp_storage_offset_from_sp_by_8` words from the caller's stack pointer.
    OffsetSpAndRestoreBp { sp_offset_by_8: u16, bp_storage_offset_from_sp_by_8: i8 },
    /// The frame base points at the caller's frame base, with the return
    /// address in the word above it.
    UseFramePointer,
}

/// Whether an offset in words fits the signed field of eight bits in which
/// a rule holds the place of the frame base.
pub open spec fn fits_rule(offset_by_8: i32) -> bool {
    -128 <= offset_by_8 <= 127
}

impl UnwindRuleX86_64 {
    /// The rule for a function without a frame pointer whose stack, with the
    /// return address, takes `stack_size_in_bytes`, and which keeps the
    /// caller's frame base `bp_offset_by_8` words from the caller's stack
    /// pointer, if it saved it. A stack of one word holds the return address
    /// alone. There is no rule where the offset of the frame base does not
    /// fit the rule's field: no offset is ever cut to fit.
    pub open spec fn frameless(stack_size_in_bytes: u16, bp_offset_by_8: Option<i32>) -> Option<
        Self,
    > {
        if stack_size_in_bytes == 8 {
            Some(UnwindRuleX86_64::JustReturn)
        } else {
            match bp_offset_by_8 {
                None => Some(UnwindRuleX86_64::OffsetSp { sp_offset_by_8: stack_size_in_bytes / 8 }),
                Some(offset_by_8) => {
                    if fits_rule(offset_by_8) {
                        Some(
                            UnwindRuleX86_64::OffsetSpAndRestoreBp {
                                sp_offset_by_8: stack_size_in_bytes / 8,
                                bp_storage_offset_from_sp_by_8: offset_by_8 as i8,
                            },
                        )
                    } else {
                        None
                    }
                },
            }
        }
    }

    /// Builds the rule for a function without a frame pointer, if a rule
    /// can hold the offset of the frame base.
    pub fn for_frameless(stack_size_in_bytes: u16, bp_offset_by_8: Option<i32>) -> (rule: Option<
        Self,
    >)
        ensures
            rule == Self::frameless(stack_size_in_bytes, bp_offset_by_8),
            stack_size_in_bytes == 8 ==> rule == Some(UnwindRuleX86_64::JustReturn),
            stack_size_in_bytes != 8 && bp_offset_by_8 is None ==> rule == Some(
                UnwindRuleX86_64::OffsetSp { sp_offset_by_8: stack_size_in_bytes / 8 },
            ),
            stack_size_in_bytes != 8 && (bp_offset_by_8 matches Some(offset_by_8) && !fits_rule(
                offset_by_8,
            )) ==> rule is None,
    {
        if stack_size_in_bytes == 8 {
            return Some(UnwindRuleX86_64::JustReturn);
        }
        let sp_offset_by_8 = stack_size_in_bytes / 8;
        match bp_offset_by_8 {
            None => Some(UnwindRuleX86_64::OffsetSp { sp_offset_by_8 }),
            Some(offset_by_8) => {
                if -128 <= offset_by_8 && offset_by_8 <= 127 {
                    Some(
                        UnwindRuleX86_64::OffsetSpAndRestoreBp {
                            sp_offset_by_8,
                            bp_storage_offset_from_sp_by_8: offset_by_8 as i8,
                        },
                    )
                } else {
                    None
                }
            },
        }
    }

    /// The caller's stack pointer.
    pub open spec fn sp_after(self, regs: UnwindRegsX86_64) -> u64 {
        match self {
            UnwindRuleX86_64::JustReturn => regs.sp.wrapping_add(8),
            UnwindRuleX86_64::OffsetSp { sp_offset_by_8 } => regs.sp.wrapping_add(
                (8 * sp_offset_by_8) as u64,
            ),
            UnwindRuleX86_64::OffsetSpAndRestoreBp { sp_offset_by_8, .. } => regs.sp.wrapping_add(
                (8 * sp_offset_by_8) as u64,
            ),
            UnwindRuleX86_64::UseFramePointer => regs.bp.wrapping_add(16),
        }
    }

    /// Where the return address is read: one word below the caller's stack
    /// pointer.
    pub open spec fn return_address_location(self, regs: UnwindRegsX86_64) -> u64 {
        self.sp_after(regs).wrapping_sub(8)
    }

    /// Where the caller's frame base is read, for a rule that restores it.
    pub open spec fn bp_location(self, regs: UnwindRegsX86_64) -> Option<u64> {
        match self {
            UnwindRuleX86_64::OffsetSpAndRestoreBp { bp_storage_offset_from_sp_by_8, .. } => Some(
                self.sp_after(regs).wrapping_add_signed((8 * bp_storage_offset_from_sp_by_8) as i64),
            ),
            UnwindRuleX86_64::UseFramePointer => Some(regs.bp),
            _ => None,
        }
    }

    /// What executing the rule gives when the read of the return address
    /// answers `return_address` and the read of the frame base, for a rule
    /// that makes one, answers `bp`. The return address is read first.
    pub open spec fn outcome(
        self,
        regs: UnwindRegsX86_64,
        return_address: Result<u64, ()>,
        bp: Result<u64, ()>,
    ) -> (Result<u64, Error>, UnwindRegsX86_64) {
        match return_address {
            Err(_) => (Err(Error::CouldNotReadReturnAddress), regs),
            Ok(ip) => {
                if self.bp_location(regs) is None {
                    (Ok(ip), UnwindRegsX86_64 { ip, sp: self.sp_after(regs), bp: regs.bp })
                } else {
                    match bp {
                        Err(_) => (Err(Error::CouldNotReadBp), regs),
                        Ok(bp) => (Ok(ip), UnwindRegsX86_64 { ip, sp: self.sp_after(regs), bp }),
                    }
                }
            },
        }
    }

    /// The answer of memory `mem` at the location of the frame base; a rule
    /// that keeps the frame base reads nothing.
    pub open spec fn bp_word(self, regs: UnwindRegsX86_64, mem: Map<u64, u64>) -> Result<u64, ()> {
        match self.bp_location(regs) {
            Some(location) => memory_word(mem, location),
            None => Err(()),
        }
    }
}

impl UnwindRule for UnwindRuleX86_64 {
    type UnwindRegs = UnwindRegsX86_64;

    open spec fn step(self, regs: UnwindRegsX86_64, mem: Map<u64, u64>) -> (
        Result<u64, Error>,
        UnwindRegsX86_64,
    ) {
        self.outcome(
            regs,
            memory_word(mem, self.return_address_location(regs)),
            self.bp_word(regs, mem),
        )
    }

    fn exec<F>(self, regs: &mut UnwindRegsX86_64, read_mem: &mut F) -> (result: Result<u64, Error>)
        where F: FnMut(u64) -> Result<u64, ()>
        ensures
            exists|return_address: Result<u64, ()>, bp: Result<u64, ()>|
                {
                    &&& can_answer(
                        *old(read_mem),
                        self.return_address_location(*old(regs)),
                        return_address,
                    )
                    &&& return_address is Ok ==> (self.bp_location(*old(regs)) matches Some(
                        location,
                    ) ==> can_answer(*old(read_mem), location, bp))
                    &&& (result, *final(regs)) == #[trigger] self.outcome(
                        *old(regs),
                        return_address,
                        bp,
                    )
                },
    {
        let sp = regs.sp();
        let new_sp = match self {
            UnwindRuleX86_64::JustReturn => sp.wrapping_add(8),
            UnwindRuleX86_64::OffsetSp { sp_offset_by_8 } => sp.wrapping_add(
                8 * (sp_offset_by_8 as u64),
            ),
            UnwindRuleX86_64::OffsetSpAndRestoreBp { sp_offset_by_8, .. } => sp.wrapping_add(
                8 * (sp_offset_by_8 as u64),
            ),
            UnwindRuleX86_64::UseFramePointer => regs.bp().wrapping_add(16),
        };
        let return_address_read = read_mem(new_sp.wrapping_sub(8));
        assert(can_answer(
            *old(read_mem),
            self.return_address_location(*old(regs)),
            return_address_read,
        ));
        let return_address = match return_address_read {
            Ok(word) => word,
            Err(unit) => {
                assert(unit == ());
                assert((Err::<u64, Error>(Error::CouldNotReadReturnAddress), *regs) == self.outcome(
                    *old(regs),
                    return_address_read,
                    Err(()),
                ));
                return Err(Error::CouldNotReadReturnAddress);
            },
        };
        let bp_location = match self {
            UnwindRuleX86_64::OffsetSpAndRestoreBp { bp_storage_offset_from_sp_by_8, .. } => Some(
                new_sp.wrapping_add_signed(8 * (bp_storage_offset_from_sp_by_8 as i64)),
            ),
            UnwindRuleX86_64::UseFramePointer => Some(regs.bp()),
            _ => None,
        };
        let ghost bp_read: Result<u64, ()> = Err(());
        let new_bp = match bp_location {
            None => regs.bp(),
            Some(location) => {
                let read = read_mem(location);
                proof {
                    bp_read = read;
                }
                assert(can_answer(*old(read_mem), location, read));
                match read {
                    Ok(word) => word,
                    Err(unit) => {
                        assert(unit == ());
                        assert((Err::<u64, Error>(Error::CouldNotReadBp), *regs) == self.outcome(
                            *old(regs),
                            return_address_read,
                            read,
                        ));
                        return Err(Error::CouldNotReadBp);
                    },
                }
            },
        };
        regs.set_ip(return_address);
        regs.set_sp(new_sp);
        regs.set_bp(new_bp);
        assert((Ok::<u64, Error>(return_address), *regs) == self.outcome(
            *old(regs),
            return_address_read,
            bp_read,
        ));
        Ok(return_address)
    }
}

/// Following the frame pointer: where the frame base points at a word that
/// holds the caller's frame base, and the word above it holds the return
/// address, the step gives that return address as the instruction pointer,
/// that frame base, and as the stack pointer the address two words above the
/// frame base.
pub proof fn law_use_frame_pointer(
    regs: UnwindRegsX86_64,
    mem: Map<u64, u64>,
    caller_bp: u64,
    return_address: u64,
)
    requires
        memory_word(mem, regs.bp) == Ok::<u64, ()>(caller_bp),
        memory_word(mem, regs.bp.wrapping_add(8)) == Ok::<u64, ()>(return_address),
    ensures
        UnwindRuleX86_64::UseFramePointer.step(regs, mem) == (
            Ok::<u64, Error>(return_address),
            UnwindRegsX86_64 { ip: return_address, sp: regs.bp.wrapping_add(16), bp: caller_bp },
        ),
{
    assert(regs.bp.wrapping_add(16).wrapping_sub(8) == regs.bp.wrapping_add(8));
}

/// A step that fails leaves the registers as they were.
pub proof fn law_failed_step_keeps_registers(
    rule: UnwindRuleX86_64,
    regs: UnwindRegsX86_64,
    mem: Map<u64, u64>,
)
    ensures
        rule.step(regs, mem).0 is Err ==> rule.step(regs, mem).1 == regs,
{
}

} // verus!
