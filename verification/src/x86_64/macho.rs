//! Unwinding one x86-64 frame from its compact unwind opcode.

use vstd::prelude::*;
use crate::compact_unwind_info::opcodes::OpcodeRegX86_64;
use crate::error::Error;
use crate::macho::CompactUnwindInfoUnwinderError;
use crate::macho::CompactUnwindInfoUnwinding;
use crate::macho::CuiUnwindResult;
use crate::unwind_result::UnwindResult;
use crate::unwind_rule::can_answer;
use crate::unwind_rule::memory_word;
use crate::unwind_rule::reads_anywhere;
use crate::unwind_rule::reads_memory;
use crate::unwind_rule::UnwindRule;
use super::arch::ArchX86_64;
use super::framepointer::FramepointerUnwinderX86_64;
use super::opcode::parse_opcode;
use super::opcode::parsed_opcode_x86_64;
use super::opcode::rbp_position;
use super::opcode::rbp_position_from_outside;
use super::opcode::shape_follows_kind;
use super::opcode::UnwindOpcodeX86_64;
use super::unwind_rule::fits_rule;
use super::unwind_rule::UnwindRuleX86_64;
use super::unwindregs::UnwindRegsX86_64;

verus! {

/// Where a frameless function keeps the caller's frame base, in words from
/// the caller's stack pointer: the return address lies one word below that
/// stack pointer, and the saved registers follow it from the outermost on.
pub open spec fn frameless_bp_offset_by_8(saved_regs: Seq<Option<OpcodeRegX86_64>>) -> Option<
    i32,
> {
    match rbp_position(saved_regs) {
        Some(position) => Some((-2 - position) as i32),
        None => None,
    }
}

/// The error of this unwinder that stands for an error of rule execution.
pub open spec fn from_rule_error(error: Error) -> CompactUnwindInfoUnwinderError {
    match error {
        Error::CouldNotReadReturnAddress => CompactUnwindInfoUnwinderError::CouldNotReadReturnAddress,
        Error::CouldNotReadBp => CompactUnwindInfoUnwinderError::CouldNotReadBp,
    }
}

/// The rule of a frameless function steps as the step at once does: over
/// the same memory both give the same instruction pointer and registers, or
/// fail at the same read. This holds for a stack of whole words; a stack of
/// one word, of which the rule reads the return address only, is taken to
/// hold no frame base.
pub proof fn law_frameless_rule_steps_as_at_once(
    stack_size_in_bytes: u16,
    bp_offset_by_8: Option<i32>,
    regs: UnwindRegsX86_64,
    mem: Map<u64, u64>,
)
    requires
        stack_size_in_bytes % 8 == 0,
        stack_size_in_bytes == 8 ==> bp_offset_by_8 is None,
        UnwindRuleX86_64::frameless(stack_size_in_bytes, bp_offset_by_8) is Some,
    ensures
        ({
            let rule = UnwindRuleX86_64::frameless(stack_size_in_bytes, bp_offset_by_8)->0;
            let (stepped, regs_after) = rule.step(regs, mem);
            ArchX86_64::frameless_step_over(stack_size_in_bytes, bp_offset_by_8, regs, mem) == (
                match stepped {
                    Ok(ip) => Ok::<u64, CompactUnwindInfoUnwinderError>(ip),
                    Err(error) => Err::<u64, CompactUnwindInfoUnwinderError>(
                        from_rule_error(error),
                    ),
                },
                regs_after,
            )
        }),
{
}

impl ArchX86_64 {
    /// The stack pointer of the caller of a frameless function.
    pub open spec fn frameless_sp(stack_size_in_bytes: u16, regs: UnwindRegsX86_64) -> u64 {
        regs.sp.wrapping_add(stack_size_in_bytes as u64)
    }

    /// Where the return address of a frameless function is read.
    pub open spec fn frameless_return_address_location(
        stack_size_in_bytes: u16,
        regs: UnwindRegsX86_64,
    ) -> u64 {
        Self::frameless_sp(stack_size_in_bytes, regs).wrapping_sub(8)
    }

    /// Where the caller's frame base is read, `offset_by_8` words from the
    /// caller's stack pointer.
    pub open spec fn frameless_bp_location(
        stack_size_in_bytes: u16,
        offset_by_8: i32,
        regs: UnwindRegsX86_64,
    ) -> u64 {
        Self::frameless_sp(stack_size_in_bytes, regs).wrapping_add_signed((8 * offset_by_8) as i64)
    }

    /// What the step out of a frameless function gives when the read of the
    /// return address answers `return_address` and the read of the frame
    /// base, if the function saved it, answers `bp`.
    pub open spec fn frameless_step(
        stack_size_in_bytes: u16,
        bp_offset_by_8: Option<i32>,
        regs: UnwindRegsX86_64,
        return_address: Result<u64, ()>,
        bp: Result<u64, ()>,
    ) -> (Result<u64, CompactUnwindInfoUnwinderError>, UnwindRegsX86_64) {
        let sp = Self::frameless_sp(stack_size_in_bytes, regs);
        match return_address {
            Err(_) => (Err(CompactUnwindInfoUnwinderError::CouldNotReadReturnAddress), regs),
            Ok(ip) => {
                if bp_offset_by_8 is None {
                    (Ok(ip), UnwindRegsX86_64 { ip, sp, bp: regs.bp })
                } else {
                    match bp {
                        Err(_) => (Err(CompactUnwindInfoUnwinderError::CouldNotReadBp), regs),
                        Ok(bp) => (Ok(ip), UnwindRegsX86_64 { ip, sp, bp }),
                    }
                }
            },
        }
    }

    /// The reader can answer the reads of the step out of a frameless
    /// function with `return_address` and `bp`: the return address is read
    /// first, and the frame base only after that read has succeeded, and
    /// only where the function saved it.
    pub open spec fn frameless_answers<F: FnMut(u64) -> Result<u64, ()>>(
        read_mem: F,
        stack_size_in_bytes: u16,
        bp_offset_by_8: Option<i32>,
        regs: UnwindRegsX86_64,
        return_address: Result<u64, ()>,
        bp: Result<u64, ()>,
    ) -> bool {
        &&& can_answer(
            read_mem,
            Self::frameless_return_address_location(stack_size_in_bytes, regs),
            return_address,
        )
        &&& return_address is Ok ==> (bp_offset_by_8 matches Some(offset_by_8) ==> can_answer(
            read_mem,
            Self::frameless_bp_location(stack_size_in_bytes, offset_by_8, regs),
            bp,
        ))
    }

    /// The answer of memory `mem` at the location of the frame base; nothing
    /// is read where the function did not save it.
    pub open spec fn frameless_bp_word(
        stack_size_in_bytes: u16,
        bp_offset_by_8: Option<i32>,
        regs: UnwindRegsX86_64,
        mem: Map<u64, u64>,
    ) -> Result<u64, ()> {
        match bp_offset_by_8 {
            Some(offset_by_8) => memory_word(
                mem,
                Self::frameless_bp_location(stack_size_in_bytes, offset_by_8, regs),
            ),
            None => Err(()),
        }
    }

    /// What the step out of a frameless function gives over the memory `mem`.
    pub open spec fn frameless_step_over(
        stack_size_in_bytes: u16,
        bp_offset_by_8: Option<i32>,
        regs: UnwindRegsX86_64,
        mem: Map<u64, u64>,
    ) -> (Result<u64, CompactUnwindInfoUnwinderError>, UnwindRegsX86_64) {
        Self::frameless_step(
            stack_size_in_bytes,
            bp_offset_by_8,
            regs,
            memory_word(mem, Self::frameless_return_address_location(stack_size_in_bytes, regs)),
            Self::frameless_bp_word(stack_size_in_bytes, bp_offset_by_8, regs, mem),
        )
    }

    /// Steps out of a frameless function at once, without a rule: reads the
    /// return address and then, if the function saved the frame base, the
    /// caller's frame base, and writes the caller's registers when every
    /// read has succeeded. Returns the caller's instruction pointer.
    pub fn unwind_frameless_once<F>(
        stack_size_in_bytes: u16,
        bp_offset_by_8: Option<i32>,
        regs: &mut UnwindRegsX86_64,
        read_mem: &mut F,
    ) -> (result: Result<u64, CompactUnwindInfoUnwinderError>)
        where F: FnMut(u64) -> Result<u64, ()>
        requires
            reads_anywhere(*old(read_mem)),
        ensures
            *final(read_mem) == *old(read_mem),
            exists|return_address: Result<u64, ()>, bp: Result<u64, ()>|
                {
                    &&& Self::frameless_answers(
                        *old(read_mem),
                        stack_size_in_bytes,
                        bp_offset_by_8,
                        *old(regs),
                        return_address,
                        bp,
                    )
                    &&& (result, *final(regs)) == #[trigger] Self::frameless_step(
                        stack_size_in_bytes,
                        bp_offset_by_8,
                        *old(regs),
                        return_address,
                        bp,
                    )
                },
            forall|mem: Map<u64, u64>| #[trigger]
                reads_memory(*old(read_mem), mem) ==> (result, *final(regs))
                    == Self::frameless_step_over(stack_size_in_bytes, bp_offset_by_8, *old(regs), mem),
    {
        let new_sp = regs.sp().wrapping_add(stack_size_in_bytes as u64);
        let return_address_read = read_mem(new_sp.wrapping_sub(8));
        assert(can_answer(
            *old(read_mem),
            Self::frameless_return_address_location(stack_size_in_bytes, *old(regs)),
            return_address_read,
        ));
        let return_address = match return_address_read {
            Ok(word) => word,
            Err(unit) => {
                assert(unit == ());
                assert((
                    Err::<u64, CompactUnwindInfoUnwinderError>(
                        CompactUnwindInfoUnwinderError::CouldNotReadReturnAddress,
                    ),
                    *regs,
                ) == Self::frameless_step(
                    stack_size_in_bytes,
                    bp_offset_by_8,
                    *old(regs),
                    return_address_read,
                    Err(()),
                ));
                return Err(CompactUnwindInfoUnwinderError::CouldNotReadReturnAddress);
            },
        };
        let ghost bp_read: Result<u64, ()> = Err(());
        let new_bp = match bp_offset_by_8 {
            None => regs.bp(),
            Some(offset_by_8) => {
                let location = new_sp.wrapping_add_signed(8 * (offset_by_8 as i64));
                let read = read_mem(location);
                proof {
                    bp_read = read;
                }
                assert(can_answer(*old(read_mem), location, read));
                match read {
                    Ok(word) => word,
                    Err(unit) => {
                        assert(unit == ());
                        assert((
                            Err::<u64, CompactUnwindInfoUnwinderError>(
                                CompactUnwindInfoUnwinderError::CouldNotReadBp,
                            ),
                            *regs,
                        ) == Self::frameless_step(
                            stack_size_in_bytes,
                            bp_offset_by_8,
                            *old(regs),
                            return_address_read,
                            read,
                        ));
                        return Err(CompactUnwindInfoUnwinderError::CouldNotReadBp);
                    },
                }
            },
        };
        regs.set_bp(new_bp);
        regs.set_sp(new_sp);
        regs.set_ip(return_address);
        assert((Ok::<u64, CompactUnwindInfoUnwinderError>(return_address), *regs)
            == Self::frameless_step(
            stack_size_in_bytes,
            bp_offset_by_8,
            *old(regs),
            return_address_read,
            bp_read,
        ));
        Ok(return_address)
    }

    /// The result that stands for `result` among the results of this
    /// unwinder.
    pub open spec fn from_unwind_result(result: UnwindResult<UnwindRuleX86_64>) -> CuiUnwindResult<
        UnwindRuleX86_64,
    > {
        match result {
            UnwindResult::ExecRule(rule) => CuiUnwindResult::ExecRule(rule),
            UnwindResult::Uncacheable(return_address) => CuiUnwindResult::Uncacheable(
                return_address,
            ),
        }
    }

    /// The stack size and the offset of the frame base of an opcode whose
    /// frame has to be left at once, because no rule can hold that offset.
    pub open spec fn steps_at_once(opcode: UnwindOpcodeX86_64) -> Option<(u16, i32)> {
        match opcode {
            UnwindOpcodeX86_64::FramelessImmediate { stack_size_in_bytes, saved_regs } => {
                let bp_offset_by_8 = frameless_bp_offset_by_8(saved_regs@);
                match bp_offset_by_8 {
                    Some(offset_by_8) => {
                        if UnwindRuleX86_64::frameless(stack_size_in_bytes, bp_offset_by_8) is None {
                            Some((stack_size_in_bytes, offset_by_8))
                        } else {
                            None
                        }
                    },
                    None => None,
                }
            },
            _ => None,
        }
    }

    /// What unwinding a frame with the opcode `opcode` gives: the result and
    /// the registers afterwards. `return_address` and `bp` are the answers
    /// of the reader where the frame is left at once; nothing is read
    /// otherwise.
    pub open spec fn frame_outcome(
        opcode: UnwindOpcodeX86_64,
        regs: UnwindRegsX86_64,
        is_first_frame: bool,
        return_address: Result<u64, ()>,
        bp: Result<u64, ()>,
    ) -> (
        Result<CuiUnwindResult<UnwindRuleX86_64>, CompactUnwindInfoUnwinderError>,
        UnwindRegsX86_64,
    ) {
        match opcode {
            UnwindOpcodeX86_64::Null => {
                if is_first_frame {
                    (Ok(CuiUnwindResult::ExecRule(UnwindRuleX86_64::JustReturn)), regs)
                } else {
                    (Err(CompactUnwindInfoUnwinderError::FunctionHasNoInfo), regs)
                }
            },
            UnwindOpcodeX86_64::FramelessImmediate { stack_size_in_bytes, saved_regs } => {
                let bp_offset_by_8 = frameless_bp_offset_by_8(saved_regs@);
                match UnwindRuleX86_64::frameless(stack_size_in_bytes, bp_offset_by_8) {
                    Some(rule) => (Ok(CuiUnwindResult::ExecRule(rule)), regs),
                    None => {
                        let (stepped, regs_after) = Self::frameless_step(
                            stack_size_in_bytes,
                            bp_offset_by_8,
                            regs,
                            return_address,
                            bp,
                        );
                        match stepped {
                            Ok(ip) => (Ok(CuiUnwindResult::Uncacheable(ip)), regs_after),
                            Err(error) => (Err(error), regs_after),
                        }
                    },
                }
            },
            UnwindOpcodeX86_64::FramelessIndirect => (
                Err(CompactUnwindInfoUnwinderError::CantHandleFramelessIndirect),
                regs,
            ),
            UnwindOpcodeX86_64::Dwarf { eh_frame_fde } => (
                Ok(CuiUnwindResult::NeedDwarf(eh_frame_fde)),
                regs,
            ),
            UnwindOpcodeX86_64::FrameBased => {
                if is_first_frame {
                    (Ok(Self::from_unwind_result(FramepointerUnwinderX86_64::first_frame())), regs)
                } else {
                    (Ok(CuiUnwindResult::ExecRule(UnwindRuleX86_64::UseFramePointer)), regs)
                }
            },
            UnwindOpcodeX86_64::UnrecognizedKind(kind) => (
                Err(CompactUnwindInfoUnwinderError::BadOpcodeKind(kind)),
                regs,
            ),
            UnwindOpcodeX86_64::InvalidFramelessImmediate => (
                Err(CompactUnwindInfoUnwinderError::InvalidFramelessImmediate),
                regs,
            ),
        }
    }

    /// What unwinding a frame with the opcode `opcode` gives over the memory
    /// `mem`.
    pub open spec fn frame_outcome_over(
        opcode: UnwindOpcodeX86_64,
        regs: UnwindRegsX86_64,
        is_first_frame: bool,
        mem: Map<u64, u64>,
    ) -> (
        Result<CuiUnwindResult<UnwindRuleX86_64>, CompactUnwindInfoUnwinderError>,
        UnwindRegsX86_64,
    ) {
        match Self::steps_at_once(opcode) {
            Some((stack_size_in_bytes, offset_by_8)) => Self::frame_outcome(
                opcode,
                regs,
                is_first_frame,
                memory_word(
                    mem,
                    Self::frameless_return_address_location(stack_size_in_bytes, regs),
                ),
                memory_word(
                    mem,
                    Self::frameless_bp_location(stack_size_in_bytes, offset_by_8, regs),
                ),
            ),
            None => Self::frame_outcome(opcode, regs, is_first_frame, Err(()), Err(())),
        }
    }

    /// Unwinding a frame with the opcode `opcode` from the registers `regs`
    /// can end in `result` with the registers `regs_after`: the reader can
    /// give answers, to the reads that are made, with which this is the
    /// outcome.
    pub open spec fn unwound<F: FnMut(u64) -> Result<u64, ()>>(
        opcode: UnwindOpcodeX86_64,
        regs: UnwindRegsX86_64,
        read_mem: F,
        is_first_frame: bool,
        result: Result<CuiUnwindResult<UnwindRuleX86_64>, CompactUnwindInfoUnwinderError>,
        regs_after: UnwindRegsX86_64,
    ) -> bool {
        exists|return_address: Result<u64, ()>, bp: Result<u64, ()>|
            {
                &&& Self::steps_at_once(opcode) matches Some((stack_size_in_bytes, offset_by_8))
                    ==> Self::frameless_answers(
                    read_mem,
                    stack_size_in_bytes,
                    Some(offset_by_8),
                    regs,
                    return_address,
                    bp,
                )
                &&& (result, regs_after) == #[trigger] Self::frame_outcome(
                    opcode,
                    regs,
                    is_first_frame,
                    return_address,
                    bp,
                )
            }
    }

    /// Decides from a parsed opcode how the frame is unwound.
    ///
    /// A rule is handed back unexecuted, with the registers as they were.
    /// Where the frame base of a frameless function lies at an offset that
    /// no rule can hold, the step is made at once on the registers.
    pub fn unwind_frame_with_opcode<F>(
        opcode: UnwindOpcodeX86_64,
        regs: &mut UnwindRegsX86_64,
        read_mem: &mut F,
        is_first_frame: bool,
    ) -> (result: Result<CuiUnwindResult<UnwindRuleX86_64>, CompactUnwindInfoUnwinderError>)
        where F: FnMut(u64) -> Result<u64, ()>
        requires
            reads_anywhere(*old(read_mem)),
        ensures
            *final(read_mem) == *old(read_mem),
            Self::unwound(
                opcode,
                *old(regs),
                *old(read_mem),
                is_first_frame,
                result,
                *final(regs),
            ),
            forall|mem: Map<u64, u64>| #[trigger]
                reads_memory(*old(read_mem), mem) ==> (result, *final(regs))
                    == Self::frame_outcome_over(opcode, *old(regs), is_first_frame, mem),
            !(result matches Ok(CuiUnwindResult::Uncacheable(_))) ==> *final(regs) == *old(regs),
            opcode is Null && !is_first_frame ==> result == Err::<
                CuiUnwindResult<UnwindRuleX86_64>,
                CompactUnwindInfoUnwinderError,
            >(CompactUnwindInfoUnwinderError::FunctionHasNoInfo),
            opcode matches UnwindOpcodeX86_64::FramelessImmediate { stack_size_in_bytes, saved_regs }
                ==> {
                &&& stack_size_in_bytes == 8 ==> result == Ok::<
                    CuiUnwindResult<UnwindRuleX86_64>,
                    CompactUnwindInfoUnwinderError,
                >(CuiUnwindResult::ExecRule(UnwindRuleX86_64::JustReturn))
                &&& stack_size_in_bytes != 8 && rbp_position(saved_regs@) is None ==> result
                    == Ok::<CuiUnwindResult<UnwindRuleX86_64>, CompactUnwindInfoUnwinderError>(
                    CuiUnwindResult::ExecRule(
                        UnwindRuleX86_64::OffsetSp { sp_offset_by_8: stack_size_in_bytes / 8 },
                    ),
                )
                &&& stack_size_in_bytes != 8 && (frameless_bp_offset_by_8(saved_regs@) matches Some(
                    offset_by_8,
                ) && !fits_rule(offset_by_8)) ==> !(result matches Ok(CuiUnwindResult::ExecRule(_)))
            },
    {
        let ghost regs_before = *regs;
        let result = match opcode {
            UnwindOpcodeX86_64::Null => {
                if is_first_frame {
                    Ok(CuiUnwindResult::ExecRule(UnwindRuleX86_64::JustReturn))
                } else {
                    Err(CompactUnwindInfoUnwinderError::FunctionHasNoInfo)
                }
            },
            UnwindOpcodeX86_64::FramelessImmediate { stack_size_in_bytes, saved_regs } => {
                let bp_offset_by_8: Option<i32> = match rbp_position_from_outside(&saved_regs) {
                    Some(position) => Some(-2 - (position as i32)),
                    None => None,
                };
                match UnwindRuleX86_64::for_frameless(stack_size_in_bytes, bp_offset_by_8) {
                    Some(rule) => Ok(CuiUnwindResult::ExecRule(rule)),
                    None => {
                        match Self::unwind_frameless_once(
                            stack_size_in_bytes,
                            bp_offset_by_8,
                            regs,
                            read_mem,
                        ) {
                            Ok(return_address) => Ok(CuiUnwindResult::Uncacheable(return_address)),
                            Err(error) => Err(error),
                        }
                    },
                }
            },
            UnwindOpcodeX86_64::FramelessIndirect => Err(
                CompactUnwindInfoUnwinderError::CantHandleFramelessIndirect,
            ),
            UnwindOpcodeX86_64::Dwarf { eh_frame_fde } => Ok(
                CuiUnwindResult::NeedDwarf(eh_frame_fde),
            ),
            UnwindOpcodeX86_64::FrameBased => {
                if is_first_frame {
                    match FramepointerUnwinderX86_64.unwind_first() {
                        UnwindResult::ExecRule(rule) => Ok(CuiUnwindResult::ExecRule(rule)),
                        UnwindResult::Uncacheable(return_address) => Ok(
                            CuiUnwindResult::Uncacheable(return_address),
                        ),
                    }
                } else {
                    Ok(CuiUnwindResult::ExecRule(UnwindRuleX86_64::UseFramePointer))
                }
            },
            UnwindOpcodeX86_64::UnrecognizedKind(kind) => Err(
                CompactUnwindInfoUnwinderError::BadOpcodeKind(kind),
            ),
            UnwindOpcodeX86_64::InvalidFramelessImmediate => Err(
                CompactUnwindInfoUnwinderError::InvalidFramelessImmediate,
            ),
        };
        proof {
            if Self::steps_at_once(opcode) is None {
                assert((result, *regs) == Self::frame_outcome(
                    opcode,
                    regs_before,
                    is_first_frame,
                    Err(()),
                    Err(()),
                ));
            }
        }
        result
    }
}

impl CompactUnwindInfoUnwinding for ArchX86_64 {
    /// Parses the opcode word and unwinds the frame as
    /// `unwind_frame_with_opcode` does with the parsed opcode.
    fn unwind_frame<F>(
        opcode: u32,
        regs: &mut UnwindRegsX86_64,
        read_mem: &mut F,
        is_first_frame: bool,
    ) -> (result: Result<CuiUnwindResult<UnwindRuleX86_64>, CompactUnwindInfoUnwinderError>)
        where F: FnMut(u64) -> Result<u64, ()>
        ensures
            shape_follows_kind(opcode, parsed_opcode_x86_64(opcode)),
            Self::unwound(
                parsed_opcode_x86_64(opcode),
                *old(regs),
                *old(read_mem),
                is_first_frame,
                result,
                *final(regs),
            ),
            forall|mem: Map<u64, u64>| #[trigger]
                reads_memory(*old(read_mem), mem) ==> (result, *final(regs))
                    == Self::frame_outcome_over(
                    parsed_opcode_x86_64(opcode),
                    *old(regs),
                    is_first_frame,
                    mem,
                ),
    {
        let opcode = parse_opcode(opcode);
        Self::unwind_frame_with_opcode(opcode, regs, read_mem, is_first_frame)
    }
}

} // verus!
