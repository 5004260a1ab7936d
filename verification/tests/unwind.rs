use std::collections::HashMap;

use framehop::compact_unwind_info::opcodes::OpcodeRegX86_64;
use framehop::error::Error;
use framehop::instruction_analysis::InstructionAnalysis;
use framehop::macho::CompactUnwindInfoUnwinderError;
use framehop::macho::CompactUnwindInfoUnwinding;
use framehop::macho::CuiUnwindResult;
use framehop::unwind_result::UnwindResult;
use framehop::unwind_rule::UnwindRule;
use framehop::x86_64::arch::ArchX86_64;
use framehop::x86_64::framepointer::FramepointerUnwinderX86_64;
use framehop::x86_64::opcode::rbp_position_from_outside;
use framehop::x86_64::opcode::UnwindOpcodeX86_64;
use framehop::x86_64::unwind_rule::UnwindRuleX86_64;
use framehop::x86_64::unwindregs::UnwindRegsX86_64;

fn memory(words: &[(u64, u64)]) -> HashMap<u64, u64> {
    words.iter().copied().collect()
}

fn exec(rule: UnwindRuleX86_64, regs: &mut UnwindRegsX86_64, words: &[(u64, u64)]) -> Result<u64, Error> {
    let mem = memory(words);
    let mut read = |address: u64| mem.get(&address).copied().ok_or(());
    rule.exec(regs, &mut read)
}

fn unwind(
    opcode: u32,
    regs: &mut UnwindRegsX86_64,
    words: &[(u64, u64)],
    is_first_frame: bool,
) -> Result<CuiUnwindResult<UnwindRuleX86_64>, CompactUnwindInfoUnwinderError> {
    let mem = memory(words);
    let mut read = |address: u64| mem.get(&address).copied().ok_or(());
    ArchX86_64::unwind_frame(opcode, regs, &mut read, is_first_frame)
}

fn unwind_opcode(
    opcode: UnwindOpcodeX86_64,
    is_first_frame: bool,
) -> Result<CuiUnwindResult<UnwindRuleX86_64>, CompactUnwindInfoUnwinderError> {
    let mut regs = UnwindRegsX86_64::new(1, 0x1000, 0x2000);
    let mut read = |_address: u64| -> Result<u64, ()> { panic!("nothing is to be read") };
    let result = ArchX86_64::unwind_frame_with_opcode(opcode, &mut regs, &mut read, is_first_frame);
    assert_eq!(regs, UnwindRegsX86_64::new(1, 0x1000, 0x2000));
    result
}

const RBP: Option<OpcodeRegX86_64> = Some(OpcodeRegX86_64::Rbp);
const RBX: Option<OpcodeRegX86_64> = Some(OpcodeRegX86_64::Rbx);
const R12: Option<OpcodeRegX86_64> = Some(OpcodeRegX86_64::R12);

#[test]
fn registers_are_read_and_written() {
    let mut regs = UnwindRegsX86_64::new(1, 2, 3);
    assert_eq!((regs.ip(), regs.sp(), regs.bp()), (1, 2, 3));
    regs.set_ip(10);
    regs.set_sp(20);
    regs.set_bp(30);
    assert_eq!((regs.ip(), regs.sp(), regs.bp()), (10, 20, 30));
}

#[test]
fn just_return_pops_the_return_address() {
    let mut regs = UnwindRegsX86_64::new(1, 0x1000, 0x2000);
    assert_eq!(exec(UnwindRuleX86_64::JustReturn, &mut regs, &[(0x1000, 0x77)]), Ok(0x77));
    assert_eq!(regs, UnwindRegsX86_64::new(0x77, 0x1008, 0x2000));
}

#[test]
fn offset_sp_reads_below_the_new_stack_pointer() {
    let mut regs = UnwindRegsX86_64::new(1, 0x1000, 0x2000);
    let rule = UnwindRuleX86_64::OffsetSp { sp_offset_by_8: 4 };
    assert_eq!(exec(rule, &mut regs, &[(0x1018, 0x88)]), Ok(0x88));
    assert_eq!(regs, UnwindRegsX86_64::new(0x88, 0x1020, 0x2000));
}

#[test]
fn offset_sp_and_restore_bp_reads_from_the_new_stack_pointer() {
    let mut regs = UnwindRegsX86_64::new(1, 0x1000, 0x2000);
    let rule = UnwindRuleX86_64::OffsetSpAndRestoreBp { sp_offset_by_8: 4, bp_storage_offset_from_sp_by_8: -2 };
    assert_eq!(exec(rule, &mut regs, &[(0x1018, 0x88), (0x1010, 0x3000)]), Ok(0x88));
    assert_eq!(regs, UnwindRegsX86_64::new(0x88, 0x1020, 0x3000));
    let mut regs = UnwindRegsX86_64::new(1, 0x1000, 0x2000);
    let rule = UnwindRuleX86_64::OffsetSpAndRestoreBp { sp_offset_by_8: 4, bp_storage_offset_from_sp_by_8: 3 };
    assert_eq!(exec(rule, &mut regs, &[(0x1018, 0x88), (0x1038, 0x3000)]), Ok(0x88));
    assert_eq!(regs, UnwindRegsX86_64::new(0x88, 0x1020, 0x3000));
}

#[test]
fn use_frame_pointer_follows_the_chain() {
    let mut regs = UnwindRegsX86_64::new(1, 0x1000, 0x2000);
    let words = [(0x2000, 0x3000), (0x2008, 0x99)];
    assert_eq!(exec(UnwindRuleX86_64::UseFramePointer, &mut regs, &words), Ok(0x99));
    assert_eq!(regs, UnwindRegsX86_64::new(0x99, 0x2010, 0x3000));
}

#[test]
fn failed_read_keeps_the_registers() {
    let start = UnwindRegsX86_64::new(1, 0x1000, 0x2000);
    let mut regs = start;
    assert_eq!(exec(UnwindRuleX86_64::JustReturn, &mut regs, &[]), Err(Error::CouldNotReadReturnAddress));
    assert_eq!(regs, start);
    assert_eq!(
        exec(UnwindRuleX86_64::UseFramePointer, &mut regs, &[(0x2008, 0x99)]),
        Err(Error::CouldNotReadBp)
    );
    assert_eq!(regs, start);
    assert_eq!(
        exec(UnwindRuleX86_64::UseFramePointer, &mut regs, &[(0x2000, 0x3000)]),
        Err(Error::CouldNotReadReturnAddress)
    );
    assert_eq!(regs, start);
    let rule = UnwindRuleX86_64::OffsetSpAndRestoreBp { sp_offset_by_8: 4, bp_storage_offset_from_sp_by_8: -2 };
    assert_eq!(exec(rule, &mut regs, &[(0x1018, 0x88)]), Err(Error::CouldNotReadBp));
    assert_eq!(regs, start);
}

#[test]
fn addresses_wrap_around() {
    let mut regs = UnwindRegsX86_64::new(1, u64::MAX - 7, 0x2000);
    assert_eq!(exec(UnwindRuleX86_64::JustReturn, &mut regs, &[(u64::MAX - 7, 0x77)]), Ok(0x77));
    assert_eq!(regs, UnwindRegsX86_64::new(0x77, 0, 0x2000));
    let mut regs = UnwindRegsX86_64::new(1, 0x1000, u64::MAX - 7);
    let words = [(u64::MAX - 7, 0x3000), (0, 0x99)];
    assert_eq!(exec(UnwindRuleX86_64::UseFramePointer, &mut regs, &words), Ok(0x99));
    assert_eq!(regs, UnwindRegsX86_64::new(0x99, 8, 0x3000));
}

#[test]
fn rbp_is_counted_from_the_outside() {
    assert_eq!(rbp_position_from_outside(&[None; 6]), None);
    assert_eq!(rbp_position_from_outside(&[RBX, R12, None, None, None, None]), None);
    assert_eq!(rbp_position_from_outside(&[RBP, None, None, None, None, None]), Some(0));
    assert_eq!(rbp_position_from_outside(&[None, None, None, None, None, RBP]), Some(0));
    assert_eq!(rbp_position_from_outside(&[RBP, RBX, None, None, None, None]), Some(1));
    assert_eq!(rbp_position_from_outside(&[RBP, None, RBX, None, R12, None]), Some(2));
    assert_eq!(rbp_position_from_outside(&[RBP, RBX, R12, RBX, R12, RBX]), Some(5));
    assert_eq!(rbp_position_from_outside(&[RBP, RBX, R12, RBP, R12, RBX]), Some(2));
}

#[test]
fn rule_holds_offsets_of_eight_bits_only() {
    assert_eq!(UnwindRuleX86_64::for_frameless(8, None), Some(UnwindRuleX86_64::JustReturn));
    assert_eq!(UnwindRuleX86_64::for_frameless(8, Some(1000)), Some(UnwindRuleX86_64::JustReturn));
    assert_eq!(
        UnwindRuleX86_64::for_frameless(24, None),
        Some(UnwindRuleX86_64::OffsetSp { sp_offset_by_8: 3 })
    );
    assert_eq!(
        UnwindRuleX86_64::for_frameless(65535, None),
        Some(UnwindRuleX86_64::OffsetSp { sp_offset_by_8: 8191 })
    );
    assert_eq!(
        UnwindRuleX86_64::for_frameless(24, Some(127)),
        Some(UnwindRuleX86_64::OffsetSpAndRestoreBp { sp_offset_by_8: 3, bp_storage_offset_from_sp_by_8: 127 })
    );
    assert_eq!(
        UnwindRuleX86_64::for_frameless(24, Some(-128)),
        Some(UnwindRuleX86_64::OffsetSpAndRestoreBp { sp_offset_by_8: 3, bp_storage_offset_from_sp_by_8: -128 })
    );
    assert_eq!(UnwindRuleX86_64::for_frameless(24, Some(128)), None);
    assert_eq!(UnwindRuleX86_64::for_frameless(24, Some(-129)), None);
    assert_eq!(UnwindRuleX86_64::for_frameless(24, Some(i32::MAX)), None);
    assert_eq!(UnwindRuleX86_64::for_frameless(24, Some(i32::MIN)), None);
}

#[test]
fn rule_and_step_at_once_agree() {
    let words = [(0x1000 + 64 - 8, 0x88), (0x1000 + 64 - 40, 0x3000)];
    let rule = UnwindRuleX86_64::for_frameless(64, Some(-5)).unwrap();
    let mut by_rule = UnwindRegsX86_64::new(1, 0x1000, 0x2000);
    assert_eq!(exec(rule, &mut by_rule, &words), Ok(0x88));
    let mem = memory(&words);
    let mut read = |address: u64| mem.get(&address).copied().ok_or(());
    let mut at_once = UnwindRegsX86_64::new(1, 0x1000, 0x2000);
    assert_eq!(ArchX86_64::unwind_frameless_once(64, Some(-5), &mut at_once, &mut read), Ok(0x88));
    assert_eq!(by_rule, at_once);
    assert_eq!(at_once, UnwindRegsX86_64::new(0x88, 0x1040, 0x3000));
}

#[test]
fn null_opcode_in_first_frame_just_returns() {
    assert_eq!(
        unwind_opcode(UnwindOpcodeX86_64::Null, true),
        Ok(CuiUnwindResult::ExecRule(UnwindRuleX86_64::JustReturn))
    );
}

#[test]
fn null_opcode_in_later_frame_has_no_info() {
    assert_eq!(
        unwind_opcode(UnwindOpcodeX86_64::Null, false),
        Err(CompactUnwindInfoUnwinderError::FunctionHasNoInfo)
    );
}

#[test]
fn frameless_with_one_word_just_returns() {
    let opcode = UnwindOpcodeX86_64::FramelessImmediate { stack_size_in_bytes: 8, saved_regs: [RBP, None, None, None, None, None] };
    assert_eq!(unwind_opcode(opcode, false), Ok(CuiUnwindResult::ExecRule(UnwindRuleX86_64::JustReturn)));
    assert_eq!(unwind_opcode(opcode, true), Ok(CuiUnwindResult::ExecRule(UnwindRuleX86_64::JustReturn)));
}

#[test]
fn frameless_without_rbp_offsets_the_stack_pointer() {
    let opcode = UnwindOpcodeX86_64::FramelessImmediate { stack_size_in_bytes: 48, saved_regs: [RBX, R12, None, None, None, None] };
    assert_eq!(
        unwind_opcode(opcode, false),
        Ok(CuiUnwindResult::ExecRule(UnwindRuleX86_64::OffsetSp { sp_offset_by_8: 6 }))
    );
    let opcode = UnwindOpcodeX86_64::FramelessImmediate { stack_size_in_bytes: 0, saved_regs: [None; 6] };
    assert_eq!(
        unwind_opcode(opcode, false),
        Ok(CuiUnwindResult::ExecRule(UnwindRuleX86_64::OffsetSp { sp_offset_by_8: 0 }))
    );
}

#[test]
fn frameless_with_rbp_restores_it() {
    let opcode = UnwindOpcodeX86_64::FramelessImmediate { stack_size_in_bytes: 32, saved_regs: [RBP, RBX, None, None, None, None] };
    assert_eq!(
        unwind_opcode(opcode, false),
        Ok(CuiUnwindResult::ExecRule(UnwindRuleX86_64::OffsetSpAndRestoreBp {
            sp_offset_by_8: 4,
            bp_storage_offset_from_sp_by_8: -3,
        }))
    );
    let opcode = UnwindOpcodeX86_64::FramelessImmediate { stack_size_in_bytes: 2040, saved_regs: [RBP, RBX, R12, RBX, R12, RBX] };
    assert_eq!(
        unwind_opcode(opcode, false),
        Ok(CuiUnwindResult::ExecRule(UnwindRuleX86_64::OffsetSpAndRestoreBp {
            sp_offset_by_8: 255,
            bp_storage_offset_from_sp_by_8: -7,
        }))
    );
}

#[test]
fn rule_of_frameless_opcode_restores_the_pushed_rbp() {
    let opcode = UnwindOpcodeX86_64::FramelessImmediate { stack_size_in_bytes: 32, saved_regs: [RBP, RBX, None, None, None, None] };
    let rule = match unwind_opcode(opcode, false) {
        Ok(CuiUnwindResult::ExecRule(rule)) => rule,
        _ => panic!("a rule is expected"),
    };
    let mut regs = UnwindRegsX86_64::new(1, 0x1000, 0x2000);
    let words = [(0x1018, 0x88), (0x1010, 0xb), (0x1008, 0x3000)];
    assert_eq!(exec(rule, &mut regs, &words), Ok(0x88));
    assert_eq!(regs, UnwindRegsX86_64::new(0x88, 0x1020, 0x3000));
}

#[test]
fn other_opcodes_are_decided_without_reading() {
    assert_eq!(
        unwind_opcode(UnwindOpcodeX86_64::FramelessIndirect, true),
        Err(CompactUnwindInfoUnwinderError::CantHandleFramelessIndirect)
    );
    assert_eq!(
        unwind_opcode(UnwindOpcodeX86_64::Dwarf { eh_frame_fde: 0x123 }, false),
        Ok(CuiUnwindResult::NeedDwarf(0x123))
    );
    assert_eq!(
        unwind_opcode(UnwindOpcodeX86_64::FrameBased, false),
        Ok(CuiUnwindResult::ExecRule(UnwindRuleX86_64::UseFramePointer))
    );
    assert_eq!(
        unwind_opcode(UnwindOpcodeX86_64::FrameBased, true),
        Ok(CuiUnwindResult::ExecRule(UnwindRuleX86_64::JustReturn))
    );
    assert_eq!(
        unwind_opcode(UnwindOpcodeX86_64::UnrecognizedKind(9), true),
        Err(CompactUnwindInfoUnwinderError::BadOpcodeKind(9))
    );
    assert_eq!(
        unwind_opcode(UnwindOpcodeX86_64::InvalidFramelessImmediate, true),
        Err(CompactUnwindInfoUnwinderError::InvalidFramelessImmediate)
    );
}

#[test]
fn framepointer_unwinder_takes_the_first_frame_at_its_entry() {
    assert_eq!(
        FramepointerUnwinderX86_64.unwind_first(),
        UnwindResult::ExecRule(UnwindRuleX86_64::JustReturn)
    );
}

#[test]
fn frameless_step_without_a_rule() {
    let mem = memory(&[(0x1000 + 2400 - 8, 0x88), (0x1000 + 2400 - 8 * 200, 0x3000)]);
    let mut read = |address: u64| mem.get(&address).copied().ok_or(());
    let mut regs = UnwindRegsX86_64::new(1, 0x1000, 0x2000);
    assert_eq!(ArchX86_64::unwind_frameless_once(2400, Some(-200), &mut regs, &mut read), Ok(0x88));
    assert_eq!(regs, UnwindRegsX86_64::new(0x88, 0x1000 + 2400, 0x3000));
    let mut regs = UnwindRegsX86_64::new(1, 0x1000, 0x2000);
    assert_eq!(ArchX86_64::unwind_frameless_once(2400, None, &mut regs, &mut read), Ok(0x88));
    assert_eq!(regs, UnwindRegsX86_64::new(0x88, 0x1000 + 2400, 0x2000));
}

#[test]
fn frameless_step_without_a_rule_fails_on_a_failed_read() {
    let start = UnwindRegsX86_64::new(1, 0x1000, 0x2000);
    let mem = memory(&[(0x1000 + 2400 - 8, 0x88)]);
    let mut read = |address: u64| mem.get(&address).copied().ok_or(());
    let mut regs = start;
    assert_eq!(
        ArchX86_64::unwind_frameless_once(2400, Some(-200), &mut regs, &mut read),
        Err(CompactUnwindInfoUnwinderError::CouldNotReadBp)
    );
    assert_eq!(regs, start);
    assert_eq!(
        ArchX86_64::unwind_frameless_once(2408, Some(-200), &mut regs, &mut read),
        Err(CompactUnwindInfoUnwinderError::CouldNotReadReturnAddress)
    );
    assert_eq!(regs, start);
}

#[test]
fn opcode_words_are_parsed_and_unwound() {
    let start = UnwindRegsX86_64::new(1, 0x1000, 0x2000);
    let mut regs = start;
    assert_eq!(unwind(0, &mut regs, &[], true), Ok(CuiUnwindResult::ExecRule(UnwindRuleX86_64::JustReturn)));
    assert_eq!(unwind(0, &mut regs, &[], false), Err(CompactUnwindInfoUnwinderError::FunctionHasNoInfo));
    assert_eq!(
        unwind(0x0105_0000, &mut regs, &[], false),
        Ok(CuiUnwindResult::ExecRule(UnwindRuleX86_64::UseFramePointer))
    );
    assert_eq!(
        unwind(0x0201_0000, &mut regs, &[], false),
        Ok(CuiUnwindResult::ExecRule(UnwindRuleX86_64::JustReturn))
    );
    assert_eq!(
        unwind(0x0204_0400, &mut regs, &[], false),
        Ok(CuiUnwindResult::ExecRule(UnwindRuleX86_64::OffsetSp { sp_offset_by_8: 4 }))
    );
    assert_eq!(
        unwind(0x0204_0405, &mut regs, &[], false),
        Ok(CuiUnwindResult::ExecRule(UnwindRuleX86_64::OffsetSpAndRestoreBp {
            sp_offset_by_8: 4,
            bp_storage_offset_from_sp_by_8: -2,
        }))
    );
    assert_eq!(
        unwind(0x0204_0819, &mut regs, &[], false),
        Ok(CuiUnwindResult::ExecRule(UnwindRuleX86_64::OffsetSpAndRestoreBp {
            sp_offset_by_8: 4,
            bp_storage_offset_from_sp_by_8: -3,
        }))
    );
    assert_eq!(
        unwind(0x0204_0407, &mut regs, &[], false),
        Err(CompactUnwindInfoUnwinderError::InvalidFramelessImmediate)
    );
    assert_eq!(
        unwind(0x0300_0000, &mut regs, &[], false),
        Err(CompactUnwindInfoUnwinderError::CantHandleFramelessIndirect)
    );
    assert_eq!(unwind(0x0400_0123, &mut regs, &[], false), Ok(CuiUnwindResult::NeedDwarf(0x123)));
    assert_eq!(unwind(0x0500_0000, &mut regs, &[], false), Err(CompactUnwindInfoUnwinderError::BadOpcodeKind(5)));
    assert_eq!(regs, start);
}

#[test]
fn instruction_analysis_finds_no_rule() {
    assert_eq!(ArchX86_64::rule_from_prologue_analysis(&[0x55, 0x48, 0x89, 0xe5], 1), None);
    assert_eq!(ArchX86_64::rule_from_epilogue_analysis(&[0x5d, 0xc3], 2), None);
    assert_eq!(ArchX86_64::rule_from_prologue_analysis(&[], 0), None);
}
