//! Unwind rules, and what a memory reader says about memory.

use vstd::prelude::*;
use crate::error::Error;

verus! {

/// The word that memory `mem` holds at `address`, as a reader reports it:
/// a failure where `mem` has no word.
pub open spec fn memory_word(mem: Map<u64, u64>, address: u64) -> Result<u64, ()> {
    if mem.dom().contains(address) {
        Ok(mem[address])
    } else {
        Err(())
    }
}

/// The reader may be called on every address.
pub open spec fn reads_anywhere<F: FnMut(u64) -> Result<u64, ()>>(read_mem: F) -> bool {
    forall|address: u64| call_requires(read_mem, (address,))
}

/// `got` is an answer that the reader can give for `address`.
pub open spec fn can_answer<F: FnMut(u64) -> Result<u64, ()>>(
    read_mem: F,
    address: u64,
    got: Result<u64, ()>,
) -> bool {
    call_ensures(read_mem, (address,), got)
}

/// The reader shows the memory `mem`: whatever it answers for an address is
/// the word that `mem` holds there, and a failure where `mem` holds none.
pub open spec fn reads_memory<F: FnMut(u64) -> Result<u64, ()>>(
    read_mem: F,
    mem: Map<u64, u64>,
) -> bool {
    forall|address: u64, got: Result<u64, ()>| #[trigger]
        can_answer(read_mem, address, got) ==> got == memory_word(mem, address)
}

/// A recipe for stepping from a frame to its caller's frame. It is small and
/// copyable, so that it can be kept in a cache.
pub trait UnwindRule: Copy {
    type UnwindRegs;

    /// What executing the rule on `regs` gives over the memory `mem`: the
    /// caller's instruction pointer and register set, or the error and the
    /// register set as it was.
    spec fn step(self, regs: Self::UnwindRegs, mem: Map<u64, u64>) -> (
        Result<u64, Error>,
        Self::UnwindRegs,
    );

    /// Executes the rule: reads what it needs through `read_mem`, and only
    /// when every read has succeeded writes the caller's registers to `regs`.
    fn exec<F>(self, regs: &mut Self::UnwindRegs, read_mem: &mut F) -> (result: Result<u64, Error>)
        where F: FnMut(u64) -> Result<u64, ()>
        requires
            reads_anywhere(*old(read_mem)),
        ensures
            *final(read_mem) == *old(read_mem),
            result is Err ==> *final(regs) == *old(regs),
            forall|mem: Map<u64, u64>| #[trigger]
                reads_memory(*old(read_mem), mem) ==> (result, *final(regs)) == self.step(
                    *old(regs),
                    mem,
                ),
    ;
}

} // verus!
