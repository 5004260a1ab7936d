//! The registers that unwinding on x86-64 reads and writes.

use vstd::prelude::*;

verus! {

#[derive(Clone, Copy, Debug, PartialEq, Eq)]
pub struct UnwindRegsX86_64 {
    /// The instruction pointer.
    pub ip: u64,
    /// The stack pointer.
    pub sp: u64,
    /// The frame base.
    pub bp: u64,
}

impl UnwindRegsX86_64 {
    pub fn new(ip: u64, sp: u64, bp: u64) -> (regs: Self)
        ensures
            regs == (UnwindRegsX86_64 { ip, sp, bp }),
    {
        UnwindRegsX86_64 { ip, sp, bp }
    }

    pub fn ip(&self) -> (ip: u64)
        ensures
            ip == self.ip,
    {
        self.ip
    }

    pub fn set_ip(&mut self, ip: u64)
        ensures
            *final(self) == (UnwindRegsX86_64 { ip, ..*old(self) }),
    {
        self.ip = ip
    }

    pub fn sp(&self) -> (sp: u64)
        ensures
            sp == self.sp,
    {
        self.sp
    }

    pub fn set_sp(&mut self, sp: u64)
        ensures
            *final(self) == (UnwindRegsX86_64 { sp, ..*old(self) }),
    {
        self.sp = sp
    }

    pub fn bp(&self) -> (bp: u64)
        ensures
            bp == self.bp,
    {
        self.bp
    }

    pub fn set_bp(&mut self, bp: u64)
        ensures
            *final(self) == (UnwindRegsX86_64 { bp, ..*old(self) }),
    {
        self.bp = bp
    }
}

} // verus!
