use vstd::prelude::*;

verus! {

/// Length in bytes of the x86-64 `syscall` instruction.
pub const SYSCALL_SIZE: u64 = 2;

/// The `syscall` instruction (`0f 05`) as the little-endian word written at the patched address.
pub const SYSCALL_TEXT: u64 = 0x050f;

/// A snapshot of the general-purpose registers of an x86-64 thread, in the
/// layout of the kernel's `user_regs_struct`.
#[derive(Clone, Copy, Debug, PartialEq, Eq, Structural)]
pub struct Regs {
    pub r15: u64,
    pub r14: u64,
    pub r13: u64,
    pub r12: u64,
    pub rbp: u64,
    pub rbx: u64,
    pub r11: u64,
    pub r10: u64,
    pub r9: u64,
    pub r8: u64,
    pub rax: u64,
    pub rcx: u64,
    pub rdx: u64,
    pub rsi: u64,
    pub rdi: u64,
    pub orig_rax: u64,
    pub rip: u64,
    pub cs: u64,
    pub eflags: u64,
    pub rsp: u64,
    pub ss: u64,
    pub fs_base: u64,
    pub gs_base: u64,
    pub ds: u64,
    pub es: u64,
    pub fs: u64,
    pub gs: u64,
}

/// The register image that invokes syscall `call[0]` with arguments
/// `call[1..7]`: number in `rax`, arguments in `rdi`, `rsi`, `rdx`, `r10`,
/// `r8`, `r9`, every other register (the instruction pointer included) as in `base`.
pub open spec fn syscall_image(base: Regs, call: Seq<u64>) -> Regs
    recommends
        call.len() == 7,
{
    Regs {
        rax: call[0],
        rdi: call[1],
        rsi: call[2],
        rdx: call[3],
        r10: call[4],
        r8: call[5],
        r9: call[6],
        ..base
    }
}

impl Regs {
    /// The instruction pointer.
    pub fn ip(&self) -> (r: u64)
        ensures
            r == self.rip,
    {
        self.rip
    }

    /// Register image for a syscall: `call` holds the syscall number followed
    /// by its six arguments, unused ones zero.
    pub fn prepare_syscall(&self, call: &[u64; 7]) -> (r: Regs)
        ensures
            r == syscall_image(*self, call@),
    {
        let mut copy = *self;
        copy.rax = call[0];
        copy.rdi = call[1];
        copy.rsi = call[2];
        copy.rdx = call[3];
        copy.r10 = call[4];
        copy.r8 = call[5];
        copy.r9 = call[6];
        copy
    }

    /// The OS error number a syscall failed with: Linux returns `-errno`,
    /// which lies in `-4095..=-1`; any other value is a success.
    pub fn syscall_errno(&self) -> (r: Option<i32>)
        ensures
            r == (if -4095 <= #[verifier::truncate] (self.rax as i64) < 0 {
                Some((-(#[verifier::truncate] (self.rax as i64))) as i32)
            } else {
                None::<i32>
            }),
    {
        let ret = self.syscall_ret();
        if -4095 <= ret && ret < 0 {
            Some((-ret) as i32)
        } else {
            None
        }
    }

    /// The value a syscall returned, read as a signed number: a negative
    /// value is the negated OS error number.
    pub fn syscall_ret(&self) -> (r: i64)
        ensures
            r == #[verifier::truncate] (self.rax as i64),
    {
        #[verifier::truncate] (self.rax as i64)
    }
}

} // verus!
