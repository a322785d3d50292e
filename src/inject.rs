use vstd::prelude::*;

use crate::error::{Error, Violation};
use crate::regs::{syscall_image, Regs, SYSCALL_SIZE};

verus! {

/// Signal number of `SIGTRAP`, the stop that the syscall trace protocol delivers.
pub const SIGTRAP: i32 = 5;

/// x86-64 syscall numbers of the calls that a [`Process`] can inject.
pub const SYS_CLOSE: u64 = 3;
pub const SYS_MMAP: u64 = 9;
pub const SYS_MUNMAP: u64 = 11;
pub const SYS_IOCTL: u64 = 16;
pub const SYS_GETPID: u64 = 39;
pub const SYS_SOCKET: u64 = 41;
pub const SYS_CONNECT: u64 = 42;
pub const SYS_RECVMSG: u64 = 47;
pub const SYS_BIND: u64 = 49;
pub const SYS_USERFAULTFD: u64 = 323;

/// What `waitpid` reported about the traced main thread.
#[derive(Clone, Copy, Debug, PartialEq, Eq, Structural)]
pub enum WaitEvent {
    PtraceEvent,
    PtraceSyscall,
    StillAlive,
    Continued,
    Stopped { signal: i32 },
    Exited { status: i32 },
    Signaled { signal: i32 },
}

/// Where an injected syscall stands.
#[derive(Clone, Copy, Debug, PartialEq, Eq, Structural)]
pub enum Phase {
    /// No syscall in flight.
    Idle,
    /// The thread was resumed and should stop at the syscall entry.
    EntryPending,
    /// The thread was resumed past the entry and should stop at the exit.
    ExitPending,
    /// The thread stopped at the exit; its registers hold the result.
    Collecting,
}

/// What the driver must do after a stop of the main thread.
#[derive(Clone, Copy, Debug, PartialEq, Eq, Structural)]
pub enum Step {
    /// Resume the main thread to the next syscall stop and wait for it.
    Resume,
    /// Read the main thread's registers and hand them to [`Process::finish`].
    Collect,
    /// Give up on this syscall.
    Abort(Violation),
}

/// The values to write back on release: the unpatched word at `addr` and the
/// registers from before the first injected call.
#[derive(Clone, Copy, Debug, PartialEq, Eq, Structural)]
pub struct Release {
    pub addr: u64,
    pub text: u64,
    pub regs: Regs,
}

/// The violation that a stop other than the syscall trap stands for.
pub open spec fn violation_of(event: WaitEvent) -> Violation {
    match event {
        WaitEvent::PtraceEvent => Violation::PtraceEvent,
        WaitEvent::PtraceSyscall => Violation::PtraceSyscall,
        WaitEvent::StillAlive => Violation::StillAlive,
        WaitEvent::Stopped { signal } => Violation::StoppedBySignal { signal },
        WaitEvent::Exited { status } => Violation::Exited { status },
        WaitEvent::Signaled { signal } => Violation::Signaled { signal },
        WaitEvent::Continued => Violation::NoCallInFlight,
    }
}

/// The double-trap protocol: the phase after a stop, and what to do next.
pub open spec fn transition(phase: Phase, event: WaitEvent) -> (Phase, Step) {
    match phase {
        Phase::EntryPending | Phase::ExitPending => match event {
            WaitEvent::Stopped { signal } if signal == SIGTRAP => if phase == Phase::EntryPending {
                (Phase::ExitPending, Step::Resume)
            } else {
                (Phase::Collecting, Step::Collect)
            },
            WaitEvent::Continued => (Phase::EntryPending, Step::Resume),
            _ => (Phase::Idle, Step::Abort(violation_of(event))),
        },
        _ => (phase, Step::Abort(Violation::NoCallInFlight)),
    }
}

/// The unpatched instruction word and saved registers of `p`'s main thread, at the
/// address that was patched.
pub open spec fn release_of(p: Process) -> Release {
    Release { addr: p.saved_regs().rip, text: p.saved_text(), regs: p.saved_regs() }
}

/// What to do while waiting for the main thread to reach a syscall stop
/// on its own.
#[derive(Clone, Copy, Debug, PartialEq, Eq, Structural)]
pub enum AwaitStep {
    /// Wait for the next stop.
    KeepWaiting,
    /// Read the stop's signal info and decide with [`is_syscall_trap`].
    InspectSiginfo,
    /// Give up waiting.
    Abort(Violation),
}

/// What waiting for a syscall stop does on `event`.
pub open spec fn await_spec(event: WaitEvent) -> AwaitStep {
    match event {
        WaitEvent::Continued => AwaitStep::KeepWaiting,
        WaitEvent::Stopped { .. } => AwaitStep::InspectSiginfo,
        _ => AwaitStep::Abort(violation_of(event)),
    }
}

/// Decides on one `waitpid` report while waiting for the main thread to stop
/// at a syscall.
pub fn await_step(event: WaitEvent) -> (r: AwaitStep)
    ensures
        r == await_spec(event),
{
    match event {
        WaitEvent::Continued => AwaitStep::KeepWaiting,
        WaitEvent::Stopped { .. } => AwaitStep::InspectSiginfo,
        WaitEvent::PtraceEvent => AwaitStep::Abort(Violation::PtraceEvent),
        WaitEvent::PtraceSyscall => AwaitStep::Abort(Violation::PtraceSyscall),
        WaitEvent::StillAlive => AwaitStep::Abort(Violation::StillAlive),
        WaitEvent::Exited { status } => AwaitStep::Abort(Violation::Exited { status }),
        WaitEvent::Signaled { signal } => AwaitStep::Abort(Violation::Signaled { signal }),
    }
}

/// Whether a stop's `si_code` marks a syscall trap: plain `SIGTRAP`, or
/// `SIGTRAP | 0x80` as `PTRACE_O_TRACESYSGOOD` reports it.
pub fn is_syscall_trap(si_code: i32) -> (r: bool)
    ensures
        r == (si_code == SIGTRAP || si_code == SIGTRAP + 0x80),
{
    si_code == SIGTRAP || si_code == SIGTRAP + 0x80
}

/// An injection session on one traced process: its attached threads, the
/// designated main thread, and the registers and instruction word saved when
/// the main thread's instruction was patched.
pub struct Process {
    process_idx: usize,
    saved_regs: Regs,
    saved_text: u64,
    threads: Vec<i32>,
    phase: Phase,
}

impl Process {
    #[verifier::type_invariant]
    spec fn main_in_range(&self) -> bool {
        self.process_idx < self.threads.len()
    }

    /// Ids of all attached threads.
    pub closed spec fn thread_ids(&self) -> Seq<i32> {
        self.threads@
    }

    /// Id of the thread that executes injected syscalls.
    pub closed spec fn main_tid(&self) -> i32 {
        self.threads@[self.process_idx as int]
    }

    /// The main thread's registers when it was patched.
    pub closed spec fn saved_regs(&self) -> Regs {
        self.saved_regs
    }

    /// The instruction word that the patch replaced.
    pub closed spec fn saved_text(&self) -> u64 {
        self.saved_text
    }

    pub closed spec fn phase(&self) -> Phase {
        self.phase
    }

    /// `self` is the same session as `other`: same threads, same saved state.
    pub open spec fn same_session(&self, other: Process) -> bool {
        &&& self.thread_ids() == other.thread_ids()
        &&& self.main_tid() == other.main_tid()
        &&& self.saved_regs() == other.saved_regs()
        &&& self.saved_text() == other.saved_text()
    }

    /// What starting syscall `call` on `before` does: outside a call it yields
    /// the register image and awaits the entry stop; during a call it is
    /// refused and changes nothing.
    pub open spec fn started(before: Process, after: Process, call: Seq<u64>, r: Result<Regs, Error>) -> bool {
        if before.phase() == Phase::Idle {
            &&& r == Ok::<Regs, Error>(syscall_image(before.saved_regs(), call))
            &&& after.phase() == Phase::EntryPending
            &&& after.same_session(before)
        } else {
            &&& r == Err::<Regs, Error>(Error::Busy)
            &&& after == before
        }
    }

    /// A session over the attached `threads`, whose main thread is the one
    /// with id `pid`; `saved_regs` and `saved_text` are that thread's
    /// registers and the word at its instruction pointer before patching.
    pub fn new(threads: Vec<i32>, pid: i32, saved_regs: Regs, saved_text: u64) -> (r: Result<Process, Error>)
        ensures
            r is Ok <==> threads@.contains(pid),
            r matches Err(e) ==> e == Error::NoMainThread,
            r matches Ok(p) ==> {
                &&& p.thread_ids() == threads@
                &&& p.main_tid() == pid
                &&& p.saved_regs() == saved_regs
                &&& p.saved_text() == saved_text
                &&& p.phase() == Phase::Idle
            },
    {
        let mut i: usize = 0;
        while i < threads.len()
            invariant
                i <= threads.len(),
                forall|j: int| 0 <= j < i ==> threads@[j] != pid,
            decreases threads.len() - i,
        {
            if threads[i] == pid {
                return Ok(Process { process_idx: i, saved_regs, saved_text, threads, phase: Phase::Idle });
            }
            i = i + 1;
        }
        Err(Error::NoMainThread)
    }

    /// Id of the thread that executes injected syscalls.
    pub fn main_thread(&self) -> (r: i32)
        ensures
            r == self.main_tid(),
    {
        proof {
            use_type_invariant(self);
        }
        self.threads[self.process_idx]
    }

    /// Ids of all attached threads.
    pub fn threads(&self) -> (r: &Vec<i32>)
        ensures
            r@ == self.thread_ids(),
    {
        &self.threads
    }

    /// Where the current syscall stands.
    pub fn current_phase(&self) -> (r: Phase)
        ensures
            r == self.phase(),
    {
        self.phase
    }

    /// Starts syscall `call[0]` with arguments `call[1..7]`: returns the
    /// register image to write to the main thread before resuming it.
    pub fn start(&mut self, call: &[u64; 7]) -> (r: Result<Regs, Error>)
        ensures
            Process::started(*old(self), *final(self), call@, r),
    {
        if self.phase != Phase::Idle {
            return Err(Error::Busy);
        }
        proof {
            use_type_invariant(&*self);
        }
        self.phase = Phase::EntryPending;
        Ok(self.saved_regs.prepare_syscall(call))
    }

    /// Starts `ioctl(fd, request, arg)`.
    pub fn ioctl(&mut self, fd: i32, request: u64, arg: u64) -> (r: Result<Regs, Error>)
        ensures
            Process::started(*old(self), *final(self), seq![SYS_IOCTL, #[verifier::truncate] (fd as u64), request, arg, 0, 0, 0], r),
    {
        let call: [u64; 7] = [SYS_IOCTL, #[verifier::truncate] (fd as u64), request, arg, 0, 0, 0];
        assert(call@ =~= seq![SYS_IOCTL, #[verifier::truncate] (fd as u64), request, arg, 0, 0, 0]);
        self.start(&call)
    }

    /// Starts `getpid()`.
    pub fn getpid(&mut self) -> (r: Result<Regs, Error>)
        ensures
            Process::started(*old(self), *final(self), seq![SYS_GETPID, 0, 0, 0, 0, 0, 0], r),
    {
        let call: [u64; 7] = [SYS_GETPID, 0, 0, 0, 0, 0, 0];
        assert(call@ =~= seq![SYS_GETPID, 0, 0, 0, 0, 0, 0]);
        self.start(&call)
    }

    /// Starts `mmap(addr, length, prot, flags, fd, offset)`.
    pub fn mmap(&mut self, addr: u64, length: usize, prot: i32, flags: i32, fd: i32, offset: i64) -> (r: Result<Regs, Error>)
        ensures
            Process::started(*old(self), *final(self), seq![SYS_MMAP, addr, length as u64, #[verifier::truncate] (prot as u64), #[verifier::truncate] (flags as u64), #[verifier::truncate] (fd as u64), #[verifier::truncate] (offset as u64)], r),
    {
        let call: [u64; 7] = [SYS_MMAP, addr, length as u64, #[verifier::truncate] (prot as u64), #[verifier::truncate] (flags as u64), #[verifier::truncate] (fd as u64), #[verifier::truncate] (offset as u64)];
        assert(call@ =~= seq![SYS_MMAP, addr, length as u64, #[verifier::truncate] (prot as u64), #[verifier::truncate] (flags as u64), #[verifier::truncate] (fd as u64), #[verifier::truncate] (offset as u64)]);
        self.start(&call)
    }

    /// Starts `munmap(addr, length)`.
    pub fn munmap(&mut self, addr: u64, length: usize) -> (r: Result<Regs, Error>)
        ensures
            Process::started(*old(self), *final(self), seq![SYS_MUNMAP, addr, length as u64, 0, 0, 0, 0], r),
    {
        let call: [u64; 7] = [SYS_MUNMAP, addr, length as u64, 0, 0, 0, 0];
        assert(call@ =~= seq![SYS_MUNMAP, addr, length as u64, 0, 0, 0, 0]);
        self.start(&call)
    }

    /// Starts `socket(domain, ty, protocol)`.
    pub fn socket(&mut self, domain: i32, ty: i32, protocol: i32) -> (r: Result<Regs, Error>)
        ensures
            Process::started(*old(self), *final(self), seq![SYS_SOCKET, #[verifier::truncate] (domain as u64), #[verifier::truncate] (ty as u64), #[verifier::truncate] (protocol as u64), 0, 0, 0], r),
    {
        let call: [u64; 7] = [SYS_SOCKET, #[verifier::truncate] (domain as u64), #[verifier::truncate] (ty as u64), #[verifier::truncate] (protocol as u64), 0, 0, 0];
        assert(call@ =~= seq![SYS_SOCKET, #[verifier::truncate] (domain as u64), #[verifier::truncate] (ty as u64), #[verifier::truncate] (protocol as u64), 0, 0, 0]);
        self.start(&call)
    }

    /// Starts `close(fd)`.
    pub fn close(&mut self, fd: i32) -> (r: Result<Regs, Error>)
        ensures
            Process::started(*old(self), *final(self), seq![SYS_CLOSE, #[verifier::truncate] (fd as u64), 0, 0, 0, 0, 0], r),
    {
        let call: [u64; 7] = [SYS_CLOSE, #[verifier::truncate] (fd as u64), 0, 0, 0, 0, 0];
        assert(call@ =~= seq![SYS_CLOSE, #[verifier::truncate] (fd as u64), 0, 0, 0, 0, 0]);
        self.start(&call)
    }

    /// Starts `bind(socket, address, address_len)`; `address` lies in the target's memory.
    pub fn bind(&mut self, socket: i32, address: u64, address_len: u32) -> (r: Result<Regs, Error>)
        ensures
            Process::started(*old(self), *final(self), seq![SYS_BIND, #[verifier::truncate] (socket as u64), address, address_len as u64, 0, 0, 0], r),
    {
        let call: [u64; 7] = [SYS_BIND, #[verifier::truncate] (socket as u64), address, address_len as u64, 0, 0, 0];
        assert(call@ =~= seq![SYS_BIND, #[verifier::truncate] (socket as u64), address, address_len as u64, 0, 0, 0]);
        self.start(&call)
    }

    /// Starts `connect(socket, address, len)`; `address` lies in the target's memory.
    pub fn connect(&mut self, socket: i32, address: u64, len: u32) -> (r: Result<Regs, Error>)
        ensures
            Process::started(*old(self), *final(self), seq![SYS_CONNECT, #[verifier::truncate] (socket as u64), address, len as u64, 0, 0, 0], r),
    {
        let call: [u64; 7] = [SYS_CONNECT, #[verifier::truncate] (socket as u64), address, len as u64, 0, 0, 0];
        assert(call@ =~= seq![SYS_CONNECT, #[verifier::truncate] (socket as u64), address, len as u64, 0, 0, 0]);
        self.start(&call)
    }

    /// Starts `recvmsg(fd, msg, flags)`; `msg` lies in the target's memory.
    pub fn recvmsg(&mut self, fd: i32, msg: u64, flags: i32) -> (r: Result<Regs, Error>)
        ensures
            Process::started(*old(self), *final(self), seq![SYS_RECVMSG, #[verifier::truncate] (fd as u64), msg, #[verifier::truncate] (flags as u64), 0, 0, 0], r),
    {
        let call: [u64; 7] = [SYS_RECVMSG, #[verifier::truncate] (fd as u64), msg, #[verifier::truncate] (flags as u64), 0, 0, 0];
        assert(call@ =~= seq![SYS_RECVMSG, #[verifier::truncate] (fd as u64), msg, #[verifier::truncate] (flags as u64), 0, 0, 0]);
        self.start(&call)
    }

    /// Starts `userfaultfd(flags)`.
    pub fn userfaultfd(&mut self, flags: i32) -> (r: Result<Regs, Error>)
        ensures
            Process::started(*old(self), *final(self), seq![SYS_USERFAULTFD, #[verifier::truncate] (flags as u64), 0, 0, 0, 0, 0], r),
    {
        let call: [u64; 7] = [SYS_USERFAULTFD, #[verifier::truncate] (flags as u64), 0, 0, 0, 0, 0];
        assert(call@ =~= seq![SYS_USERFAULTFD, #[verifier::truncate] (flags as u64), 0, 0, 0, 0, 0]);
        self.start(&call)
    }

    /// Takes the next stop of the main thread and says what to do.
    pub fn on_stop(&mut self, event: WaitEvent) -> (r: Step)
        ensures
            (final(self).phase(), r) == transition(old(self).phase(), event),
            final(self).same_session(*old(self)),
    {
        let (next, step) = match self.phase {
            Phase::EntryPending | Phase::ExitPending => match event {
                WaitEvent::Stopped { signal } if signal == SIGTRAP => if self.phase == Phase::EntryPending {
                    (Phase::ExitPending, Step::Resume)
                } else {
                    (Phase::Collecting, Step::Collect)
                },
                WaitEvent::Continued => (Phase::EntryPending, Step::Resume),
                WaitEvent::PtraceEvent => (Phase::Idle, Step::Abort(Violation::PtraceEvent)),
                WaitEvent::PtraceSyscall => (Phase::Idle, Step::Abort(Violation::PtraceSyscall)),
                WaitEvent::StillAlive => (Phase::Idle, Step::Abort(Violation::StillAlive)),
                WaitEvent::Stopped { signal } => (Phase::Idle, Step::Abort(Violation::StoppedBySignal { signal })),
                WaitEvent::Exited { status } => (Phase::Idle, Step::Abort(Violation::Exited { status })),
                WaitEvent::Signaled { signal } => (Phase::Idle, Step::Abort(Violation::Signaled { signal })),
            },
            _ => (self.phase, Step::Abort(Violation::NoCallInFlight)),
        };
        proof {
            use_type_invariant(&*self);
        }
        self.phase = next;
        step
    }

    /// Ends the syscall in flight with the main thread's registers at the exit
    /// stop: the syscall's return value, provided the thread stopped just past
    /// the patched instruction.
    pub fn finish(&mut self, result: &Regs) -> (r: Result<i64, Error>)
        ensures
            old(self).phase() != Phase::Collecting ==> r == Err::<i64, Error>(Error::NotCollecting)
                && *final(self) == *old(self),
            old(self).phase() == Phase::Collecting ==> {
                &&& final(self).phase() == Phase::Idle
                &&& final(self).same_session(*old(self))
                &&& result.rip as int == old(self).saved_regs().rip + SYSCALL_SIZE ==> r
                    == Ok::<i64, Error>(#[verifier::truncate] (result.rax as i64))
                &&& result.rip as int != old(self).saved_regs().rip + SYSCALL_SIZE ==> r
                    == Err::<i64, Error>(
                    Error::Protocol(
                        Violation::Misplaced { saved: old(self).saved_regs().rip, found: result.rip },
                    ),
                )
            },
    {
        if self.phase != Phase::Collecting {
            return Err(Error::NotCollecting);
        }
        proof {
            use_type_invariant(&*self);
        }
        self.phase = Phase::Idle;
        if result.rip >= SYSCALL_SIZE && result.rip - SYSCALL_SIZE == self.saved_regs.rip {
            Ok(result.syscall_ret())
        } else {
            Err(Error::Protocol(Violation::Misplaced { saved: self.saved_regs.rip, found: result.rip }))
        }
    }

    /// Ends the syscall in flight after the trace facility failed on it.
    pub fn abort(&mut self)
        ensures
            final(self).phase() == Phase::Idle,
            final(self).same_session(*old(self)),
    {
        proof {
            use_type_invariant(&*self);
        }
        self.phase = Phase::Idle;
    }

    /// What must be written back to the main thread to undo the patch.
    pub fn release(&self) -> (r: Release)
        ensures
            r == release_of(*self),
    {
        Release { addr: self.saved_regs.rip, text: self.saved_text, regs: self.saved_regs }
    }
}

/// Release is a round trip: a session created from registers `regs` and
/// instruction word `text`, whatever calls, stops and failures it went
/// through since (each keeps the same session), writes back exactly `text`
/// at the saved instruction pointer and exactly `regs`.
pub proof fn lemma_release_round_trip(created: Process, later: Process, regs: Regs, text: u64)
    requires
        created.saved_regs() == regs,
        created.saved_text() == text,
        later.same_session(created),
    ensures
        release_of(later) == (Release { addr: regs.rip, text, regs }),
{
}

/// Syscalls never interleave: while one is in flight, starting another is
/// refused with `Busy` and leaves the session as it was.
pub proof fn lemma_one_call_in_flight(before: Process, after: Process, call: Seq<u64>, r: Result<Regs, Error>)
    requires
        before.phase() != Phase::Idle,
        Process::started(before, after, call, r),
    ensures
        r == Err::<Regs, Error>(Error::Busy),
        after == before,
{
}

} // verus!
