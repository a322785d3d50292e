use vstd::prelude::*;

verus! {

/// An operation on a traced thread that the OS trace facility can reject.
#[derive(Clone, Copy, Debug, PartialEq, Eq, Structural)]
pub enum TraceOp {
    Attach,
    Detach,
    GetRegs,
    SetRegs,
    ReadText,
    WriteText,
    Resume,
    Wait,
}

/// A stop of the traced main thread that the syscall protocol does not expect.
#[derive(Clone, Copy, Debug, PartialEq, Eq, Structural)]
pub enum Violation {
    /// A ptrace event stop (fork, exec, ...).
    PtraceEvent,
    /// A syscall stop reported with the `PTRACE_O_TRACESYSGOOD` marker.
    PtraceSyscall,
    /// `waitpid` reported that the thread is still running.
    StillAlive,
    /// The thread stopped on a signal other than the syscall trap.
    StoppedBySignal { signal: i32 },
    /// The process exited.
    Exited { status: i32 },
    /// The process was killed by a signal.
    Signaled { signal: i32 },
    /// The syscall finished at an instruction pointer other than the one just
    /// past the patched instruction.
    Misplaced { saved: u64, found: u64 },
    /// A stop was reported while no syscall was in flight.
    NoCallInFlight,
}

/// The ways attaching to a VM, injecting syscalls or intercepting MMIO can fail.
#[derive(Clone, Copy, Debug, PartialEq, Eq, Structural)]
pub enum Error {
    /// No VM could be found in the target process.
    NoVm,
    /// The VM could not be paused.
    PauseFailed,
    /// The VM could not be resumed.
    ResumeFailed,
    /// Building the guest memory view or the emulated device failed.
    DeviceSetup,
    /// The watchdog thread could not be started.
    WatchdogSpawn,
    /// Waiting for the next VM exit failed.
    ExitWait,
    /// The emulated device's state could not be read.
    DeviceState,
    /// The device emulator rejected an access inside its window.
    MmioDispatch { addr: u64 },
    /// The trace facility rejected an operation on a thread.
    Trace { op: TraceOp, tid: i32 },
    /// The traced thread stopped in a way the syscall protocol does not allow.
    Protocol(Violation),
    /// The thread list handed over does not hold the process's own id.
    NoMainThread,
    /// A syscall is already in flight on this process.
    Busy,
    /// No syscall result is waiting to be collected.
    NotCollecting,
}

} // verus!
