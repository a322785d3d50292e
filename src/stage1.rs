use vstd::prelude::*;

verus! {

/// The loader module is sent to the guest in blocks of this many bytes.
pub const BLOCK_SIZE: usize = 512;

/// Signal number of `SIGTERM`.
pub const SIGTERM: i32 = 15;

/// The loaded guest-side driver; dropping it in the driver program unloads it
/// again over the same ssh connection.
#[derive(Debug)]
pub struct Stage1 {
    ssh_args: String,
}

impl Stage1 {
    pub closed spec fn ssh_args_spec(&self) -> Seq<char> {
        self.ssh_args@
    }

    /// A loaded driver reachable with the ssh arguments `ssh_args`.
    pub fn new(ssh_args: String) -> (r: Stage1)
        ensures
            r.ssh_args_spec() == ssh_args@,
    {
        Stage1 { ssh_args }
    }

    /// The ssh arguments the driver was loaded with.
    pub fn ssh_args(&self) -> (r: &str)
        ensures
            r@ == self.ssh_args_spec(),
    {
        self.ssh_args.as_str()
    }
}

/// Why loading or unloading the guest driver failed.
#[derive(Clone, Copy, Debug, PartialEq, Eq, Structural)]
pub enum Stage1Error {
    /// The ssh command exited with a non-zero status.
    SshFailed { status: i32 },
    /// The ssh command was terminated although nobody asked it to stop.
    SshTerminated,
    /// `waitpid` reported something else about the ssh command.
    UnexpectedWait,
    /// The ssh command was killed by a signal.
    SshSignaled,
}

/// How the ssh command that loads the driver stands.
#[derive(Clone, Copy, Debug, PartialEq, Eq, Structural)]
pub enum SshStatus {
    StillAlive,
    Exited { status: i32 },
    Signaled { signal: i32 },
    Other,
}

/// What to do after polling the ssh command.
#[derive(Clone, Copy, Debug, PartialEq, Eq, Structural)]
pub enum SshStep {
    /// Sleep a little and poll again.
    Poll,
    /// The driver is loaded, or loading was stopped as asked.
    Done,
    Fail(Stage1Error),
}

/// `size` rounded up to a whole number of blocks.
pub open spec fn padded_size_spec(size: int) -> int {
    ((size + 511) / 512) * 512
}

/// Number of bytes that the payload of `size` bytes takes once padded.
pub fn padded_size(size: usize) -> (r: usize)
    requires
        size + 511 <= usize::MAX,
    ensures
        r == padded_size_spec(size as int),
        size <= r < size + 512,
        r % 512 == 0,
{
    let blocks = (size + (BLOCK_SIZE - 1)) / BLOCK_SIZE;
    proof {
        let n = size as int + 511;
        assert(blocks as int * 512 <= n && n < blocks as int * 512 + 512) by (nonlinear_arith)
            requires
                blocks as int == n / 512,
                n >= 0,
        ;
        assert((blocks as int * 512) % 512 == 0) by (nonlinear_arith);
    }
    blocks * BLOCK_SIZE
}

/// The payload followed by zeros up to a whole number of blocks.
pub fn pad_payload(bytes: &Vec<u8>) -> (r: Vec<u8>)
    requires
        bytes.len() + 511 <= usize::MAX,
    ensures
        r.len() == padded_size_spec(bytes.len() as int),
        r@.subrange(0, bytes.len() as int) == bytes@,
        forall|i: int| bytes.len() <= i < r.len() ==> r@[i] == 0,
{
    let total = padded_size(bytes.len());
    let mut out: Vec<u8> = Vec::new();
    let mut i: usize = 0;
    while i < total
        invariant
            i <= total,
            total == padded_size_spec(bytes.len() as int),
            bytes.len() <= total,
            out.len() == i,
            forall|j: int| 0 <= j < i && j < bytes.len() ==> out@[j] == bytes@[j],
            forall|j: int| bytes.len() <= j < i ==> out@[j] == 0,
        decreases total - i,
    {
        if i < bytes.len() {
            out.push(bytes[i]);
        } else {
            out.push(0);
        }
        i = i + 1;
    }
    assert(out@.subrange(0, bytes.len() as int) =~= bytes@);
    out
}

/// Decides after a poll of the ssh command that loads the driver.
/// `should_stop` says that loading was asked to stop, so the command was
/// sent `SIGTERM` before this poll.
pub fn ssh_wait_step(should_stop: bool, status: SshStatus) -> (r: SshStep)
    ensures
        r == match status {
            SshStatus::StillAlive => SshStep::Poll,
            SshStatus::Exited { status } => if status == 0 {
                SshStep::Done
            } else {
                SshStep::Fail(Stage1Error::SshFailed { status })
            },
            SshStatus::Signaled { signal } => if signal == SIGTERM && should_stop {
                SshStep::Done
            } else if signal == SIGTERM {
                SshStep::Fail(Stage1Error::SshTerminated)
            } else {
                SshStep::Fail(Stage1Error::UnexpectedWait)
            },
            SshStatus::Other => SshStep::Fail(Stage1Error::UnexpectedWait),
        },
{
    match status {
        SshStatus::StillAlive => SshStep::Poll,
        SshStatus::Exited { status } => if status == 0 {
            SshStep::Done
        } else {
            SshStep::Fail(Stage1Error::SshFailed { status })
        },
        SshStatus::Signaled { signal } => if signal == SIGTERM && should_stop {
            SshStep::Done
        } else if signal == SIGTERM {
            SshStep::Fail(Stage1Error::SshTerminated)
        } else {
            SshStep::Fail(Stage1Error::UnexpectedWait)
        },
        SshStatus::Other => SshStep::Fail(Stage1Error::UnexpectedWait),
    }
}

/// The outcome of the ssh command that unloads the driver, from its exit
/// status: its code, or `None` where a signal ended it.
pub fn cleanup_outcome(success: bool, code: Option<i32>) -> (r: Result<(), Stage1Error>)
    ensures
        success ==> r is Ok,
        !success ==> r == match code {
            Some(c) => Err::<(), Stage1Error>(Stage1Error::SshFailed { status: c }),
            None => Err::<(), Stage1Error>(Stage1Error::SshSignaled),
        },
{
    if success {
        return Ok(());
    }
    match code {
        Some(c) => Err(Stage1Error::SshFailed { status: c }),
        None => Err(Stage1Error::SshSignaled),
    }
}

} // verus!
