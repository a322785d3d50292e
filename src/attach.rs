use vstd::prelude::*;

use crate::error::Error;
use crate::mmio::DeviceWindow;

verus! {

/// What to attach to: the hypervisor process and the file that backs the
/// emulated block device.
pub struct AttachOptions {
    pub pid: i32,
    pub backing: String,
}

/// Where an attach session stands; each stage but `Over` waits for the
/// outcome of one action.
#[derive(Clone, Copy, Debug)]
pub enum Stage {
    Resolving,
    Pausing,
    Building,
    Spawning,
    Waiting,
    Dispatching { addr: u64 },
    CheckingReady,
    /// Resuming the VM; `error` is the failure that ended interception, if any.
    Resuming { error: Option<Error> },
    Blocked,
    Joining,
    Over { error: Option<Error> },
}

/// The outcome of the action last asked for.
#[derive(Clone, Copy, Debug, PartialEq, Eq, Structural)]
pub enum Event {
    /// The action succeeded.
    Done,
    /// The action failed.
    Failed,
    /// The VM exited on an MMIO access at `addr`.
    MmioExit { addr: u64 },
    /// The VM exited for another reason.
    OtherExit,
    /// The device's selected queue is (or is not yet) ready.
    Ready { ready: bool },
}

/// What the driver must do next.
#[derive(Clone, Copy, Debug, PartialEq, Eq, Structural)]
pub enum Action {
    ResolveVm,
    PauseVm,
    BuildDevice,
    SpawnWatchdog,
    WaitExit,
    /// Hand the access at `addr` to the device emulator.
    Dispatch { addr: u64 },
    /// Read the ready flag of the device's selected queue.
    CheckReady,
    ResumeVm,
    AwaitTeardown,
    JoinWatchdog,
    Finished,
    Failed(Error),
}

/// The VM is paused by this session while it waits in `stage`.
pub open spec fn vm_paused(stage: Stage) -> bool {
    match stage {
        Stage::Building | Stage::Spawning | Stage::Waiting | Stage::Dispatching { .. }
        | Stage::CheckingReady => true,
        _ => false,
    }
}

/// The next stage and action after `event` in `stage`; an event other than
/// the one the stage waits for counts as a failure of its action.
pub open spec fn next(window: DeviceWindow, stage: Stage, event: Event) -> (Stage, Action) {
    match stage {
        Stage::Resolving => match event {
            Event::Done => (Stage::Pausing, Action::PauseVm),
            _ => (Stage::Over { error: Some(Error::NoVm) }, Action::Failed(Error::NoVm)),
        },
        Stage::Pausing => match event {
            Event::Done => (Stage::Building, Action::BuildDevice),
            _ => (Stage::Over { error: Some(Error::PauseFailed) }, Action::Failed(Error::PauseFailed)),
        },
        Stage::Building => match event {
            Event::Done => (Stage::Spawning, Action::SpawnWatchdog),
            _ => (Stage::Resuming { error: Some(Error::DeviceSetup) }, Action::ResumeVm),
        },
        Stage::Spawning => match event {
            Event::Done => (Stage::Waiting, Action::WaitExit),
            _ => (Stage::Resuming { error: Some(Error::WatchdogSpawn) }, Action::ResumeVm),
        },
        Stage::Waiting => match event {
            Event::MmioExit { addr } => if window.contains_spec(addr) {
                (Stage::Dispatching { addr }, Action::Dispatch { addr })
            } else {
                (Stage::CheckingReady, Action::CheckReady)
            },
            Event::OtherExit => (Stage::Waiting, Action::WaitExit),
            _ => (Stage::Resuming { error: Some(Error::ExitWait) }, Action::ResumeVm),
        },
        Stage::Dispatching { addr } => match event {
            Event::Done => (Stage::CheckingReady, Action::CheckReady),
            _ => (Stage::Resuming { error: Some(Error::MmioDispatch { addr }) }, Action::ResumeVm),
        },
        Stage::CheckingReady => match event {
            Event::Ready { ready } => if ready {
                (Stage::Resuming { error: None }, Action::ResumeVm)
            } else {
                (Stage::Waiting, Action::WaitExit)
            },
            _ => (Stage::Resuming { error: Some(Error::DeviceState) }, Action::ResumeVm),
        },
        Stage::Resuming { error } => match (event, error) {
            (Event::Done, None) => (Stage::Blocked, Action::AwaitTeardown),
            (Event::Done, Some(e)) => (Stage::Over { error: Some(e) }, Action::Failed(e)),
            (_, Some(e)) => (Stage::Over { error: Some(e) }, Action::Failed(e)),
            (_, None) => (Stage::Over { error: Some(Error::ResumeFailed) }, Action::Failed(Error::ResumeFailed)),
        },
        Stage::Blocked => (Stage::Joining, Action::JoinWatchdog),
        Stage::Joining => (Stage::Over { error: None }, Action::Finished),
        Stage::Over { error } => match error {
            Some(e) => (stage, Action::Failed(e)),
            None => (stage, Action::Finished),
        },
    }
}

/// An attach session: pauses the VM, installs the emulated device, routes
/// the guest's accesses in the device window to it until the driver has made
/// the device's queue ready, then resumes the VM and waits for teardown.
pub struct Attach {
    window: DeviceWindow,
    stage: Stage,
}

impl Attach {
    pub closed spec fn window(&self) -> DeviceWindow {
        self.window
    }

    pub closed spec fn stage(&self) -> Stage {
        self.stage
    }

    /// A session for a device answering `window`, and its first action.
    pub fn new(window: DeviceWindow) -> (r: (Attach, Action))
        ensures
            r.0.window() == window,
            r.0.stage() == Stage::Resolving,
            r.1 == Action::ResolveVm,
    {
        (Attach { window, stage: Stage::Resolving }, Action::ResolveVm)
    }

    /// The stage the session waits in.
    pub fn current_stage(&self) -> (r: Stage)
        ensures
            r == self.stage(),
    {
        self.stage
    }

    /// Takes the outcome of the last action and says what to do next.
    pub fn step(&mut self, event: Event) -> (r: Action)
        ensures
            final(self).window() == old(self).window(),
            (final(self).stage(), r) == next(old(self).window(), old(self).stage(), event),
    {
        let (stage, action) = match self.stage {
            Stage::Resolving => match event {
                Event::Done => (Stage::Pausing, Action::PauseVm),
                _ => (Stage::Over { error: Some(Error::NoVm) }, Action::Failed(Error::NoVm)),
            },
            Stage::Pausing => match event {
                Event::Done => (Stage::Building, Action::BuildDevice),
                _ => (Stage::Over { error: Some(Error::PauseFailed) }, Action::Failed(Error::PauseFailed)),
            },
            Stage::Building => match event {
                Event::Done => (Stage::Spawning, Action::SpawnWatchdog),
                _ => (Stage::Resuming { error: Some(Error::DeviceSetup) }, Action::ResumeVm),
            },
            Stage::Spawning => match event {
                Event::Done => (Stage::Waiting, Action::WaitExit),
                _ => (Stage::Resuming { error: Some(Error::WatchdogSpawn) }, Action::ResumeVm),
            },
            Stage::Waiting => match event {
                Event::MmioExit { addr } => if self.window.contains(addr) {
                    (Stage::Dispatching { addr }, Action::Dispatch { addr })
                } else {
                    (Stage::CheckingReady, Action::CheckReady)
                },
                Event::OtherExit => (Stage::Waiting, Action::WaitExit),
                _ => (Stage::Resuming { error: Some(Error::ExitWait) }, Action::ResumeVm),
            },
            Stage::Dispatching { addr } => match event {
                Event::Done => (Stage::CheckingReady, Action::CheckReady),
                _ => (Stage::Resuming { error: Some(Error::MmioDispatch { addr }) }, Action::ResumeVm),
            },
            Stage::CheckingReady => match event {
                Event::Ready { ready } => if ready {
                    (Stage::Resuming { error: None }, Action::ResumeVm)
                } else {
                    (Stage::Waiting, Action::WaitExit)
                },
                _ => (Stage::Resuming { error: Some(Error::DeviceState) }, Action::ResumeVm),
            },
            Stage::Resuming { error } => match (event, error) {
                (Event::Done, None) => (Stage::Blocked, Action::AwaitTeardown),
                (Event::Done, Some(e)) => (Stage::Over { error: Some(e) }, Action::Failed(e)),
                (_, Some(e)) => (Stage::Over { error: Some(e) }, Action::Failed(e)),
                (_, None) => (Stage::Over { error: Some(Error::ResumeFailed) }, Action::Failed(Error::ResumeFailed)),
            },
            Stage::Blocked => (Stage::Joining, Action::JoinWatchdog),
            Stage::Joining => (Stage::Over { error: None }, Action::Finished),
            Stage::Over { error } => match error {
                Some(e) => (self.stage, Action::Failed(e)),
                None => (self.stage, Action::Finished),
            },
        };
        self.stage = stage;
        action
    }
}

/// An access is handed to the device emulator only if its address lies in
/// the device window: whatever the stage and event, a `Dispatch` that the
/// session asks for names an address inside the window, so an access outside
/// it never reaches the emulator.
pub proof fn lemma_dispatch_only_inside(window: DeviceWindow, stage: Stage, event: Event)
    ensures
        next(window, stage, event).1 matches Action::Dispatch { addr } ==> window.contains_spec(addr),
        event matches Event::MmioExit { addr } && !window.contains_spec(addr) ==> !(next(
            window,
            stage,
            event,
        ).1 is Dispatch),
{
}

/// The VM is never left paused: from a stage in which the session holds the
/// VM paused, every event leads to a stage that still holds it paused (and
/// keeps working) or to the action that resumes it. In particular no failure
/// is reported while the VM is paused.
pub proof fn lemma_paused_vm_is_resumed(window: DeviceWindow, stage: Stage, event: Event)
    requires
        vm_paused(stage),
    ensures
        vm_paused(next(window, stage, event).0) || next(window, stage, event).1 == Action::ResumeVm,
        !(next(window, stage, event).1 is Failed),
{
}

} // verus!
