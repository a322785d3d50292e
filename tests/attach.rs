use vmsh::attach::{Action, Attach, AttachOptions, Event, Stage};
use vmsh::error::Error;
use vmsh::mmio::{DeviceWindow, DEVICE_MAX_MEM, MMIO_MEM_START, MMIO_WINDOW_SIZE};

const B: u64 = 0xd000_0000;
const C: u64 = 0x100;

fn window() -> DeviceWindow {
    DeviceWindow::new(B, 0x1000, C).expect("window fits")
}

fn intercepting() -> Attach {
    let (mut a, first) = Attach::new(window());
    assert_eq!(first, Action::ResolveVm);
    assert_eq!(a.step(Event::Done), Action::PauseVm);
    assert_eq!(a.step(Event::Done), Action::BuildDevice);
    assert_eq!(a.step(Event::Done), Action::SpawnWatchdog);
    assert_eq!(a.step(Event::Done), Action::WaitExit);
    a
}

#[test]
fn mmio_base_is_below_4g_gap() {
    assert_eq!(MMIO_MEM_START, (1u64 << 32) - (768u64 << 20));
    let w = DeviceWindow::block_device();
    assert_eq!(w.base_addr(), MMIO_MEM_START);
    assert_eq!(w.end(), MMIO_MEM_START + MMIO_WINDOW_SIZE + DEVICE_MAX_MEM);
}

#[test]
fn window_bounds() {
    let w = window();
    assert_eq!(w.base_addr(), B);
    assert_eq!(w.end(), B + 0x1000 + C);
    assert!(w.contains(B));
    assert!(w.contains(B + 0x10));
    assert!(w.contains(B + 0x1000 + C - 1));
    assert!(!w.contains(B + 0x1000 + C));
    assert!(!w.contains(B - 1));
    assert!(!w.contains(0));
}

#[test]
fn window_past_address_space_is_refused() {
    assert!(DeviceWindow::new(u64::MAX - 0x10, 0x10, 1).is_none());
    assert!(DeviceWindow::new(u64::MAX - 0x10, 0x10, 0).is_some());
    assert!(DeviceWindow::new(u64::MAX, 1, 0).is_none());
}

#[test]
fn access_in_window_is_dispatched_outside_is_not() {
    let mut a = intercepting();
    assert_eq!(a.step(Event::MmioExit { addr: B + 0x10 }), Action::Dispatch { addr: B + 0x10 });
    assert_eq!(a.step(Event::Done), Action::CheckReady);
    assert_eq!(a.step(Event::Ready { ready: false }), Action::WaitExit);
    assert_eq!(a.step(Event::MmioExit { addr: B + 0x1000 + C + 1 }), Action::CheckReady);
    assert_eq!(a.step(Event::Ready { ready: false }), Action::WaitExit);
    assert_eq!(a.step(Event::MmioExit { addr: B - 4 }), Action::CheckReady);
}

#[test]
fn full_session_resumes_after_ready() {
    let mut a = intercepting();
    assert_eq!(a.step(Event::OtherExit), Action::WaitExit);
    assert_eq!(a.step(Event::MmioExit { addr: B + 0x70 }), Action::Dispatch { addr: B + 0x70 });
    assert_eq!(a.step(Event::Done), Action::CheckReady);
    assert_eq!(a.step(Event::Ready { ready: true }), Action::ResumeVm);
    assert_eq!(a.step(Event::Done), Action::AwaitTeardown);
    assert_eq!(a.step(Event::Done), Action::JoinWatchdog);
    assert_eq!(a.step(Event::Failed), Action::Finished);
    assert!(matches!(a.current_stage(), Stage::Over { error: None }));
    assert_eq!(a.step(Event::Done), Action::Finished);
}

#[test]
fn failures_before_pause_end_at_once() {
    let (mut a, _) = Attach::new(window());
    assert_eq!(a.step(Event::Failed), Action::Failed(Error::NoVm));
    let (mut a, _) = Attach::new(window());
    assert_eq!(a.step(Event::Done), Action::PauseVm);
    assert_eq!(a.step(Event::Failed), Action::Failed(Error::PauseFailed));
}

#[test]
fn failures_while_paused_resume_first() {
    let mut a = intercepting();
    assert_eq!(a.step(Event::MmioExit { addr: B + 8 }), Action::Dispatch { addr: B + 8 });
    assert_eq!(a.step(Event::Failed), Action::ResumeVm);
    assert_eq!(a.step(Event::Done), Action::Failed(Error::MmioDispatch { addr: B + 8 }));

    let mut a = intercepting();
    assert_eq!(a.step(Event::Failed), Action::ResumeVm);
    assert_eq!(a.step(Event::Failed), Action::Failed(Error::ExitWait));

    let (mut a, _) = Attach::new(window());
    a.step(Event::Done);
    a.step(Event::Done);
    assert_eq!(a.step(Event::Failed), Action::ResumeVm);
    assert_eq!(a.step(Event::Done), Action::Failed(Error::DeviceSetup));

    let (mut a, _) = Attach::new(window());
    a.step(Event::Done);
    a.step(Event::Done);
    a.step(Event::Done);
    assert_eq!(a.step(Event::Failed), Action::ResumeVm);
    assert_eq!(a.step(Event::Done), Action::Failed(Error::WatchdogSpawn));
}

#[test]
fn resume_failure_is_reported() {
    let mut a = intercepting();
    a.step(Event::MmioExit { addr: B });
    a.step(Event::Done);
    assert_eq!(a.step(Event::Ready { ready: true }), Action::ResumeVm);
    assert_eq!(a.step(Event::Failed), Action::Failed(Error::ResumeFailed));
    let mut a = intercepting();
    a.step(Event::MmioExit { addr: B });
    a.step(Event::Done);
    assert_eq!(a.step(Event::Failed), Action::ResumeVm);
    assert_eq!(a.step(Event::Done), Action::Failed(Error::DeviceState));
}

#[test]
fn attach_options_hold_target() {
    let opts = AttachOptions { pid: 42, backing: String::from("/tmp/disk.img") };
    assert_eq!(opts.pid, 42);
    assert_eq!(opts.backing, "/tmp/disk.img");
}
