use vmsh::stage1::{
    cleanup_outcome, pad_payload, padded_size, ssh_wait_step, SshStatus, SshStep, Stage1,
    Stage1Error, SIGTERM,
};
use vmsh::watchdog::{watch_step, DeviceSnapshot, WatchStep, POLL_INTERVAL_MS};

#[test]
fn padded_size_rounds_up_to_blocks() {
    assert_eq!(padded_size(0), 0);
    assert_eq!(padded_size(1), 512);
    assert_eq!(padded_size(511), 512);
    assert_eq!(padded_size(512), 512);
    assert_eq!(padded_size(513), 1024);
    assert_eq!(padded_size(usize::MAX - 511), usize::MAX - 511);
}

#[test]
fn payload_is_zero_padded() {
    let p = pad_payload(&vec![1, 2, 3]);
    assert_eq!(p.len(), 512);
    assert_eq!(&p[..3], &[1, 2, 3]);
    assert!(p[3..].iter().all(|b| *b == 0));
    assert!(pad_payload(&vec![]).is_empty());
    let full = vec![7u8; 1024];
    assert_eq!(pad_payload(&full), full);
}

#[test]
fn ssh_wait_decisions() {
    assert_eq!(SIGTERM, libc::SIGTERM);
    assert_eq!(ssh_wait_step(false, SshStatus::StillAlive), SshStep::Poll);
    assert_eq!(ssh_wait_step(false, SshStatus::Exited { status: 0 }), SshStep::Done);
    assert_eq!(
        ssh_wait_step(false, SshStatus::Exited { status: 255 }),
        SshStep::Fail(Stage1Error::SshFailed { status: 255 })
    );
    assert_eq!(ssh_wait_step(true, SshStatus::Signaled { signal: SIGTERM }), SshStep::Done);
    assert_eq!(
        ssh_wait_step(false, SshStatus::Signaled { signal: SIGTERM }),
        SshStep::Fail(Stage1Error::SshTerminated)
    );
    assert_eq!(
        ssh_wait_step(true, SshStatus::Signaled { signal: 9 }),
        SshStep::Fail(Stage1Error::UnexpectedWait)
    );
    assert_eq!(ssh_wait_step(true, SshStatus::Other), SshStep::Fail(Stage1Error::UnexpectedWait));
}

#[test]
fn cleanup_status() {
    assert_eq!(cleanup_outcome(true, Some(0)), Ok(()));
    assert_eq!(cleanup_outcome(false, Some(1)), Err(Stage1Error::SshFailed { status: 1 }));
    assert_eq!(cleanup_outcome(false, None), Err(Stage1Error::SshSignaled));
}

#[test]
fn stage1_keeps_ssh_args() {
    let s = Stage1::new(String::from("-p 2222 root@localhost"));
    assert_eq!(s.ssh_args(), "-p 2222 root@localhost");
}

fn snapshot(ready: bool) -> DeviceSnapshot {
    DeviceSnapshot {
        device_type: 2,
        features: 0b101,
        interrupt_status: 0,
        status: 0xf,
        config_generation: 1,
        queue_max_size: 256,
        queue_ready: ready,
    }
}

#[test]
fn watchdog_stops_on_ready() {
    assert_eq!(watch_step(&snapshot(true)), WatchStep::Stop);
    assert_eq!(watch_step(&snapshot(false)), WatchStep::Sleep { ms: POLL_INTERVAL_MS });
    assert_eq!(POLL_INTERVAL_MS, 1000);
}
