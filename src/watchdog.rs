use vstd::prelude::*;

verus! {

/// Time the watchdog sleeps between two polls of the device, in milliseconds.
pub const POLL_INTERVAL_MS: u64 = 1000;

/// The negotiation state of the emulated device, copied out under its lock
/// so that it can be logged after the lock is released.
#[derive(Clone, Copy, Debug, PartialEq, Eq, Structural)]
pub struct DeviceSnapshot {
    pub device_type: u32,
    pub features: u64,
    pub interrupt_status: u8,
    pub status: u8,
    pub config_generation: u8,
    pub queue_max_size: u16,
    pub queue_ready: bool,
}

/// What the watchdog does after a poll.
#[derive(Clone, Copy, Debug, PartialEq, Eq, Structural)]
pub enum WatchStep {
    /// The selected queue is ready: the watchdog ends.
    Stop,
    /// Sleep `ms` milliseconds, then poll again.
    Sleep { ms: u64 },
}

/// The watchdog's decision on a snapshot.
pub open spec fn watch_spec(snapshot: DeviceSnapshot) -> WatchStep {
    if snapshot.queue_ready {
        WatchStep::Stop
    } else {
        WatchStep::Sleep { ms: POLL_INTERVAL_MS }
    }
}

/// The sleeps the watchdog takes over a run of polls that see `ready`,
/// up to and including the first ready one.
pub open spec fn slept_ms(ready: Seq<bool>) -> nat
    decreases ready.len(),
{
    if ready.len() == 0 || ready[0] {
        0
    } else {
        (POLL_INTERVAL_MS + slept_ms(ready.drop_first())) as nat
    }
}

/// Decides, from one poll of the device, whether the watchdog goes on.
pub fn watch_step(snapshot: &DeviceSnapshot) -> (r: WatchStep)
    ensures
        r == watch_spec(*snapshot),
{
    if snapshot.queue_ready {
        WatchStep::Stop
    } else {
        WatchStep::Sleep { ms: POLL_INTERVAL_MS }
    }
}

/// The watchdog stops at the first poll that sees the queue ready, and
/// sleeps one interval per poll before it: if the flag is set by poll `k`
/// and stays set, the watchdog has slept `k` intervals when it stops, so it
/// ends at most one interval after the flag was set.
pub proof fn lemma_watchdog_stops_after_ready(ready: Seq<bool>, k: int)
    requires
        0 <= k < ready.len(),
        ready[k],
        forall|i: int| 0 <= i < k ==> !ready[i],
    ensures
        slept_ms(ready) == k * POLL_INTERVAL_MS,
        slept_ms(ready.subrange(0, k + 1)) == k * POLL_INTERVAL_MS,
    decreases k,
{
    if k > 0 {
        assert(ready.drop_first()[k - 1]);
        lemma_watchdog_stops_after_ready(ready.drop_first(), k - 1);
        assert(ready.subrange(0, k + 1).drop_first() =~= ready.drop_first().subrange(0, k));
        lemma_watchdog_stops_after_ready(ready.subrange(0, k + 1).drop_first(), k - 1);
    }
}

} // verus!
