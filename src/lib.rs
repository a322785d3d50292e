//! Attaching to a running VM from the outside: injecting syscalls into a
//! traced process, and the decisions that pause the VM, route its MMIO
//! accesses to an emulated device and resume it once the device is ready.
//! Every function here is verified; the OS and hypervisor calls that carry
//! out its decisions are made by the caller.

use vstd::prelude::*;

pub mod attach;
pub mod error;
pub mod inject;
pub mod mmio;
pub mod regs;
pub mod stage1;
pub mod watchdog;

verus! {
}
