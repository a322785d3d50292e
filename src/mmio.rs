use vstd::prelude::*;

use crate::error::Error;

verus! {

/// Guest-physical start of the memory area reserved for MMIO devices: the
/// 768 MiB gap below 4 GiB.
pub const MMIO_MEM_START: u64 = 0xd000_0000;

/// Size of a virtio-mmio device's control register range.
pub const MMIO_WINDOW_SIZE: u64 = 0x1000;

/// Room reserved after the control registers for device-specific config space.
pub const DEVICE_MAX_MEM: u64 = 0x1000;

/// The guest-physical address range that an emulated device answers:
/// control registers from `base`, then config space.
pub struct DeviceWindow {
    base: u64,
    size: u64,
    config_size: u64,
}

impl DeviceWindow {
    #[verifier::type_invariant]
    spec fn fits(&self) -> bool {
        self.base + self.size + self.config_size <= u64::MAX
    }

    pub closed spec fn base(&self) -> u64 {
        self.base
    }

    pub closed spec fn size(&self) -> u64 {
        self.size
    }

    pub closed spec fn config_size(&self) -> u64 {
        self.config_size
    }

    /// One past the last address of the window, config space included.
    pub open spec fn end_spec(&self) -> int {
        self.base() + self.size() + self.config_size()
    }

    /// `addr` lies in `[base, base + size + config_size)`.
    pub open spec fn contains_spec(&self, addr: u64) -> bool {
        self.base() <= addr && addr < self.end_spec()
    }

    /// The window at `base` with `size` bytes of registers and `config_size`
    /// bytes of config space; `None` where it would pass the end of the
    /// address space.
    pub fn new(base: u64, size: u64, config_size: u64) -> (r: Option<DeviceWindow>)
        ensures
            r is Some <==> base + size + config_size <= u64::MAX,
            r matches Some(w) ==> w.base() == base && w.size() == size && w.config_size()
                == config_size,
    {
        if size > u64::MAX - base || config_size > u64::MAX - base - size {
            return None;
        }
        Some(DeviceWindow { base, size, config_size })
    }

    /// The window of the block device: control registers at
    /// [`MMIO_MEM_START`], followed by its config space.
    pub fn block_device() -> (r: DeviceWindow)
        ensures
            r.base() == MMIO_MEM_START,
            r.size() == MMIO_WINDOW_SIZE,
            r.config_size() == DEVICE_MAX_MEM,
    {
        DeviceWindow { base: MMIO_MEM_START, size: MMIO_WINDOW_SIZE, config_size: DEVICE_MAX_MEM }
    }

    pub fn base_addr(&self) -> (r: u64)
        ensures
            r == self.base(),
    {
        self.base
    }

    /// One past the last address of the window.
    pub fn end(&self) -> (r: u64)
        ensures
            r == self.end_spec(),
    {
        proof {
            use_type_invariant(self);
        }
        self.base + self.size + self.config_size
    }

    /// Whether an access at `addr` belongs to the device.
    pub fn contains(&self, addr: u64) -> (r: bool)
        ensures
            r == self.contains_spec(addr),
    {
        proof {
            use_type_invariant(self);
        }
        self.base <= addr && addr < self.base + self.size + self.config_size
    }
}

} // verus!
