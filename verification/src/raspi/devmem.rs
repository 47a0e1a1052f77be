//! The choice of the memory device through which the registers are reached.

use vstd::prelude::*;

verus! {

/// The memory devices that give access to the register window.
#[derive(Clone, Copy, Debug, PartialEq, Eq, Structural)]
pub enum DevicePath {
    /// All of physical memory; as a rule only the superuser may open it.
    Mem,
    /// The GPIO registers alone, for users without that privilege.
    GpioMem,
}

impl DevicePath {
    /// The device that is tried first.
    pub open spec fn primary() -> DevicePath {
        DevicePath::Mem
    }

    /// The device's path in the file system.
    pub open spec fn spec_path(self) -> Seq<char> {
        match self {
            DevicePath::Mem => "/dev/mem"@,
            DevicePath::GpioMem => "/dev/gpiomem"@,
        }
    }

    /// The device's path in the file system.
    pub fn path(self) -> (path: &'static str)
        ensures
            path@ == self.spec_path(),
    {
        match self {
            DevicePath::Mem => "/dev/mem",
            DevicePath::GpioMem => "/dev/gpiomem",
        }
    }

    /// The device that is tried when this one cannot be opened, if there is
    /// one left.
    pub open spec fn fallback(self) -> Option<DevicePath> {
        match self {
            DevicePath::Mem => Some(DevicePath::GpioMem),
            DevicePath::GpioMem => None,
        }
    }
}

/// What follows an attempt to open a memory device.
#[derive(Clone, Copy, Debug, PartialEq, Eq, Structural)]
pub enum DevMemStep {
    /// The attempt failed, and this device is to be tried next.
    Try(DevicePath),
    /// A device is open, with this descriptor.
    Opened(i32),
    /// The attempt failed, and no device is left to try.
    Unavailable,
}

/// What follows an attempt to open `tried`, if the attempt returned `fd`: a
/// descriptor that is not negative is an open device, a negative one is a
/// failure.
pub open spec fn spec_open_devmem(tried: DevicePath, fd: i32) -> DevMemStep {
    if fd >= 0 {
        DevMemStep::Opened(fd)
    } else {
        match tried.fallback() {
            Some(next) => DevMemStep::Try(next),
            None => DevMemStep::Unavailable,
        }
    }
}

/// Decides what follows an attempt to open `tried`, given the descriptor
/// `fd` that the attempt returned. The first device that opens is used; the
/// restricted device is tried only after the privileged one has failed.
pub fn open_devmem(tried: DevicePath, fd: i32) -> (step: DevMemStep)
    ensures
        step == spec_open_devmem(tried, fd),
{
    if fd >= 0 {
        DevMemStep::Opened(fd)
    } else {
        match tried {
            DevicePath::Mem => DevMemStep::Try(DevicePath::GpioMem),
            DevicePath::GpioMem => DevMemStep::Unavailable,
        }
    }
}

} // verus!
