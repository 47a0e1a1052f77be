//! The GPIO register controller.
//!
//! A `Gpio` owns the register window and decides every step that concerns
//! it. It touches neither the operating system nor the hardware: it says
//! what is to be done, and the program around it does that and reports back.
//!
//! - `initialize` acquires the window. It is a transition function: it takes
//!   what the last action brought (an `InitEvent`) and returns the next
//!   action (an `InitAction`), until that action is `InitAction::Done`.
//! - `set_pio_mode` and `write_data` return the word to store and the
//!   register to store it in.
//! - `teardown` says which mapping, if any, is to be released.
//!
//! Several controllers that map the same registers do not know of each
//! other. Whoever uses more than one, or one from several threads, has to
//! put their stores in order.

use crate::raspi::devmem::{open_devmem, spec_open_devmem, DevMemStep, DevicePath};
pub use crate::raspi::error::{GpioError, GpioErrorView, GpioResult};
pub use crate::raspi::pin::{GpioPin, PioMode};
use crate::raspi::register::{
    GpfClr, GpfSet, RegisterWrite, FUNCTION_SELECT, MMAP_BLOCK_SIZE, OFFSET_SIZE,
};
use vstd::prelude::*;

verus! {

/// The address that stands for "no mapping": what a failed attempt to map
/// memory returns, and what a controller holds while it has no window.
pub const MAP_FAILED: usize = usize::MAX;

/// How far the acquisition of the register window has come: what the
/// controller is waiting for.
#[derive(Clone, Copy, Debug, PartialEq, Eq, Structural)]
pub enum InitPhase {
    /// No acquisition is under way.
    Idle,
    /// The peripheral base address has been asked for.
    AwaitBase,
    /// `device` is being opened; the registers lie at the physical address
    /// `base`.
    AwaitOpen { device: DevicePath, base: u64 },
    /// The window is being mapped through the descriptor `fd`.
    AwaitMap { fd: i32 },
    /// The descriptor is being closed.
    AwaitClose,
}

/// What an action of the acquisition has brought.
#[derive(Clone, Copy, Debug, PartialEq, Eq, Structural)]
pub enum InitEvent {
    /// Nothing yet: the acquisition is to begin.
    Start,
    /// The physical address at which the peripherals begin.
    PeripheralBase(u32),
    /// What opening the device returned: a descriptor, or a negative number
    /// if the device could not be opened.
    Opened(i32),
    /// What mapping the window returned: its address, or `MAP_FAILED`.
    Mapped(usize),
    /// The descriptor has been closed.
    Closed,
}

/// What the program is to do next for the acquisition.
#[derive(Debug, PartialEq, Eq)]
pub enum InitAction {
    /// Ask the platform where the peripherals begin, and report
    /// `InitEvent::PeripheralBase`.
    QueryPeripheralBase,
    /// Open `device` for reading and writing, with synchronous I/O, and
    /// report `InitEvent::Opened`.
    OpenDevice { device: DevicePath },
    /// Map `length` bytes of the device behind `fd`, from the byte `offset`
    /// of the device on, readable, writable and shared with other mappers,
    /// at an address that the system chooses, and report
    /// `InitEvent::Mapped`.
    MapWindow { fd: i32, offset: u64, length: usize },
    /// Close `fd` and report `InitEvent::Closed`. A mapping that was made
    /// through the descriptor outlives it.
    CloseDevice { fd: i32 },
    /// Nothing: the acquisition has ended, with this result.
    Done(Result<(), GpioError>),
}

/// An `InitAction` with the message of its error as a sequence of
/// characters.
pub enum InitActionView {
    QueryPeripheralBase,
    OpenDevice { device: DevicePath },
    MapWindow { fd: i32, offset: u64, length: usize },
    CloseDevice { fd: i32 },
    Done(Result<(), GpioErrorView>),
}

impl View for InitAction {
    type V = InitActionView;

    open spec fn view(&self) -> InitActionView {
        match self {
            InitAction::QueryPeripheralBase => InitActionView::QueryPeripheralBase,
            InitAction::OpenDevice { device } => InitActionView::OpenDevice { device: *device },
            InitAction::MapWindow { fd, offset, length } => InitActionView::MapWindow {
                fd: *fd,
                offset: *offset,
                length: *length,
            },
            InitAction::CloseDevice { fd } => InitActionView::CloseDevice { fd: *fd },
            InitAction::Done(Ok(())) => InitActionView::Done(Ok(())),
            InitAction::Done(Err(error)) => InitActionView::Done(Err(error@)),
        }
    }
}

/// A mapping that is to be released: `length` bytes from `addr` on.
#[derive(Clone, Copy, Debug, PartialEq, Eq, Structural)]
pub struct Unmap {
    pub addr: usize,
    pub length: usize,
}

/// The controller of the GPIO registers.
#[derive(Debug, PartialEq, Eq, Structural)]
pub struct Gpio {
    /// The address of the register window in this process, or `MAP_FAILED`
    /// while there is none.
    pub mmap_addr: usize,
    /// How far the acquisition of the window has come.
    pub phase: InitPhase,
}

impl Gpio {
    /// The controller holds a register window.
    pub open spec fn is_mapped(self) -> bool {
        self.mmap_addr != MAP_FAILED
    }

    /// The physical address of the register window, given that of the
    /// peripherals.
    pub open spec fn window_base(peripheral_base: u32) -> u64 {
        (peripheral_base + OFFSET_SIZE) as u64
    }

    /// `event` is what the controller is waiting for. The start of an
    /// acquisition is accepted at any time.
    pub open spec fn spec_awaits(self, event: InitEvent) -> bool {
        match event {
            InitEvent::Start => true,
            InitEvent::PeripheralBase(_) => self.phase is AwaitBase,
            InitEvent::Opened(_) => self.phase is AwaitOpen,
            InitEvent::Mapped(_) => self.phase is AwaitMap,
            InitEvent::Closed => self.phase is AwaitClose,
        }
    }

    /// The controller after `event`, and the action that it then asks for.
    ///
    /// - At the start the controller forgets the window it held, without
    ///   having it released (that is what `teardown` is for), and asks for
    ///   the peripheral base address.
    /// - With that address it asks for the first memory device to be
    ///   opened.
    /// - After an attempt to open a device it goes by `spec_open_devmem`:
    ///   it has the window mapped through the descriptor, or has the next
    ///   device tried, or ends without a window and with the failure
    ///   `GpioError::spec_device_unavailable`.
    /// - It keeps the address that the mapping returned, and has the
    ///   descriptor closed, whatever that address is.
    /// - Once the descriptor is closed it ends: in success if it holds a
    ///   window, else with `MappingFailed`.
    pub open spec fn spec_initialize(self, event: InitEvent) -> (Gpio, InitActionView)
        recommends
            self.spec_awaits(event),
    {
        match event {
            InitEvent::Start => (
                Gpio { mmap_addr: MAP_FAILED, phase: InitPhase::AwaitBase },
                InitActionView::QueryPeripheralBase,
            ),
            InitEvent::PeripheralBase(peripheral_base) => (
                Gpio {
                    mmap_addr: MAP_FAILED,
                    phase: InitPhase::AwaitOpen {
                        device: DevicePath::primary(),
                        base: Self::window_base(peripheral_base),
                    },
                },
                InitActionView::OpenDevice { device: DevicePath::primary() },
            ),
            InitEvent::Opened(fd) => match spec_open_devmem(self.phase->device, fd) {
                DevMemStep::Opened(fd) => (
                    Gpio { mmap_addr: MAP_FAILED, phase: InitPhase::AwaitMap { fd } },
                    InitActionView::MapWindow {
                        fd,
                        offset: self.phase->base,
                        length: MMAP_BLOCK_SIZE,
                    },
                ),
                DevMemStep::Try(next) => (
                    Gpio {
                        mmap_addr: MAP_FAILED,
                        phase: InitPhase::AwaitOpen { device: next, base: self.phase->base },
                    },
                    InitActionView::OpenDevice { device: next },
                ),
                DevMemStep::Unavailable => (
                    Gpio { mmap_addr: MAP_FAILED, phase: InitPhase::Idle },
                    InitActionView::Done(Err(GpioError::spec_device_unavailable())),
                ),
            },
            InitEvent::Mapped(addr) => (
                Gpio { mmap_addr: addr, phase: InitPhase::AwaitClose },
                InitActionView::CloseDevice { fd: self.phase->fd },
            ),
            InitEvent::Closed => (
                Gpio { mmap_addr: self.mmap_addr, phase: InitPhase::Idle },
                InitActionView::Done(
                    if self.is_mapped() {
                        Ok(())
                    } else {
                        Err(GpioErrorView::MappingFailed)
                    },
                ),
            ),
        }
    }

    /// The controller after `event`.
    pub open spec fn after(self, event: InitEvent) -> Gpio {
        self.spec_initialize(event).0
    }

    /// The action that the controller asks for after `event`.
    pub open spec fn asks(self, event: InitEvent) -> InitActionView {
        self.spec_initialize(event).1
    }

    /// The store that sets the mode of `pin_no` to `mode`. It replaces the
    /// whole function-select register: the modes of the other pins in that
    /// register become `PioMode::Input`.
    pub open spec fn spec_set_pio_mode(pin_no: GpioPin, mode: PioMode) -> RegisterWrite {
        RegisterWrite { offset: pin_no.select_offset() as usize, value: pin_no.select_word(mode) }
    }

    /// The store that raises (`on_flag`) or lowers the output of `pin_no`.
    pub open spec fn spec_write_data(pin_no: GpioPin, on_flag: bool) -> RegisterWrite {
        RegisterWrite {
            offset: if on_flag {
                GpfSet::GpfSet0.spec_offset()
            } else {
                GpfClr::GpfClr0.spec_offset()
            },
            value: pin_no.level_word(),
        }
    }

    /// The controller after a teardown, and the mapping that is to be
    /// released for it.
    pub open spec fn spec_teardown(self) -> (Gpio, Option<Unmap>) {
        (
            Gpio { mmap_addr: MAP_FAILED, phase: self.phase },
            if self.is_mapped() {
                Some(Unmap { addr: self.mmap_addr, length: MMAP_BLOCK_SIZE })
            } else {
                None
            },
        )
    }

    /// A controller without a register window.
    pub fn new() -> (gpio: Gpio)
        ensures
            gpio == (Gpio { mmap_addr: MAP_FAILED, phase: InitPhase::Idle }),
            !gpio.is_mapped(),
    {
        Gpio { mmap_addr: MAP_FAILED, phase: InitPhase::Idle }
    }

    /// Whether `event` is what the controller is waiting for.
    pub fn awaits(&self, event: InitEvent) -> (awaited: bool)
        ensures
            awaited == self.spec_awaits(event),
    {
        match event {
            InitEvent::Start => true,
            InitEvent::PeripheralBase(_) => matches!(self.phase, InitPhase::AwaitBase),
            InitEvent::Opened(_) => matches!(self.phase, InitPhase::AwaitOpen { .. }),
            InitEvent::Mapped(_) => matches!(self.phase, InitPhase::AwaitMap { .. }),
            InitEvent::Closed => matches!(self.phase, InitPhase::AwaitClose),
        }
    }

    /// Takes the acquisition of the register window one step further:
    /// records what the last action brought, and returns the action to take
    /// next. The first call is made with `InitEvent::Start`; the
    /// acquisition has ended when `InitAction::Done` is returned, and the
    /// controller holds a window exactly if that carries `Ok`.
    pub fn initialize(&mut self, event: InitEvent) -> (action: InitAction)
        requires
            old(self).spec_awaits(event),
        ensures
            (*final(self), action@) == old(self).spec_initialize(event),
    {
        match event {
            InitEvent::Start => {
                self.mmap_addr = MAP_FAILED;
                self.phase = InitPhase::AwaitBase;
                InitAction::QueryPeripheralBase
            },
            InitEvent::PeripheralBase(peripheral_base) => {
                let base: u64 = peripheral_base as u64 + OFFSET_SIZE as u64;
                self.mmap_addr = MAP_FAILED;
                self.phase = InitPhase::AwaitOpen { device: DevicePath::Mem, base };
                InitAction::OpenDevice { device: DevicePath::Mem }
            },
            InitEvent::Opened(fd) => {
                self.mmap_addr = MAP_FAILED;
                match self.phase {
                    InitPhase::AwaitOpen { device, base } => match open_devmem(device, fd) {
                        DevMemStep::Opened(fd) => {
                            self.phase = InitPhase::AwaitMap { fd };
                            InitAction::MapWindow { fd, offset: base, length: MMAP_BLOCK_SIZE }
                        },
                        DevMemStep::Try(next) => {
                            self.phase = InitPhase::AwaitOpen { device: next, base };
                            InitAction::OpenDevice { device: next }
                        },
                        DevMemStep::Unavailable => {
                            self.phase = InitPhase::Idle;
                            InitAction::Done(Err(GpioError::device_unavailable()))
                        },
                    },
                    _ => unreached(),
                }
            },
            InitEvent::Mapped(addr) => match self.phase {
                InitPhase::AwaitMap { fd } => {
                    self.mmap_addr = addr;
                    self.phase = InitPhase::AwaitClose;
                    InitAction::CloseDevice { fd }
                },
                _ => unreached(),
            },
            InitEvent::Closed => {
                self.phase = InitPhase::Idle;
                if self.mmap_addr != MAP_FAILED {
                    InitAction::Done(Ok(()))
                } else {
                    InitAction::Done(Err(GpioError::MappingFailed))
                }
            },
        }
    }

    /// Computes the store that sets the mode of `pin_no` to `mode`: the
    /// function-select register of the pin gets `mode` in the pin's field
    /// and zero everywhere else.
    pub fn set_pio_mode(&self, pin_no: GpioPin, mode: PioMode) -> (write: RegisterWrite)
        requires
            self.is_mapped(),
        ensures
            write == Self::spec_set_pio_mode(pin_no, mode),
            write.offset == (pin_no.spec_number() / 10) * 4,
            write.value == mode.spec_bits() << (((pin_no.spec_number() % 10) * 3) as u32),
            write.in_window(),
    {
        let pin_no_ref: u32 = pin_no.number();
        let sel_no: u32 = pin_no_ref / 10;
        let offset: usize = FUNCTION_SELECT + (sel_no as usize) * 4;
        let bit_shift: u32 = (pin_no_ref % 10) * 3;
        let write_data: u32 = mode.bits() << bit_shift;
        RegisterWrite { offset, value: write_data }
    }

    /// Computes the store that raises (`on_flag`) or lowers the output of
    /// `pin_no`: the set or the clear register gets the one bit of the pin.
    pub fn write_data(&self, pin_no: GpioPin, on_flag: bool) -> (write: RegisterWrite)
        requires
            self.is_mapped(),
        ensures
            write == Self::spec_write_data(pin_no, on_flag),
            write.offset == if on_flag { 0x1Cusize } else { 0x28usize },
            write.value == 1u32 << pin_no.spec_number(),
            write.in_window(),
    {
        let pin_no_ref: u32 = pin_no.number();
        let write_data: u32 = 1u32 << pin_no_ref;
        let offset: usize = if on_flag {
            GpfSet::GpfSet0.offset()
        } else {
            GpfClr::GpfClr0.offset()
        };
        RegisterWrite { offset, value: write_data }
    }

    /// Gives up the register window, and returns the mapping that is to be
    /// released for it, if the controller held one. A second teardown finds
    /// nothing to release.
    pub fn teardown(&mut self) -> (release: Option<Unmap>)
        ensures
            (*final(self), release) == old(self).spec_teardown(),
            !final(self).is_mapped(),
    {
        if self.mmap_addr != MAP_FAILED {
            let addr: usize = self.mmap_addr;
            self.mmap_addr = MAP_FAILED;
            Some(Unmap { addr, length: MMAP_BLOCK_SIZE })
        } else {
            None
        }
    }
}

} // verus!
