use raspi_gpio::raspi::devmem::{open_devmem, DevMemStep, DevicePath};
use raspi_gpio::raspi::error::GpioError;
use raspi_gpio::raspi::gpio::{Gpio, InitAction, InitEvent, InitPhase, Unmap, MAP_FAILED};

const BASE: u32 = 0x3F00_0000;
const WINDOW: usize = 0x7654_3000;

fn unavailable() -> GpioError {
    GpioError::ErrInfo { err_code: 0x1000, message: String::from("cannot open device memdevice") }
}

/// Runs an acquisition up to the first attempt to open a device.
fn located(gpio: &mut Gpio) {
    assert_eq!(gpio.initialize(InitEvent::Start), InitAction::QueryPeripheralBase);
    assert_eq!(
        gpio.initialize(InitEvent::PeripheralBase(BASE)),
        InitAction::OpenDevice { device: DevicePath::Mem }
    );
}

#[test]
fn new_controller_has_no_window() {
    let gpio = Gpio::new();
    assert_eq!(gpio.mmap_addr, MAP_FAILED);
    assert_eq!(gpio.phase, InitPhase::Idle);
    assert_eq!(MAP_FAILED, usize::MAX);
}

#[test]
fn device_paths() {
    assert_eq!(DevicePath::Mem.path(), "/dev/mem");
    assert_eq!(DevicePath::GpioMem.path(), "/dev/gpiomem");
}

#[test]
fn open_devmem_decides() {
    assert_eq!(open_devmem(DevicePath::Mem, 3), DevMemStep::Opened(3));
    assert_eq!(open_devmem(DevicePath::Mem, 0), DevMemStep::Opened(0));
    assert_eq!(open_devmem(DevicePath::Mem, -1), DevMemStep::Try(DevicePath::GpioMem));
    assert_eq!(open_devmem(DevicePath::GpioMem, 5), DevMemStep::Opened(5));
    assert_eq!(open_devmem(DevicePath::GpioMem, -1), DevMemStep::Unavailable);
    assert_eq!(open_devmem(DevicePath::GpioMem, i32::MIN), DevMemStep::Unavailable);
}

#[test]
fn initialize_via_primary_device() {
    let mut gpio = Gpio::new();
    located(&mut gpio);
    assert_eq!(
        gpio.initialize(InitEvent::Opened(3)),
        InitAction::MapWindow { fd: 3, offset: 0x3F20_0000, length: 4096 }
    );
    assert_eq!(gpio.initialize(InitEvent::Mapped(WINDOW)), InitAction::CloseDevice { fd: 3 });
    assert_eq!(gpio.initialize(InitEvent::Closed), InitAction::Done(Ok(())));
    assert_eq!(gpio.mmap_addr, WINDOW);
    assert_eq!(gpio.phase, InitPhase::Idle);
}

#[test]
fn initialize_via_fallback_device() {
    let mut gpio = Gpio::new();
    located(&mut gpio);
    assert_eq!(
        gpio.initialize(InitEvent::Opened(-1)),
        InitAction::OpenDevice { device: DevicePath::GpioMem }
    );
    assert_eq!(
        gpio.initialize(InitEvent::Opened(4)),
        InitAction::MapWindow { fd: 4, offset: 0x3F20_0000, length: 4096 }
    );
    assert_eq!(gpio.initialize(InitEvent::Mapped(WINDOW)), InitAction::CloseDevice { fd: 4 });
    assert_eq!(gpio.initialize(InitEvent::Closed), InitAction::Done(Ok(())));
    assert_eq!(gpio.mmap_addr, WINDOW);
}

#[test]
fn fallback_reaches_the_state_of_the_primary() {
    let mut direct = Gpio::new();
    located(&mut direct);
    let direct_action = direct.initialize(InitEvent::Opened(7));

    let mut fallback = Gpio::new();
    located(&mut fallback);
    fallback.initialize(InitEvent::Opened(-1));
    let fallback_action = fallback.initialize(InitEvent::Opened(7));

    assert_eq!(direct_action, fallback_action);
    assert_eq!(direct, fallback);
}

#[test]
fn initialize_without_any_device() {
    let mut gpio = Gpio::new();
    located(&mut gpio);
    assert_eq!(
        gpio.initialize(InitEvent::Opened(-1)),
        InitAction::OpenDevice { device: DevicePath::GpioMem }
    );
    assert_eq!(gpio.initialize(InitEvent::Opened(-1)), InitAction::Done(Err(unavailable())));
    assert_eq!(gpio.mmap_addr, MAP_FAILED);
    assert_eq!(gpio.phase, InitPhase::Idle);
}

#[test]
fn failed_initialize_drops_an_earlier_window() {
    let mut gpio = Gpio { mmap_addr: WINDOW, phase: InitPhase::Idle };
    located(&mut gpio);
    assert_eq!(gpio.mmap_addr, MAP_FAILED);
    gpio.initialize(InitEvent::Opened(-1));
    assert_eq!(gpio.initialize(InitEvent::Opened(-13)), InitAction::Done(Err(unavailable())));
    assert_eq!(gpio.mmap_addr, MAP_FAILED);
}

#[test]
fn initialize_with_failed_mapping() {
    let mut gpio = Gpio::new();
    located(&mut gpio);
    gpio.initialize(InitEvent::Opened(3));
    assert_eq!(gpio.initialize(InitEvent::Mapped(MAP_FAILED)), InitAction::CloseDevice { fd: 3 });
    assert_eq!(gpio.initialize(InitEvent::Closed), InitAction::Done(Err(GpioError::MappingFailed)));
    assert_eq!(gpio.mmap_addr, MAP_FAILED);
    assert_eq!(gpio.phase, InitPhase::Idle);
}

#[test]
fn window_base_is_two_mebibytes_above_the_peripherals() {
    for (peripherals, registers) in [
        (0x2000_0000u32, 0x2020_0000u64),
        (0x3F00_0000, 0x3F20_0000),
        (0xFE00_0000, 0xFE20_0000),
        (0xFFFF_FFFF, 0x1_001F_FFFF),
        (0, 0x20_0000),
    ] {
        let mut gpio = Gpio::new();
        gpio.initialize(InitEvent::Start);
        gpio.initialize(InitEvent::PeripheralBase(peripherals));
        assert_eq!(
            gpio.initialize(InitEvent::Opened(9)),
            InitAction::MapWindow { fd: 9, offset: registers, length: 4096 }
        );
    }
}

#[test]
fn awaits_follows_the_phase() {
    let events = [
        InitEvent::Start,
        InitEvent::PeripheralBase(BASE),
        InitEvent::Opened(3),
        InitEvent::Mapped(WINDOW),
        InitEvent::Closed,
    ];
    let phases = [
        (InitPhase::Idle, [true, false, false, false, false]),
        (InitPhase::AwaitBase, [true, true, false, false, false]),
        (
            InitPhase::AwaitOpen { device: DevicePath::Mem, base: 0x3F20_0000 },
            [true, false, true, false, false],
        ),
        (InitPhase::AwaitMap { fd: 3 }, [true, false, false, true, false]),
        (InitPhase::AwaitClose, [true, false, false, false, true]),
    ];
    for (phase, expected) in phases {
        let gpio = Gpio { mmap_addr: MAP_FAILED, phase };
        for (event, awaited) in events.iter().zip(expected) {
            assert_eq!(gpio.awaits(*event), awaited);
        }
    }
}

#[test]
fn start_is_accepted_in_the_middle() {
    let mut gpio = Gpio::new();
    located(&mut gpio);
    gpio.initialize(InitEvent::Opened(3));
    assert_eq!(gpio.initialize(InitEvent::Start), InitAction::QueryPeripheralBase);
    assert_eq!(gpio.phase, InitPhase::AwaitBase);
    assert_eq!(gpio.mmap_addr, MAP_FAILED);
}

#[test]
fn teardown_without_initialize() {
    let mut gpio = Gpio::new();
    assert_eq!(gpio.teardown(), None);
    assert_eq!(gpio.teardown(), None);
    assert_eq!(gpio, Gpio::new());
}

#[test]
fn teardown_after_failed_initialize() {
    let mut gpio = Gpio::new();
    located(&mut gpio);
    gpio.initialize(InitEvent::Opened(-1));
    gpio.initialize(InitEvent::Opened(-1));
    assert_eq!(gpio.teardown(), None);
    assert_eq!(gpio.teardown(), None);
}

#[test]
fn teardown_releases_once() {
    let mut gpio = Gpio::new();
    located(&mut gpio);
    gpio.initialize(InitEvent::Opened(3));
    gpio.initialize(InitEvent::Mapped(WINDOW));
    gpio.initialize(InitEvent::Closed);
    assert_eq!(gpio.teardown(), Some(Unmap { addr: WINDOW, length: 4096 }));
    assert_eq!(gpio.mmap_addr, MAP_FAILED);
    assert_eq!(gpio.teardown(), None);
    assert_eq!(gpio.teardown(), None);
    assert_eq!(gpio.mmap_addr, MAP_FAILED);
}
