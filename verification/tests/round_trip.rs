use raspi_gpio::raspi::gpio::{Gpio, InitPhase};
use raspi_gpio::raspi::pin::{GpioPin, PioMode};
use raspi_gpio::raspi::register::{RegisterWrite, MMAP_BLOCK_SIZE};

/// The words of a register window, as the stores leave them.
struct Window {
    words: Vec<u32>,
}

impl Window {
    fn filled(word: u32) -> Window {
        Window { words: vec![word; MMAP_BLOCK_SIZE / 4] }
    }

    fn store(&mut self, write: RegisterWrite) {
        assert_eq!(write.offset % 4, 0);
        self.words[write.offset / 4] = write.value;
    }

    fn load(&self, offset: usize) -> u32 {
        self.words[offset / 4]
    }
}

fn mapped() -> Gpio {
    Gpio { mmap_addr: 0x7f00_0000, phase: InitPhase::Idle }
}

const PINS: [(GpioPin, u32); 16] = [
    (GpioPin::Gpio4, 4),
    (GpioPin::Gpio5, 5),
    (GpioPin::Gpio6, 6),
    (GpioPin::Gpio12, 12),
    (GpioPin::Gpio13, 13),
    (GpioPin::Gpio16, 16),
    (GpioPin::Gpio17, 17),
    (GpioPin::Gpio18, 18),
    (GpioPin::Gpio19, 19),
    (GpioPin::Gpio20, 20),
    (GpioPin::Gpio21, 21),
    (GpioPin::Gpio22, 22),
    (GpioPin::Gpio23, 23),
    (GpioPin::Gpio24, 24),
    (GpioPin::Gpio25, 25),
    (GpioPin::Gpio26, 26),
];

#[test]
fn pin_17_output_then_high() {
    let gpio = mapped();
    let mut window = Window::filled(0);
    window.store(gpio.set_pio_mode(GpioPin::Gpio17, PioMode::Output));
    window.store(gpio.write_data(GpioPin::Gpio17, true));
    assert_eq!(window.load(4), 0b001 << 21);
    assert_eq!(window.load(0x1C), 1 << 17);
    assert_eq!(window.load(0x28), 0);
}

#[test]
fn output_round_trip_every_pin() {
    let gpio = mapped();
    for (pin, number) in PINS {
        let mut window = Window::filled(0xFFFF_FFFF);
        window.store(gpio.set_pio_mode(pin, PioMode::Output));
        window.store(gpio.write_data(pin, true));
        assert_ne!(window.load(0x1C) & (1 << number), 0);
        assert_eq!(window.load(0x1C), 1 << number);
        assert_eq!(window.load(0x28), 0xFFFF_FFFF);
        window.store(gpio.write_data(pin, false));
        assert_ne!(window.load(0x28) & (1 << number), 0);
        assert_eq!(window.load(0x28), 1 << number);
        assert_eq!(window.load(0x1C), 1 << number);
        let select = (number / 10 * 4) as usize;
        assert_eq!(window.load(select), 1 << (number % 10 * 3));
    }
}

#[test]
fn stores_touch_one_register_each() {
    let gpio = mapped();
    let mut window = Window::filled(0xA5A5_A5A5);
    window.store(gpio.set_pio_mode(GpioPin::Gpio26, PioMode::Output));
    window.store(gpio.write_data(GpioPin::Gpio26, true));
    window.store(gpio.write_data(GpioPin::Gpio26, false));
    for offset in (0..MMAP_BLOCK_SIZE).step_by(4) {
        let expected = match offset {
            8 => 1 << 18,
            0x1C | 0x28 => 1 << 26,
            _ => 0xA5A5_A5A5,
        };
        assert_eq!(window.load(offset), expected);
    }
}

#[test]
fn mode_store_replaces_the_whole_register() {
    let gpio = mapped();
    let mut window = Window::filled(0);
    window.store(gpio.set_pio_mode(GpioPin::Gpio17, PioMode::Output));
    assert_eq!(window.load(4), 0x0020_0000);
    window.store(gpio.set_pio_mode(GpioPin::Gpio18, PioMode::Output));
    assert_eq!(window.load(4), 0x0100_0000);
    assert_eq!((window.load(4) >> 21) & 0b111, 0);
    window.store(gpio.set_pio_mode(GpioPin::Gpio12, PioMode::Input));
    assert_eq!(window.load(4), 0);
}
