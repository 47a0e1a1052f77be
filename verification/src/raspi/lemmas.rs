//! What holds of the controller over several steps.

use crate::raspi::devmem::DevicePath;
use crate::raspi::error::{GpioError, GpioErrorView};
use crate::raspi::gpio::{Gpio, InitActionView, InitEvent, InitPhase, Unmap, MAP_FAILED};
use crate::raspi::pin::{GpioPin, PioMode};
use crate::raspi::register::{is_window, word_at, GpfClr, GpfSet, MMAP_BLOCK_SIZE};
use vstd::prelude::*;

verus! {

/// Where neither memory device can be opened, the acquisition tries the
/// privileged device, then the restricted one, and ends with the failure
/// that says so; the controller is then left without a window, whatever it
/// held before.
pub proof fn lemma_no_device_no_window(
    gpio: Gpio,
    peripheral_base: u32,
    primary_fd: i32,
    alternate_fd: i32,
)
    requires
        primary_fd < 0,
        alternate_fd < 0,
    ensures
        ({
            let started = gpio.after(InitEvent::Start);
            let located = started.after(InitEvent::PeripheralBase(peripheral_base));
            let refused = located.after(InitEvent::Opened(primary_fd));
            let ended = refused.after(InitEvent::Opened(alternate_fd));
            &&& gpio.spec_awaits(InitEvent::Start)
            &&& gpio.asks(InitEvent::Start) == InitActionView::QueryPeripheralBase
            &&& started.spec_awaits(InitEvent::PeripheralBase(peripheral_base))
            &&& started.asks(InitEvent::PeripheralBase(peripheral_base))
                == (InitActionView::OpenDevice { device: DevicePath::Mem })
            &&& located.spec_awaits(InitEvent::Opened(primary_fd))
            &&& located.asks(InitEvent::Opened(primary_fd))
                == (InitActionView::OpenDevice { device: DevicePath::GpioMem })
            &&& refused.spec_awaits(InitEvent::Opened(alternate_fd))
            &&& refused.asks(InitEvent::Opened(alternate_fd)) == InitActionView::Done(
                Err(GpioError::spec_device_unavailable()),
            )
            &&& ended == (Gpio { mmap_addr: MAP_FAILED, phase: InitPhase::Idle })
            &&& !ended.is_mapped()
        }),
{
}

/// A descriptor of the restricted device, opened after the privileged
/// device has refused, takes the controller to the very state and action
/// that the same descriptor would have brought had the privileged device
/// given it: from there on nothing tells the two acquisitions apart.
pub proof fn lemma_fallback_as_good_as_primary(gpio: Gpio, refused_fd: i32, fd: i32)
    requires
        gpio.phase is AwaitOpen,
        gpio.phase->device == DevicePath::Mem,
        refused_fd < 0,
        fd >= 0,
    ensures
        gpio.after(InitEvent::Opened(refused_fd)).spec_awaits(InitEvent::Opened(fd)),
        gpio.after(InitEvent::Opened(refused_fd)).spec_initialize(InitEvent::Opened(fd))
            == gpio.spec_initialize(InitEvent::Opened(fd)),
        gpio.asks(InitEvent::Opened(fd)) == (InitActionView::MapWindow {
            fd,
            offset: gpio.phase->base,
            length: MMAP_BLOCK_SIZE,
        }),
{
}

/// Once a device is open, the window is mapped through its descriptor and
/// the descriptor is closed at once. The acquisition then ends in success
/// exactly if the mapping gave an address, and the controller holds that
/// address; if the mapping failed it ends with `MappingFailed` and the
/// controller holds no window.
pub proof fn lemma_mapping_decides(gpio: Gpio, addr: usize)
    requires
        gpio.phase is AwaitMap,
    ensures
        ({
            let mapped = gpio.after(InitEvent::Mapped(addr));
            let ended = mapped.after(InitEvent::Closed);
            &&& gpio.asks(InitEvent::Mapped(addr)) == (InitActionView::CloseDevice {
                fd: gpio.phase->fd,
            })
            &&& mapped.spec_awaits(InitEvent::Closed)
            &&& ended == (Gpio { mmap_addr: addr, phase: InitPhase::Idle })
            &&& ended.is_mapped() <==> addr != MAP_FAILED
            &&& mapped.asks(InitEvent::Closed) == InitActionView::Done(
                if addr != MAP_FAILED {
                    Ok(())
                } else {
                    Err(GpioErrorView::MappingFailed)
                },
            )
        }),
{
}

/// At every step the controller holds a window only if a mapping has given
/// it one: an acquisition never ends in success without a window, and never
/// in failure with one.
pub proof fn lemma_success_means_window(gpio: Gpio, event: InitEvent)
    requires
        gpio.spec_awaits(event),
    ensures
        gpio.asks(event) == InitActionView::Done(Ok(())) ==> gpio.after(event).is_mapped(),
        gpio.asks(event) is Done && gpio.asks(event) != InitActionView::Done(Ok(()))
            ==> !gpio.after(event).is_mapped(),
        gpio.asks(event) is Done <==> gpio.after(event).phase is Idle,
{
}

/// A teardown leaves the controller without a window, so a second one
/// releases nothing and changes nothing; and a controller that never held a
/// window is not changed by a teardown at all.
pub proof fn lemma_teardown_is_idempotent(gpio: Gpio)
    ensures
        !gpio.spec_teardown().0.is_mapped(),
        gpio.spec_teardown().0.spec_teardown() == (gpio.spec_teardown().0, None::<Unmap>),
        !gpio.is_mapped() ==> gpio.spec_teardown() == (gpio, None::<Unmap>),
        gpio.is_mapped() ==> gpio.spec_teardown().1 == Some(
            Unmap { addr: gpio.mmap_addr, length: MMAP_BLOCK_SIZE },
        ),
{
}

/// The bit of a pin is set in the word that raises or lowers it, and no
/// other bit is.
pub proof fn lemma_level_word_is_one_bit(pin: GpioPin, other: u32)
    requires
        other < 32,
    ensures
        pin.level_word() != 0,
        pin.level_word() & (1u32 << other) != 0 <==> other == pin.spec_number(),
{
    let n = pin.spec_number();
    assert(((1u32 << n) & (1u32 << other) != 0 <==> other == n) && (1u32 << n) != 0)
        by (bit_vector)
        requires
            n < 32,
            other < 32,
    ;
}

/// The mode field of a pin holds the mode in the word that selects it, and
/// every bit outside that field is zero.
pub proof fn lemma_select_word_is_one_field(pin: GpioPin, mode: PioMode)
    ensures
        (pin.select_word(mode) >> (pin.select_shift() as u32)) & 0b111 == mode.spec_bits(),
        pin.select_word(mode) & !(0b111u32 << (pin.select_shift() as u32)) == 0,
{
    let shift = pin.select_shift() as u32;
    let bits = mode.spec_bits();
    assert(((bits << shift) >> shift) & 0b111 == bits && (bits << shift) & !(0b111u32 << shift)
        == 0) by (bit_vector)
        requires
            shift <= 27,
            bits < 8,
    ;
}

/// After a pin has been made an output and then driven high, the set
/// register holds the bit of the pin; after it has then been driven low,
/// the clear register holds that bit. The stores for the level leave the
/// function-select register as the first store wrote it, and the set
/// register keeps its word when the clear register is written.
pub proof fn lemma_output_round_trip(window: Seq<u32>, pin: GpioPin)
    requires
        is_window(window),
    ensures
        ({
            let selected = Gpio::spec_set_pio_mode(pin, PioMode::Output).apply(window);
            let raised = Gpio::spec_write_data(pin, true).apply(selected);
            let lowered = Gpio::spec_write_data(pin, false).apply(raised);
            let set = GpfSet::GpfSet0.spec_offset() as int;
            let clear = GpfClr::GpfClr0.spec_offset() as int;
            &&& is_window(lowered)
            &&& word_at(raised, set) == 1u32 << pin.spec_number()
            &&& word_at(raised, set) & (1u32 << pin.spec_number()) != 0
            &&& word_at(raised, pin.select_offset()) == 1u32 << (pin.select_shift() as u32)
            &&& word_at(lowered, clear) == 1u32 << pin.spec_number()
            &&& word_at(lowered, clear) & (1u32 << pin.spec_number()) != 0
            &&& word_at(lowered, set) == word_at(raised, set)
            &&& word_at(lowered, pin.select_offset()) == word_at(raised, pin.select_offset())
        }),
{
    lemma_level_word_is_one_bit(pin, pin.spec_number());
}

/// A store of a mode replaces its whole register: of two such stores to one
/// register only the second is left, and the pin of the first is an input
/// again unless it is the pin of the second.
pub proof fn lemma_mode_store_overwrites(
    window: Seq<u32>,
    first: GpioPin,
    first_mode: PioMode,
    second: GpioPin,
    second_mode: PioMode,
)
    requires
        is_window(window),
        first.select_index() == second.select_index(),
    ensures
        ({
            let once = Gpio::spec_set_pio_mode(first, first_mode).apply(window);
            let twice = Gpio::spec_set_pio_mode(second, second_mode).apply(once);
            &&& word_at(twice, second.select_offset()) == second.select_word(second_mode)
            &&& first != second ==> (word_at(twice, first.select_offset()) >> (
            first.select_shift() as u32)) & 0b111 == PioMode::Input.spec_bits()
        }),
{
    let shift = first.select_shift() as u32;
    let other = second.select_shift() as u32;
    let bits = second_mode.spec_bits();
    if first != second {
        assert(shift != other);
        assert(((bits << other) >> shift) & 0b111 == 0) by (bit_vector)
            requires
                bits < 2,
                shift <= 27,
                other <= 27,
                shift != other,
                shift % 3 == 0,
                other % 3 == 0,
        ;
    }
}

} // verus!
