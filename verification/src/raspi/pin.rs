//! Pins and pin modes.

use crate::raspi::register::FUNCTION_SELECT;
use vstd::prelude::*;

verus! {

/// The operating mode of a pin, as the function-select registers encode it.
#[derive(Clone, Copy, Debug, PartialEq, Eq, Structural)]
pub enum PioMode {
    /// The pin is read by the processor.
    Input,
    /// The pin is driven by the processor.
    Output,
}

impl PioMode {
    /// The three-bit field that selects this mode.
    pub open spec fn spec_bits(self) -> u32 {
        match self {
            PioMode::Input => 0b000,
            PioMode::Output => 0b001,
        }
    }

    /// The three-bit field that selects this mode.
    #[verifier::when_used_as_spec(spec_bits)]
    pub fn bits(self) -> (field: u32)
        ensures
            field == self.spec_bits(),
            field < 8,
    {
        match self {
            PioMode::Input => 0b000,
            PioMode::Output => 0b001,
        }
    }
}

/// The pins of the header that can be used as general-purpose I/O.
///
/// A pin stands for its number on the processor, which `number` gives. The
/// numbers are not contiguous: those that the header reserves for other uses
/// have no variant.
#[derive(Clone, Copy, Debug, PartialEq, Eq, Structural)]
pub enum GpioPin {
    Gpio4,
    Gpio5,
    Gpio6,
    Gpio12,
    Gpio13,
    Gpio16,
    Gpio17,
    Gpio18,
    Gpio19,
    Gpio20,
    Gpio21,
    Gpio22,
    Gpio23,
    Gpio24,
    Gpio25,
    Gpio26,
}

impl GpioPin {
    /// The pin's number on the processor.
    pub open spec fn spec_number(self) -> u32 {
        match self {
            GpioPin::Gpio4 => 4,
            GpioPin::Gpio5 => 5,
            GpioPin::Gpio6 => 6,
            GpioPin::Gpio12 => 12,
            GpioPin::Gpio13 => 13,
            GpioPin::Gpio16 => 16,
            GpioPin::Gpio17 => 17,
            GpioPin::Gpio18 => 18,
            GpioPin::Gpio19 => 19,
            GpioPin::Gpio20 => 20,
            GpioPin::Gpio21 => 21,
            GpioPin::Gpio22 => 22,
            GpioPin::Gpio23 => 23,
            GpioPin::Gpio24 => 24,
            GpioPin::Gpio25 => 25,
            GpioPin::Gpio26 => 26,
        }
    }

    /// The pin's number on the processor.
    #[verifier::when_used_as_spec(spec_number)]
    pub fn number(self) -> (n: u32)
        ensures
            n == self.spec_number(),
            4 <= n <= 26,
    {
        match self {
            GpioPin::Gpio4 => 4,
            GpioPin::Gpio5 => 5,
            GpioPin::Gpio6 => 6,
            GpioPin::Gpio12 => 12,
            GpioPin::Gpio13 => 13,
            GpioPin::Gpio16 => 16,
            GpioPin::Gpio17 => 17,
            GpioPin::Gpio18 => 18,
            GpioPin::Gpio19 => 19,
            GpioPin::Gpio20 => 20,
            GpioPin::Gpio21 => 21,
            GpioPin::Gpio22 => 22,
            GpioPin::Gpio23 => 23,
            GpioPin::Gpio24 => 24,
            GpioPin::Gpio25 => 25,
            GpioPin::Gpio26 => 26,
        }
    }

    /// Which function-select register holds the pin's mode: each register
    /// holds the modes of ten pins.
    pub open spec fn select_index(self) -> int {
        self.spec_number() as int / 10
    }

    /// The byte offset of that register in the register window: the
    /// function-select registers are four bytes apart.
    pub open spec fn select_offset(self) -> int {
        FUNCTION_SELECT as int + self.select_index() * 4
    }

    /// The position of the pin's mode field in that register: each field is
    /// three bits wide.
    pub open spec fn select_shift(self) -> int {
        (self.spec_number() as int % 10) * 3
    }

    /// The word with `mode` in the pin's mode field and zero in every other.
    pub open spec fn select_word(self, mode: PioMode) -> u32 {
        mode.spec_bits() << (self.select_shift() as u32)
    }

    /// The word with the single bit set that stands for the pin in the set
    /// and clear registers.
    pub open spec fn level_word(self) -> u32 {
        1u32 << self.spec_number()
    }
}

} // verus!
