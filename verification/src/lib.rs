//! Register-level control of the general-purpose I/O pins of a Raspberry Pi.
//!
//! The library decides *what* has to be done to the peripheral's register
//! block: which device to open, what to map, which word to store at which
//! byte offset. Performing those steps on a real machine is left to the
//! program that links the library.

pub mod raspi;
