//! Support for the Raspberry Pi family of boards.

pub mod devmem;
pub mod error;
pub mod gpio;
pub mod lemmas;
pub mod pin;
pub mod register;
