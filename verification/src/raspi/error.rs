//! What can go wrong when the register window is acquired.

use vstd::prelude::*;

verus! {

/// The numeric codes of the failures.
#[derive(Clone, Copy, Debug, PartialEq, Eq, Structural)]
pub enum GpioResult {
    /// No memory device could be opened.
    CanNotOpenMemDevice,
}

impl GpioResult {
    /// The code as a number.
    pub open spec fn spec_code(self) -> u32 {
        match self {
            GpioResult::CanNotOpenMemDevice => 0x1000,
        }
    }

    /// The code as a number.
    #[verifier::when_used_as_spec(spec_code)]
    pub fn code(self) -> (code: u32)
        ensures
            code == self.spec_code(),
    {
        match self {
            GpioResult::CanNotOpenMemDevice => 0x1000,
        }
    }
}

/// A failure of the controller.
#[derive(Debug, PartialEq, Eq)]
pub enum GpioError {
    /// A failure with its code and a message for the operator.
    ErrInfo { err_code: u32, message: String },
    /// A failure of which only the code is known.
    ErrCode(u32),
    /// The memory device was opened, but the register window could not be
    /// mapped.
    MappingFailed,
}

/// A `GpioError` with its message as a sequence of characters.
pub enum GpioErrorView {
    ErrInfo { err_code: u32, message: Seq<char> },
    ErrCode(u32),
    MappingFailed,
}

impl View for GpioError {
    type V = GpioErrorView;

    open spec fn view(&self) -> GpioErrorView {
        match self {
            GpioError::ErrInfo { err_code, message } => GpioErrorView::ErrInfo {
                err_code: *err_code,
                message: message@,
            },
            GpioError::ErrCode(code) => GpioErrorView::ErrCode(*code),
            GpioError::MappingFailed => GpioErrorView::MappingFailed,
        }
    }
}

impl GpioError {
    /// The failure that is reported when neither memory device can be
    /// opened.
    pub open spec fn spec_device_unavailable() -> GpioErrorView {
        GpioErrorView::ErrInfo {
            err_code: GpioResult::CanNotOpenMemDevice.spec_code(),
            message: "cannot open device memdevice"@,
        }
    }

    /// The failure that is reported when neither memory device can be
    /// opened.
    pub fn device_unavailable() -> (error: GpioError)
        ensures
            error@ == Self::spec_device_unavailable(),
    {
        GpioError::ErrInfo {
            err_code: GpioResult::CanNotOpenMemDevice.code(),
            message: "cannot open device memdevice".to_owned(),
        }
    }
}

} // verus!
