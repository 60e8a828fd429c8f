//! The errors with which a physical device, or the instance set-up, is
//! refused.
use vstd::prelude::*;

verus! {

/// A physical device lacks something that the application needs; the text
/// names what is missing.
#[derive(Clone, Copy, Debug, PartialEq, Eq)]
pub struct SuitabilityError(pub &'static str);

impl SuitabilityError {
    /// The error's message: `Missing {0}.`
    pub fn message(&self) -> (r: String)
        ensures
            r@ == "Missing "@ + self.0@ + "."@,
    {
        let mut s = String::from_str("Missing ");
        s.append(self.0);
        s.append(".");
        s
    }
}

/// Why a physical device was skipped.
#[derive(Clone, Copy, Debug, PartialEq, Eq)]
pub enum DeviceError {
    /// The device lacks a capability the application needs.
    Unsuitable(SuitabilityError),
    /// A query about the device failed with this raw `vk::Result` code.
    Vulkan(i32),
}

} // verus!
