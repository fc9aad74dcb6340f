//! The library's error type: the structured conditions the lifecycle logic
//! reports. I/O and USB-subsystem failures arise in the surrounding
//! application; it carries their diagnostic text into `Io` / `Usb`.

use vstd::prelude::*;

verus! {

/// A reported condition. No variant is fatal to the lifecycle worker: each
/// is reported and processing moves to the next queued event.
#[derive(Debug, Clone, PartialEq, Eq)]
pub enum Error {
    /// A filesystem operation failed; carries the diagnostic text.
    Io(String),
    /// A USB-subsystem operation failed; carries the diagnostic text.
    Usb(String),
    /// The device could not be mounted; carries the reason (the mount
    /// tool's captured standard error, or a description of the failing
    /// step).
    CantMount(String),
    /// The availability probe reported that the mount tool is missing.
    IfuseNotInstalled,
    /// A departure event arrived for a slot that was never recorded as
    /// mounted.
    DeviceNotFound,
}

impl Error {
    /// The operator-visible text of this condition.
    pub open spec fn spec_message(&self) -> Seq<char> {
        match self {
            Error::Io(e) => e@,
            Error::Usb(e) => e@,
            Error::CantMount(e) => "Can't mount device: "@ + e@,
            Error::IfuseNotInstalled => "ifuse not installed"@,
            Error::DeviceNotFound => "Device not found"@,
        }
    }

    /// Renders the condition as operator-visible text.
    pub fn message(&self) -> (m: String)
        ensures
            m@ == self.spec_message(),
    {
        match self {
            Error::Io(e) => e.clone(),
            Error::Usb(e) => e.clone(),
            Error::CantMount(e) => {
                let mut m = "Can't mount device: ".to_owned();
                m.append(e.as_str());
                m
            },
            Error::IfuseNotInstalled => "ifuse not installed".to_owned(),
            Error::DeviceNotFound => "Device not found".to_owned(),
        }
    }
}

} // verus!
