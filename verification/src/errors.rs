//! Error kinds of the device-resolution engine.
//!
//! Every fatal error carries the offending device name or annotation key, so
//! that callers can report precisely what was rejected.

use vstd::prelude::*;

verus! {

/// A fatal error of device-request extraction, classification or resolution.
#[derive(Debug)]
pub enum CdiError {
    /// A qualified device name could not be parsed.
    MalformedName { name: String },
    /// An annotation carried a token that is not a fully qualified name.
    InvalidDeviceName { name: String, key: String },
    /// A request mixed automatic-vendor devices with other devices.
    MixedAutomaticDevices { name: String },
    /// Requested devices had no matching specification document.
    UnresolvableDevice { names: Vec<String> },
    /// The external device-enumeration collaborator failed.
    DiscoveryFailure,
}

/// The ghost value of a `CdiError`.
pub ghost enum CdiErrorV {
    MalformedName { name: Seq<char> },
    InvalidDeviceName { name: Seq<char>, key: Seq<char> },
    MixedAutomaticDevices { name: Seq<char> },
    UnresolvableDevice { names: Seq<Seq<char>> },
    DiscoveryFailure,
}

impl DeepView for CdiError {
    type V = CdiErrorV;

    open spec fn deep_view(&self) -> CdiErrorV {
        match self {
            CdiError::MalformedName { name } => CdiErrorV::MalformedName { name: name@ },
            CdiError::InvalidDeviceName { name, key } => CdiErrorV::InvalidDeviceName {
                name: name@,
                key: key@,
            },
            CdiError::MixedAutomaticDevices { name } => CdiErrorV::MixedAutomaticDevices {
                name: name@,
            },
            CdiError::UnresolvableDevice { names } => CdiErrorV::UnresolvableDevice {
                names: names.deep_view(),
            },
            CdiError::DiscoveryFailure => CdiErrorV::DiscoveryFailure,
        }
    }
}

} // verus!
