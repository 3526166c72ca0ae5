//! The error type of the hardware control core.

use vstd::prelude::*;
use vstd::string::*;

verus! {

/// What went wrong with a hardware operation.
#[derive(Debug, Clone)]
pub enum ArmouryError {
    /// The machine is not supported.
    UnsupportedHardware(String),
    /// The capability that the operation needs is absent.
    FeatureNotAvailable(String),
    /// The operating system refused a write (not running as root).
    PermissionDenied(String),
    /// The D-Bus transport failed.
    DbusError(String),
    /// The configuration could not be used.
    ConfigError(String),
    /// Any other I/O failure.
    IoError(String),
    /// A value outside its domain, such as a battery limit other than
    /// 60, 80 or 100.
    InvalidValue(String),
    /// An external helper program failed or could not be run.
    HardwareError(String),
    /// No live connection to the daemon.
    ServiceNotRunning,
}

impl ArmouryError {
    /// The message that describes the error: a fixed prefix and the detail.
    pub open spec fn message(&self) -> Seq<char> {
        match self {
            ArmouryError::UnsupportedHardware(d) => "Hardware not supported: "@ + d@,
            ArmouryError::FeatureNotAvailable(d) => "Feature not available: "@ + d@,
            ArmouryError::PermissionDenied(d) => "Permission denied: "@ + d@,
            ArmouryError::DbusError(d) => "D-Bus error: "@ + d@,
            ArmouryError::ConfigError(d) => "Configuration error: "@ + d@,
            ArmouryError::IoError(d) => "I/O error: "@ + d@,
            ArmouryError::InvalidValue(d) => "Invalid value: "@ + d@,
            ArmouryError::HardwareError(d) => "Hardware communication error: "@ + d@,
            ArmouryError::ServiceNotRunning => "Service not running"@,
        }
    }

    pub fn to_string(&self) -> (r: String)
        ensures
            r@ == self.message(),
    {
        match self {
            ArmouryError::UnsupportedHardware(d) => String::from_str(
                "Hardware not supported: ",
            ).concat(d.as_str()),
            ArmouryError::FeatureNotAvailable(d) => String::from_str(
                "Feature not available: ",
            ).concat(d.as_str()),
            ArmouryError::PermissionDenied(d) => String::from_str("Permission denied: ").concat(
                d.as_str(),
            ),
            ArmouryError::DbusError(d) => String::from_str("D-Bus error: ").concat(d.as_str()),
            ArmouryError::ConfigError(d) => String::from_str("Configuration error: ").concat(
                d.as_str(),
            ),
            ArmouryError::IoError(d) => String::from_str("I/O error: ").concat(d.as_str()),
            ArmouryError::InvalidValue(d) => String::from_str("Invalid value: ").concat(
                d.as_str(),
            ),
            ArmouryError::HardwareError(d) => String::from_str(
                "Hardware communication error: ",
            ).concat(d.as_str()),
            ArmouryError::ServiceNotRunning => String::from_str("Service not running"),
        }
    }
}

/// Result of a hardware operation.
pub type ArmouryResult<T> = Result<T, ArmouryError>;

} // verus!
