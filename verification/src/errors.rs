use vstd::prelude::*;

verus! {

/// The failure kinds of the control plane, one per failure-site class.
///
/// `InvalidRequest` rejects client parameters and `NotFound` an unknown
/// identifier; the rest classify external-command failures by the phase
/// in which they occur. Teardown failures (`ShutdownError`) are reported
/// but never prevent the record's removal from the registry; disk-copy
/// cleanup failures are logged only and have no kind at all.
#[derive(Clone, Copy, Debug, PartialEq, Eq, Structural)]
pub enum Error {
    InvalidRequest,
    NetworkSetupError,
    ProcessSpawnError,
    ConfigurationError,
    NotFound,
    ShutdownError,
}

/// The fixed human-readable description of each failure kind.
pub open spec fn message_of(e: Error) -> Seq<char> {
    match e {
        Error::InvalidRequest
            => "Invalid vCPU or Memory values. vCPU must be > 0 and Memory must be > 0."@,
        Error::NetworkSetupError => "Network setup command failed"@,
        Error::ProcessSpawnError => "Failed to spawn hypervisor process"@,
        Error::ConfigurationError => "Failed to configure the instance"@,
        Error::NotFound => "Workstation not found"@,
        Error::ShutdownError => "Failed to shut down the instance"@,
    }
}

impl Error {
    /// The fixed description, for the unverified shell to report.
    pub fn message(&self) -> (r: &'static str)
        ensures
            r@ == message_of(*self),
    {
        match self {
            Error::InvalidRequest => "Invalid vCPU or Memory values. vCPU must be > 0 and Memory must be > 0.",
            Error::NetworkSetupError => "Network setup command failed",
            Error::ProcessSpawnError => "Failed to spawn hypervisor process",
            Error::ConfigurationError => "Failed to configure the instance",
            Error::NotFound => "Workstation not found",
            Error::ShutdownError => "Failed to shut down the instance",
        }
    }
}

} // verus!
