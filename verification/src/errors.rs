use vstd::prelude::*;
use vstd::string::StringExecFns;

verus! {

/// A recoverable failure of the device-facing layer. The taxonomy follows
/// the propagation policy: a driver-reported operation failure carries the
/// failing operation's name and the driver's own diagnostic text, so the
/// message names the root cause without source access; a validation loop
/// that ran out of retries is a configuration failure of its own kind,
/// distinct from any driver error.
pub enum ComediError {
    Driver { operation: String, detail: String },
    ValidationDidNotConverge { rounds: u32 },
}

impl ComediError {
    /// The user-visible text of the failure. A driver failure always reads
    /// "operation: driver text"; non-convergence names the protocol that
    /// failed.
    pub fn message(&self) -> (r: String)
        ensures
            match self {
                ComediError::Driver { operation, detail } => r@ == operation@ + ": "@
                    + detail@,
                ComediError::ValidationDidNotConverge { .. } => r@
                    == "command validation did not converge"@,
            },
    {
        match self {
            ComediError::Driver { operation, detail } => {
                let mut s = operation.clone();
                s.append(": ");
                s.append(detail.as_str());
                s
            },
            ComediError::ValidationDidNotConverge { .. } => {
                String::from_str("command validation did not converge")
            },
        }
    }
}

} // verus!
