//! The error taxonomy of the bridge core.
//!
//! Every operation of the dispatch layer reports failure through one of
//! these variants; none of them may escape as a fault across the host
//! boundary.

use vstd::prelude::*;

verus! {

/// A structured error of the bridge core.
#[derive(Debug, PartialEq, Eq)]
pub enum BridgeError {
    /// The handle does not resolve to a live job context.
    HandleNotFound,
    /// The port id is already bound to a port in this job context.
    PortAlreadyBound,
    /// No port with this id exists in this job context.
    PortNotFound,
    /// The port exists but has the wrong variant for the operation.
    PortTypeMismatch,
    /// The output port exists but the engine has not written it yet.
    OutputNotReady,
    /// The supplied filesystem path is rejected at attach time.
    InvalidPath,
    /// A filesystem operation failed.
    IoFailure,
    /// The engine collaborator reported a failure; the detail is its own.
    EngineFailure(String),
    /// The handle space is exhausted; practically unreachable with
    /// 64-bit handles.
    RegistryExhausted,
}

impl BridgeError {
    /// The descriptive string a host receives for this error.
    pub open spec fn spec_describe(&self) -> Seq<char> {
        match self {
            BridgeError::HandleNotFound => "handle not found"@,
            BridgeError::PortAlreadyBound => "port id already bound"@,
            BridgeError::PortNotFound => "port not found"@,
            BridgeError::PortTypeMismatch => "port has the wrong variant"@,
            BridgeError::OutputNotReady => "output not produced yet"@,
            BridgeError::InvalidPath => "invalid path"@,
            BridgeError::IoFailure => "filesystem operation failed"@,
            BridgeError::EngineFailure(detail) => detail@,
            BridgeError::RegistryExhausted => "handle space exhausted"@,
        }
    }

    /// A descriptive error string, so the caller always receives a
    /// diagnostic payload rather than a fault.
    pub fn describe(&self) -> (s: String)
        ensures
            s@ == self.spec_describe(),
    {
        match self {
            BridgeError::HandleNotFound => "handle not found".to_string(),
            BridgeError::PortAlreadyBound => "port id already bound".to_string(),
            BridgeError::PortNotFound => "port not found".to_string(),
            BridgeError::PortTypeMismatch => "port has the wrong variant".to_string(),
            BridgeError::OutputNotReady => "output not produced yet".to_string(),
            BridgeError::InvalidPath => "invalid path".to_string(),
            BridgeError::IoFailure => "filesystem operation failed".to_string(),
            BridgeError::EngineFailure(detail) => detail.clone(),
            BridgeError::RegistryExhausted => "handle space exhausted".to_string(),
        }
    }
}

} // verus!
