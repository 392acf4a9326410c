use vstd::prelude::*;

verus! {

/// Why a signing backend refused or failed a request.
#[derive(Clone, Copy, Debug, PartialEq, Eq, Structural)]
pub enum SigningError {
    /// The device is absent or unreachable.
    DeviceUnavailable,
    /// The user declined the request on the device.
    Declined,
    /// Talking to the device failed or timed out.
    Io,
    /// The device rejected the request as malformed or out of order.
    Rejected,
}

/// Why a handshake or an identity query did not complete.
#[derive(Clone, Debug, PartialEq, Eq)]
pub enum InitError {
    /// No validator entry names a chain to work on.
    ConfigurationError,
    /// The chain with this identifier is absent from the registry.
    ChainNotFound(String),
    /// The message could not be serialized.
    EncodingError,
    /// The signing backend failed.
    SigningError(SigningError),
}

} // verus!
