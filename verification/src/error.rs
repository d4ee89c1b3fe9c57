//! The failure taxonomy: each failure is reported at the call that
//! detects it, with nothing silently defaulted, clamped or downgraded.

use vstd::prelude::*;

verus! {

/// The failure taxonomy of this library. Each variant is reported at the
/// call that detects it; nothing is silently defaulted or clamped.
#[derive(Clone, Copy, Debug, PartialEq, Eq, Structural)]
pub enum Error {
    /// A selection token outside the canonical table.
    Selection,
    /// An HTTP/2 parameter outside the protocol's valid range.
    ParameterRejection,
    /// A proxy URL with an unsupported scheme or no target.
    ProxyDescriptor,
    /// The collaborator could not materialize the configuration.
    Collaborator,
}

impl Error {
    /// A short description of the failure, distinguishing the four
    /// categories.
    pub fn message(&self) -> (m: &'static str)
        ensures
            m@.len() > 0,
            *self == Error::Selection ==> m@ == ("invalid impersonate selection token")@,
            *self == Error::ParameterRejection ==> m@ == (
            "http2 parameter out of protocol range")@,
            *self == Error::ProxyDescriptor ==> m@ == ("unsupported or malformed proxy url")@,
            *self == Error::Collaborator ==> m@ == ("collaborator rejected the configuration")@,
    {
        proof {
            reveal_strlit("invalid impersonate selection token");
            reveal_strlit("http2 parameter out of protocol range");
            reveal_strlit("unsupported or malformed proxy url");
            reveal_strlit("collaborator rejected the configuration");
        }
        match self {
            Error::Selection => "invalid impersonate selection token",
            Error::ParameterRejection => "http2 parameter out of protocol range",
            Error::ProxyDescriptor => "unsupported or malformed proxy url",
            Error::Collaborator => "collaborator rejected the configuration",
        }
    }
}

} // verus!
