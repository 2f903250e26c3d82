use vstd::prelude::*;

verus! {

/// Error taxonomy of the facade.
#[derive(Debug, Clone, Copy, PartialEq, Eq, Structural)]
pub enum Error {
    /// Declared for callers, but never produced by the current mapping:
    /// a not-found answer from the provider is not told apart from any
    /// other failure.
    ServerNotFound,
    /// Catch-all for any failure of the underlying provider call; the
    /// original cause is deliberately discarded.
    HetznerApi,
}

impl Error {
    /// Human-readable description of the error.
    pub fn message(&self) -> (m: String)
        ensures
            *self is ServerNotFound ==> m@ == "server not found"@,
            *self is HetznerApi ==> m@ == "hetzner API error"@,
    {
        match self {
            Error::ServerNotFound => String::from_str("server not found"),
            Error::HetznerApi => String::from_str("hetzner API error"),
        }
    }
}

/// Shared outcome policy of the three operations: a provider success is
/// handed through unmodified, and any provider failure surfaces as
/// `Error::HetznerApi`, its detail discarded. No other outcome exists,
/// so no provider failure ever escapes as anything but this error.
pub fn api_result<T>(outcome: Result<T, ()>) -> (r: Result<T, Error>)
    ensures
        outcome matches Ok(record) ==> (r matches Ok(returned) && returned == record),
        outcome is Err ==> r == Err::<T, Error>(Error::HetznerApi),
{
    match outcome {
        Ok(record) => Ok(record),
        Err(()) => Err(Error::HetznerApi),
    }
}

} // verus!
