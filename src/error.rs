use vstd::prelude::*;

verus! {

/// Failure kinds of a Lightning Address resolution.
#[derive(Debug, Clone, PartialEq, Eq)]
pub enum ResolveError {
    /// The address is not of the form `user@domain`.
    InvalidAddress,
    /// The requested amount lies outside the payee's bounds.
    AmountOutOfRange,
    /// The payee's own bounds are inconsistent.
    InvariantViolation,
    /// Transport failure, or a non-2xx status (carried when known).
    UpstreamUnavailable(Option<u16>),
    /// A well-formed response that breaks the LNURL-pay schema or status contract.
    ProtocolViolation(Option<String>),
}

/// Whether a failure is the caller's fault rather than the upstream service's.
pub open spec fn is_caller_fault(e: ResolveError) -> bool {
    e is InvalidAddress || e is AmountOutOfRange || e is InvariantViolation
}

impl ResolveError {
    /// Caller input errors versus upstream/service errors.
    pub fn is_caller_error(&self) -> (r: bool)
        ensures
            r == is_caller_fault(*self),
    {
        match self {
            ResolveError::InvalidAddress => true,
            ResolveError::AmountOutOfRange => true,
            ResolveError::InvariantViolation => true,
            ResolveError::UpstreamUnavailable(_) => false,
            ResolveError::ProtocolViolation(_) => false,
        }
    }
}

/// Maps an HTTP status code: any 2xx passes, anything else is an upstream failure.
pub fn check_http_status(code: u16) -> (r: Result<(), ResolveError>)
    ensures
        (200 <= code && code <= 299) ==> r is Ok,
        !(200 <= code && code <= 299) ==> r == Err::<(), ResolveError>(
            ResolveError::UpstreamUnavailable(Some(code)),
        ),
{
    if 200 <= code && code <= 299 {
        Ok(())
    } else {
        Err(ResolveError::UpstreamUnavailable(Some(code)))
    }
}

} // verus!
