use vstd::prelude::*;
use crate::descriptor::{
    callback_request_url, check_status, validation_spec, PayDescriptor,
};
use crate::error::{check_http_status, ResolveError};

verus! {

/// The step between the two network calls: given the HTTP status of the discovery
/// response and the descriptor it carried, either the invoice request URL for
/// `amount_msat`, or the first failure in order (transport status, descriptor
/// status, bounds).
pub fn plan_invoice_request(
    well_known_status: u16,
    descriptor: &PayDescriptor,
    amount_msat: u64,
) -> (r: Result<String, ResolveError>)
    ensures
        !(200 <= well_known_status <= 299) ==> r == Err::<String, ResolveError>(
            ResolveError::UpstreamUnavailable(Some(well_known_status)),
        ),
        (200 <= well_known_status <= 299 && descriptor.status@ != "OK"@) ==> r == Err::<
            String,
            ResolveError,
        >(ResolveError::ProtocolViolation(descriptor.reason)),
        (200 <= well_known_status <= 299 && descriptor.status@ == "OK"@) ==> {
            let v = validation_spec(
                descriptor.min_sendable as int,
                descriptor.max_sendable as int,
                amount_msat as int,
            );
            &&& v matches Err(e) ==> r == Err::<String, ResolveError>(e)
            &&& v is Ok ==> (r matches Ok(u) && u@ == callback_request_url(
                descriptor.callback_url@,
                amount_msat as nat,
            ))
        },
{
    match check_http_status(well_known_status) {
        Err(e) => return Err(e),
        Ok(()) => {},
    }
    let reason = match &descriptor.reason {
        Some(s) => Some(s.clone()),
        None => None,
    };
    match check_status(descriptor.status.as_str(), reason) {
        Err(e) => return Err(e),
        Ok(()) => {},
    }
    if amount_msat > i64::MAX as u64 {
        if descriptor.min_sendable > descriptor.max_sendable {
            return Err(ResolveError::InvariantViolation);
        }
        return Err(ResolveError::AmountOutOfRange);
    }
    match descriptor.validate(amount_msat as i64) {
        Err(e) => Err(e),
        Ok(()) => Ok(descriptor.invoice_request_url(amount_msat)),
    }
}

} // verus!
