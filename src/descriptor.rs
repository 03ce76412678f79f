use vstd::prelude::*;
use crate::text::{chars_of, push_chars, str_equals, string_of};
use crate::error::ResolveError;

verus! {

/// What the payee optionally asks of the payer; each flag says whether it is mandatory.
#[derive(Debug, Clone, Copy, PartialEq, Eq)]
pub struct PayerDataRequirement {
    pub name_mandatory: bool,
    pub email_mandatory: bool,
    pub pubkey_mandatory: bool,
}

/// The LNURL-pay capability descriptor served at the well-known endpoint.
#[derive(Debug, Clone)]
pub struct PayDescriptor {
    pub status: String,
    /// The upstream's explanation, present on error descriptors.
    pub reason: Option<String>,
    pub tag: String,
    pub comment_allowed: u8,
    pub callback_url: String,
    pub metadata: String,
    pub min_sendable: i64,
    pub max_sendable: i64,
    pub payer_data: PayerDataRequirement,
    pub nostr_pubkey: String,
    pub allows_nostr: bool,
}

/// The outcome of validating an amount against a descriptor's bounds.
pub open spec fn validation_spec(min: int, max: int, amount: int) -> Result<(), ResolveError> {
    if min > max {
        Err(ResolveError::InvariantViolation)
    } else if amount < min || amount > max {
        Err(ResolveError::AmountOutOfRange)
    } else {
        Ok(())
    }
}

/// Checks a requested amount (msat) against inclusive bounds `[min, max]`.
pub fn validate_amount(min: i64, max: i64, amount: i64) -> (r: Result<(), ResolveError>)
    ensures
        r == validation_spec(min as int, max as int, amount as int),
{
    if min > max {
        Err(ResolveError::InvariantViolation)
    } else if amount < min || amount > max {
        Err(ResolveError::AmountOutOfRange)
    } else {
        Ok(())
    }
}

impl PayDescriptor {
    /// Checks the descriptor's own bounds and then the requested amount against them.
    pub fn validate(&self, amount_msat: i64) -> (r: Result<(), ResolveError>)
        ensures
            r == validation_spec(
                self.min_sendable as int,
                self.max_sendable as int,
                amount_msat as int,
            ),
    {
        validate_amount(self.min_sendable, self.max_sendable, amount_msat)
    }
}

/// Inconsistent bounds fail with `InvariantViolation`, whatever amount is requested.
pub proof fn lemma_inverted_bounds_rejected(min: int, max: int, amount: int)
    requires
        min > max,
    ensures
        validation_spec(min, max, amount) == Err::<(), ResolveError>(ResolveError::InvariantViolation),
{
}

/// With consistent bounds, an amount is accepted exactly when it lies in `[min, max]`.
pub proof fn lemma_bounds_inclusive(min: int, max: int, amount: int)
    requires
        min <= max,
    ensures
        validation_spec(min, max, amount) is Ok <==> (min <= amount <= max),
        !(min <= amount <= max) ==> validation_spec(min, max, amount) == Err::<(), ResolveError>(
            ResolveError::AmountOutOfRange,
        ),
{
}

/// Accepts a response only when its `status` is `OK`; otherwise a protocol violation
/// carrying the upstream reason, if any.
pub fn check_status(status: &str, reason: Option<String>) -> (r: Result<(), ResolveError>)
    ensures
        status@ == "OK"@ ==> r is Ok,
        status@ != "OK"@ ==> r == Err::<(), ResolveError>(ResolveError::ProtocolViolation(reason)),
{
    if str_equals(status, "OK") {
        Ok(())
    } else {
        Err(ResolveError::ProtocolViolation(reason))
    }
}

/// The decimal digit character for `d < 10`.
pub open spec fn digit_char(d: nat) -> char {
    ((48 + d) as u8) as char
}

/// The decimal notation of `n`, without leading zeros.
pub open spec fn decimal(n: nat) -> Seq<char>
    decreases n,
{
    if n < 10 {
        seq![digit_char(n)]
    } else {
        decimal(n / 10).push(digit_char(n % 10))
    }
}

/// Appends the decimal notation of `n` to `v`.
fn push_decimal(v: &mut Vec<char>, n: u64)
    ensures
        final(v)@ == old(v)@ + decimal(n as nat),
    decreases n,
{
    if n >= 10 {
        push_decimal(v, n / 10);
    }
    let d: u8 = (n % 10) as u8;
    v.push((48u8 + d) as char);
    assert(v@ =~= old(v)@ + decimal(n as nat));
}

/// The invoice request URL `{callback}?amount={amount_msat}`.
pub open spec fn callback_request_url(callback: Seq<char>, amount_msat: nat) -> Seq<char> {
    callback + "?amount="@ + decimal(amount_msat)
}

impl PayDescriptor {
    /// The URL that requests an invoice for `amount_msat` from this payee.
    pub fn invoice_request_url(&self, amount_msat: u64) -> (r: String)
        ensures
            r@ == callback_request_url(self.callback_url@, amount_msat as nat),
    {
        proof {
            reveal_strlit("?amount=");
        }
        let mut v = chars_of(self.callback_url.as_str());
        push_chars(&mut v, &chars_of("?amount="));
        push_decimal(&mut v, amount_msat);
        string_of(v.as_slice())
    }
}

} // verus!
