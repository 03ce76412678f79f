use vstd::prelude::*;
use crate::descriptor::check_status;
use crate::error::{check_http_status, ResolveError};
use crate::text::{chars_of, push_chars, str_equals, string_of};

verus! {

/// What the payer's client should show or do after payment, keyed on its `tag`.
#[derive(Debug, Clone)]
pub enum SuccessAction {
    Message { message: String },
    Url { description: String, url: String },
    Aes { description: String, ciphertext: String, iv: String },
    /// A tag this library does not know, kept with the action's JSON text as received.
    Other { tag: String, raw: String },
}

/// The known `successAction` tags, and the fallback for any other.
#[derive(Debug, Clone, Copy, PartialEq, Eq)]
pub enum SuccessActionKind {
    Message,
    Url,
    Aes,
    Other,
}

/// The kind that a `successAction` tag selects.
pub open spec fn kind_of_tag(tag: Seq<char>) -> SuccessActionKind {
    if tag == "message"@ {
        SuccessActionKind::Message
    } else if tag == "url"@ {
        SuccessActionKind::Url
    } else if tag == "aes"@ {
        SuccessActionKind::Aes
    } else {
        SuccessActionKind::Other
    }
}

/// Selects the variant for a `successAction` tag; unknown tags are kept, not rejected.
pub fn success_action_kind(tag: &str) -> (r: SuccessActionKind)
    ensures
        r == kind_of_tag(tag@),
{
    if str_equals(tag, "message") {
        SuccessActionKind::Message
    } else if str_equals(tag, "url") {
        SuccessActionKind::Url
    } else if str_equals(tag, "aes") {
        SuccessActionKind::Aes
    } else {
        SuccessActionKind::Other
    }
}

/// The callback's answer: the invoice (`pr`) and what goes with it.
#[derive(Debug, Clone)]
pub struct InvoiceResponse {
    pub status: String,
    /// The upstream's explanation, present on error responses.
    pub reason: Option<String>,
    pub success_action: Option<SuccessAction>,
    pub verify: String,
    /// Each route's JSON text exactly as received; never interpreted.
    pub routes: Vec<String>,
    pub pr: String,
}

/// The texts `items` joined with commas between them.
pub open spec fn comma_joined(items: Seq<Seq<char>>) -> Seq<char>
    decreases items.len(),
{
    if items.len() == 0 {
        seq![]
    } else if items.len() == 1 {
        items[0]
    } else {
        comma_joined(items.drop_last()) + seq![','] + items.last()
    }
}

/// The JSON array whose elements have the texts `items`, in order.
pub open spec fn json_array_text(items: Seq<Seq<char>>) -> Seq<char> {
    seq!['['] + comma_joined(items) + seq![']']
}

impl InvoiceResponse {
    /// The texts of the routes, in order.
    pub open spec fn route_texts(&self) -> Seq<Seq<char>> {
        self.routes@.map_values(|s: String| s@)
    }

    /// Re-emits `routes` as one JSON array, each element's text unchanged.
    pub fn routes_json(&self) -> (r: String)
        ensures
            r@ == json_array_text(self.route_texts()),
    {
        let ghost items = self.route_texts();
        let mut v: Vec<char> = Vec::new();
        v.push('[');
        let mut i: usize = 0;
        while i < self.routes.len()
            invariant
                i <= self.routes@.len(),
                items == self.route_texts(),
                v@ == seq!['['] + comma_joined(items.take(i as int)),
            decreases self.routes@.len() - i,
        {
            let ghost prev = v@;
            if i > 0 {
                v.push(',');
            }
            push_chars(&mut v, &chars_of(self.routes[i].as_str()));
            assert(items.take(i as int + 1).drop_last() =~= items.take(i as int));
            if i == 0 {
                assert(v@ =~= seq!['['] + comma_joined(items.take(1)));
            } else {
                assert(v@ =~= seq!['['] + comma_joined(items.take(i as int + 1)));
            }
            i = i + 1;
        }
        assert(items.take(items.len() as int) =~= items);
        v.push(']');
        string_of(v.as_slice())
    }
}

/// The step after the callback call: given its HTTP status and the response it
/// carried, the invoice, or the failure in order (transport status, response status).
pub fn accept_invoice(callback_status: u16, response: InvoiceResponse) -> (r: Result<
    InvoiceResponse,
    ResolveError,
>)
    ensures
        !(200 <= callback_status <= 299) ==> r == Err::<InvoiceResponse, ResolveError>(
            ResolveError::UpstreamUnavailable(Some(callback_status)),
        ),
        (200 <= callback_status <= 299 && response.status@ != "OK"@) ==> r == Err::<
            InvoiceResponse,
            ResolveError,
        >(ResolveError::ProtocolViolation(response.reason)),
        (200 <= callback_status <= 299 && response.status@ == "OK"@) ==> r == Ok::<
            InvoiceResponse,
            ResolveError,
        >(response),
{
    match check_http_status(callback_status) {
        Err(e) => return Err(e),
        Ok(()) => {},
    }
    let ok = str_equals(response.status.as_str(), "OK");
    if ok {
        Ok(response)
    } else {
        Err(ResolveError::ProtocolViolation(response.reason))
    }
}

} // verus!
