//! Payments by the x402 protocol: what a caller owes, and the replies to calls that were paid for.

use vstd::prelude::*;

use crate::error::{ApiError, ApiErrorView};
use crate::http_rules::{is_header_value, valid_header_value};
use crate::state::{AppState, AppStateView};
use crate::types::{
    optional_text, text_pairs, PaymentProof, PaymentRequired, PaymentRequiredView,
    ServiceRunRequest, ServiceRunResponse, ServiceRunResponseView, PAYMENT_RESPONSE_HEADER,
    PAYMENT_SIGNATURE_HEADER, X402_VERSION, X402_VERSION_HEADER,
};

verus! {

/// What a call costs.
#[derive(Debug)]
pub struct PaymentQuote {
    pub service: String,
    pub amount_cents: u64,
    /// The path that the call goes to.
    pub resource_path: String,
}

/// The contents of a `PaymentQuote`.
pub struct PaymentQuoteView {
    pub service: Seq<char>,
    pub amount_cents: u64,
    pub resource_path: Seq<char>,
}

impl View for PaymentQuote {
    type V = PaymentQuoteView;

    open spec fn view(&self) -> PaymentQuoteView {
        PaymentQuoteView {
            service: self.service@,
            amount_cents: self.amount_cents,
            resource_path: self.resource_path@,
        }
    }
}

/// What a request holds under the payment header.
#[derive(Debug)]
pub enum PaymentCredential {
    /// There is no such header.
    Missing,
    /// The header holds no proof of payment.
    Malformed,
    Proof { proof: PaymentProof },
}

/// The refusal of a call that has to be paid for.
pub open spec fn payment_required(
    service: Seq<char>,
    amount_cents: u64,
    message: Seq<char>,
    next_step: Seq<char>,
) -> ApiErrorView {
    ApiErrorView::Payment {
        required: PaymentRequiredView {
            service,
            amount_cents,
            accepted_header: PAYMENT_SIGNATURE_HEADER@,
            message,
            next_step,
        },
    }
}

/// The refusal of a call that has to be paid for.
pub fn payment_required_error(
    service: &str,
    amount_cents: u64,
    message: &str,
    next_step: &str,
) -> (r: ApiError)
    ensures
        r@ == payment_required(service@, amount_cents, message@, next_step@),
{
    ApiError::Payment {
        required: PaymentRequired {
            service: service.to_owned(),
            amount_cents,
            accepted_header: PAYMENT_SIGNATURE_HEADER.to_owned(),
            message: message.to_owned(),
            next_step: next_step.to_owned(),
        },
    }
}

/// A reply to a call that was paid for.
#[derive(Debug)]
pub struct PaidReply {
    pub headers: Vec<(String, String)>,
    pub body: ServiceRunResponse,
}

/// The contents of a `PaidReply`.
pub struct PaidReplyView {
    pub headers: Seq<(Seq<char>, Seq<char>)>,
    pub body: ServiceRunResponseView,
}

impl View for PaidReply {
    type V = PaidReplyView;

    open spec fn view(&self) -> PaidReplyView {
        PaidReplyView { headers: text_pairs(self.headers@), body: self.body@ }
    }
}

/// The headers of a reply to a call that was paid for: the version of the protocol, and the
/// settlement of the payment where there is one that a header can hold.
pub open spec fn paid_headers(settlement: Option<Seq<char>>) -> Seq<(Seq<char>, Seq<char>)> {
    let version = seq![(X402_VERSION_HEADER@, X402_VERSION@)];
    match settlement {
        Some(value) => if valid_header_value(value) {
            version.push((PAYMENT_RESPONSE_HEADER@, value))
        } else {
            version
        },
        None => version,
    }
}

/// The headers of a reply to a call that was paid for.
pub fn reply_headers(settlement: &Option<String>) -> (r: Vec<(String, String)>)
    ensures
        text_pairs(r@) == paid_headers(optional_text(*settlement)),
{
    let mut headers: Vec<(String, String)> = Vec::new();
    headers.push((X402_VERSION_HEADER.to_owned(), X402_VERSION.to_owned()));
    if let Some(value) = settlement {
        if is_header_value(value.as_str()) {
            headers.push((PAYMENT_RESPONSE_HEADER.to_owned(), value.clone()));
        }
    }
    assert(text_pairs(headers@) =~= paid_headers(optional_text(*settlement)));
    headers
}

/// What a service makes of an input.
pub open spec fn service_output(service: Seq<char>, input: Seq<char>) -> Seq<char> {
    "service '"@ + service + "' processed: "@ + input
}

/// The reply to a call that was paid for.
pub open spec fn paid_reply(
    service: Seq<char>,
    input: Seq<char>,
    payment_mode: Seq<char>,
    sponsored_by: Option<Seq<char>>,
    tx_hash: Option<Seq<char>>,
    settlement: Option<Seq<char>>,
) -> PaidReplyView {
    PaidReplyView {
        headers: paid_headers(settlement),
        body: ServiceRunResponseView {
            service,
            output: service_output(service, input),
            payment_mode,
            sponsored_by,
            tx_hash,
        },
    }
}

/// The reply to a call that was paid for.
pub fn build_paid_tool_response(
    service: String,
    payload: ServiceRunRequest,
    payment_mode: &str,
    sponsored_by: Option<String>,
    tx_hash: Option<String>,
    settlement: &Option<String>,
) -> (r: PaidReply)
    ensures
        r@ == paid_reply(
            service@,
            payload.input@,
            payment_mode@,
            optional_text(sponsored_by),
            optional_text(tx_hash),
            optional_text(*settlement),
        ),
{
    let mut output: String = "service '".to_owned();
    output.append(service.as_str());
    output.append("' processed: ");
    output.append(payload.input.as_str());
    PaidReply {
        headers: reply_headers(settlement),
        body: ServiceRunResponse {
            service,
            output,
            payment_mode: payment_mode.to_owned(),
            sponsored_by,
            tx_hash,
        },
    }
}

impl AppStateView {
    /// The state after a user paid for a call.
    pub open spec fn with_user_payment(self) -> AppStateView {
        self.with_metrics(self.metrics.with_payment("user_direct"@, "settled"@))
    }
}

impl AppState {
    /// Counts a payment by a user.
    pub fn mark_user_payment(&mut self)
        requires
            old(self).well_formed(),
        ensures
            final(self).well_formed(),
            final(self)@ == old(self)@.with_user_payment(),
    {
        self.metrics.mark_payment("user_direct", "settled");
    }
}

} // verus!
