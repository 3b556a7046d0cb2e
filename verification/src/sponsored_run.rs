//! Calls of an API whose calls a sponsor pays for.

use vstd::prelude::*;

use crate::clock::utc_now;
use crate::config::AppConfig;
use crate::error::{
    database_answer, database_failure, outcome_view, upstream_error, ApiError, ApiErrorView,
    ApiResult, STATUS_BAD_GATEWAY,
};
use crate::ids::{fresh_id, is_random_uuid, print_id, uuid_text};
use crate::onchain::{NodeCall, NodeCallView, RpcReply};
use crate::payments::{
    paid_headers, payment_required, payment_required_error, reply_headers, PaymentCredential,
    PaymentQuote, PaymentQuoteView,
};
use crate::sponsored::{
    distinct_names, found_api, get_sponsored_api, signed, to_signed, SponsoredApi, SponsoredApiRow,
    SponsoredApiRowView, SponsoredApiView,
};
use crate::sponsored_create::{CreatePlanView, CreateSponsoredApiRequest};
use crate::state::{AppState, AppStateView};
use crate::text::{trim, trimmed};
use crate::types::{
    clone_optional, clone_pairs, optional_text, text_pairs, PaymentSettlement,
    PaymentSettlementView, Timestamp,
};
use crate::verification::{
    Verification, VerificationStep, VerificationStepView, VerificationView,
};

verus! {

/// A request to call an API.
#[derive(Debug)]
pub struct SponsoredApiRunRequest {
    pub caller: Option<String>,
    pub input: serde_json::Value,
}

/// The contents of a `SponsoredApiRunRequest`.
pub struct SponsoredApiRunRequestView {
    pub caller: Option<Seq<char>>,
    pub input: serde_json::Value,
}

impl View for SponsoredApiRunRequest {
    type V = SponsoredApiRunRequestView;

    open spec fn view(&self) -> SponsoredApiRunRequestView {
        SponsoredApiRunRequestView { caller: optional_text(self.caller), input: self.input }
    }
}

/// How a call of an API is paid for.
#[derive(Debug)]
pub enum RunPlan {
    /// By the caller.
    Direct { quote: PaymentQuote },
    /// By the sponsor, who then has this much left, and goes on paying or not.
    Sponsored { new_remaining_cents: u64, still_active: bool },
}

/// The contents of a `RunPlan`.
pub enum RunPlanView {
    Direct { quote: PaymentQuoteView },
    Sponsored { new_remaining_cents: u64, still_active: bool },
}

impl View for RunPlan {
    type V = RunPlanView;

    open spec fn view(&self) -> RunPlanView {
        match self {
            RunPlan::Direct { quote } => RunPlanView::Direct { quote: quote@ },
            RunPlan::Sponsored { new_remaining_cents, still_active } => RunPlanView::Sponsored {
                new_remaining_cents: *new_remaining_cents,
                still_active: *still_active,
            },
        }
    }
}

impl SponsoredApiView {
    /// What a call of the API costs a caller.
    pub open spec fn quote(self) -> PaymentQuoteView {
        PaymentQuoteView {
            service: self.service_key,
            amount_cents: self.price_cents,
            resource_path: "/sponsored-apis/"@ + uuid_text(self.id) + "/run"@,
        }
    }

    /// Whether the sponsor pays for a call.
    pub open spec fn sponsor_pays(self) -> bool {
        self.active && self.budget_remaining_cents >= self.price_cents
    }

    /// The API after the sponsor paid for a call: it ends when the next one cannot be paid for.
    pub open spec fn debited(self) -> SponsoredApiView {
        let left = (self.budget_remaining_cents - self.price_cents) as u64;
        SponsoredApiView {
            budget_remaining_cents: left,
            active: left >= self.price_cents && left > 0,
            ..self
        }
    }

    /// How a call is paid for: by the caller, where it shows a payment, or else by the sponsor.
    pub open spec fn run_plan(self, has_payment_header: bool) -> Result<RunPlanView, ApiErrorView> {
        if has_payment_header {
            Ok(RunPlanView::Direct { quote: self.quote() })
        } else if self.sponsor_pays() {
            Ok(
                RunPlanView::Sponsored {
                    new_remaining_cents: self.debited().budget_remaining_cents,
                    still_active: self.debited().active,
                },
            )
        } else {
            Err(
                payment_required(
                    self.service_key,
                    self.price_cents,
                    "sponsored budget exhausted"@,
                    "pay with PAYMENT-SIGNATURE and retry"@,
                ),
            )
        }
    }

    /// How many calls the sponsor still pays for.
    pub open spec fn sponsored_calls_left(self) -> int
        recommends
            self.price_cents > 0,
    {
        if self.active {
            self.budget_remaining_cents as int / self.price_cents as int
        } else {
            0
        }
    }
}

/// A sponsored call takes the price out of the budget, and no more than is there.
pub proof fn law_debit_takes_the_price(api: SponsoredApiView)
    requires
        api.sponsor_pays(),
    ensures
        api.debited().budget_remaining_cents + api.price_cents == api.budget_remaining_cents,
{
}

/// The sponsor pays as long as calls are left, and each call that it pays for leaves one fewer.
pub proof fn law_budget_pays_for_its_share(api: SponsoredApiView)
    requires
        api.price_cents > 0,
    ensures
        api.sponsor_pays() == (api.sponsored_calls_left() > 0),
        api.sponsor_pays() ==> api.debited().sponsored_calls_left() == api.sponsored_calls_left()
            - 1,
{
    let price = api.price_cents as int;
    let budget = api.budget_remaining_cents as int;
    assert(budget >= price ==> budget / price >= 1) by (nonlinear_arith)
        requires
            price > 0,
    ;
    assert(0 <= budget < price ==> budget / price == 0) by (nonlinear_arith)
        requires
            price > 0,
    ;
    assert(budget >= price ==> (budget - price) / price == budget / price - 1) by {
        vstd::arithmetic::div_mod::lemma_div_minus_one(budget, price);
    }
    let left = budget - price;
    assert(0 <= left < price ==> left / price == 0) by (nonlinear_arith)
        requires
            price > 0,
    ;
}

/// A new API is paid for by its sponsor for as many calls as its budget holds prices.
pub proof fn law_new_api_pays_for_its_budget(
    request: CreateSponsoredApiRequest,
    config: AppConfig,
    plan: CreatePlanView,
    id: u128,
    now: Timestamp,
)
    requires
        request.plan(true, config) == Ok::<CreatePlanView, ApiErrorView>(plan),
    ensures
        plan.price_cents == request.price(),
        plan.price_cents > 0,
        request.api(plan.price_cents, plan.upstream_method, id, now).sponsored_calls_left()
            == request.budget_cents as int / request.price() as int,
{
}

/// What the database is told to keep of a sponsored call is read back as the API after the call.
pub proof fn law_saved_budget_is_read_back(api: SponsoredApiView)
    requires
        api.sponsor_pays(),
        api.price_cents <= i64::MAX,
        api.budget_total_cents <= i64::MAX,
        api.budget_remaining_cents <= i64::MAX,
    ensures
        api.run_plan(false) matches Ok(RunPlanView::Sponsored { new_remaining_cents, still_active })
            && (SponsoredApiRowView {
            budget_remaining_cents: signed(new_remaining_cents),
            active: still_active,
            ..api.row()
        }).stored_api() == Ok::<SponsoredApiView, ApiErrorView>(api.debited()),
{
}

/// Decides how a call of an API is paid for.
pub fn plan_sponsored_api_run(api: &SponsoredApi, has_payment_header: bool) -> (r: ApiResult<
    RunPlan,
>)
    ensures
        outcome_view(r) == api@.run_plan(has_payment_header),
{
    let price: u64 = api.price_cents;
    if has_payment_header {
        let mut resource_path: String = "/sponsored-apis/".to_owned();
        resource_path.append(print_id(api.id).as_str());
        resource_path.append("/run");
        Ok(
            RunPlan::Direct {
                quote: PaymentQuote {
                    service: api.service_key.clone(),
                    amount_cents: price,
                    resource_path,
                },
            },
        )
    } else if api.active && api.budget_remaining_cents >= price {
        let new_remaining_cents: u64 = api.budget_remaining_cents.saturating_sub(price);
        let still_active: bool = new_remaining_cents >= price && new_remaining_cents > 0;
        Ok(RunPlan::Sponsored { new_remaining_cents, still_active })
    } else {
        Err(
            payment_required_error(
                api.service_key.as_str(),
                price,
                "sponsored budget exhausted",
                "pay with PAYMENT-SIGNATURE and retry",
            ),
        )
    }
}

/// The payment of a call of an API.
#[derive(Debug)]
pub struct RunPayment {
    pub payment_mode: String,
    pub sponsored_by: Option<String>,
    pub tx_hash: Option<String>,
    /// The settlement of the payment, as the reply is to show it.
    pub settlement: Option<String>,
}

/// The contents of a `RunPayment`.
pub struct RunPaymentView {
    pub payment_mode: Seq<char>,
    pub sponsored_by: Option<Seq<char>>,
    pub tx_hash: Option<Seq<char>>,
    pub settlement: Option<Seq<char>>,
}

impl View for RunPayment {
    type V = RunPaymentView;

    open spec fn view(&self) -> RunPaymentView {
        RunPaymentView {
            payment_mode: self.payment_mode@,
            sponsored_by: optional_text(self.sponsored_by),
            tx_hash: optional_text(self.tx_hash),
            settlement: optional_text(self.settlement),
        }
    }
}

/// The payment of a call by the caller, with the settlement as the reply is to show it.
pub open spec fn direct_payment(tx_hash: Seq<char>, header: Seq<char>) -> RunPaymentView {
    RunPaymentView {
        payment_mode: "user_direct"@,
        sponsored_by: None,
        tx_hash: Some(tx_hash),
        settlement: Some(header),
    }
}

/// The payment of a call by the sponsor.
pub open spec fn sponsor_payment(sponsor: Seq<char>) -> RunPaymentView {
    RunPaymentView {
        payment_mode: "sponsored"@,
        sponsored_by: Some(sponsor),
        tx_hash: None,
        settlement: None,
    }
}

/// The record of a call of an API.
#[derive(Debug)]
pub struct SponsoredApiCall {
    pub id: u128,
    pub sponsored_api_id: u128,
    pub payment_mode: String,
    pub amount_cents: u64,
    pub tx_hash: Option<String>,
    pub caller: Option<String>,
    pub created_at: Timestamp,
}

/// The contents of a `SponsoredApiCall`.
pub struct SponsoredApiCallView {
    pub id: u128,
    pub sponsored_api_id: u128,
    pub payment_mode: Seq<char>,
    pub amount_cents: u64,
    pub tx_hash: Option<Seq<char>>,
    pub caller: Option<Seq<char>>,
    pub created_at: Timestamp,
}

impl View for SponsoredApiCall {
    type V = SponsoredApiCallView;

    open spec fn view(&self) -> SponsoredApiCallView {
        SponsoredApiCallView {
            id: self.id,
            sponsored_api_id: self.sponsored_api_id,
            payment_mode: self.payment_mode@,
            amount_cents: self.amount_cents,
            tx_hash: optional_text(self.tx_hash),
            caller: optional_text(self.caller),
            created_at: self.created_at,
        }
    }
}

impl SponsoredApiView {
    /// The record of a call of the API.
    pub open spec fn call(
        self,
        payment: RunPaymentView,
        caller: Option<Seq<char>>,
        id: u128,
        created_at: Timestamp,
    ) -> SponsoredApiCallView {
        SponsoredApiCallView {
            id,
            sponsored_api_id: self.id,
            payment_mode: payment.payment_mode,
            amount_cents: self.price_cents,
            tx_hash: payment.tx_hash,
            caller,
            created_at,
        }
    }
}

/// The record of a call of an API, under an identifier.
fn new_call(
    api: &SponsoredApi,
    payment: &RunPayment,
    caller: Option<String>,
    id: u128,
    now: Timestamp,
) -> (r: SponsoredApiCall)
    ensures
        r@ == api@.call(payment@, optional_text(caller), id, now),
{
    SponsoredApiCall {
        id,
        sponsored_api_id: api.id,
        payment_mode: payment.payment_mode.clone(),
        amount_cents: api.price_cents,
        tx_hash: clone_optional(&payment.tx_hash),
        caller,
        created_at: now,
    }
}

/// What a caller is told of a call of an API.
#[derive(Debug)]
pub struct SponsoredApiRunResponse {
    pub api_id: u128,
    pub payment_mode: String,
    pub sponsored_by: Option<String>,
    pub tx_hash: Option<String>,
    pub upstream_status: u16,
    pub upstream_body: String,
}

/// The contents of a `SponsoredApiRunResponse`.
pub struct SponsoredApiRunResponseView {
    pub api_id: u128,
    pub payment_mode: Seq<char>,
    pub sponsored_by: Option<Seq<char>>,
    pub tx_hash: Option<Seq<char>>,
    pub upstream_status: u16,
    pub upstream_body: Seq<char>,
}

impl View for SponsoredApiRunResponse {
    type V = SponsoredApiRunResponseView;

    open spec fn view(&self) -> SponsoredApiRunResponseView {
        SponsoredApiRunResponseView {
            api_id: self.api_id,
            payment_mode: self.payment_mode@,
            sponsored_by: optional_text(self.sponsored_by),
            tx_hash: optional_text(self.tx_hash),
            upstream_status: self.upstream_status,
            upstream_body: self.upstream_body@,
        }
    }
}

/// The reply to a call of an API.
#[derive(Debug)]
pub struct SponsoredApiReply {
    pub headers: Vec<(String, String)>,
    pub body: SponsoredApiRunResponse,
}

/// The contents of a `SponsoredApiReply`.
pub struct SponsoredApiReplyView {
    pub headers: Seq<(Seq<char>, Seq<char>)>,
    pub body: SponsoredApiRunResponseView,
}

impl View for SponsoredApiReply {
    type V = SponsoredApiReplyView;

    open spec fn view(&self) -> SponsoredApiReplyView {
        SponsoredApiReplyView { headers: text_pairs(self.headers@), body: self.body@ }
    }
}

/// How an API is called.
#[derive(Debug)]
pub struct UpstreamRequest {
    pub method: String,
    pub url: String,
    pub headers: Vec<(String, String)>,
    pub input: serde_json::Value,
    pub timeout_secs: u64,
}

/// The contents of an `UpstreamRequest`.
pub struct UpstreamRequestView {
    pub method: Seq<char>,
    pub url: Seq<char>,
    pub headers: Seq<(Seq<char>, Seq<char>)>,
    pub input: serde_json::Value,
    pub timeout_secs: u64,
}

impl View for UpstreamRequest {
    type V = UpstreamRequestView;

    open spec fn view(&self) -> UpstreamRequestView {
        UpstreamRequestView {
            method: self.method@,
            url: self.url@,
            headers: text_pairs(self.headers@),
            input: self.input,
            timeout_secs: self.timeout_secs,
        }
    }
}

impl SponsoredApiView {
    /// How the API is called with an input.
    pub open spec fn upstream(
        self,
        input: serde_json::Value,
        timeout_secs: u64,
    ) -> UpstreamRequestView {
        UpstreamRequestView {
            method: self.upstream_method,
            url: trimmed(self.upstream_url),
            headers: self.upstream_headers,
            input,
            timeout_secs,
        }
    }
}

/// How an API is called with an input.
fn upstream_request(api: &SponsoredApi, input: serde_json::Value, timeout_secs: u64) -> (r:
    UpstreamRequest)
    ensures
        r@ == api@.upstream(input, timeout_secs),
{
    UpstreamRequest {
        method: api.upstream_method.clone(),
        url: trim(api.upstream_url.as_str()).to_owned(),
        headers: clone_pairs(&api.upstream_headers),
        input,
        timeout_secs,
    }
}

/// A call of an API whose payment is being verified.
#[derive(Debug)]
pub struct VerifyingCall {
    api: SponsoredApi,
    payload: SponsoredApiRunRequest,
    verification: Verification,
}

/// The contents of a `VerifyingCall`.
pub struct VerifyingCallView {
    pub api: SponsoredApiView,
    pub request: SponsoredApiRunRequestView,
    pub verification: VerificationView,
}

impl View for VerifyingCall {
    type V = VerifyingCallView;

    closed spec fn view(&self) -> VerifyingCallView {
        VerifyingCallView {
            api: self.api@,
            request: self.payload@,
            verification: self.verification@,
        }
    }
}

/// A call of an API that the caller paid for.
#[derive(Debug)]
pub struct SettledCall {
    api: SponsoredApi,
    payload: SponsoredApiRunRequest,
    tx_hash: String,
}

/// The contents of a `SettledCall`.
pub struct SettledCallView {
    pub api: SponsoredApiView,
    pub request: SponsoredApiRunRequestView,
    pub tx_hash: Seq<char>,
}

impl View for SettledCall {
    type V = SettledCallView;

    closed spec fn view(&self) -> SettledCallView {
        SettledCallView { api: self.api@, request: self.payload@, tx_hash: self.tx_hash@ }
    }
}

/// A call of an API that the sponsor is to pay for, once its budget is saved.
#[derive(Debug)]
pub struct DebitedCall {
    api: SponsoredApi,
    payload: SponsoredApiRunRequest,
}

/// The contents of a `DebitedCall`.
pub struct DebitedCallView {
    pub api: SponsoredApiView,
    pub request: SponsoredApiRunRequestView,
}

impl View for DebitedCall {
    type V = DebitedCallView;

    closed spec fn view(&self) -> DebitedCallView {
        DebitedCallView { api: self.api@, request: self.payload@ }
    }
}

/// A call of an API that is paid for, and waits for the API.
#[derive(Debug)]
pub struct PaidCall {
    api: SponsoredApi,
    caller: Option<String>,
    payment: RunPayment,
}

/// The contents of a `PaidCall`.
pub struct PaidCallView {
    pub api: SponsoredApiView,
    pub caller: Option<Seq<char>>,
    pub payment: RunPaymentView,
}

impl View for PaidCall {
    type V = PaidCallView;

    closed spec fn view(&self) -> PaidCallView {
        PaidCallView {
            api: self.api@,
            caller: optional_text(self.caller),
            payment: self.payment@,
        }
    }
}

/// A call of an API that the API answered, and that waits for its record to be kept.
#[derive(Debug)]
pub struct AnsweredCall {
    api_id: u128,
    payment: RunPayment,
    upstream_status: u16,
    upstream_body: String,
}

/// The contents of an `AnsweredCall`.
pub struct AnsweredCallView {
    pub api_id: u128,
    pub payment: RunPaymentView,
    pub upstream_status: u16,
    pub upstream_body: Seq<char>,
}

impl View for AnsweredCall {
    type V = AnsweredCallView;

    closed spec fn view(&self) -> AnsweredCallView {
        AnsweredCallView {
            api_id: self.api_id,
            payment: self.payment@,
            upstream_status: self.upstream_status,
            upstream_body: self.upstream_body@,
        }
    }
}

/// What a call of an API does next.
#[derive(Debug)]
pub enum RunStep {
    /// It calls a node, and goes on with the reply.
    Call { call: NodeCall, next: VerifyingCall },
    /// The caller paid for it, and it goes on with the settlement as a header shows it.
    Show { settlement: PaymentSettlement, next: SettledCall },
    /// It has the database keep what is left of the API's budget, and goes on with the answer.
    Save { api_id: u128, remaining_cents: i64, active: bool, next: DebitedCall },
    /// It calls the API, and goes on with the answer.
    Request { request: UpstreamRequest, next: PaidCall },
    /// It has the database keep the record of the call, and ends with the answer.
    Log { call: SponsoredApiCall, next: AnsweredCall },
    Refuse { error: ApiError },
}

/// The contents of a `RunStep`.
pub enum RunStepView {
    Call { call: NodeCallView, next: VerifyingCallView },
    Show { settlement: PaymentSettlementView, next: SettledCallView },
    Save { api_id: u128, remaining_cents: i64, active: bool, next: DebitedCallView },
    Request { request: UpstreamRequestView, next: PaidCallView },
    Log { call: SponsoredApiCallView, next: AnsweredCallView },
    Refuse { error: ApiErrorView },
}

impl View for RunStep {
    type V = RunStepView;

    open spec fn view(&self) -> RunStepView {
        match self {
            RunStep::Call { call, next } => RunStepView::Call { call: call@, next: next@ },
            RunStep::Show { settlement, next } => RunStepView::Show {
                settlement: settlement@,
                next: next@,
            },
            RunStep::Save { api_id, remaining_cents, active, next } => RunStepView::Save {
                api_id: *api_id,
                remaining_cents: *remaining_cents,
                active: *active,
                next: next@,
            },
            RunStep::Request { request, next } => RunStepView::Request {
                request: request@,
                next: next@,
            },
            RunStep::Log { call, next } => RunStepView::Log { call: call@, next: next@ },
            RunStep::Refuse { error } => RunStepView::Refuse { error: error@ },
        }
    }
}

impl VerifyingCallView {
    /// The step that a step of the verification leads to.
    pub open spec fn after_verification(
        api: SponsoredApiView,
        request: SponsoredApiRunRequestView,
        step: VerificationStepView,
    ) -> RunStepView {
        match step {
            VerificationStepView::Call { call, next } => RunStepView::Call {
                call,
                next: VerifyingCallView { api, request, verification: next },
            },
            VerificationStepView::Settle { settlement } => RunStepView::Show {
                settlement,
                next: SettledCallView { api, request, tx_hash: settlement.tx_hash },
            },
            VerificationStepView::Refuse { error } => RunStepView::Refuse { error },
        }
    }

    /// The step that follows a node's reply.
    pub open spec fn replied(self, reply: RpcReply, now: Timestamp) -> RunStepView {
        Self::after_verification(self.api, self.request, self.verification.replied(reply, now))
    }
}

impl SettledCallView {
    /// The step that follows the settlement as a header shows it.
    pub open spec fn shown(self, header: Seq<char>, timeout_secs: u64) -> RunStepView {
        RunStepView::Request {
            request: self.api.upstream(self.request.input, timeout_secs),
            next: PaidCallView {
                api: self.api,
                caller: self.request.caller,
                payment: direct_payment(self.tx_hash, header),
            },
        }
    }
}

impl DebitedCallView {
    /// The step that follows the database's answer.
    pub open spec fn saved(self, saved: Result<(), String>, timeout_secs: u64) -> RunStepView {
        match saved {
            Ok(_) => RunStepView::Request {
                request: self.api.upstream(self.request.input, timeout_secs),
                next: PaidCallView {
                    api: self.api,
                    caller: self.request.caller,
                    payment: sponsor_payment(self.api.sponsor),
                },
            },
            Err(message) => RunStepView::Refuse { error: database_failure(message@) },
        }
    }
}

impl PaidCallView {
    /// The step that follows the API's answer: its status and its body, or a failure on the way.
    pub open spec fn answered(
        self,
        answer: Result<(u16, String), String>,
        id: u128,
        now: Timestamp,
    ) -> RunStepView {
        match answer {
            Ok(answer) => RunStepView::Log {
                call: self.api.call(self.payment, self.caller, id, now),
                next: AnsweredCallView {
                    api_id: self.api.id,
                    payment: self.payment,
                    upstream_status: answer.0,
                    upstream_body: answer.1@,
                },
            },
            Err(message) => RunStepView::Refuse {
                error: upstream_error(STATUS_BAD_GATEWAY, message@),
            },
        }
    }
}

impl AnsweredCallView {
    /// The reply to the call.
    pub open spec fn reply(self) -> SponsoredApiReplyView {
        SponsoredApiReplyView {
            headers: paid_headers(self.payment.settlement),
            body: SponsoredApiRunResponseView {
                api_id: self.api_id,
                payment_mode: self.payment.payment_mode,
                sponsored_by: self.payment.sponsored_by,
                tx_hash: self.payment.tx_hash,
                upstream_status: self.upstream_status,
                upstream_body: self.upstream_body,
            },
        }
    }
}

impl AnsweredCallView {
    /// What the call ends with: the reply, where the database could keep the record of it.
    pub open spec fn logged(self, logged: Result<(), String>) -> Result<
        SponsoredApiReplyView,
        ApiErrorView,
    > {
        match logged {
            Ok(_) => Ok(self.reply()),
            Err(message) => Err(database_failure(message@)),
        }
    }
}

impl AppStateView {
    /// The step that starts a call of an API, by what the database found for its identifier.
    pub open spec fn api_run(
        self,
        found: Result<Option<SponsoredApiRow>, String>,
        credential: PaymentCredential,
        request: SponsoredApiRunRequestView,
    ) -> RunStepView {
        match found_api(found) {
            Ok(api) => match api.run_plan(credential !is Missing) {
                Ok(RunPlanView::Direct { quote }) => VerifyingCallView::after_verification(
                    api,
                    request,
                    VerificationView::begin(self.config, quote, credential),
                ),
                Ok(RunPlanView::Sponsored { new_remaining_cents, still_active }) =>
                    RunStepView::Save {
                    api_id: api.id,
                    remaining_cents: signed(new_remaining_cents),
                    active: still_active,
                    next: DebitedCallView { api, request },
                },
                Err(error) => RunStepView::Refuse { error },
            },
            Err(error) => RunStepView::Refuse { error },
        }
    }

    /// The state after the database's answer to a call that a sponsor is to pay for: the payment
    /// is counted where what is left of the budget could be kept.
    pub open spec fn after_call_saved(
        self,
        call: DebitedCallView,
        saved: Result<(), String>,
    ) -> AppStateView {
        match saved {
            Ok(_) => self.with_sponsor_payment(call.api.price_cents),
            Err(_) => self,
        }
    }

    /// The state after a sponsor paid for a call of an API.
    pub open spec fn with_sponsor_payment(self, price_cents: u64) -> AppStateView {
        self.with_metrics(
            self.metrics.with_payment("sponsored"@, "settled"@).with_spend(price_cents),
        )
    }
}

impl VerifyingCall {
    /// The step that a step of the verification leads to.
    fn after_verification(
        api: SponsoredApi,
        payload: SponsoredApiRunRequest,
        step: VerificationStep,
    ) -> (r: RunStep)
        ensures
            r@ == VerifyingCallView::after_verification(api@, payload@, step@),
    {
        match step {
            VerificationStep::Call { call, next } => RunStep::Call {
                call,
                next: VerifyingCall { api, payload, verification: next },
            },
            VerificationStep::Settle { settlement } => {
                let tx_hash: String = settlement.tx_hash.clone();
                RunStep::Show { settlement, next: SettledCall { api, payload, tx_hash } }
            },
            VerificationStep::Refuse { error } => RunStep::Refuse { error },
        }
    }

    /// Goes on with a node's reply, at a point in time.
    pub fn replied_at(self, reply: &RpcReply, now: Timestamp) -> (r: RunStep)
        requires
            reply.well_formed(),
        ensures
            r@ == self@.replied(*reply, now),
    {
        let step: VerificationStep = self.verification.replied(reply, now);
        Self::after_verification(self.api, self.payload, step)
    }

    /// Goes on with a node's reply.
    pub fn replied(self, reply: &RpcReply) -> (r: RunStep)
        requires
            reply.well_formed(),
        ensures
            exists|now: Timestamp| r@ == #[trigger] self@.replied(*reply, now),
    {
        let now: Timestamp = utc_now();
        self.replied_at(reply, now)
    }
}

impl PaidCall {
    /// Goes on with the API's answer, under the identifier of the call.
    pub fn answered_as(self, answer: Result<(u16, String), String>, id: u128, now: Timestamp) -> (r:
        RunStep)
        ensures
            r@ == self@.answered(answer, id, now),
    {
        match answer {
            Ok((upstream_status, upstream_body)) => {
                let PaidCall { api, caller, payment } = self;
                let call: SponsoredApiCall = new_call(&api, &payment, caller, id, now);
                RunStep::Log {
                    call,
                    next: AnsweredCall { api_id: api.id, payment, upstream_status, upstream_body },
                }
            },
            Err(message) => RunStep::Refuse {
                error: ApiError::upstream(STATUS_BAD_GATEWAY, message.as_str()),
            },
        }
    }

    /// Goes on with the API's answer.
    pub fn answered(self, answer: Result<(u16, String), String>) -> (r: RunStep)
        ensures
            exists|id: u128, now: Timestamp|
                is_random_uuid(id) && r@ == #[trigger] self@.answered(answer, id, now),
    {
        let id: u128 = fresh_id();
        let now: Timestamp = utc_now();
        self.answered_as(answer, id, now)
    }
}

impl AnsweredCall {
    /// Ends with the reply to the call, where the database could keep the record of it.
    pub fn logged(self, logged: Result<(), String>) -> (r: ApiResult<SponsoredApiReply>)
        ensures
            outcome_view(r) == self@.logged(logged),
    {
        if let Err(error) = database_answer(logged) {
            return Err(error);
        }
        Ok(
            SponsoredApiReply {
                headers: reply_headers(&self.payment.settlement),
                body: SponsoredApiRunResponse {
                    api_id: self.api_id,
                    payment_mode: self.payment.payment_mode,
                    sponsored_by: self.payment.sponsored_by,
                    tx_hash: self.payment.tx_hash,
                    upstream_status: self.upstream_status,
                    upstream_body: self.upstream_body,
                },
            },
        )
    }
}

impl AppState {
    /// Starts a call of an API, by what the database found for its identifier.
    pub fn run_sponsored_api(
        &self,
        found: Result<Option<SponsoredApiRow>, String>,
        credential: &PaymentCredential,
        payload: SponsoredApiRunRequest,
    ) -> (r: RunStep)
        ensures
            r@ == self@.api_run(found, *credential, payload@),
    {
        let api: SponsoredApi = match get_sponsored_api(found) {
            Ok(api) => api,
            Err(error) => {
                return RunStep::Refuse { error };
            },
        };
        let has_payment_header: bool = match credential {
            PaymentCredential::Missing => false,
            _ => true,
        };
        match plan_sponsored_api_run(&api, has_payment_header) {
            Ok(RunPlan::Direct { quote }) => {
                let step: VerificationStep = Verification::begin(&self.config, quote, credential);
                VerifyingCall::after_verification(api, payload, step)
            },
            Ok(RunPlan::Sponsored { new_remaining_cents, still_active }) => RunStep::Save {
                api_id: api.id,
                remaining_cents: to_signed(new_remaining_cents),
                active: still_active,
                next: DebitedCall { api, payload },
            },
            Err(error) => RunStep::Refuse { error },
        }
    }

    /// Goes on with a call that the caller paid for: the payment is counted. `header` is the
    /// settlement as the reply is to show it.
    pub fn call_shown(&mut self, call: SettledCall, header: String) -> (r: RunStep)
        requires
            old(self).well_formed(),
        ensures
            final(self).well_formed(),
            final(self)@ == old(self)@.with_user_payment(),
            r@ == call@.shown(header@, old(self)@.config.sponsored_api_timeout_secs),
    {
        self.mark_user_payment();
        let SettledCall { api, payload, tx_hash } = call;
        let SponsoredApiRunRequest { caller, input } = payload;
        let request: UpstreamRequest = upstream_request(
            &api,
            input,
            self.config.sponsored_api_timeout_secs,
        );
        RunStep::Request {
            request,
            next: PaidCall {
                api,
                caller,
                payment: RunPayment {
                    payment_mode: "user_direct".to_owned(),
                    sponsored_by: None,
                    tx_hash: Some(tx_hash),
                    settlement: Some(header),
                },
            },
        }
    }

    /// Goes on with a call that the sponsor pays for: the payment is counted where the database
    /// could keep what is left of the budget.
    pub fn call_saved(&mut self, call: DebitedCall, saved: Result<(), String>) -> (r: RunStep)
        requires
            old(self).well_formed(),
        ensures
            final(self).well_formed(),
            final(self)@ == old(self)@.after_call_saved(call@, saved),
            r@ == call@.saved(saved, old(self)@.config.sponsored_api_timeout_secs),
    {
        if let Err(error) = database_answer(saved) {
            return RunStep::Refuse { error };
        }
        let DebitedCall { api, payload } = call;
        let SponsoredApiRunRequest { caller, input } = payload;
        self.metrics.mark_payment("sponsored", "settled");
        self.metrics.add_sponsor_spend(api.price_cents);
        let request: UpstreamRequest = upstream_request(
            &api,
            input,
            self.config.sponsored_api_timeout_secs,
        );
        let sponsor: String = api.sponsor.clone();
        RunStep::Request {
            request,
            next: PaidCall {
                api,
                caller,
                payment: RunPayment {
                    payment_mode: "sponsored".to_owned(),
                    sponsored_by: Some(sponsor),
                    tx_hash: None,
                    settlement: None,
                },
            },
        }
    }
}

/// An API is called only once the call is paid for: not when the call starts, nor on a node's
/// reply, nor when what is left of the budget could not be kept.
pub proof fn law_api_is_called_only_once_paid_for(
    state: AppStateView,
    found: Result<Option<SponsoredApiRow>, String>,
    credential: PaymentCredential,
    request: SponsoredApiRunRequestView,
    verifying: VerifyingCallView,
    reply: RpcReply,
    now: Timestamp,
    debited: DebitedCallView,
    message: String,
    timeout_secs: u64,
)
    ensures
        state.api_run(found, credential, request) !is Request,
        verifying.replied(reply, now) !is Request,
        debited.saved(Err(message), timeout_secs) !is Request,
{
}

/// An API that holds no header twice is called with no header twice, and a sponsored call does not
/// change that.
pub proof fn law_called_headers_stay_distinct(
    api: SponsoredApiView,
    input: serde_json::Value,
    timeout_secs: u64,
)
    requires
        api.well_formed(),
    ensures
        distinct_names(api.upstream(input, timeout_secs).headers),
        api.debited().well_formed(),
{
}

/// A call without a payment header of an API whose sponsor pays runs through: the budget is saved
/// without the price, the API is called, the call is recorded with the price, and the reply names
/// the sponsor.
pub proof fn law_sponsored_call_runs_through(
    state: AppStateView,
    row: SponsoredApiRow,
    api: SponsoredApiView,
    request: SponsoredApiRunRequestView,
    timeout_secs: u64,
    status: u16,
    body: String,
    id: u128,
    now: Timestamp,
)
    requires
        row@.stored_api() == Ok::<SponsoredApiView, ApiErrorView>(api),
        api.sponsor_pays(),
    ensures
        match state.api_run(Ok(Some(row)), PaymentCredential::Missing, request) {
            RunStepView::Save { api_id, remaining_cents, active, next } => {
                &&& api_id == api.id
                &&& remaining_cents == signed(api.debited().budget_remaining_cents)
                &&& active == api.debited().active
                &&& match next.saved(Ok(()), timeout_secs) {
                    RunStepView::Request { request: upstream, next } => {
                        &&& upstream == api.upstream(request.input, timeout_secs)
                        &&& match next.answered(Ok((status, body)), id, now) {
                            RunStepView::Log { call, next } => {
                                &&& call.sponsored_api_id == api.id
                                &&& call.amount_cents == api.price_cents
                                &&& call.payment_mode == "sponsored"@
                                &&& call.caller == request.caller
                                &&& next.reply().body == (SponsoredApiRunResponseView {
                                    api_id: api.id,
                                    payment_mode: "sponsored"@,
                                    sponsored_by: Some(api.sponsor),
                                    tx_hash: None,
                                    upstream_status: status,
                                    upstream_body: body@,
                                })
                            },
                            _ => false,
                        }
                    },
                    _ => false,
                }
            },
            _ => false,
        },
{
}

/// A call without a payment header of an API whose sponsor does not pay is refused as not paid
/// for.
pub proof fn law_exhausted_budget_demands_payment(
    state: AppStateView,
    row: SponsoredApiRow,
    api: SponsoredApiView,
    request: SponsoredApiRunRequestView,
)
    requires
        row@.stored_api() == Ok::<SponsoredApiView, ApiErrorView>(api),
        !api.sponsor_pays(),
    ensures
        state.api_run(Ok(Some(row)), PaymentCredential::Missing, request) == (RunStepView::Refuse {
            error: payment_required(
                api.service_key,
                api.price_cents,
                "sponsored budget exhausted"@,
                "pay with PAYMENT-SIGNATURE and retry"@,
            ),
        }),
{
}

} // verus!
