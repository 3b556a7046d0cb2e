//! Putting up an API whose calls a sponsor pays for.

use vstd::prelude::*;

use crate::clock::utc_now;
use crate::config::AppConfig;
use crate::error::{
    database_answer, database_failure, database_presence, outcome_view, require_database,
    validation_error, ApiError, ApiErrorView, ApiResult,
};
use crate::http_rules::{
    is_header_name, is_header_value, is_url, parses_as_url, valid_header_name, valid_header_value,
};
use crate::ids::{fresh_id, is_random_uuid};
use crate::onchain::{NodeCall, NodeCallView, RpcReply};
use crate::payments::{PaymentCredential, PaymentQuote, PaymentQuoteView};
use crate::sponsored::{
    distinct_names, service_key, sponsored_api_service_key, stored_api, SponsoredApi,
    SponsoredApiRow, SponsoredApiRowView, SponsoredApiView,
};
use crate::state::{AppState, AppStateView};
use crate::text::{blank, chars_of, is_blank, trim, trimmed};
use crate::types::{
    optional_text, text_pairs, Timestamp, DEFAULT_PRICE_CENTS, SPONSORED_API_CREATE_SERVICE,
};
use crate::verification::{
    Verification, VerificationStep, VerificationStepView, VerificationView,
};

verus! {

/// A request to put up an API.
#[derive(Debug)]
pub struct CreateSponsoredApiRequest {
    pub name: String,
    pub sponsor: String,
    pub description: Option<String>,
    pub upstream_url: String,
    pub upstream_method: Option<String>,
    pub upstream_headers: Vec<(String, String)>,
    pub price_cents: Option<u64>,
    pub budget_cents: u64,
}

/// `c` in upper case, where it is a letter of ASCII.
pub open spec fn ascii_upper(c: char) -> char {
    if 'a' <= c <= 'z' {
        (c as u32 - 32) as char
    } else {
        c
    }
}

/// `s` with its ASCII letters in upper case.
pub open spec fn uppercase(s: Seq<char>) -> Seq<char> {
    s.map_values(|c: char| ascii_upper(c))
}

/// The methods that an API may be called by.
pub open spec fn known_methods() -> Seq<Seq<char>> {
    seq!["GET"@, "POST"@, "PUT"@, "PATCH"@, "DELETE"@]
}

/// The method that an API is called by: the one that the request names, whatever its case and the
/// white space around it, or else POST.
pub open spec fn method_outcome(method: Option<String>) -> Result<Seq<char>, ApiErrorView> {
    match method {
        Some(text) => {
            let name = uppercase(trimmed(text@));
            if known_methods().contains(name) {
                Ok(name)
            } else {
                Err(
                    validation_error(
                        "upstream_method must be one of GET, POST, PUT, PATCH, DELETE"@,
                    ),
                )
            }
        },
        None => Ok("POST"@),
    }
}

/// Whether a text is a name in upper case, but for the case of its letters.
fn is_name_in_any_case(text: &Vec<char>, name: &str) -> (r: bool)
    ensures
        r == (uppercase(text@) == name@),
{
    let expected: Vec<char> = chars_of(name);
    if text.len() != expected.len() {
        return false;
    }
    let mut i: usize = 0;
    while i < text.len()
        invariant
            i <= text.len(),
            text@.len() == expected@.len(),
            expected@ == name@,
            forall|j: int| 0 <= j < i ==> ascii_upper(#[trigger] text@[j]) == expected@[j],
        decreases text.len() - i,
    {
        let c: char = text[i];
        let upper: char = if 'a' <= c && c <= 'z' {
            ((c as u8) - 32) as char
        } else {
            c
        };
        assert(upper == ascii_upper(c));
        if upper != expected[i] {
            assert(uppercase(text@)[i as int] != name@[i as int]);
            return false;
        }
        i = i + 1;
    }
    assert(uppercase(text@) =~= name@);
    true
}

/// The method that an API is called by.
pub fn normalize_upstream_method(method: &Option<String>) -> (r: ApiResult<String>)
    ensures
        outcome_view(r) == method_outcome(*method),
{
    let text: Vec<char> = match method {
        Some(text) => chars_of(trim(text.as_str())),
        None => {
            return Ok("POST".to_owned());
        },
    };
    proof {
        let methods = known_methods();
        assert(methods[0] == "GET"@);
        assert(methods[1] == "POST"@);
        assert(methods[2] == "PUT"@);
        assert(methods[3] == "PATCH"@);
        assert(methods[4] == "DELETE"@);
    }
    if is_name_in_any_case(&text, "GET") {
        Ok("GET".to_owned())
    } else if is_name_in_any_case(&text, "POST") {
        Ok("POST".to_owned())
    } else if is_name_in_any_case(&text, "PUT") {
        Ok("PUT".to_owned())
    } else if is_name_in_any_case(&text, "PATCH") {
        Ok("PATCH".to_owned())
    } else if is_name_in_any_case(&text, "DELETE") {
        Ok("DELETE".to_owned())
    } else {
        Err(ApiError::validation("upstream_method must be one of GET, POST, PUT, PATCH, DELETE"))
    }
}

/// What is wrong with the first of some headers that a call cannot hold.
pub open spec fn header_problem(headers: Seq<(Seq<char>, Seq<char>)>) -> Option<ApiErrorView>
    decreases headers.len(),
{
    if headers.len() == 0 {
        None
    } else if !valid_header_name(headers[0].0) {
        Some(validation_error("invalid upstream header: "@ + headers[0].0))
    } else if !valid_header_value(headers[0].1) {
        Some(validation_error("invalid upstream header value for: "@ + headers[0].0))
    } else {
        header_problem(headers.drop_first())
    }
}

/// Looks through headers for one that a call cannot hold.
pub fn check_upstream_headers(headers: &Vec<(String, String)>) -> (r: ApiResult<()>)
    ensures
        match r {
            Ok(_) => header_problem(text_pairs(headers@)) is None,
            Err(error) => header_problem(text_pairs(headers@)) == Some(error@),
        },
{
    let ghost all = text_pairs(headers@);
    let mut i: usize = 0;
    assert(all.skip(0) =~= all);
    while i < headers.len()
        invariant
            i <= headers.len(),
            all == text_pairs(headers@),
            header_problem(all) == header_problem(all.skip(i as int)),
        decreases headers.len() - i,
    {
        let name: &str = headers[i].0.as_str();
        let value: &str = headers[i].1.as_str();
        proof {
            assert(all.skip(i as int)[0] == (name@, value@));
            assert(all.skip(i as int).drop_first() =~= all.skip(i + 1));
        }
        if !is_header_name(name) {
            let mut message: String = "invalid upstream header: ".to_owned();
            message.append(name);
            return Err(ApiError::validation(message.as_str()));
        }
        if !is_header_value(value) {
            let mut message: String = "invalid upstream header value for: ".to_owned();
            message.append(name);
            return Err(ApiError::validation(message.as_str()));
        }
        i = i + 1;
    }
    Ok(())
}

/// What a request to put up an API comes to: what its calls cost, how they are made, and what has
/// to be paid first.
#[derive(Debug)]
pub struct CreatePlan {
    pub price_cents: u64,
    pub upstream_method: String,
    pub payment: Option<PaymentQuote>,
}

/// The contents of a `CreatePlan`.
pub struct CreatePlanView {
    pub price_cents: u64,
    pub upstream_method: Seq<char>,
    pub payment: Option<PaymentQuoteView>,
}

impl View for CreatePlan {
    type V = CreatePlanView;

    open spec fn view(&self) -> CreatePlanView {
        CreatePlanView {
            price_cents: self.price_cents,
            upstream_method: self.upstream_method@,
            payment: match self.payment {
                Some(quote) => Some(quote@),
                None => None,
            },
        }
    }
}

/// What has to be paid to put up an API, where it costs anything.
pub open spec fn creation_payment(config: AppConfig) -> Option<PaymentQuoteView> {
    if config.sponsored_api_create_price_cents > 0 {
        Some(
            PaymentQuoteView {
                service: SPONSORED_API_CREATE_SERVICE@,
                amount_cents: config.sponsored_api_create_price_cents,
                resource_path: "/sponsored-apis"@,
            },
        )
    } else {
        None
    }
}

impl CreateSponsoredApiRequest {
    /// What a call of the API costs.
    pub open spec fn price(self) -> u64 {
        match self.price_cents {
            Some(price) => price,
            None => DEFAULT_PRICE_CENTS,
        }
    }

    /// What the request comes to.
    pub open spec fn plan(self, db_configured: bool, config: AppConfig) -> Result<
        CreatePlanView,
        ApiErrorView,
    > {
        if let Err(error) = database_presence(db_configured) {
            Err(error)
        } else if blank(self.name@) {
            Err(validation_error("name is required"@))
        } else if blank(self.sponsor@) {
            Err(validation_error("sponsor is required"@))
        } else if self.budget_cents == 0 {
            Err(validation_error("budget_cents must be greater than 0"@))
        } else if self.price() == 0 {
            Err(validation_error("price_cents must be greater than 0"@))
        } else {
            match method_outcome(self.upstream_method) {
                Err(error) => Err(error),
                Ok(upstream_method) => if !parses_as_url(trimmed(self.upstream_url@)) {
                    Err(validation_error("upstream_url must be a valid URL"@))
                } else {
                    match header_problem(text_pairs(self.upstream_headers@)) {
                        Some(error) => Err(error),
                        None => Ok(
                            CreatePlanView {
                                price_cents: self.price(),
                                upstream_method,
                                payment: creation_payment(config),
                            },
                        ),
                    }
                },
            }
        }
    }

    /// The API that the request asks for: active, with its whole budget left.
    pub open spec fn api(
        self,
        price_cents: u64,
        upstream_method: Seq<char>,
        id: u128,
        created_at: Timestamp,
    ) -> SponsoredApiView {
        SponsoredApiView {
            id,
            name: self.name@,
            sponsor: self.sponsor@,
            description: optional_text(self.description),
            upstream_url: self.upstream_url@,
            upstream_method,
            upstream_headers: text_pairs(self.upstream_headers@),
            price_cents,
            budget_total_cents: self.budget_cents,
            budget_remaining_cents: self.budget_cents,
            active: true,
            service_key: service_key(id),
            created_at,
        }
    }
}

/// Looks at a request to put up an API before anything is paid or kept.
pub fn plan_sponsored_api(
    db_configured: bool,
    config: &AppConfig,
    payload: &CreateSponsoredApiRequest,
) -> (r: ApiResult<CreatePlan>)
    ensures
        outcome_view(r) == payload.plan(db_configured, *config),
{
    if let Err(error) = require_database(db_configured) {
        return Err(error);
    }
    if is_blank(payload.name.as_str()) {
        return Err(ApiError::validation("name is required"));
    }
    if is_blank(payload.sponsor.as_str()) {
        return Err(ApiError::validation("sponsor is required"));
    }
    if payload.budget_cents == 0 {
        return Err(ApiError::validation("budget_cents must be greater than 0"));
    }
    let price_cents: u64 = match payload.price_cents {
        Some(price) => price,
        None => DEFAULT_PRICE_CENTS,
    };
    if price_cents == 0 {
        return Err(ApiError::validation("price_cents must be greater than 0"));
    }
    let upstream_method: String = match normalize_upstream_method(&payload.upstream_method) {
        Ok(method) => method,
        Err(error) => {
            return Err(error);
        },
    };
    if !is_url(trim(payload.upstream_url.as_str())) {
        return Err(ApiError::validation("upstream_url must be a valid URL"));
    }
    if let Err(error) = check_upstream_headers(&payload.upstream_headers) {
        return Err(error);
    }
    let payment: Option<PaymentQuote> = if config.sponsored_api_create_price_cents > 0 {
        Some(
            PaymentQuote {
                service: SPONSORED_API_CREATE_SERVICE.to_owned(),
                amount_cents: config.sponsored_api_create_price_cents,
                resource_path: "/sponsored-apis".to_owned(),
            },
        )
    } else {
        None
    };
    Ok(CreatePlan { price_cents, upstream_method, payment })
}

/// The API that a request asks for, under an identifier.
fn new_sponsored_api(
    payload: CreateSponsoredApiRequest,
    price_cents: u64,
    upstream_method: String,
    id: u128,
    now: Timestamp,
) -> (r: SponsoredApi)
    ensures
        r@ == payload.api(price_cents, upstream_method@, id, now),
{
    SponsoredApi {
        id,
        name: payload.name,
        sponsor: payload.sponsor,
        description: payload.description,
        upstream_url: payload.upstream_url,
        upstream_method,
        upstream_headers: payload.upstream_headers,
        price_cents,
        budget_total_cents: payload.budget_cents,
        budget_remaining_cents: payload.budget_cents,
        active: true,
        service_key: sponsored_api_service_key(id),
        created_at: now,
    }
}

/// An API that is being put up, while the payment for it is being verified.
#[derive(Debug)]
pub struct ApiCreation {
    payload: CreateSponsoredApiRequest,
    price_cents: u64,
    upstream_method: String,
    verification: Verification,
}

/// The contents of an `ApiCreation`.
pub struct ApiCreationView {
    pub request: CreateSponsoredApiRequest,
    pub price_cents: u64,
    pub upstream_method: Seq<char>,
    pub verification: VerificationView,
}

impl View for ApiCreation {
    type V = ApiCreationView;

    closed spec fn view(&self) -> ApiCreationView {
        ApiCreationView {
            request: self.payload,
            price_cents: self.price_cents,
            upstream_method: self.upstream_method@,
            verification: self.verification@,
        }
    }
}

/// What the putting up of an API does next.
#[derive(Debug)]
pub enum CreateStep {
    /// It calls a node, and goes on with the reply.
    Call { call: NodeCall, next: ApiCreation },
    /// It has the database keep a row, and ends with the answer.
    Insert { row: SponsoredApiRow },
    Refuse { error: ApiError },
}

/// The contents of a `CreateStep`.
pub enum CreateStepView {
    Call { call: NodeCallView, next: ApiCreationView },
    Insert { row: SponsoredApiRowView },
    Refuse { error: ApiErrorView },
}

impl View for CreateStep {
    type V = CreateStepView;

    open spec fn view(&self) -> CreateStepView {
        match self {
            CreateStep::Call { call, next } => CreateStepView::Call { call: call@, next: next@ },
            CreateStep::Insert { row } => CreateStepView::Insert { row: row@ },
            CreateStep::Refuse { error } => CreateStepView::Refuse { error: error@ },
        }
    }
}

impl ApiCreationView {
    /// The step that a step of the verification leads to.
    pub open spec fn after_verification(
        request: CreateSponsoredApiRequest,
        price_cents: u64,
        upstream_method: Seq<char>,
        step: VerificationStepView,
        id: u128,
        now: Timestamp,
    ) -> CreateStepView {
        match step {
            VerificationStepView::Call { call, next } => CreateStepView::Call {
                call,
                next: ApiCreationView { request, price_cents, upstream_method, verification: next },
            },
            VerificationStepView::Settle { .. } => CreateStepView::Insert {
                row: request.api(price_cents, upstream_method, id, now).row(),
            },
            VerificationStepView::Refuse { error } => CreateStepView::Refuse { error },
        }
    }

    /// The step that follows a node's reply.
    pub open spec fn replied(self, reply: RpcReply, id: u128, now: Timestamp) -> CreateStepView {
        Self::after_verification(
            self.request,
            self.price_cents,
            self.upstream_method,
            self.verification.replied(reply, now),
            id,
            now,
        )
    }
}

impl AppStateView {
    /// The step that starts the putting up of an API. Where it costs nothing, it is kept at once.
    pub open spec fn api_creation(
        self,
        db_configured: bool,
        request: CreateSponsoredApiRequest,
        credential: PaymentCredential,
        id: u128,
        now: Timestamp,
    ) -> CreateStepView {
        match request.plan(db_configured, self.config) {
            Ok(plan) => match plan.payment {
                Some(quote) => ApiCreationView::after_verification(
                    request,
                    plan.price_cents,
                    plan.upstream_method,
                    VerificationView::begin(self.config, quote, credential),
                    id,
                    now,
                ),
                None => CreateStepView::Insert {
                    row: request.api(plan.price_cents, plan.upstream_method, id, now).row(),
                },
            },
            Err(error) => CreateStepView::Refuse { error },
        }
    }

    /// The state after a node's reply to the putting up of an API: the payment is counted once it
    /// is verified.
    pub open spec fn after_creation_reply(
        self,
        creation: ApiCreationView,
        reply: RpcReply,
        now: Timestamp,
    ) -> AppStateView {
        if creation.verification.replied(reply, now) is Settle {
            self.with_user_payment()
        } else {
            self
        }
    }
}

impl AppState {
    /// Starts the putting up of an API, under an identifier.
    pub fn create_sponsored_api_as(
        &self,
        db_configured: bool,
        payload: CreateSponsoredApiRequest,
        credential: &PaymentCredential,
        id: u128,
        now: Timestamp,
    ) -> (r: CreateStep)
        ensures
            r@ == self@.api_creation(db_configured, payload, *credential, id, now),
    {
        let plan: CreatePlan = match plan_sponsored_api(db_configured, &self.config, &payload) {
            Ok(plan) => plan,
            Err(error) => {
                return CreateStep::Refuse { error };
            },
        };
        let CreatePlan { price_cents, upstream_method, payment } = plan;
        match payment {
            None => CreateStep::Insert {
                row: new_sponsored_api(payload, price_cents, upstream_method, id, now).into_row(),
            },
            Some(quote) => match Verification::begin(&self.config, quote, credential) {
                VerificationStep::Call { call, next } => CreateStep::Call {
                    call,
                    next: ApiCreation { payload, price_cents, upstream_method, verification: next },
                },
                VerificationStep::Settle { .. } => vstd::pervasive::unreached(),
                VerificationStep::Refuse { error } => CreateStep::Refuse { error },
            },
        }
    }

    /// Starts the putting up of an API.
    pub fn create_sponsored_api(
        &self,
        db_configured: bool,
        payload: CreateSponsoredApiRequest,
        credential: &PaymentCredential,
    ) -> (r: CreateStep)
        ensures
            exists|id: u128, now: Timestamp|
                is_random_uuid(id) && r@ == #[trigger] self@.api_creation(
                    db_configured,
                    payload,
                    *credential,
                    id,
                    now,
                ),
    {
        let id: u128 = fresh_id();
        let now: Timestamp = utc_now();
        self.create_sponsored_api_as(db_configured, payload, credential, id, now)
    }

    /// Goes on with a node's reply to the putting up of an API, under an identifier.
    pub fn creation_replied_as(
        &mut self,
        creation: ApiCreation,
        reply: &RpcReply,
        id: u128,
        now: Timestamp,
    ) -> (r: CreateStep)
        requires
            old(self).well_formed(),
            reply.well_formed(),
        ensures
            final(self).well_formed(),
            r@ == creation@.replied(*reply, id, now),
            final(self)@ == old(self)@.after_creation_reply(creation@, *reply, now),
    {
        let ApiCreation { payload, price_cents, upstream_method, verification } = creation;
        match verification.replied(reply, now) {
            VerificationStep::Call { call, next } => CreateStep::Call {
                call,
                next: ApiCreation { payload, price_cents, upstream_method, verification: next },
            },
            VerificationStep::Settle { .. } => {
                self.mark_user_payment();
                CreateStep::Insert {
                    row: new_sponsored_api(payload, price_cents, upstream_method, id, now)
                        .into_row(),
                }
            },
            VerificationStep::Refuse { error } => CreateStep::Refuse { error },
        }
    }

    /// Goes on with a node's reply to the putting up of an API.
    pub fn creation_replied(&mut self, creation: ApiCreation, reply: &RpcReply) -> (r: CreateStep)
        requires
            old(self).well_formed(),
            reply.well_formed(),
        ensures
            final(self).well_formed(),
            exists|id: u128, now: Timestamp|
                {
                    &&& is_random_uuid(id)
                    &&& r@ == #[trigger] creation@.replied(*reply, id, now)
                    &&& final(self)@ == old(self)@.after_creation_reply(creation@, *reply, now)
                },
    {
        let id: u128 = fresh_id();
        let now: Timestamp = utc_now();
        self.creation_replied_as(creation, reply, id, now)
    }
}

/// The API that the database gives back once it was asked to keep it.
pub fn finish_create_sponsored_api(inserted: Result<SponsoredApiRow, String>) -> (r: ApiResult<
    SponsoredApi,
>)
    ensures
        outcome_view(r) == match inserted {
            Ok(row) => row@.stored_api(),
            Err(message) => Err(database_failure(message@)),
        },
{
    match database_answer(inserted) {
        Ok(row) => stored_api(row),
        Err(error) => Err(error),
    }
}

impl CreateSponsoredApiRequest {
    /// Whether the request names no header twice.
    pub open spec fn well_formed(self) -> bool {
        distinct_names(text_pairs(self.upstream_headers@))
    }
}

/// A request that names no header twice comes to a row that holds no header twice, whether the API
/// is kept at once or after a payment.
pub proof fn law_new_headers_stay_distinct(
    state: AppStateView,
    db_configured: bool,
    request: CreateSponsoredApiRequest,
    credential: PaymentCredential,
    creation: ApiCreationView,
    reply: RpcReply,
    id: u128,
    now: Timestamp,
)
    requires
        request.well_formed(),
        creation.request.well_formed(),
    ensures
        match state.api_creation(db_configured, request, credential, id, now) {
            CreateStepView::Call { next, .. } => next.request.well_formed(),
            CreateStepView::Insert { row } => row.well_formed(),
            CreateStepView::Refuse { .. } => true,
        },
        match creation.replied(reply, id, now) {
            CreateStepView::Call { next, .. } => next.request.well_formed(),
            CreateStepView::Insert { row } => row.well_formed(),
            CreateStepView::Refuse { .. } => true,
        },
{
}

} // verus!
