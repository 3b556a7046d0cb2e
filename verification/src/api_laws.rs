//! What holds of the APIs that sponsors pay for, from the request that puts one up to the reply to
//! a call of it.

use vstd::prelude::*;

use crate::config::AppConfig;
use crate::error::ApiErrorView;
use crate::http_rules::{parses_as_url, valid_header_name, valid_header_value};
use crate::ids::uuid_text;
use crate::metrics::{counted, with_count};
use crate::onchain::RpcReply;
use crate::payments::PaymentCredential;
use crate::sponsored::{
    found_api, signed, stored_list, SponsoredApiRow, SponsoredApiRowView, SponsoredApiView,
};
use crate::sponsored_create::{
    header_problem, known_methods, method_outcome, uppercase, ApiCreationView,
    CreateSponsoredApiRequest, CreateStepView,
};
use crate::sponsored_run::{
    AnsweredCallView, DebitedCallView, PaidCallView, RunStepView, SettledCallView,
    SponsoredApiReplyView, SponsoredApiRunRequestView, VerifyingCallView,
};
use crate::state::AppStateView;
use crate::text::{is_white_space, trimmed};
use crate::text_laws::{
    law_blank_holds_white_space_alone, law_trimmed_is_the_middle,
    law_trimming_takes_white_space_alone,
};
use crate::types::{text_pairs, Timestamp};

verus! {

/// The method of an API is one of five. A request that names none asks for POST; one that names
/// one asks for it, by its letters in either case and with white space around it.
pub proof fn law_method_is_one_of_five(method: Option<String>)
    ensures
        match method_outcome(method) {
            Ok(name) => {
                &&& name == "GET"@ || name == "POST"@ || name == "PUT"@ || name == "PATCH"@ || name
                    == "DELETE"@
                &&& method is None ==> name == "POST"@
                &&& method matches Some(text) ==> exists|from: int, to: int|
                    #![trigger text@.subrange(from, to)]
                    {
                        &&& 0 <= from <= to <= text@.len()
                        &&& to - from == name.len()
                        &&& forall|i: int| 0 <= i < from ==> is_white_space(#[trigger] text@[i])
                        &&& forall|i: int|
                            to <= i < text@.len() ==> is_white_space(#[trigger] text@[i])
                        &&& forall|i: int|
                            0 <= i < name.len() ==> #[trigger] name[i] == text@[from + i] || (
                            'a' <= text@[from + i] <= 'z' && name[i] as u32 + 32 == text@[from
                                + i] as u32)
                    }
            },
            Err(ApiErrorView::Validation { message }) => {
                &&& method is Some
                &&& message == "upstream_method must be one of GET, POST, PUT, PATCH, DELETE"@
            },
            Err(_) => false,
        },
{
    if let Ok(name) = method_outcome(method) {
        if let Some(text) = method {
            let i = choose|i: int| 0 <= i < known_methods().len() && known_methods()[i] == name;
            assert(known_methods()[i] == name);
            law_trimmed_is_the_middle(text@);
            let (from, to) = choose|from: int, to: int|
                #![trigger text@.subrange(from, to)]
                {
                    &&& 0 <= from <= to <= text@.len()
                    &&& trimmed(text@) == text@.subrange(from, to)
                    &&& forall|i: int| 0 <= i < from ==> is_white_space(#[trigger] text@[i])
                    &&& forall|i: int| to <= i < text@.len() ==> is_white_space(#[trigger] text@[i])
                    &&& from < to ==> !is_white_space(text@[from]) && !is_white_space(text@[to - 1])
                };
            let core = text@.subrange(from, to);
            assert forall|i: int| 0 <= i < name.len() implies #[trigger] name[i] == text@[from + i]
                || ('a' <= text@[from + i] <= 'z' && name[i] as u32 + 32 == text@[from
                + i] as u32) by {
                assert(uppercase(core)[i] == name[i]);
                assert(core[i] == text@[from + i]);
            }
        }
    }
}

/// The small letters of ASCII become capitals; every other character stays as it is.
pub proof fn law_small_letters_become_capitals(s: Seq<char>, i: int)
    requires
        0 <= i < s.len(),
    ensures
        uppercase(s).len() == s.len(),
        'a' <= s[i] <= 'z' ==> 'A' <= uppercase(s)[i] <= 'Z' && uppercase(s)[i] as u32 + 32
            == s[i] as u32,
        !('a' <= s[i] <= 'z') ==> uppercase(s)[i] == s[i],
{
}

/// Each of the five methods is taken, by its letters in either case and with white space around
/// it.
pub proof fn law_method_in_any_case(text: String, from: int, to: int, name: Seq<char>)
    requires
        name == "GET"@ || name == "POST"@ || name == "PUT"@ || name == "PATCH"@ || name
            == "DELETE"@,
        0 <= from <= to <= text@.len(),
        to - from == name.len(),
        forall|i: int| 0 <= i < from ==> is_white_space(#[trigger] text@[i]),
        forall|i: int| to <= i < text@.len() ==> is_white_space(#[trigger] text@[i]),
        forall|i: int|
            0 <= i < name.len() ==> #[trigger] name[i] == text@[from + i] || name[i] as u32 + 32
                == text@[from + i] as u32,
    ensures
        method_outcome(Some(text)) == Ok::<Seq<char>, ApiErrorView>(name),
{
    reveal_strlit("GET");
    reveal_strlit("POST");
    reveal_strlit("PUT");
    reveal_strlit("PATCH");
    reveal_strlit("DELETE");
    let core = text@.subrange(from, to);
    assert(name.len() > 0);
    assert(forall|i: int| 0 <= i < name.len() ==> 'A' <= #[trigger] name[i] <= 'Z');
    assert(name[0] == text@[from] || name[0] as u32 + 32 == text@[from] as u32);
    assert(name[name.len() - 1] == text@[from + (name.len() - 1)] || name[name.len() - 1] as u32
        + 32 == text@[from + (name.len() - 1)] as u32);
    law_trimming_takes_white_space_alone(text@, from, to);
    assert forall|i: int| 0 <= i < name.len() implies uppercase(core)[i] == name[i] by {
        assert('A' <= name[i] <= 'Z');
        assert(core[i] == text@[from + i]);
    }
    assert(uppercase(core) =~= name);
    let methods = known_methods();
    assert(methods[0] == "GET"@);
    assert(methods[1] == "POST"@);
    assert(methods[2] == "PUT"@);
    assert(methods[3] == "PATCH"@);
    assert(methods[4] == "DELETE"@);
    assert(methods.contains(name));
}

/// Headers are taken where a call can hold each of them; otherwise the first that it cannot hold
/// is named.
pub proof fn law_first_bad_header_is_named(headers: Seq<(Seq<char>, Seq<char>)>)
    ensures
        match header_problem(headers) {
            None => forall|i: int|
                0 <= i < headers.len() ==> valid_header_name((#[trigger] headers[i]).0)
                    && valid_header_value(headers[i].1),
            Some(ApiErrorView::Validation { message }) => exists|n: int|
                {
                    &&& 0 <= n < headers.len()
                    &&& if valid_header_name((#[trigger] headers[n]).0) {
                        &&& !valid_header_value(headers[n].1)
                        &&& message == "invalid upstream header value for: "@ + headers[n].0
                    } else {
                        message == "invalid upstream header: "@ + headers[n].0
                    }
                    &&& forall|m: int|
                        0 <= m < n ==> valid_header_name((#[trigger] headers[m]).0)
                            && valid_header_value(headers[m].1)
                },
            Some(_) => false,
        },
    decreases headers.len(),
{
    if headers.len() > 0 {
        let rest = headers.drop_first();
        law_first_bad_header_is_named(rest);
        if !valid_header_name(headers[0].0) || !valid_header_value(headers[0].1) {
            assert(headers[0] == headers[0]);
        } else {
            match header_problem(rest) {
                None => {
                    assert forall|i: int| 0 <= i < headers.len() implies valid_header_name(
                        (#[trigger] headers[i]).0,
                    ) && valid_header_value(headers[i].1) by {
                        if i > 0 {
                            assert(rest[i - 1] == headers[i]);
                        }
                    }
                },
                Some(error) => {
                    let message = error->Validation_message;
                    let n = choose|n: int|
                        {
                            &&& 0 <= n < rest.len()
                            &&& if valid_header_name((#[trigger] rest[n]).0) {
                                &&& !valid_header_value(rest[n].1)
                                &&& message == "invalid upstream header value for: "@ + rest[n].0
                            } else {
                                message == "invalid upstream header: "@ + rest[n].0
                            }
                            &&& forall|m: int|
                                0 <= m < n ==> valid_header_name((#[trigger] rest[m]).0)
                                    && valid_header_value(rest[m].1)
                        };
                    assert(headers[n + 1] == rest[n]);
                    assert forall|m: int| 0 <= m < n + 1 implies valid_header_name(
                        (#[trigger] headers[m]).0,
                    ) && valid_header_value(headers[m].1) by {
                        if m > 0 {
                            assert(rest[m - 1] == headers[m]);
                        }
                    }
                },
            }
        }
    }
}

/// A request to put up an API is accepted where there is a database, and the request has a name
/// and a sponsor that are not blank, a budget, a price where it names one, a method, a URL and
/// headers that can be used. It then comes to the price that it names, or to five cents. Putting it
/// up costs what the settings say. Otherwise the request is told the first thing that is wrong.
pub proof fn law_which_apis_are_accepted(
    request: CreateSponsoredApiRequest,
    db_configured: bool,
    config: AppConfig,
)
    ensures
        ({
            let named = exists|i: int|
                0 <= i < request.name@.len() && !is_white_space(#[trigger] request.name@[i]);
            let sponsored = exists|i: int|
                0 <= i < request.sponsor@.len() && !is_white_space(#[trigger] request.sponsor@[i]);
            let funded = request.budget_cents > 0;
            let priced = request.price_cents != Some(0u64);
            let fee = config.sponsored_api_create_price_cents;
            match request.plan(db_configured, config) {
                Ok(plan) => {
                    &&& db_configured && named && sponsored && funded && priced
                    &&& request.price_cents matches Some(price) ==> plan.price_cents == price
                    &&& request.price_cents is None ==> plan.price_cents == 5
                    &&& method_outcome(request.upstream_method) == Ok::<Seq<char>, ApiErrorView>(
                        plan.upstream_method,
                    )
                    &&& parses_as_url(trimmed(request.upstream_url@))
                    &&& forall|i: int|
                        0 <= i < request.upstream_headers@.len() ==> valid_header_name(
                            (#[trigger] request.upstream_headers@[i]).0@,
                        ) && valid_header_value(request.upstream_headers@[i].1@)
                    &&& fee == 0 ==> plan.payment is None
                    &&& fee > 0 ==> (plan.payment matches Some(quote) && quote.service
                        == "sponsored-api-create"@ && quote.amount_cents == fee
                        && quote.resource_path == "/sponsored-apis"@)
                },
                Err(ApiErrorView::Config { message }) => {
                    &&& !db_configured
                    &&& message == "Postgres not configured; set DATABASE_URL"@
                },
                Err(ApiErrorView::Validation { message }) => {
                    &&& db_configured
                    &&& !named ==> message == "name is required"@
                    &&& named && !sponsored ==> message == "sponsor is required"@
                    &&& named && sponsored && !funded ==> message
                        == "budget_cents must be greater than 0"@
                    &&& named && sponsored && funded && !priced ==> message
                        == "price_cents must be greater than 0"@
                    &&& named && sponsored && funded && priced ==> {
                        ||| method_outcome(request.upstream_method) == Err::<
                            Seq<char>,
                            ApiErrorView,
                        >(ApiErrorView::Validation { message })
                        ||| {
                            &&& !parses_as_url(trimmed(request.upstream_url@))
                            &&& method_outcome(request.upstream_method) is Ok
                            &&& message == "upstream_url must be a valid URL"@
                        }
                        ||| {
                            &&& parses_as_url(trimmed(request.upstream_url@))
                            &&& method_outcome(request.upstream_method) is Ok
                            &&& header_problem(text_pairs(request.upstream_headers@)) == Some(
                                ApiErrorView::Validation { message },
                            )
                        }
                    }
                },
                Err(_) => false,
            }
        }),
{
    law_blank_holds_white_space_alone(request.name@);
    law_blank_holds_white_space_alone(request.sponsor@);
    law_method_is_one_of_five(request.upstream_method);
    let headers = text_pairs(request.upstream_headers@);
    law_first_bad_header_is_named(headers);
    if request.plan(db_configured, config) is Ok {
        assert forall|i: int| 0 <= i < request.upstream_headers@.len() implies valid_header_name(
            (#[trigger] request.upstream_headers@[i]).0@,
        ) && valid_header_value(request.upstream_headers@[i].1@) by {
            assert(headers[i] == (
                request.upstream_headers@[i].0@,
                request.upstream_headers@[i].1@,
            ));
        }
    }
}

/// An API is kept with what its request holds: at the price that it names, or else at five cents,
/// with its whole budget left, and active. It makes no difference whether it is kept at once or
/// after a payment.
pub proof fn law_api_is_kept_as_asked(
    state: AppStateView,
    db_configured: bool,
    request: CreateSponsoredApiRequest,
    credential: PaymentCredential,
    start_id: u128,
    start: Timestamp,
    first: ApiCreationView,
    receipt: RpcReply,
    middle_id: u128,
    middle: Timestamp,
    second: ApiCreationView,
    latest: RpcReply,
    id: u128,
    now: Timestamp,
    row: SponsoredApiRowView,
)
    requires
        ({
            ||| state.api_creation(db_configured, request, credential, id, now) == (
            CreateStepView::Insert { row })
            ||| {
                &&& state.api_creation(db_configured, request, credential, start_id, start) matches
                    CreateStepView::Call { next, .. }
                &&& next == first
                &&& first.replied(receipt, middle_id, middle) matches CreateStepView::Call {
                    next,
                    ..
                }
                &&& next == second
                &&& second.replied(latest, id, now) == (CreateStepView::Insert { row })
            }
        }),
    ensures
        row.id == id,
        row.name == request.name@,
        row.sponsor == request.sponsor@,
        match request.description {
            Some(description) => row.description == Some(description@),
            None => row.description is None,
        },
        row.upstream_url == request.upstream_url@,
        method_outcome(request.upstream_method) == Ok::<Seq<char>, ApiErrorView>(
            row.upstream_method,
        ),
        row.upstream_headers.len() == request.upstream_headers@.len(),
        forall|i: int|
            0 <= i < row.upstream_headers.len() ==> #[trigger] row.upstream_headers[i] == (
                request.upstream_headers@[i].0@,
                request.upstream_headers@[i].1@,
            ),
        request.price_cents matches Some(price) ==> (price > 0 && (price <= i64::MAX
            ==> row.price_cents == price)),
        request.price_cents is None ==> row.price_cents == 5,
        request.budget_cents > 0,
        request.budget_cents <= i64::MAX ==> row.budget_total_cents == request.budget_cents,
        request.budget_cents <= i64::MAX ==> row.budget_remaining_cents == request.budget_cents,
        row.active,
        row.service_key == "sponsored-api"@ + "-"@ + uuid_text(id),
        row.created_at == now,
{
    law_which_apis_are_accepted(request, db_configured, state.config);
}

/// What putting up an API costs is asked for before it is kept: where it costs anything, a request
/// without a payment header is refused with the fee, and no request is kept at once. Where it costs
/// nothing, one that is accepted is kept at once.
pub proof fn law_fee_is_asked_for_first(
    state: AppStateView,
    db_configured: bool,
    request: CreateSponsoredApiRequest,
    credential: PaymentCredential,
    id: u128,
    now: Timestamp,
)
    ensures
        ({
            let fee = state.config.sponsored_api_create_price_cents;
            let step = state.api_creation(db_configured, request, credential, id, now);
            match request.plan(db_configured, state.config) {
                Err(error) => step == (CreateStepView::Refuse { error }),
                Ok(_) => {
                    &&& fee == 0 ==> step is Insert
                    &&& fee > 0 ==> step !is Insert
                    &&& fee > 0 && credential is Missing ==> (step matches CreateStepView::Refuse {
                        error: ApiErrorView::Payment { required },
                    } && required.service == "sponsored-api-create"@ && required.amount_cents == fee
                        && required.accepted_header == "payment-signature"@ && required.message
                        == "payment required"@)
                },
            }
        }),
{
}

/// A payment for putting up an API is counted when the API is about to be kept, and not otherwise.
pub proof fn law_creation_counts_its_payment(
    state: AppStateView,
    creation: ApiCreationView,
    reply: RpcReply,
    id: u128,
    now: Timestamp,
)
    ensures
        ({
            let after = state.after_creation_reply(creation, reply, now);
            &&& creation.replied(reply, id, now) !is Insert ==> after == state
            &&& creation.replied(reply, id, now) is Insert ==> {
                &&& after.metrics.payment_events == with_count(
                    state.metrics.payment_events,
                    seq!["user_direct"@, "settled"@],
                )
                &&& after.metrics.http_requests == state.metrics.http_requests
                &&& after.metrics.creator_events == state.metrics.creator_events
                &&& after.metrics.sponsor_spend_cents == state.metrics.sponsor_spend_cents
                &&& after.users == state.users
                &&& after.campaigns == state.campaigns
                &&& after.task_completions == state.task_completions
                &&& after.payments == state.payments
                &&& after.creator_events == state.creator_events
                &&& after.service_prices == state.service_prices
                &&& after.config == state.config
            }
        }),
{
}

/// A row without a negative number is given back as the API that it keeps, field by field; one with
/// a negative number is an error of the database that names the number.
pub proof fn law_row_is_given_back(row: SponsoredApiRowView)
    ensures
        match row.stored_api() {
            Ok(api) => {
                &&& api.id == row.id
                &&& api.name == row.name
                &&& api.sponsor == row.sponsor
                &&& api.description == row.description
                &&& api.upstream_url == row.upstream_url
                &&& api.upstream_method == row.upstream_method
                &&& api.upstream_headers == row.upstream_headers
                &&& api.price_cents == row.price_cents
                &&& api.budget_total_cents == row.budget_total_cents
                &&& api.budget_remaining_cents == row.budget_remaining_cents
                &&& api.active == row.active
                &&& api.service_key == row.service_key
                &&& api.created_at == row.created_at
            },
            Err(ApiErrorView::Database { status, message }) => {
                &&& status == 500
                &&& row.price_cents < 0 ==> message == "price_cents must be non-negative"@
                &&& row.price_cents >= 0 && row.budget_total_cents < 0 ==> message
                    == "budget_total_cents must be non-negative"@
                &&& row.price_cents >= 0 && row.budget_total_cents >= 0
                    ==> row.budget_remaining_cents < 0 && message
                    == "budget_remaining_cents must be non-negative"@
            },
            Err(_) => false,
        },
{
}

/// An API that the database was asked for is the one of the row that it found. Where it found none,
/// the request is told so, and where it failed, the request is told its message.
pub proof fn law_found_row_decides(
    row: SponsoredApiRow,
    message: String,
    state: AppStateView,
    credential: PaymentCredential,
    request: SponsoredApiRunRequestView,
)
    ensures
        found_api(Ok(Some(row))) == row@.stored_api(),
        found_api(Ok(None)) == Err::<SponsoredApiView, ApiErrorView>(
            ApiErrorView::NotFound { message: "sponsored api not found"@ },
        ),
        found_api(Err(message)) == Err::<SponsoredApiView, ApiErrorView>(
            ApiErrorView::Database { status: 500, message: message@ },
        ),
        state.api_run(Ok(None), credential, request) == (RunStepView::Refuse {
            error: ApiErrorView::NotFound { message: "sponsored api not found"@ },
        }),
        state.api_run(Err(message), credential, request) == (RunStepView::Refuse {
            error: ApiErrorView::Database { status: 500, message: message@ },
        }),
        row@.stored_api() matches Err(error) ==> state.api_run(
            Ok(Some(row)),
            credential,
            request,
        ) == (RunStepView::Refuse { error }),
{
}

/// The APIs are listed in the order of their rows, one for each. The first row that stands for none
/// is reported in place of the list.
pub proof fn law_apis_are_listed_in_order(rows: Seq<SponsoredApiRow>)
    ensures
        match stored_list(rows) {
            Ok(list) => {
                &&& list.len() == rows.len()
                &&& forall|i: int|
                    0 <= i < rows.len() ==> (#[trigger] rows[i])@.stored_api() == Ok::<
                        SponsoredApiView,
                        ApiErrorView,
                    >(list[i])
            },
            Err(error) => exists|n: int|
                {
                    &&& 0 <= n < rows.len()
                    &&& (#[trigger] rows[n])@.stored_api() == Err::<SponsoredApiView, ApiErrorView>(
                        error,
                    )
                    &&& forall|m: int| 0 <= m < n ==> (#[trigger] rows[m])@.stored_api() is Ok
                },
        },
    decreases rows.len(),
{
    if rows.len() > 0 {
        let fewer = rows.drop_last();
        law_apis_are_listed_in_order(fewer);
        match stored_list(fewer) {
            Ok(list) => {
                assert forall|m: int| 0 <= m < rows.len() - 1 implies (
                #[trigger] rows[m])@.stored_api() == Ok::<SponsoredApiView, ApiErrorView>(
                    list[m],
                ) by {
                    assert(fewer[m] == rows[m]);
                }
                assert(rows[rows.len() - 1] == rows.last());
            },
            Err(error) => {
                let n = choose|n: int|
                    {
                        &&& 0 <= n < fewer.len()
                        &&& (#[trigger] fewer[n])@.stored_api() == Err::<
                            SponsoredApiView,
                            ApiErrorView,
                        >(error)
                        &&& forall|m: int| 0 <= m < n ==> (#[trigger] fewer[m])@.stored_api() is Ok
                    };
                assert(rows[n] == fewer[n]);
                assert forall|m: int| 0 <= m < n implies (
                #[trigger] rows[m])@.stored_api() is Ok by {
                    assert(fewer[m] == rows[m]);
                }
            },
        }
    }
}

/// A number that fits in 63 bits is kept as itself; a larger one is kept as the negative number
/// that lies a whole range of 64 bits below it.
pub proof fn law_numbers_are_kept_by_their_bits(n: u64)
    ensures
        n <= i64::MAX ==> signed(n) == n,
        n > i64::MAX ==> signed(n) == n - 0x1_0000_0000_0000_0000,
{
}

/// A call without a payment header is paid for by the sponsor where the API is active and its
/// budget holds the price. The price is taken from the budget; the API stays active where another
/// call can be paid for. Otherwise the caller is told to pay the price for the API's own service.
pub proof fn law_sponsor_pays_while_the_budget_lasts(
    state: AppStateView,
    row: SponsoredApiRow,
    request: SponsoredApiRunRequestView,
)
    requires
        row.price_cents >= 0,
        row.budget_total_cents >= 0,
        row.budget_remaining_cents >= 0,
    ensures
        ({
            let left = row.budget_remaining_cents - row.price_cents;
            match state.api_run(Ok(Some(row)), PaymentCredential::Missing, request) {
                RunStepView::Save { api_id, remaining_cents, active, next } => {
                    &&& row.active
                    &&& left >= 0
                    &&& api_id == row.id
                    &&& remaining_cents == left
                    &&& active == (left >= row.price_cents && left > 0)
                    &&& row@.stored_api() == Ok::<SponsoredApiView, ApiErrorView>(next.api)
                    &&& next.request == request
                },
                RunStepView::Refuse { error: ApiErrorView::Payment { required } } => {
                    &&& !row.active || left < 0
                    &&& required.service == row.service_key@
                    &&& required.amount_cents == row.price_cents
                    &&& required.accepted_header == "payment-signature"@
                    &&& required.message == "sponsored budget exhausted"@
                    &&& required.next_step == "pay with PAYMENT-SIGNATURE and retry"@
                },
                _ => false,
            }
        }),
{
}

/// A call with a payment header is never paid for by the sponsor: the payment is looked into, where
/// it is for the service of the API and of at least its price.
pub proof fn law_caller_pays_with_a_header(
    state: AppStateView,
    row: SponsoredApiRow,
    credential: PaymentCredential,
    request: SponsoredApiRunRequestView,
)
    requires
        row.price_cents >= 0,
        row.budget_total_cents >= 0,
        row.budget_remaining_cents >= 0,
        credential !is Missing,
    ensures
        match state.api_run(Ok(Some(row)), credential, request) {
            RunStepView::Call { call, next } => {
                &&& credential matches PaymentCredential::Proof { proof }
                &&& proof.service@ == row.service_key@
                &&& proof.amount_cents >= row.price_cents
                &&& state.config.testnet_rpc_url matches Some(url)
                &&& call.rpc_url == url@
                &&& call.request.method == "eth_getTransactionReceipt"@
                &&& call.request.params == seq![proof.tx_hash@]
                &&& row@.stored_api() == Ok::<SponsoredApiView, ApiErrorView>(next.api)
                &&& next.request == request
                &&& next.verification.quote.service == row.service_key@
                &&& next.verification.quote.amount_cents == row.price_cents
                &&& next.verification.quote.resource_path == "/sponsored-apis/"@ + uuid_text(row.id)
                    + "/run"@
                &&& next.verification.check.tx_hash == proof.tx_hash@
                &&& next.verification.check.min_confirmations
                    == state.config.testnet_min_confirmations
            },
            RunStepView::Refuse { error: ApiErrorView::Payment { required } } => {
                &&& required.service == row.service_key@
                &&& required.amount_cents == row.price_cents
                &&& credential matches PaymentCredential::Proof { proof } ==> proof.service@
                    != row.service_key@ || proof.amount_cents < row.price_cents
            },
            RunStepView::Refuse { error: ApiErrorView::Config { .. } } => {
                state.config.testnet_rpc_url is None
            },
            _ => false,
        },
{
}

/// However a call is paid for, the API is then called as it was registered: by its method, at its
/// URL, with its headers, and with the input of the request.
pub proof fn law_api_is_called_as_registered(
    state: AppStateView,
    row: SponsoredApiRow,
    credential: PaymentCredential,
    request: SponsoredApiRunRequestView,
    paid: SettledCallView,
    header: Seq<char>,
    timeout_secs: u64,
)
    requires
        row@.stored_api() == Ok::<SponsoredApiView, ApiErrorView>(paid.api),
        paid.request == request,
    ensures
        state.api_run(Ok(Some(row)), credential, request) matches RunStepView::Save { next, .. }
            ==> (next.saved(Ok(()), timeout_secs) matches RunStepView::Request {
            request: upstream,
            ..
        } && {
            &&& upstream.method == row.upstream_method@
            &&& upstream.url == trimmed(row.upstream_url@)
            &&& upstream.headers.len() == row.upstream_headers@.len()
            &&& forall|i: int|
                0 <= i < upstream.headers.len() ==> #[trigger] upstream.headers[i] == (
                    row.upstream_headers@[i].0@,
                    row.upstream_headers@[i].1@,
                )
            &&& upstream.input == request.input
            &&& upstream.timeout_secs == timeout_secs
        }),
        paid.shown(header, timeout_secs) matches RunStepView::Request { request: upstream, .. } && {
            &&& upstream.method == row.upstream_method@
            &&& upstream.url == trimmed(row.upstream_url@)
            &&& upstream.headers.len() == row.upstream_headers@.len()
            &&& forall|i: int|
                0 <= i < upstream.headers.len() ==> #[trigger] upstream.headers[i] == (
                    row.upstream_headers@[i].0@,
                    row.upstream_headers@[i].1@,
                )
            &&& upstream.input == request.input
            &&& upstream.timeout_secs == timeout_secs
        },
{
}

/// An API that was put up with a method is called with it: the row that keeps it names the method,
/// and each call of it goes by that method.
pub proof fn law_new_api_is_called_with_its_method(
    state: AppStateView,
    db_configured: bool,
    asked: CreateSponsoredApiRequest,
    id: u128,
    now: Timestamp,
    name: Seq<char>,
    row: SponsoredApiRow,
    request: SponsoredApiRunRequestView,
    timeout_secs: u64,
)
    requires
        state.api_creation(db_configured, asked, PaymentCredential::Missing, id, now) == (
        CreateStepView::Insert { row: row@ }),
        asked.upstream_method matches Some(text) && text@ == name,
        name == "GET"@ || name == "POST"@ || name == "PUT"@ || name == "PATCH"@ || name
            == "DELETE"@,
    ensures
        row.upstream_method@ == name,
        state.api_run(Ok(Some(row)), PaymentCredential::Missing, request) matches
            RunStepView::Save { next, .. } ==> (next.saved(Ok(()), timeout_secs) matches
            RunStepView::Request { request: upstream, .. } && upstream.method == name),
{
    law_which_apis_are_accepted(asked, db_configured, state.config);
    let text = asked.upstream_method->0;
    law_method_in_any_case(text, 0, text@.len() as int, name);
}

/// A call that the API answered is recorded with the API, its price and the payment, and the reply
/// tells the caller what the API answered and who paid. A failure on the way to the API is told
/// with its message.
pub proof fn law_answer_is_recorded_and_told(
    paid: PaidCallView,
    status: u16,
    body: String,
    failure: String,
    id: u128,
    now: Timestamp,
)
    ensures
        paid.answered(Ok((status, body)), id, now) matches RunStepView::Log { call, next } && {
            &&& call.id == id
            &&& call.sponsored_api_id == paid.api.id
            &&& call.payment_mode == paid.payment.payment_mode
            &&& call.amount_cents == paid.api.price_cents
            &&& call.tx_hash == paid.payment.tx_hash
            &&& call.caller == paid.caller
            &&& call.created_at == now
            &&& next.reply().body.api_id == paid.api.id
            &&& next.reply().body.payment_mode == paid.payment.payment_mode
            &&& next.reply().body.sponsored_by == paid.payment.sponsored_by
            &&& next.reply().body.tx_hash == paid.payment.tx_hash
            &&& next.reply().body.upstream_status == status
            &&& next.reply().body.upstream_body == body@
            &&& next.reply().headers.len() >= 1
            &&& next.reply().headers[0] == ("x402-version"@, "2"@)
            &&& match paid.payment.settlement {
                Some(shown) => if valid_header_value(shown) {
                    &&& next.reply().headers.len() == 2
                    &&& next.reply().headers[1] == ("payment-response"@, shown)
                } else {
                    next.reply().headers.len() == 1
                },
                None => next.reply().headers.len() == 1,
            }
        },
        paid.answered(Err(failure), id, now) == (RunStepView::Refuse {
            error: ApiErrorView::Upstream { status: 502, message: failure@ },
        }),
{
}

/// A call that the sponsor paid for says so, and names the sponsor; one that the caller paid for
/// says so, and names the transaction.
pub proof fn law_reply_says_who_paid(
    state: AppStateView,
    row: SponsoredApiRow,
    credential: PaymentCredential,
    request: SponsoredApiRunRequestView,
    verifying: VerifyingCallView,
    reply: RpcReply,
    header: Seq<char>,
    failure: String,
    timeout_secs: u64,
    now: Timestamp,
)
    ensures
        state.api_run(Ok(Some(row)), credential, request) matches RunStepView::Save { next, .. }
            ==> {
            &&& next.saved(Ok(()), timeout_secs) matches RunStepView::Request { next: paid, .. }
            &&& paid.api.id == row.id
            &&& paid.api.price_cents == row.price_cents
            &&& paid.caller == request.caller
            &&& paid.payment.payment_mode == "sponsored"@
            &&& paid.payment.sponsored_by == Some(row.sponsor@)
            &&& paid.payment.tx_hash is None
            &&& paid.payment.settlement is None
            &&& next.saved(Err(failure), timeout_secs) == (RunStepView::Refuse {
                error: ApiErrorView::Database { status: 500, message: failure@ },
            })
        },
        verifying.replied(reply, now) matches RunStepView::Show { settlement, next } ==> {
            &&& next.shown(header, timeout_secs) matches RunStepView::Request { next: paid, .. }
            &&& paid.api == verifying.api
            &&& paid.caller == verifying.request.caller
            &&& paid.payment.payment_mode == "user_direct"@
            &&& paid.payment.sponsored_by is None
            &&& paid.payment.tx_hash == Some(settlement.tx_hash)
            &&& paid.payment.settlement == Some(header)
        },
{
}

/// A call ends with its reply where the record of it could be kept, and with the message of the
/// database otherwise.
pub proof fn law_reply_waits_for_the_record(answered: AnsweredCallView, message: String)
    ensures
        answered.logged(Err(message)) == Err::<SponsoredApiReplyView, ApiErrorView>(
            ApiErrorView::Database { status: 500, message: message@ },
        ),
        answered.logged(Ok(())) matches Ok(reply) && {
            &&& reply == answered.reply()
            &&& reply.body.api_id == answered.api_id
            &&& reply.body.payment_mode == answered.payment.payment_mode
            &&& reply.body.sponsored_by == answered.payment.sponsored_by
            &&& reply.body.tx_hash == answered.payment.tx_hash
            &&& reply.body.upstream_status == answered.upstream_status
            &&& reply.body.upstream_body == answered.upstream_body
        },
{
}

/// A sponsor's payment for a call of an API is counted as one, with what was spent, once what is
/// left of the budget was kept. Where it could not be kept, nothing is counted.
pub proof fn law_sponsor_payment_is_counted(
    state: AppStateView,
    call: DebitedCallView,
    message: String,
)
    ensures
        state.after_call_saved(call, Err(message)) == state,
        ({
            let after = state.after_call_saved(call, Ok(()));
            let price_cents = call.api.price_cents;
            &&& after.metrics.payment_events == with_count(
                state.metrics.payment_events,
                seq!["sponsored"@, "settled"@],
            )
            &&& after.metrics.sponsor_spend_cents == counted(
                state.metrics.sponsor_spend_cents,
                price_cents,
            )
            &&& after.metrics.http_requests == state.metrics.http_requests
            &&& after.metrics.creator_events == state.metrics.creator_events
            &&& after.users == state.users
            &&& after.campaigns == state.campaigns
            &&& after.task_completions == state.task_completions
            &&& after.payments == state.payments
            &&& after.creator_events == state.creator_events
            &&& after.service_prices == state.service_prices
            &&& after.config == state.config
        }),
{
}

} // verus!
