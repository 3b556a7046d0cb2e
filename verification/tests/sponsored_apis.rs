//! APIs whose calls a sponsor pays for.

use payloadexchange_mvp::config::AppConfig;
use payloadexchange_mvp::error::{ApiError, ApiResult};
use payloadexchange_mvp::onchain::RpcReply;
use payloadexchange_mvp::payments::{PaymentCredential, PaymentQuote};
use payloadexchange_mvp::sponsored::{
    get_sponsored_api, list_sponsored_apis, sponsored_api_service_key, to_signed, SponsoredApi,
    SponsoredApiRow,
};
use payloadexchange_mvp::sponsored_create::{
    finish_create_sponsored_api, normalize_upstream_method, plan_sponsored_api, CreatePlan,
    CreateSponsoredApiRequest, CreateStep,
};
use payloadexchange_mvp::sponsored_run::{
    plan_sponsored_api_run, RunPlan, RunStep, SponsoredApiReply, SponsoredApiRunRequest,
};
use payloadexchange_mvp::state::AppState;
use payloadexchange_mvp::types::{PaymentProof, Timestamp};

const API_ID: u128 = 0x0123_4567_89ab_4def_8123_4567_89ab_cdef;

fn config(create_price: u64) -> AppConfig {
    AppConfig {
        sponsored_api_create_price_cents: create_price,
        sponsored_api_timeout_secs: 12,
        testnet_rpc_url: None,
        testnet_min_confirmations: 1,
    }
}

fn request() -> CreateSponsoredApiRequest {
    CreateSponsoredApiRequest {
        name: "weather".to_string(),
        sponsor: "acme Inc".to_string(),
        description: None,
        upstream_url: " https://api.example.com/v1 ".to_string(),
        upstream_method: None,
        upstream_headers: vec![("X-Key".to_string(), "secret".to_string())],
        price_cents: None,
        budget_cents: 23,
    }
}

fn plan(request: &CreateSponsoredApiRequest) -> ApiResult<CreatePlan> {
    plan_sponsored_api(true, &config(25), request)
}

fn refusal(request: &CreateSponsoredApiRequest) -> String {
    match plan(request).unwrap_err() {
        ApiError::Validation { message } => message,
        other => panic!("expected a validation error, got {other:?}"),
    }
}

fn row() -> SponsoredApiRow {
    let step = state(0).create_sponsored_api_as(
        true,
        request(),
        &PaymentCredential::Missing,
        API_ID,
        Timestamp { secs: 1, nanos: 2 },
    );
    match step {
        CreateStep::Insert { row } => row,
        other => panic!("the API should be kept at once, got {other:?}"),
    }
}

fn api() -> SponsoredApi {
    get_sponsored_api(Ok(Some(row()))).unwrap()
}

fn shown(service: &str, amount_cents: u64) -> PaymentCredential {
    PaymentCredential::Proof {
        proof: PaymentProof {
            tx_hash: "0xabc".to_string(),
            service: service.to_string(),
            amount_cents,
            payer: "me".to_string(),
            sponsored_campaign_id: None,
            created_at: Timestamp { secs: 0, nanos: 0 },
        },
    }
}

fn answered(body: &str) -> RpcReply {
    RpcReply::Answered {
        status: 200,
        body: body.to_string(),
    }
}

fn receipt() -> RpcReply {
    answered(r#"{"result":{"status":"0x1","blockNumber":"0x10"}}"#)
}

fn latest() -> RpcReply {
    answered(r#"{"result":"0x10"}"#)
}

fn run_request() -> SponsoredApiRunRequest {
    SponsoredApiRunRequest {
        caller: Some("me".to_string()),
        input: serde_json::Value::Bool(true),
    }
}

fn run(
    state: &mut AppState,
    found: SponsoredApiRow,
    credential: &PaymentCredential,
) -> ApiResult<SponsoredApiReply> {
    let mut step = state.run_sponsored_api(Ok(Some(found)), credential, run_request());
    let mut replies = vec![latest(), receipt()];
    loop {
        step = match step {
            RunStep::Call { next, .. } => next.replied(&replies.pop().unwrap()),
            RunStep::Show { settlement, next } => {
                assert_eq!(settlement.tx_hash, "0xabc");
                state.call_shown(next, "receipt".to_string())
            }
            RunStep::Save { next, .. } => state.call_saved(next, Ok(())),
            RunStep::Request { request, next } => {
                assert_eq!(request.method, "POST");
                assert_eq!(request.url, "https://api.example.com/v1");
                assert_eq!(
                    request.headers,
                    vec![("X-Key".to_string(), "secret".to_string())]
                );
                assert_eq!(request.input, serde_json::Value::Bool(true));
                assert_eq!(request.timeout_secs, 12);
                next.answered_as(
                    Ok((418, "teapot".to_string())),
                    9,
                    Timestamp { secs: 4, nanos: 0 },
                )
            }
            RunStep::Log { call, next } => {
                assert_eq!(call.id, 9);
                assert_eq!(call.sponsored_api_id, API_ID);
                assert_eq!(call.amount_cents, 5);
                assert_eq!(call.caller, Some("me".to_string()));
                assert_eq!(call.created_at, Timestamp { secs: 4, nanos: 0 });
                return next.logged(Ok(()));
            }
            RunStep::Refuse { error } => return Err(error),
        }
    }
}

fn database(error: ApiError) -> String {
    assert_eq!(error.status(), 500);
    match error {
        ApiError::Database { message, .. } => message,
        other => panic!("expected an error of the database, got {other:?}"),
    }
}

fn state(create_price: u64) -> AppState {
    let mut config = config(create_price);
    config.testnet_rpc_url = Some("http://node".to_string());
    AppState::new(config)
}

#[test]
fn an_api_is_put_up_as_asked_for() {
    let api = api();
    assert_eq!(api.id, API_ID);
    assert_eq!(api.name, "weather");
    assert_eq!(api.upstream_url, " https://api.example.com/v1 ");
    assert_eq!(api.upstream_method, "POST");
    assert_eq!(api.price_cents, 5);
    assert_eq!(api.budget_total_cents, 23);
    assert_eq!(api.budget_remaining_cents, 23);
    assert!(api.active);
    assert_eq!(
        api.service_key,
        "sponsored-api-01234567-89ab-4def-8123-456789abcdef"
    );
    assert_eq!(api.created_at, Timestamp { secs: 1, nanos: 2 });
    let step = state(0).create_sponsored_api(true, request(), &PaymentCredential::Missing);
    match step {
        CreateStep::Insert { row } => {
            assert_eq!(row.service_key, sponsored_api_service_key(row.id));
            assert_ne!(row.service_key, api.service_key);
        }
        other => panic!("the API should be kept at once, got {other:?}"),
    }
}

#[test]
fn putting_up_an_api_may_have_to_be_paid_for() {
    let PaymentQuote {
        service,
        amount_cents,
        resource_path,
    } = plan(&request()).unwrap().payment.unwrap();
    assert_eq!(service, "sponsored-api-create");
    assert_eq!(amount_cents, 25);
    assert_eq!(resource_path, "/sponsored-apis");
    assert!(plan_sponsored_api(true, &config(0), &request())
        .unwrap()
        .payment
        .is_none());
}

#[test]
fn an_api_is_kept_once_it_is_paid_for() {
    let mut state = state(25);
    let unpaid = state.create_sponsored_api(true, request(), &PaymentCredential::Missing);
    match unpaid {
        CreateStep::Refuse { error } => {
            assert_eq!(error.status(), 402);
            assert_eq!(error.message(), "payment required");
        }
        other => panic!("expected a refusal, got {other:?}"),
    }

    let credential = shown("sponsored-api-create", 25);
    let creation = match state.create_sponsored_api(true, request(), &credential) {
        CreateStep::Call { call, next } => {
            assert_eq!(call.rpc_url, "http://node");
            next
        }
        other => panic!("expected a call, got {other:?}"),
    };
    let creation = match state.creation_replied(creation, &receipt()) {
        CreateStep::Call { next, .. } => next,
        other => panic!("expected a call, got {other:?}"),
    };
    assert!(!state.metrics.prometheus_metrics().body.contains("user_direct"));
    let now = Timestamp { secs: 8, nanos: 0 };
    let kept = state.creation_replied_as(creation, &latest(), API_ID, now);
    match kept {
        CreateStep::Insert { row } => {
            assert_eq!(row.id, API_ID);
            assert_eq!(row.name, "weather");
            assert_eq!(row.price_cents, 5);
            assert_eq!(row.created_at, Timestamp { secs: 8, nanos: 0 });
        }
        other => panic!("expected a row to keep, got {other:?}"),
    }
    assert!(state
        .metrics
        .prometheus_metrics()
        .body
        .contains("payment_events_total{mode=\"user_direct\",status=\"settled\"} 1"));
}

#[test]
fn requests_for_an_api_are_checked() {
    let missing = plan_sponsored_api(false, &config(25), &request()).unwrap_err();
    assert_eq!(missing.status(), 503);

    let mut bad = request();
    bad.name = " ".to_string();
    bad.sponsor = "".to_string();
    assert_eq!(refusal(&bad), "name is required");
    bad.name = "n".to_string();
    assert_eq!(refusal(&bad), "sponsor is required");

    let mut bad = request();
    bad.budget_cents = 0;
    bad.price_cents = Some(0);
    assert_eq!(refusal(&bad), "budget_cents must be greater than 0");
    bad.budget_cents = 1;
    assert_eq!(refusal(&bad), "price_cents must be greater than 0");

    let mut bad = request();
    bad.upstream_method = Some("FETCH".to_string());
    bad.upstream_url = "not a url".to_string();
    assert_eq!(
        refusal(&bad),
        "upstream_method must be one of GET, POST, PUT, PATCH, DELETE"
    );
    bad.upstream_method = None;
    assert_eq!(refusal(&bad), "upstream_url must be a valid URL");
    bad.upstream_url = "/relative".to_string();
    assert_eq!(refusal(&bad), "upstream_url must be a valid URL");

    let mut bad = request();
    bad.upstream_headers.push(("Bad Name".to_string(), "\n".to_string()));
    assert_eq!(refusal(&bad), "invalid upstream header: Bad Name");
    bad.upstream_headers[1].0 = "Good-Name".to_string();
    assert_eq!(refusal(&bad), "invalid upstream header value for: Good-Name");
    bad.upstream_headers[1].1 = "fine".to_string();
    assert!(plan(&bad).is_ok());
    bad.upstream_headers.push(("".to_string(), "".to_string()));
    assert_eq!(refusal(&bad), "invalid upstream header: ");
}

#[test]
fn methods_are_brought_to_upper_case() {
    let normal = |text: &str| normalize_upstream_method(&Some(text.to_string()));
    assert_eq!(normal(" get ").unwrap(), "GET");
    assert_eq!(normal("Post").unwrap(), "POST");
    assert_eq!(normal("pUt").unwrap(), "PUT");
    assert_eq!(normal("PATCH").unwrap(), "PATCH");
    assert_eq!(normal("delete\n").unwrap(), "DELETE");
    assert_eq!(normalize_upstream_method(&None).unwrap(), "POST");
    assert!(normal("").is_err());
    assert!(normal("GETS").is_err());
    assert!(normal("GE T").is_err());
}

#[test]
fn rows_give_back_what_was_kept() {
    let found = get_sponsored_api(Ok(Some(row()))).unwrap();
    assert_eq!(found.id, API_ID);
    assert_eq!(found.price_cents, 5);
    assert_eq!(found.budget_remaining_cents, 23);
    assert_eq!(
        found.upstream_headers,
        vec![("X-Key".to_string(), "secret".to_string())]
    );
    assert_eq!(finish_create_sponsored_api(Ok(row())).unwrap().name, "weather");
    assert_eq!(
        database(finish_create_sponsored_api(Err("gone".to_string())).unwrap_err()),
        "gone"
    );
}

#[test]
fn rows_with_negative_numbers_are_refused() {
    let mut bad = row();
    bad.price_cents = -1;
    bad.budget_total_cents = -1;
    bad.budget_remaining_cents = -1;
    assert_eq!(
        SponsoredApi::try_from(bad).unwrap_err(),
        "price_cents must be non-negative"
    );
    let mut bad = row();
    bad.budget_total_cents = i64::MIN;
    bad.budget_remaining_cents = -1;
    assert_eq!(
        database(get_sponsored_api(Ok(Some(bad))).unwrap_err()),
        "budget_total_cents must be non-negative"
    );
    let mut bad = row();
    bad.budget_remaining_cents = -1;
    assert_eq!(
        database(list_sponsored_apis(Ok(vec![row(), bad, row()])).unwrap_err()),
        "budget_remaining_cents must be non-negative"
    );
    let mut large = api();
    large.price_cents = u64::MAX;
    assert_eq!(
        database(get_sponsored_api(Ok(Some(large.into_row()))).unwrap_err()),
        "price_cents must be non-negative"
    );
}

#[test]
fn the_database_may_fail_or_find_nothing() {
    assert_eq!(
        database(get_sponsored_api(Err("down".to_string())).unwrap_err()),
        "down"
    );
    assert_eq!(
        database(list_sponsored_apis(Err("down".to_string())).unwrap_err()),
        "down"
    );
    let missing = get_sponsored_api(Ok(None)).unwrap_err();
    assert_eq!(missing.status(), 404);
    assert!(list_sponsored_apis(Ok(vec![])).unwrap().is_empty());
    let mut second = row();
    second.name = "news".to_string();
    let names: Vec<String> = list_sponsored_apis(Ok(vec![row(), second]))
        .unwrap()
        .into_iter()
        .map(|api| api.name)
        .collect();
    assert_eq!(names, vec!["weather".to_string(), "news".to_string()]);
}

#[test]
fn numbers_are_kept_by_their_bits() {
    assert_eq!(to_signed(0), 0);
    assert_eq!(to_signed(i64::MAX as u64), i64::MAX);
    assert_eq!(to_signed(i64::MAX as u64 + 1), i64::MIN);
    assert_eq!(to_signed(u64::MAX), -1);
}

#[test]
fn a_budget_pays_for_its_share_of_calls() {
    let mut api = api();
    let mut calls = 0;
    while let Ok(plan) = plan_sponsored_api_run(&api, false) {
        match plan {
            RunPlan::Sponsored {
                new_remaining_cents,
                still_active,
            } => {
                assert_eq!(new_remaining_cents + api.price_cents, api.budget_remaining_cents);
                let mut saved = api.into_row();
                saved.budget_remaining_cents = to_signed(new_remaining_cents);
                saved.active = still_active;
                api = get_sponsored_api(Ok(Some(saved))).unwrap();
            }
            RunPlan::Direct { .. } => panic!("the sponsor should pay"),
        }
        calls += 1;
    }
    assert_eq!(calls, 4);
    assert_eq!(api.budget_remaining_cents, 3);
    assert!(!api.active);
    match plan_sponsored_api_run(&api, false).unwrap_err() {
        ApiError::Payment { required } => {
            assert_eq!(required.service, api.service_key);
            assert_eq!(required.amount_cents, 5);
            assert_eq!(required.message, "sponsored budget exhausted");
            assert_eq!(required.next_step, "pay with PAYMENT-SIGNATURE and retry");
        }
        other => panic!("expected a demand for payment, got {other:?}"),
    }
}

#[test]
fn callers_who_show_a_payment_pay_themselves() {
    let api = api();
    let quote = match plan_sponsored_api_run(&api, true).unwrap() {
        RunPlan::Direct { quote } => quote,
        RunPlan::Sponsored { .. } => panic!("the caller should pay"),
    };
    assert_eq!(quote.service, api.service_key);
    assert_eq!(quote.amount_cents, 5);
    assert_eq!(
        quote.resource_path,
        "/sponsored-apis/01234567-89ab-4def-8123-456789abcdef/run"
    );

    let mut state = state(25);
    let reply = run(&mut state, row(), &shown(&api.service_key, 5)).unwrap();
    assert_eq!(
        reply.headers,
        vec![
            ("x402-version".to_string(), "2".to_string()),
            ("payment-response".to_string(), "receipt".to_string()),
        ]
    );
    assert_eq!(reply.body.api_id, API_ID);
    assert_eq!(reply.body.payment_mode, "user_direct");
    assert_eq!(reply.body.sponsored_by, None);
    assert_eq!(reply.body.tx_hash, Some("0xabc".to_string()));
    assert_eq!(reply.body.upstream_status, 418);
    assert_eq!(reply.body.upstream_body, "teapot");
    let page = state.metrics.prometheus_metrics().body;
    assert!(page.contains("payment_events_total{mode=\"user_direct\",status=\"settled\"} 1"));

    let other = run(&mut state, row(), &shown("sponsored-api-create", 25)).unwrap_err();
    assert_eq!(other.message(), "payment proof service mismatch");
    let malformed = run(&mut state, row(), &PaymentCredential::Malformed).unwrap_err();
    assert_eq!(malformed.message(), "invalid payment signature");
}

#[test]
fn sponsors_pay_for_callers_who_show_no_payment() {
    let mut state = state(25);
    let reply = run(&mut state, row(), &PaymentCredential::Missing).unwrap();
    assert_eq!(reply.headers, vec![("x402-version".to_string(), "2".to_string())]);
    assert_eq!(reply.body.payment_mode, "sponsored");
    assert_eq!(reply.body.sponsored_by, Some("acme Inc".to_string()));
    assert_eq!(reply.body.tx_hash, None);
    let page = state.metrics.prometheus_metrics().body;
    assert!(page.contains("payment_events_total{mode=\"sponsored\",status=\"settled\"} 1"));
    assert!(page.contains("sponsor_spend_cents_total 5"));
}

#[test]
fn sponsors_are_charged_only_for_what_was_saved() {
    let mut state = state(25);
    let debited = match state.run_sponsored_api(
        Ok(Some(row())),
        &PaymentCredential::Missing,
        run_request(),
    ) {
        RunStep::Save {
            api_id,
            remaining_cents,
            active,
            next,
        } => {
            assert_eq!(api_id, API_ID);
            assert_eq!(remaining_cents, 18);
            assert!(active);
            next
        }
        other => panic!("the sponsor should pay, got {other:?}"),
    };
    match state.call_saved(debited, Err("locked".to_string())) {
        RunStep::Refuse { error } => assert_eq!(database(error), "locked"),
        other => panic!("expected a refusal, got {other:?}"),
    }
    assert!(!state.metrics.prometheus_metrics().body.contains("mode=\"sponsored\""));
}

#[test]
fn calls_that_fail_on_the_way_are_refused() {
    let mut state = state(25);
    let missing = state.run_sponsored_api(Ok(None), &PaymentCredential::Missing, run_request());
    assert!(matches!(missing, RunStep::Refuse { error } if error.status() == 404));

    for lost in [true, false] {
        let step =
            state.run_sponsored_api(Ok(Some(row())), &PaymentCredential::Missing, run_request());
        let step = match step {
            RunStep::Save { next, .. } => state.call_saved(next, Ok(())),
            other => panic!("the sponsor should pay, got {other:?}"),
        };
        let paid = match step {
            RunStep::Request { next, .. } => next,
            other => panic!("the API should be called, got {other:?}"),
        };
        if lost {
            match paid.answered(Err("timed out".to_string())) {
                RunStep::Refuse { error } => {
                    assert_eq!(error.status(), 502);
                    assert_eq!(error.message(), "timed out");
                }
                other => panic!("expected a refusal, got {other:?}"),
            }
        } else {
            match paid.answered(Ok((200, "".to_string()))) {
                RunStep::Log { next, .. } => {
                    assert_eq!(database(next.logged(Err("full".to_string())).unwrap_err()), "full")
                }
                other => panic!("expected a record to keep, got {other:?}"),
            }
        }
    }
}
