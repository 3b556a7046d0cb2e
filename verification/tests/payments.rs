//! Payments on the test network, and the tools that they unlock.

use payloadexchange_mvp::config::AppConfig;
use payloadexchange_mvp::endpoints::{Endpoint, Reply};
use payloadexchange_mvp::error::{ApiError, ApiResult};
use payloadexchange_mvp::onchain::RpcReply;
use payloadexchange_mvp::paid_runs::PaidRunStep;
use payloadexchange_mvp::payments::{
    reply_headers, PaidReply, PaymentCredential, PaymentQuote,
};
use payloadexchange_mvp::state::AppState;
use payloadexchange_mvp::testnet::{TestnetPayment, TestnetStep};
use payloadexchange_mvp::types::{
    CreateTestnetPaymentRequest, CreateUserRequest, PaymentProof, PaymentRequired, PaymentStatus,
    ServiceRunRequest, Timestamp, PAYMENT_RESPONSE_HEADER, X402_VERSION_HEADER,
};
use payloadexchange_mvp::verification::{
    count_confirmations, screen_payment, settle_payment, ChainCheck,
};

const TX_HASH: &str = "0x5c504ed432cb51138bcf09aa5e8a410dd4a1e204ef84bfed1be16dfba1b22060";

const CONFIRMED_RECEIPT: &str =
    r#"{"jsonrpc":"2.0","id":1,"result":{"status":"0x1","blockNumber":"0x10"}}"#;

const FAILED_RECEIPT: &str =
    r#"{"jsonrpc":"2.0","id":1,"result":{"status":"0x0","blockNumber":"0x10"}}"#;

const LATEST_BLOCK: &str = r#"{"jsonrpc":"2.0","id":2,"result":"0x14"}"#;

fn test_config() -> AppConfig {
    AppConfig {
        sponsored_api_create_price_cents: 25,
        sponsored_api_timeout_secs: 12,
        testnet_rpc_url: None,
        testnet_min_confirmations: 1,
    }
}

fn test_state() -> AppState {
    AppState::new(test_config())
}

fn configure_testnet_rpc(state: &mut AppState) {
    state.config.testnet_rpc_url = Some("http://127.0.0.1:8545".to_string());
    state.config.testnet_min_confirmations = 1;
}

fn testnet_request(service: &str, min_confirmations: Option<u64>) -> CreateTestnetPaymentRequest {
    CreateTestnetPaymentRequest {
        payer: "dev@testnet.example".to_string(),
        service: service.to_string(),
        tx_hash: TX_HASH.to_string(),
        amount_cents: None,
        min_confirmations,
    }
}

fn answered(body: &str) -> RpcReply {
    RpcReply::Answered {
        status: 200,
        body: body.to_string(),
    }
}

fn pay_on_testnet(
    state: &AppState,
    request: CreateTestnetPaymentRequest,
    receipt: &str,
) -> ApiResult<TestnetPayment> {
    let mut step = state.create_testnet_payment(request);
    let mut replies = vec![LATEST_BLOCK, receipt];
    loop {
        step = match step {
            TestnetStep::Call { call, next } => {
                assert_eq!(call.rpc_url, "http://127.0.0.1:8545");
                let body = replies.pop().expect("two calls should do");
                next.replied(&answered(body))
            }
            TestnetStep::Accept { payment } => return Ok(payment),
            TestnetStep::Refuse { error } => return Err(error),
        }
    }
}

fn go_on(state: &mut AppState, mut step: PaidRunStep) -> ApiResult<PaidReply> {
    let mut replies = vec![LATEST_BLOCK, CONFIRMED_RECEIPT];
    loop {
        step = match step {
            PaidRunStep::Call { call, next } => {
                if call.request.id == 1 {
                    assert_eq!(call.request.params, vec![TX_HASH.to_string()]);
                }
                let body = replies.pop().expect("two calls should do");
                next.replied(&answered(body))
            }
            PaidRunStep::Show { settlement, next } => {
                assert_eq!(settlement.status, PaymentStatus::Settled);
                assert_eq!(settlement.tx_hash, TX_HASH);
                return Ok(state.finish_paid_run(next, "settled".to_string()));
            }
            PaidRunStep::Refuse { error } => return Err(error),
        }
    }
}

fn run_request(input: &str) -> ServiceRunRequest {
    ServiceRunRequest {
        user_id: 77,
        input: input.to_string(),
    }
}

fn run_tool(
    state: &mut AppState,
    service: &str,
    credential: &PaymentCredential,
    input: &str,
) -> ApiResult<PaidReply> {
    let step = state.run_tool(service.to_string(), run_request(input), credential);
    go_on(state, step)
}

fn required(error: ApiError) -> PaymentRequired {
    match error {
        ApiError::Payment { required } => required,
        other => panic!("expected a demand for payment, got {other:?}"),
    }
}

fn sample_proof(service: &str, amount_cents: u64) -> PaymentProof {
    PaymentProof {
        tx_hash: TX_HASH.to_string(),
        service: service.to_string(),
        amount_cents,
        payer: "dev@testnet.example".to_string(),
        sponsored_campaign_id: None,
        created_at: Timestamp { secs: 5, nanos: 6 },
    }
}

#[test]
fn tool_requires_x402_payment_proof() {
    let mut state = test_state();
    let result = run_tool(&mut state, "design", &PaymentCredential::Missing, "test payload");
    let reply: Reply<PaidReply> = state.respond(Endpoint::RunTool, result);

    assert_eq!(reply.status, 402);
    match reply.result {
        Ok(_) => panic!("the call should be refused"),
        Err(error) => {
            assert_eq!(
                error.headers(),
                vec![(X402_VERSION_HEADER.to_string(), "2".to_string())]
            );
            let json = required(error);
            assert_eq!(json.accepted_header, "payment-signature");
            assert_eq!(json.service, "design");
            assert_eq!(json.amount_cents, 8);
        }
    }
}

#[test]
fn testnet_payment_signature_unlocks_tool() {
    let mut state = test_state();
    configure_testnet_rpc(&mut state);
    let payment = pay_on_testnet(&state, testnet_request("design", None), CONFIRMED_RECEIPT);
    let created = state.respond(Endpoint::CreateTestnetPayment, payment);
    assert_eq!(created.status, 201);
    let payment = match created.result {
        Ok(payment) => payment,
        Err(error) => panic!("the payment should be accepted: {error:?}"),
    };
    assert_eq!(payment.confirmations, 5);
    assert_eq!(payment.proof.amount_cents, 8);
    assert_eq!(payment.proof.tx_hash, TX_HASH);
    assert_eq!(payment.proof.payer, "dev@testnet.example");
    let told = payment.response("signature".to_string());
    assert_eq!(told.tx_hash, TX_HASH);
    assert_eq!(told.payment_signature, "signature");
    assert_eq!(told.confirmations, 5);

    let credential = PaymentCredential::Proof { proof: payment.proof };
    let result = run_tool(&mut state, "design", &credential, "testnet paid run");
    let run_response = state.respond(Endpoint::RunTool, result);

    assert_eq!(run_response.status, 200);
    let reply = match run_response.result {
        Ok(reply) => reply,
        Err(error) => panic!("the tool should run: {error:?}"),
    };
    assert!(reply
        .headers
        .contains(&(PAYMENT_RESPONSE_HEADER.to_string(), "settled".to_string())));
    assert_eq!(reply.body.payment_mode, "user_direct");
    assert_eq!(reply.body.service, "design");
    assert_eq!(reply.body.output, "service 'design' processed: testnet paid run");
    assert_eq!(reply.body.tx_hash, Some(TX_HASH.to_string()));
    assert_eq!(reply.body.sponsored_by, None);
}

#[test]
fn testnet_payment_requires_confirmations() {
    let mut state = test_state();
    configure_testnet_rpc(&mut state);
    let request = testnet_request("design", Some(u64::MAX));
    let payment = pay_on_testnet(&state, request, CONFIRMED_RECEIPT);
    let reply = state.respond(Endpoint::CreateTestnetPayment, payment);

    assert_eq!(reply.status, 400);
    let error = reply.result.unwrap_err();
    assert!(error.headers().is_empty());
    let text = error.message();
    assert!(text.contains("insufficient confirmations"));
    assert_eq!(text, "insufficient confirmations: 5 of 18446744073709551615");
}

#[test]
fn testnet_payment_proof_service_mismatch_is_rejected() {
    let mut state = test_state();
    configure_testnet_rpc(&mut state);
    let payment = pay_on_testnet(&state, testnet_request("design", None), CONFIRMED_RECEIPT);
    let credential = PaymentCredential::Proof {
        proof: payment.unwrap().proof,
    };
    assert!(run_tool(&mut state, "design", &credential, "testnet paid run").is_ok());

    let result = run_tool(&mut state, "storage", &credential, "store object");
    let reply = state.respond(Endpoint::RunTool, result);

    assert_eq!(reply.status, 402);
    let json = required(reply.result.unwrap_err());
    assert!(json.message.contains("service mismatch"));
    assert_eq!(json.service, "storage");
    assert_eq!(json.amount_cents, 3);
}

#[test]
fn testnet_failed_transaction_is_rejected() {
    let mut state = test_state();
    configure_testnet_rpc(&mut state);
    let payment = pay_on_testnet(&state, testnet_request("design", None), FAILED_RECEIPT);
    let reply = state.respond(Endpoint::CreateTestnetPayment, payment);

    assert_eq!(reply.status, 400);
    assert!(reply.result.unwrap_err().message().contains("not successful"));
}

#[test]
fn testnet_payment_needs_a_node() {
    let mut state = test_state();
    let payment = pay_on_testnet(&state, testnet_request("design", None), CONFIRMED_RECEIPT);
    let reply = state.respond(Endpoint::CreateTestnetPayment, payment);
    assert_eq!(reply.status, 503);
    assert_eq!(
        reply.result.unwrap_err().message(),
        "testnet RPC not configured; set TESTNET_RPC_URL"
    );
}

#[test]
fn an_amount_of_its_own_takes_the_place_of_the_price() {
    let mut state = test_state();
    configure_testnet_rpc(&mut state);
    let mut request = testnet_request("design", Some(5));
    request.amount_cents = Some(2);
    let payment = pay_on_testnet(&state, request, CONFIRMED_RECEIPT).unwrap();
    assert_eq!(payment.proof.amount_cents, 2);

    let credential = PaymentCredential::Proof { proof: payment.proof };
    let json = required(run_tool(&mut state, "design", &credential, "x").unwrap_err());
    assert_eq!(json.message, "payment amount is below the price");
    assert_eq!(json.next_step, "pay the full price and retry");
}

#[test]
fn screening_names_what_is_wrong() {
    let mut config = test_config();
    config.testnet_rpc_url = Some("http://node".to_string());
    config.testnet_min_confirmations = 3;
    let quote = PaymentQuote {
        service: "design".to_string(),
        amount_cents: 8,
        resource_path: "/tool/design/run".to_string(),
    };
    let screen = |credential: PaymentCredential| screen_payment(&config, &quote, &credential);

    let missing = required(screen(PaymentCredential::Missing).unwrap_err());
    assert_eq!(missing.message, "payment required");
    assert_eq!(missing.next_step, "pay with PAYMENT-SIGNATURE and retry");
    let malformed = required(screen(PaymentCredential::Malformed).unwrap_err());
    assert_eq!(malformed.message, "invalid payment signature");
    let proof = sample_proof("storage", 8);
    let mismatch = required(screen(PaymentCredential::Proof { proof }).unwrap_err());
    assert_eq!(mismatch.message, "payment proof service mismatch");
    assert_eq!(mismatch.next_step, "pay for this service and retry");
    let proof = sample_proof("design", 7);
    assert_eq!(
        required(screen(PaymentCredential::Proof { proof }).unwrap_err()).message,
        "payment amount is below the price"
    );
    let proof = sample_proof("design", 8);
    let check = screen(PaymentCredential::Proof { proof }).unwrap();
    assert_eq!(check.rpc_url, "http://node");
    assert_eq!(check.tx_hash, TX_HASH);
    assert_eq!(check.min_confirmations, 3);
}

#[test]
fn a_call_settles_once_it_is_confirmed() {
    let quote = PaymentQuote {
        service: "design".to_string(),
        amount_cents: 8,
        resource_path: "/tool/design/run".to_string(),
    };
    let check = ChainCheck {
        rpc_url: "http://node".to_string(),
        tx_hash: TX_HASH.to_string(),
        min_confirmations: 3,
    };
    let now = Timestamp { secs: 10, nanos: 20 };
    let early = required(settle_payment(&quote, &check, 16, 17, now).unwrap_err());
    assert_eq!(early.message, "insufficient confirmations: 2 of 3");
    assert_eq!(early.next_step, "wait for more confirmations and retry");
    let settled = settle_payment(&quote, &check, 16, 18, now).unwrap();
    assert_eq!(settled.tx_hash, TX_HASH);
    assert_eq!(settled.settled_at, now);
    assert!(settle_payment(&quote, &check, 16, 90, now).is_ok());
}

#[test]
fn confirmations_are_counted_from_the_block_of_the_transaction() {
    assert_eq!(count_confirmations(16, 15), 0);
    assert_eq!(count_confirmations(16, 16), 1);
    assert_eq!(count_confirmations(16, 20), 5);
    assert_eq!(count_confirmations(0, u64::MAX), u64::MAX);
    assert_eq!(count_confirmations(1, u64::MAX), u64::MAX);
}

#[test]
fn a_settlement_is_shown_only_where_a_header_can_hold_it() {
    assert_eq!(
        reply_headers(&Some("ok\tfine".to_string())),
        vec![
            ("x402-version".to_string(), "2".to_string()),
            ("payment-response".to_string(), "ok\tfine".to_string()),
        ]
    );
    assert_eq!(reply_headers(&Some("line\nbreak".to_string())).len(), 1);
    assert_eq!(reply_headers(&Some("\u{7f}".to_string())).len(), 1);
    assert_eq!(reply_headers(&Some("caf\u{e9}".to_string())).len(), 2);
}

#[test]
fn quotes_name_the_path_of_the_call() {
    let state = test_state();
    let tool = state.quote_tool("design");
    assert_eq!(tool.resource_path, "/tool/design/run");
    assert_eq!(tool.amount_cents, 8);
    let proxy = state.quote_proxy("unknown");
    assert_eq!(proxy.resource_path, "/proxy/unknown/run");
    assert_eq!(proxy.amount_cents, 5);
}

#[test]
fn a_paid_proxy_call_needs_a_known_user() {
    let mut state = test_state();
    configure_testnet_rpc(&mut state);
    let proof = sample_proof("design", 8);
    let credential = PaymentCredential::Proof { proof };
    let step = state.run_paid_proxy("design".to_string(), run_request("x"), &credential);
    let refused = go_on(&mut state, step).unwrap_err();
    assert_eq!(refused.status(), 404);
    assert_eq!(refused.message(), "user profile is required before proxy usage");

    state.create_profile_as(
        CreateUserRequest {
            email: "dev@testnet.example".to_string(),
            region: "eu".to_string(),
            roles: vec![],
            tools_used: vec![],
            attributes: Default::default(),
        },
        77,
        Timestamp { secs: 1, nanos: 0 },
    );
    let step = state.run_paid_proxy("design".to_string(), run_request("x"), &credential);
    let reply = go_on(&mut state, step).unwrap();
    assert_eq!(reply.body.payment_mode, "user_direct");
    let page = state.metrics.prometheus_metrics().body;
    assert!(page.contains("payment_events_total{mode=\"user_direct\",status=\"settled\"} 1"));
}

#[test]
fn failures_of_a_node_stop_a_paid_run() {
    let mut state = test_state();
    configure_testnet_rpc(&mut state);
    let proof = sample_proof("design", 8);
    let credential = PaymentCredential::Proof { proof };
    let step = state.run_tool("design".to_string(), run_request("x"), &credential);
    let lost = RpcReply::Failed {
        message: "no route".to_string(),
    };
    match step {
        PaidRunStep::Call { next, .. } => match next.replied(&lost) {
            PaidRunStep::Refuse { error } => {
                assert_eq!(error.status(), 502);
                assert_eq!(error.message(), "no route");
            }
            other => panic!("expected a refusal, got {other:?}"),
        },
        other => panic!("expected a call, got {other:?}"),
    }
}
