//! Users, campaigns, tasks and the calls that campaigns pay for.

use std::collections::HashMap;

use payloadexchange_mvp::config::AppConfig;
use payloadexchange_mvp::endpoints::{health, Endpoint};
use payloadexchange_mvp::error::ApiError;
use payloadexchange_mvp::listing::keys_of;
use payloadexchange_mvp::paid_runs::PaidRunStep;
use payloadexchange_mvp::payments::{PaidReply, PaymentCredential};
use payloadexchange_mvp::proxy::ProxyStep;
use payloadexchange_mvp::registration::{register_user, register_user_as};
use payloadexchange_mvp::state::AppState;
use payloadexchange_mvp::types::{
    CreateCampaignRequest, CreateUserRequest, CreatorMetricEventRequest, PaymentProof,
    PaymentSource, PaymentStatus, ServiceRunRequest, TaskCompletionRequest, Timestamp,
    X402ScanSettlementRequest,
};

fn at(secs: i64) -> Timestamp {
    Timestamp { secs, nanos: 0 }
}

fn test_state() -> AppState {
    AppState::new(AppConfig {
        sponsored_api_create_price_cents: 25,
        sponsored_api_timeout_secs: 12,
        testnet_rpc_url: None,
        testnet_min_confirmations: 1,
    })
}

fn texts(list: &[&str]) -> Vec<String> {
    list.iter().map(|text| text.to_string()).collect()
}

fn user(roles: &[&str], tools: &[&str]) -> CreateUserRequest {
    CreateUserRequest {
        email: "dev@example.com".to_string(),
        region: "eu".to_string(),
        roles: texts(roles),
        tools_used: texts(tools),
        attributes: HashMap::from([("team".to_string(), "core".to_string())]),
    }
}

fn campaign(
    name: &str,
    budget_cents: u64,
    roles: &[&str],
    tools: &[&str],
) -> CreateCampaignRequest {
    CreateCampaignRequest {
        name: name.to_string(),
        sponsor: format!("{name} Inc"),
        target_roles: texts(roles),
        target_tools: texts(tools),
        required_task: "survey".to_string(),
        subsidy_per_call_cents: 2,
        budget_cents,
    }
}

fn task(campaign_id: u128, user_id: u128, name: &str) -> TaskCompletionRequest {
    TaskCompletionRequest {
        campaign_id,
        user_id,
        task_name: name.to_string(),
        details: Some("done".to_string()),
    }
}

fn run(user_id: u128) -> ServiceRunRequest {
    ServiceRunRequest {
        user_id,
        input: "hello".to_string(),
    }
}

fn reply_of(step: ProxyStep) -> Result<PaidReply, ApiError> {
    match step {
        ProxyStep::Reply { reply } => Ok(reply),
        ProxyStep::Refuse { error } => Err(error),
        ProxyStep::Pay { step } => panic!("no payment was sent, got {step:?}"),
    }
}

fn sponsored_run(
    state: &mut AppState,
    service: &str,
    user_id: u128,
) -> Result<PaidReply, ApiError> {
    reply_of(state.run_proxy(service.to_string(), run(user_id), &PaymentCredential::Missing))
}

fn precondition(error: ApiError) -> String {
    assert_eq!(error.status(), 412);
    match error {
        ApiError::Precondition { message } => message,
        other => panic!("expected an unmet precondition, got {other:?}"),
    }
}

fn not_found(error: ApiError) -> String {
    assert_eq!(error.status(), 404);
    match error {
        ApiError::NotFound { message } => message,
        other => panic!("expected a missing item, got {other:?}"),
    }
}

#[test]
fn health_is_ok() {
    assert_eq!(health().message, "ok");
    let mut state = test_state();
    assert_eq!(state.respond(Endpoint::Health, Ok(health())).status, 200);
}

#[test]
fn the_server_starts_with_its_prices() {
    let state = test_state();
    assert_eq!(state.service_price("scraping"), 5);
    assert_eq!(state.service_price("design"), 8);
    assert_eq!(state.service_price("storage"), 3);
    assert_eq!(state.service_price("data-tooling"), 4);
    assert_eq!(state.service_price("anything else"), 5);
    assert!(state.users.is_empty());
    assert!(state.payments.is_empty());
}

#[test]
fn profiles_are_kept_as_they_were_asked_for() {
    let mut state = test_state();
    let profile = state.create_profile_as(user(&["dev"], &["vim"]), 7, at(3));
    assert_eq!(profile.id, 7);
    assert_eq!(profile.email, "dev@example.com");
    assert_eq!(profile.region, "eu");
    assert_eq!(profile.roles, texts(&["dev"]));
    assert_eq!(profile.tools_used, texts(&["vim"]));
    assert_eq!(profile.attributes.get("team"), Some(&"core".to_string()));
    assert_eq!(profile.created_at, at(3));
    assert_eq!(state.users.get(&7).unwrap().email, "dev@example.com");
}

#[test]
fn fresh_identifiers_are_random_uuids() {
    let mut state = test_state();
    let first = state.create_profile(user(&[], &[]));
    let second = state.create_campaign(campaign("a", 1, &[], &[]));
    assert_ne!(first.id, second.id);
    for id in [first.id, second.id] {
        let parsed = uuid::Uuid::from_u128(id);
        assert_eq!(parsed.get_version_num(), 4);
        assert_eq!((id >> 62) & 3, 2);
    }
    assert!(first.created_at.secs > 1_600_000_000);
}

#[test]
fn lists_are_in_order_of_creation() {
    let mut state = test_state();
    for (id, secs) in [(1, 30), (2, 10), (3, 20), (4, 10)] {
        state.create_profile_as(user(&[], &[]), id, at(secs));
        state.create_campaign_as(campaign("a", 1, &[], &[]), id + 100, at(-secs));
    }
    let profiles: Vec<i64> = state
        .list_profiles()
        .iter()
        .map(|profile| profile.created_at.secs)
        .collect();
    assert_eq!(profiles, vec![10, 10, 20, 30]);
    let campaigns: Vec<i64> = state
        .list_campaigns()
        .iter()
        .map(|campaign| campaign.created_at.secs)
        .collect();
    assert_eq!(campaigns, vec![-30, -20, -10, -10]);
    let mut ids: Vec<u128> = state.list_profiles().iter().map(|p| p.id).collect();
    ids.sort();
    assert_eq!(ids, vec![1, 2, 3, 4]);
}

#[test]
fn nanoseconds_count_in_the_order_of_creation() {
    let mut state = test_state();
    state.create_profile_as(user(&[], &[]), 1, Timestamp { secs: 5, nanos: 9 });
    state.create_profile_as(user(&[], &[]), 2, Timestamp { secs: 5, nanos: 8 });
    let ids: Vec<u128> = state.list_profiles().iter().map(|p| p.id).collect();
    assert_eq!(ids, vec![2, 1]);
}

#[test]
fn tasks_need_a_campaign_and_a_user() {
    let mut state = test_state();
    state.create_campaign_as(campaign("a", 10, &[], &[]), 1, at(0));
    assert_eq!(
        not_found(state.complete_task(task(9, 2, "survey")).unwrap_err()),
        "campaign not found"
    );
    assert_eq!(
        not_found(state.complete_task(task(1, 2, "survey")).unwrap_err()),
        "user not found"
    );
    assert!(state.task_completions.is_empty());
    state.create_profile_as(user(&[], &[]), 2, at(0));
    let completion = state.complete_task_as(task(1, 2, "survey"), 5, at(4)).unwrap();
    assert_eq!(completion.id, 5);
    assert_eq!(completion.details, Some("done".to_string()));
    assert_eq!(state.task_completions.len(), 1);
}

#[test]
fn a_sponsor_pays_once_its_task_is_done() {
    let mut state = test_state();
    state.create_profile_as(user(&["dev"], &["vim"]), 1, at(0));
    state.create_campaign_as(campaign("acme", 10, &["dev"], &["vim", "ed"]), 2, at(0));

    let waiting = sponsored_run(&mut state, "design", 1).unwrap_err();
    assert_eq!(
        precondition(waiting),
        "complete sponsor task 'survey' for campaign 'acme' before sponsored usage"
    );

    state.complete_task(task(2, 1, "another task")).unwrap();
    assert!(sponsored_run(&mut state, "design", 1).is_err());
    state.complete_task(task(2, 1, "survey")).unwrap();

    let walk = keys_of(&state.campaigns);
    let id = 0x0123_4567_89ab_4def_8123_4567_89ab_cdef;
    let missing = PaymentCredential::Missing;
    let reply = reply_of(state.run_proxy_as(
        "design".to_string(),
        run(1),
        &missing,
        &walk,
        id,
        at(9),
    ))
    .unwrap();
    assert_eq!(reply.headers, vec![("x402-version".to_string(), "2".to_string())]);
    assert_eq!(reply.body.payment_mode, "sponsored");
    assert_eq!(reply.body.sponsored_by, Some("acme Inc".to_string()));
    assert_eq!(
        reply.body.tx_hash,
        Some("sponsor-01234567-89ab-4def-8123-456789abcdef".to_string())
    );
    assert_eq!(reply.body.output, "service 'design' processed: hello");

    let left = state.campaigns.get(&2).unwrap();
    assert_eq!(left.budget_remaining_cents, 2);
    assert!(left.active);
    assert_eq!(state.payments.len(), 1);
    assert_eq!(state.payments[0].amount_cents, 8);
    assert_eq!(state.payments[0].payer, "acme Inc");
    assert_eq!(state.payments[0].campaign_id, Some(2));
    assert_eq!(state.payments[0].source, PaymentSource::Sponsor);
    assert_eq!(state.payments[0].status, PaymentStatus::Settled);
    assert_eq!(state.payments[0].created_at, at(9));

    let broke = sponsored_run(&mut state, "design", 1).unwrap_err();
    assert_eq!(broke.status(), 402);
    match broke {
        ApiError::Payment { required } => {
            assert_eq!(required.service, "design");
            assert_eq!(required.amount_cents, 8);
            assert_eq!(required.accepted_header, "payment-signature");
            assert_eq!(required.message, "no eligible sponsor campaign found");
            assert_eq!(
                required.next_step,
                "either complete a sponsor task or pay with PAYMENT-SIGNATURE"
            );
        }
        other => panic!("expected a demand for payment, got {other:?}"),
    }
}

#[test]
fn a_used_up_campaign_ends() {
    let mut state = test_state();
    state.create_profile_as(user(&[], &[]), 1, at(0));
    state.create_campaign_as(campaign("acme", 8, &[], &[]), 2, at(0));
    state.complete_task(task(2, 1, "survey")).unwrap();
    let before = state.sponsor_dashboard(2).unwrap();
    assert_eq!(before.spend_cents + before.remaining_budget_cents, 8);
    assert!(sponsored_run(&mut state, "design", 1).is_ok());
    let after = state.sponsor_dashboard(2).unwrap();
    assert_eq!(after.spend_cents, 8);
    assert_eq!(after.remaining_budget_cents, 0);
    assert!(!after.campaign.active);
    assert!(sponsored_run(&mut state, "storage", 1).is_err());
}

#[test]
fn campaigns_target_by_role_and_by_tool() {
    let mut state = test_state();
    state.create_profile_as(user(&["dev"], &["vim"]), 1, at(0));
    state.create_campaign_as(campaign("role", 100, &["designer"], &[]), 2, at(0));
    state.create_campaign_as(campaign("tool", 100, &["dev"], &["emacs"]), 3, at(0));
    state.complete_task(task(2, 1, "survey")).unwrap();
    state.complete_task(task(3, 1, "survey")).unwrap();
    assert_eq!(
        sponsored_run(&mut state, "design", 1).unwrap_err().status(),
        402
    );
}

#[test]
fn the_first_ready_campaign_of_a_walk_pays() {
    let mut state = test_state();
    state.create_profile_as(user(&[], &[]), 1, at(0));
    for id in [2, 3, 4] {
        state.create_campaign_as(campaign("acme", 50, &[], &[]), id, at(0));
    }
    state.complete_task(task(3, 1, "survey")).unwrap();
    state.complete_task(task(4, 1, "survey")).unwrap();
    for (walk, payer) in [(vec![2, 3, 4], 3), (vec![4, 2, 3], 4), (vec![2, 4, 3], 4)] {
        let budgets = |state: &AppState| -> Vec<u64> {
            [2, 3, 4]
                .iter()
                .map(|id| state.campaigns.get(id).unwrap().budget_remaining_cents)
                .collect()
        };
        let before = budgets(&state);
        let id = 1000 + state.payments.len() as u128;
        assert!(state
            .run_sponsored_proxy_as("storage".to_string(), run(1), &walk, id, at(0))
            .is_ok());
        let after = budgets(&state);
        for (i, campaign_id) in [2, 3, 4].into_iter().enumerate() {
            let paid = if campaign_id == payer { 3 } else { 0 };
            assert_eq!(after[i], before[i] - paid);
        }
    }
}

#[test]
fn the_proxy_needs_a_known_user() {
    let mut state = test_state();
    assert_eq!(
        not_found(sponsored_run(&mut state, "design", 1).unwrap_err()),
        "user profile is required before proxy usage"
    );
}

#[test]
fn a_payment_header_leaves_the_call_to_the_user() {
    let mut state = test_state();
    state.config.testnet_rpc_url = Some("http://node".to_string());
    let unknown = state.run_proxy("design".to_string(), run(1), &PaymentCredential::Malformed);
    match unknown {
        ProxyStep::Pay { step: PaidRunStep::Refuse { error } } => {
            assert_eq!(not_found(error), "user profile is required before proxy usage");
        }
        other => panic!("expected a refusal, got {other:?}"),
    }

    state.create_profile_as(user(&[], &[]), 1, at(0));
    state.create_campaign_as(campaign("acme", 50, &[], &[]), 2, at(0));
    state.complete_task(task(2, 1, "survey")).unwrap();
    match state.run_proxy("design".to_string(), run(1), &PaymentCredential::Malformed) {
        ProxyStep::Pay { step: PaidRunStep::Refuse { error } } => {
            assert_eq!(error.status(), 402);
            assert_eq!(error.message(), "invalid payment signature");
        }
        other => panic!("expected a refusal, got {other:?}"),
    }
    let proof = PaymentProof {
        tx_hash: "0xabc".to_string(),
        service: "design".to_string(),
        amount_cents: 8,
        payer: "0xme".to_string(),
        sponsored_campaign_id: None,
        created_at: at(0),
    };
    match state.run_proxy("design".to_string(), run(1), &PaymentCredential::Proof { proof }) {
        ProxyStep::Pay { step: PaidRunStep::Call { call, .. } } => {
            assert_eq!(call.rpc_url, "http://node");
        }
        other => panic!("expected a call of a node, got {other:?}"),
    }
    assert_eq!(state.campaigns.get(&2).unwrap().budget_remaining_cents, 50);
    assert!(state.payments.is_empty());

    assert!(sponsored_run(&mut state, "design", 1).is_ok());
    assert_eq!(state.campaigns.get(&2).unwrap().budget_remaining_cents, 42);
}

#[test]
fn a_budget_pays_for_as_many_calls_as_it_holds_prices() {
    for (budget_cents, calls) in [(0, 0), (7, 0), (8, 1), (20, 2), (24, 3)] {
        let mut state = test_state();
        state.create_profile_as(user(&[], &[]), 1, at(0));
        state.create_campaign_as(campaign("acme", budget_cents, &[], &[]), 2, at(0));
        state.create_campaign_as(campaign("other", 100, &[], &[]), 3, at(0));
        state.complete_task(task(2, 1, "survey")).unwrap();
        for n in 0..4 {
            match sponsored_run(&mut state, "design", 1) {
                Ok(reply) => {
                    assert!(n < calls);
                    assert_eq!(reply.body.sponsored_by, Some("acme Inc".to_string()));
                }
                Err(error) => {
                    assert!(n >= calls);
                    precondition(error);
                }
            }
        }
        let dashboard = state.sponsor_dashboard(2).unwrap();
        assert_eq!(dashboard.sponsored_calls, calls);
        assert_eq!(dashboard.spend_cents, 8 * calls as u64);
        assert_eq!(dashboard.remaining_budget_cents, budget_cents % 8);
    }
}

#[test]
fn dashboards_account_for_the_budget() {
    let mut state = test_state();
    state.create_profile_as(user(&["dev"], &[]), 1, at(0));
    let created = state.create_campaign(campaign("acme", 30, &["dev"], &[]));
    state.create_campaign_as(campaign("rich", 500, &[], &[]), 3, at(0));
    let mut own = 0;
    let accounts = |state: &AppState, own: usize| {
        let dashboard = state.sponsor_dashboard(created.id).unwrap();
        assert_eq!(dashboard.spend_cents + dashboard.remaining_budget_cents, 30);
        assert_eq!(dashboard.sponsored_calls, own);
    };
    accounts(&state, own);
    assert!(sponsored_run(&mut state, "design", 1).is_err());
    accounts(&state, own);
    state.complete_task(task(created.id, 1, "survey")).unwrap();
    for service in ["design", "storage", "scraping"] {
        let reply = sponsored_run(&mut state, service, 1).unwrap();
        assert_eq!(reply.body.sponsored_by, Some("acme Inc".to_string()));
        own += 1;
        accounts(&state, own);
    }
    state.create_profile_as(user(&[], &[]), 4, at(1));
    state.complete_task(task(3, 4, "survey")).unwrap();
    let reply = sponsored_run(&mut state, "design", 4).unwrap();
    assert_eq!(reply.body.sponsored_by, Some("rich Inc".to_string()));
    state.run_tool("design".to_string(), run(1), &PaymentCredential::Missing);
    state.mark_user_payment();
    state.record_creator_metric_event(event("draw", None, true));
    accounts(&state, own);
    assert_eq!(own, 3);
}

fn settlement(
    tx_hash: &str,
    amount_cents: u64,
    source: PaymentSource,
    status: PaymentStatus,
) -> X402ScanSettlementRequest {
    X402ScanSettlementRequest {
        tx_hash: tx_hash.to_string(),
        service: "design".to_string(),
        amount_cents,
        payer: "acme Inc".to_string(),
        source,
        status,
        campaign_id: Some(2),
    }
}

#[test]
fn settlements_are_kept_once_for_each_transaction() {
    let mut state = test_state();
    let first = settlement("0x1", 5, PaymentSource::User, PaymentStatus::Failed);
    assert_eq!(state.ingest_x402scan_settlement(first).message, "settlement ingested");
    let other = settlement("0x2", 6, PaymentSource::Sponsor, PaymentStatus::Settled);
    state.ingest_x402scan_settlement_at(other, at(2));
    let again = settlement("0x1", 7, PaymentSource::Sponsor, PaymentStatus::Settled);
    state.ingest_x402scan_settlement_at(again, at(3));
    let again = settlement("0x1", 7, PaymentSource::Sponsor, PaymentStatus::Settled);
    state.ingest_x402scan_settlement_at(again, at(3));
    assert_eq!(state.payments.len(), 2);
    assert_eq!(state.payments[0].amount_cents, 7);
    assert_eq!(state.payments[0].created_at, at(3));
    assert_eq!(state.payments[1].amount_cents, 6);
}

#[test]
fn dashboards_count_what_a_campaign_paid_for() {
    let mut state = test_state();
    state.create_profile_as(user(&[], &[]), 1, at(0));
    state.create_campaign_as(campaign("acme", 100, &[], &[]), 2, at(0));
    state.complete_task(task(2, 1, "survey")).unwrap();
    state.complete_task(task(2, 1, "poll")).unwrap();
    for request in [
        settlement("0x1", 5, PaymentSource::Sponsor, PaymentStatus::Settled),
        settlement("0x2", 6, PaymentSource::Sponsor, PaymentStatus::Settled),
        settlement("0x3", 70, PaymentSource::Sponsor, PaymentStatus::Failed),
        settlement("0x4", 700, PaymentSource::User, PaymentStatus::Settled),
    ] {
        state.ingest_x402scan_settlement(request);
    }
    assert_eq!(state.sponsored_spend(2), (2, 11));
    assert_eq!(state.sponsored_spend(3), (0, 0));
    let dashboard = state.sponsor_dashboard(2).unwrap();
    assert_eq!(dashboard.campaign.name, "acme");
    assert_eq!(dashboard.tasks_completed, 2);
    assert_eq!(dashboard.sponsored_calls, 2);
    assert_eq!(dashboard.spend_cents, 11);
    assert_eq!(dashboard.remaining_budget_cents, 100);
    assert_eq!(
        not_found(state.sponsor_dashboard(3).unwrap_err()),
        "campaign not found"
    );
}

#[test]
fn large_spends_are_added_up_without_loss() {
    let mut state = test_state();
    for hash in ["0x1", "0x2"] {
        let request = settlement(hash, u64::MAX, PaymentSource::Sponsor, PaymentStatus::Settled);
        state.ingest_x402scan_settlement(request);
    }
    assert_eq!(state.sponsored_spend(2), (2, 2 * u64::MAX as u128));
}

fn event(skill: &str, duration_ms: Option<u64>, success: bool) -> CreatorMetricEventRequest {
    CreatorMetricEventRequest {
        skill_name: skill.to_string(),
        platform: "cli".to_string(),
        event_type: "run".to_string(),
        duration_ms,
        success,
    }
}

#[test]
fn creator_metrics_are_summed_up_by_skill() {
    let mut state = test_state();
    let empty = state.creator_metrics();
    assert_eq!(empty.total_events, 0);
    assert_eq!(empty.success_events, 0);
    assert!(empty.per_skill.is_empty());

    let recorded = state.record_creator_metric_event_as(event("draw", Some(10), true), 1, at(5));
    assert_eq!(recorded.skill_name, "draw");
    assert_eq!(recorded.duration_ms, Some(10));
    state.record_creator_metric_event_as(event("edit", None, false), 2, at(9));
    state.record_creator_metric_event_as(event("draw", Some(u64::MAX), false), 3, at(4));
    state.record_creator_metric_event_as(event("sing", Some(3), true), 4, at(12));
    state.record_creator_metric_event_as(event("draw", None, true), 5, at(6));

    let summary = state.creator_metrics();
    assert_eq!(summary.total_events, 5);
    assert_eq!(summary.success_events, 3);
    let names: Vec<&str> = summary
        .per_skill
        .iter()
        .map(|skill| skill.skill_name.as_str())
        .collect();
    assert_eq!(names, vec!["draw", "sing", "edit"]);
    let draw = &summary.per_skill[0];
    assert_eq!(draw.total_events, 3);
    assert_eq!(draw.success_events, 2);
    assert_eq!(draw.timed_events, 2);
    assert_eq!(draw.total_duration_ms, 10 + u64::MAX as u128);
    assert_eq!(draw.last_seen_at, at(6));
    assert_eq!(summary.per_skill[2].timed_events, 0);
    let sum: usize = summary.per_skill.iter().map(|skill| skill.total_events).sum();
    assert_eq!(sum, summary.total_events);
    let won: usize = summary.per_skill.iter().map(|skill| skill.success_events).sum();
    assert_eq!(won, summary.success_events);
}

#[test]
fn registrations_need_a_database_an_email_and_a_region() {
    let refuse = |configured: bool, email: &str, region: &str| {
        let mut request = user(&[], &[]);
        request.email = email.to_string();
        request.region = region.to_string();
        register_user(configured, request).unwrap_err()
    };
    let missing = refuse(false, "a", "b");
    assert_eq!(missing.status(), 503);
    match missing {
        ApiError::Config { message } => {
            assert_eq!(message, "Postgres not configured; set DATABASE_URL")
        }
        other => panic!("expected a lack of configuration, got {other:?}"),
    }
    for (email, region, expected) in [
        (" \u{2003}\t", "", "email is required"),
        ("a", "\n\u{a0}", "region is required"),
    ] {
        match refuse(true, email, region) {
            ApiError::Validation { message } => assert_eq!(message, expected),
            other => panic!("expected a validation error, got {other:?}"),
        }
    }
    let profile = register_user_as(true, user(&["dev"], &[]), 4, at(2)).unwrap();
    assert_eq!(profile.id, 4);
    assert_eq!(profile.roles, texts(&["dev"]));
    assert!(register_user(true, user(&["dev"], &[])).is_ok());
}

#[test]
fn endpoints_answer_with_their_status() {
    assert_eq!(Endpoint::RunSponsoredApi.route(), "/sponsored-apis/:api_id/run");
    assert_eq!(Endpoint::CreateProfile.success_status(), 201);
    assert_eq!(Endpoint::ListProfiles.success_status(), 200);
    assert_eq!(Endpoint::IngestX402ScanSettlement.success_status(), 202);
    let mut state = test_state();
    let refused = state.respond::<()>(Endpoint::RunProxy, Err(ApiError::upstream(504, "late")));
    assert_eq!(refused.status, 504);
}

#[test]
fn counters_of_two_states_are_kept_apart() {
    let mut first = test_state();
    first.respond(Endpoint::Health, Ok(health()));
    let mut second = test_state();
    for _ in 0..3 {
        second.respond(Endpoint::Health, Ok(health()));
    }
    let line = "http_requests_total{endpoint=\"/health\",status=\"200\"}";
    let page = first.metrics.prometheus_metrics().body;
    assert!(page.contains(&format!("{line} 1")));
    assert!(page.contains("sponsor_spend_cents_total 0"));
    let page = second.metrics.prometheus_metrics().body;
    assert!(page.contains(&format!("{line} 3")));
}

#[test]
fn counters_whose_label_values_run_together_are_counted_as_one() {
    let mut state = test_state();
    for (skill, platform) in [("ab", "c"), ("a", "bc")] {
        let mut request = event(skill, None, true);
        request.platform = platform.to_string();
        state.record_creator_metric_event(request);
    }
    let page = state.metrics.prometheus_metrics().body;
    let line = "creator_events_total{event_type=\"run\",platform=\"c\",skill=\"ab\"} 2";
    assert!(page.contains(line));
    assert!(!page.contains("platform=\"bc\""));
}

#[test]
fn counters_show_on_the_metrics_page() {
    let mut state = test_state();
    let request = settlement("0x1", 5, PaymentSource::User, PaymentStatus::Failed);
    state.ingest_x402scan_settlement(request);
    state.record_creator_metric_event(event("draw", None, true));
    state.create_profile_as(user(&[], &[]), 1, at(0));
    state.create_campaign_as(campaign("acme", 100, &[], &[]), 2, at(0));
    state.complete_task(task(2, 1, "survey")).unwrap();
    sponsored_run(&mut state, "design", 1).unwrap();
    sponsored_run(&mut state, "storage", 1).unwrap();
    state.respond(Endpoint::Health, Ok(health()));
    state.respond(Endpoint::Health, Ok(health()));

    let page = state.metrics.prometheus_metrics();
    assert_eq!(page.status, 200);
    assert_eq!(page.content_type, "text/plain; version=0.0.4");
    for line in [
        "# HELP http_requests_total Total HTTP requests",
        "http_requests_total{endpoint=\"/health\",status=\"200\"} 2",
        "payment_events_total{mode=\"user_direct\",status=\"failed\"} 1",
        "payment_events_total{mode=\"sponsored\",status=\"settled\"} 2",
        "creator_events_total{event_type=\"run\",platform=\"cli\",skill=\"draw\"} 1",
        "sponsor_spend_cents_total 11",
    ] {
        assert!(page.body.contains(line), "{line} in {}", page.body);
    }
    let second = state.metrics.prometheus_metrics();
    assert!(second
        .body
        .contains("http_requests_total{endpoint=\"/metrics\",status=\"200\"} 1"));
}
