//! What holds of statuses, of counts, and of the registration of users.

use vstd::prelude::*;
use vstd::utf8::encode_utf8;

use crate::endpoints::{reply_status, Endpoint};
use crate::error::{database_failure, database_presence, ApiErrorView, ApiResult};
use crate::ids::{law_uuid_text_is_injective, uuid_text};
use crate::metrics::{
    counted, series_key, shows_families, with_count, MetricsPage, MetricsView, SeriesData,
};
use crate::proxy::sponsor_tx_hash;
use crate::registration::registration;
use crate::state::AppStateView;
use crate::text::{decimal, is_white_space};
use crate::text_laws::law_blank_holds_white_space_alone;
use crate::types::{CreateUserRequest, PaymentRequiredView, Timestamp};

verus! {

/// Each kind of error goes with its own status and says its own message. Only a demand for payment
/// goes with a header: the version of the protocol.
pub proof fn law_errors_go_with_their_status(
    message: Seq<char>,
    status: u16,
    required: PaymentRequiredView,
)
    ensures
        (ApiErrorView::Validation { message }).status() == 400,
        (ApiErrorView::Payment { required }).status() == 402,
        (ApiErrorView::NotFound { message }).status() == 404,
        (ApiErrorView::Precondition { message }).status() == 412,
        (ApiErrorView::Config { message }).status() == 503,
        (ApiErrorView::Upstream { status, message }).status() == status,
        (ApiErrorView::Database { status, message }).status() == status,
        (ApiErrorView::Validation { message }).message() == message,
        (ApiErrorView::Payment { required }).message() == required.message,
        (ApiErrorView::NotFound { message }).message() == message,
        (ApiErrorView::Precondition { message }).message() == message,
        (ApiErrorView::Config { message }).message() == message,
        (ApiErrorView::Upstream { status, message }).message() == message,
        (ApiErrorView::Database { status, message }).message() == message,
        (ApiErrorView::Validation { message }).headers().len() == 0,
        (ApiErrorView::Payment { required }).headers() == seq![("x402-version"@, "2"@)],
        (ApiErrorView::NotFound { message }).headers().len() == 0,
        (ApiErrorView::Precondition { message }).headers().len() == 0,
        (ApiErrorView::Config { message }).headers().len() == 0,
        (ApiErrorView::Upstream { status, message }).headers().len() == 0,
        (ApiErrorView::Database { status, message }).headers().len() == 0,
        database_failure(message) == (ApiErrorView::Database { status: 500, message }),
        database_presence(true) is Ok,
        database_presence(false) == Err::<(), ApiErrorView>(
            ApiErrorView::Config { message: "Postgres not configured; set DATABASE_URL"@ },
        ),
{
}

/// A request that succeeds is answered as created where it made something to keep, as accepted
/// where it reported a settlement, and as done otherwise. One that fails is answered with the
/// status of its error.
pub proof fn law_requests_are_answered_with_their_status<T>(
    endpoint: Endpoint,
    result: ApiResult<T>,
)
    ensures
        match result {
            Err(error) => reply_status(endpoint, result) == error@.status(),
            Ok(_) => {
                let status = reply_status(endpoint, result);
                &&& status == 200 || status == 201 || status == 202
                &&& status == 202 <==> endpoint is IngestX402ScanSettlement
                &&& status == 201 <==> endpoint is CreateProfile || endpoint is RegisterUser
                    || endpoint is CreateCampaign || endpoint is CompleteTask
                    || endpoint is CreateSponsoredApi || endpoint is RecordCreatorMetricEvent
                    || endpoint is CreateTestnetPayment
            },
        },
{
}

/// Each answer is counted under the route of its endpoint and its status, and changes nothing else.
pub proof fn law_answers_are_counted(state: AppStateView, endpoint: Endpoint, status: u16)
    ensures
        ({
            let after = state.after_reply(endpoint, status);
            &&& after.metrics.http_requests == with_count(
                state.metrics.http_requests,
                seq![endpoint.path(), decimal(status as nat)],
            )
            &&& after.metrics.payment_events == state.metrics.payment_events
            &&& after.metrics.creator_events == state.metrics.creator_events
            &&& after.metrics.sponsor_spend_cents == state.metrics.sponsor_spend_cents
            &&& after.users == state.users
            &&& after.campaigns == state.campaigns
            &&& after.task_completions == state.task_completions
            &&& after.payments == state.payments
            &&& after.creator_events == state.creator_events
            &&& after.service_prices == state.service_prices
            &&& after.config == state.config
        }),
{
}

/// The page of the counters is what the encoder wrote, as plain text, and says whether the encoder
/// came to the end.
pub proof fn law_page_shows_what_was_encoded(page: MetricsPage, complete: bool, bytes: Seq<u8>)
    requires
        shows_families(page, (complete, bytes)),
    ensures
        page.status == if complete {
            200u16
        } else {
            500
        },
        page.content_type@ == "text/plain; version=0.0.4"@,
        encode_utf8(page.body@) == bytes,
{
}

/// What makes something and what lists it take one route; every other endpoint has its own.
pub proof fn law_routes_of_the_endpoints(endpoint: Endpoint)
    ensures
        endpoint is Health ==> endpoint.path() == "/health"@,
        endpoint is CreateProfile || endpoint is ListProfiles ==> endpoint.path() == "/profiles"@,
        endpoint is RegisterUser ==> endpoint.path() == "/register"@,
        endpoint is CreateCampaign || endpoint is ListCampaigns ==> endpoint.path()
            == "/campaigns"@,
        endpoint is CompleteTask ==> endpoint.path() == "/tasks/complete"@,
        endpoint is RunTool ==> endpoint.path() == "/tool/:service/run"@,
        endpoint is RunProxy ==> endpoint.path() == "/proxy/:service/run"@,
        endpoint is CreateSponsoredApi || endpoint is ListSponsoredApis ==> endpoint.path()
            == "/sponsored-apis"@,
        endpoint is GetSponsoredApi ==> endpoint.path() == "/sponsored-apis/:api_id"@,
        endpoint is RunSponsoredApi ==> endpoint.path() == "/sponsored-apis/:api_id/run"@,
        endpoint is IngestX402ScanSettlement ==> endpoint.path()
            == "/webhooks/x402scan/settlement"@,
        endpoint is SponsorDashboard ==> endpoint.path() == "/dashboard/sponsor/:campaign_id"@,
        endpoint is RecordCreatorMetricEvent ==> endpoint.path() == "/creator/metrics/event"@,
        endpoint is CreatorMetrics ==> endpoint.path() == "/creator/metrics"@,
        endpoint is CreateTestnetPayment ==> endpoint.path() == "/payments/testnet/direct"@,
{
}

/// Counters add up, and start again at zero beyond 64 bits.
pub proof fn law_counters_add_up(a: u64, b: u64)
    ensures
        counted(a, b) as int == (a + b) % 0x1_0000_0000_0000_0000,
{
}

/// One more count of some label values adds one to the counter that is kept for them, or starts it
/// at one, and leaves each other counter as it was.
pub proof fn law_count_adds_one(
    series: Map<u64, SeriesData>,
    label_values: Seq<Seq<char>>,
    other: u64,
)
    ensures
        ({
            let key = series_key(label_values.flatten());
            let after = with_count(series, label_values);
            &&& after.contains_key(key)
            &&& !series.contains_key(key) ==> after[key].count == 1 && after[key].label_values
                == label_values
            &&& series.contains_key(key) ==> after[key].label_values == series[key].label_values
            &&& series.contains_key(key) && series[key].count < u64::MAX ==> after[key].count
                == series[key].count + 1
            &&& other != key ==> after.contains_key(other) == series.contains_key(other)
                && after[other] == series[other]
        }),
{
}

/// A request, a payment, a creator event and a spending are each counted where they belong, and
/// nowhere else. Nothing is counted at the start.
pub proof fn law_each_count_is_kept_apart(
    counts: MetricsView,
    endpoint: Seq<char>,
    status: u16,
    mode: Seq<char>,
    label: Seq<char>,
    skill: Seq<char>,
    platform: Seq<char>,
    event_type: Seq<char>,
    cents: u64,
)
    ensures
        ({
            let after = counts.with_request(endpoint, status);
            &&& after.http_requests == with_count(
                counts.http_requests,
                seq![endpoint, decimal(status as nat)],
            )
            &&& after.payment_events == counts.payment_events
            &&& after.creator_events == counts.creator_events
            &&& after.sponsor_spend_cents == counts.sponsor_spend_cents
        }),
        ({
            let after = counts.with_payment(mode, label);
            &&& after.payment_events == with_count(counts.payment_events, seq![mode, label])
            &&& after.http_requests == counts.http_requests
            &&& after.creator_events == counts.creator_events
            &&& after.sponsor_spend_cents == counts.sponsor_spend_cents
        }),
        ({
            let after = counts.with_creator_event(skill, platform, event_type);
            &&& after.creator_events == with_count(
                counts.creator_events,
                seq![skill, platform, event_type],
            )
            &&& after.http_requests == counts.http_requests
            &&& after.payment_events == counts.payment_events
            &&& after.sponsor_spend_cents == counts.sponsor_spend_cents
        }),
        ({
            let after = counts.with_spend(cents);
            &&& after.sponsor_spend_cents as int == (counts.sponsor_spend_cents + cents)
                % 0x1_0000_0000_0000_0000
            &&& after.http_requests == counts.http_requests
            &&& after.payment_events == counts.payment_events
            &&& after.creator_events == counts.creator_events
        }),
        MetricsView::zero().http_requests.dom() == Set::<u64>::empty(),
        MetricsView::zero().payment_events.dom() == Set::<u64>::empty(),
        MetricsView::zero().creator_events.dom() == Set::<u64>::empty(),
        MetricsView::zero().sponsor_spend_cents == 0,
{
    law_counters_add_up(counts.sponsor_spend_cents, cents);
}

/// The page shows the counts under these names and labels.
pub proof fn law_counts_are_shown_under_their_names(counts: MetricsView)
    ensures
        ({
            let board = counts.board();
            &&& board.families.len() == 3
            &&& board.families[0].name == "http_requests_total"@
            &&& board.families[0].help == "Total HTTP requests"@
            &&& board.families[0].labels == seq!["endpoint"@, "status"@]
            &&& board.families[0].series == counts.http_requests
            &&& board.families[1].name == "payment_events_total"@
            &&& board.families[1].help == "Payment events"@
            &&& board.families[1].labels == seq!["mode"@, "status"@]
            &&& board.families[1].series == counts.payment_events
            &&& board.families[2].name == "creator_events_total"@
            &&& board.families[2].help == "Creator skill metric events"@
            &&& board.families[2].labels == seq!["skill"@, "platform"@, "event_type"@]
            &&& board.families[2].series == counts.creator_events
            &&& board.counters.len() == 1
            &&& board.counters[0].name == "sponsor_spend_cents_total"@
            &&& board.counters[0].help == "Total sponsored spend in cents"@
            &&& board.counters[0].value == counts.sponsor_spend_cents
        }),
{
}

/// A payment by a user is counted as one that was settled, and changes nothing else.
pub proof fn law_user_payment_is_counted(state: AppStateView)
    ensures
        ({
            let after = state.with_user_payment();
            &&& after.metrics.payment_events == with_count(
                state.metrics.payment_events,
                seq!["user_direct"@, "settled"@],
            )
            &&& after.metrics.http_requests == state.metrics.http_requests
            &&& after.metrics.creator_events == state.metrics.creator_events
            &&& after.metrics.sponsor_spend_cents == state.metrics.sponsor_spend_cents
            &&& after.users == state.users
            &&& after.campaigns == state.campaigns
            &&& after.task_completions == state.task_completions
            &&& after.payments == state.payments
            &&& after.creator_events == state.creator_events
            &&& after.service_prices == state.service_prices
            &&& after.config == state.config
        }),
{
}

/// To change the counts changes nothing else.
pub proof fn law_counts_change_alone(state: AppStateView, metrics: MetricsView)
    ensures
        ({
            let after = state.with_metrics(metrics);
            &&& after.metrics == metrics
            &&& after.users == state.users
            &&& after.campaigns == state.campaigns
            &&& after.task_completions == state.task_completions
            &&& after.payments == state.payments
            &&& after.creator_events == state.creator_events
            &&& after.service_prices == state.service_prices
            &&& after.config == state.config
        }),
{
}

/// A registration is accepted where there is a database, and an email and a region that are not
/// blank. What is to be kept holds what the request holds.
pub proof fn law_registration_is_kept_as_asked(
    db_configured: bool,
    request: CreateUserRequest,
    id: u128,
    now: Timestamp,
)
    ensures
        ({
            let reachable = exists|i: int|
                0 <= i < request.email@.len() && !is_white_space(#[trigger] request.email@[i]);
            let placed = exists|i: int|
                0 <= i < request.region@.len() && !is_white_space(#[trigger] request.region@[i]);
            match registration(db_configured, request, id, now) {
                Ok(profile) => {
                    &&& db_configured && reachable && placed
                    &&& profile.id == id
                    &&& profile.email == request.email@
                    &&& profile.region == request.region@
                    &&& profile.roles.len() == request.roles@.len()
                    &&& forall|i: int|
                        0 <= i < profile.roles.len() ==> #[trigger] profile.roles[i]
                            == request.roles@[i]@
                    &&& profile.tools_used.len() == request.tools_used@.len()
                    &&& forall|i: int|
                        0 <= i < profile.tools_used.len() ==> #[trigger] profile.tools_used[i]
                            == request.tools_used@[i]@
                    &&& profile.attributes == request.attributes@
                    &&& profile.created_at == now
                },
                Err(ApiErrorView::Config { message }) => {
                    &&& !db_configured
                    &&& message == "Postgres not configured; set DATABASE_URL"@
                },
                Err(ApiErrorView::Validation { message }) => {
                    &&& db_configured
                    &&& !reachable ==> message == "email is required"@
                    &&& reachable ==> !placed && message == "region is required"@
                },
                Err(_) => false,
            }
        }),
{
    law_blank_holds_white_space_alone(request.email@);
    law_blank_holds_white_space_alone(request.region@);
}

/// Each sponsored call has a transaction of its own.
pub proof fn law_sponsored_transactions_differ(a: u128, b: u128)
    ensures
        sponsor_tx_hash(a) == "sponsor-"@ + uuid_text(a),
        sponsor_tx_hash(a) == sponsor_tx_hash(b) ==> a == b,
{
    if sponsor_tx_hash(a) == sponsor_tx_hash(b) {
        let n = "sponsor-"@.len() as int;
        assert(sponsor_tx_hash(a).skip(n) =~= uuid_text(a));
        assert(sponsor_tx_hash(b).skip(n) =~= uuid_text(b));
        law_uuid_text_is_injective(a, b);
    }
}

} // verus!
